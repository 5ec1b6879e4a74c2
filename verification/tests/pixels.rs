use gymnarium_visualisers_base::{
    Color, Pixel, PixelArray, TextureSource, Viewport2DModification, Viewport3D,
};

#[test]
fn pixels_have_their_channels() {
    assert_eq!(Pixel::with(1, 2, 3), Pixel { red: 1, green: 2, blue: 3 });
    assert_eq!(Pixel::white(), Pixel::with(255, 255, 255));
    assert_eq!(Pixel::black(), Pixel::with(0, 0, 0));
    assert_eq!(Pixel::red(), Pixel::with(255, 0, 0));
    assert_eq!(Pixel::green(), Pixel::with(0, 255, 0));
    assert_eq!(Pixel::blue(), Pixel::with(0, 0, 255));
    assert_eq!(Pixel::yellow(), Pixel::with(255, 255, 0));
    assert_eq!(Pixel::cyan(), Pixel::with(0, 255, 255));
    assert_eq!(Pixel::magenta(), Pixel::with(255, 0, 255));
}

#[test]
fn colors_have_their_channels() {
    assert_eq!(Color::with(1, 2, 3, 4), Color { red: 1, green: 2, blue: 3, alpha: 4 });
    assert_eq!(Color::transparent(), Color::with(0, 0, 0, 0));
    assert_eq!(Color::white(), Color::with(255, 255, 255, 255));
    assert_eq!(Color::black(), Color::with(0, 0, 0, 255));
    assert_eq!(Color::red(), Color::with(255, 0, 0, 255));
    assert_eq!(Color::green(), Color::with(0, 255, 0, 255));
    assert_eq!(Color::blue(), Color::with(0, 0, 255, 255));
    assert_eq!(Color::yellow(), Color::with(255, 255, 0, 255));
    assert_eq!(Color::cyan(), Color::with(0, 255, 255, 255));
    assert_eq!(Color::magenta(), Color::with(255, 0, 255, 255));
}

#[test]
fn a_new_pixel_array_has_its_size_and_no_pixels() {
    let array = PixelArray::with(4, 3);
    assert_eq!((array.width, array.height), (4, 3));
    assert!(array.data.is_empty());
    let nothing = PixelArray::default();
    assert_eq!((nothing.width, nothing.height), (0, 0));
    assert!(nothing.data.is_empty());
}

fn filled() -> PixelArray {
    let mut array = PixelArray::with(3, 2);
    for i in 0..6u8 {
        array.data.push(Pixel::with(i, 10 * i, 100));
    }
    array
}

#[test]
fn pixels_lie_row_by_row() {
    let array = filled();
    assert_eq!(*array.index((0, 0)), Pixel::with(0, 0, 100));
    assert_eq!(*array.index((2, 0)), Pixel::with(2, 20, 100));
    assert_eq!(*array.index((0, 1)), Pixel::with(3, 30, 100));
    assert_eq!(*array.index((1, 1)), Pixel::with(4, 40, 100));
    assert_eq!(*array.index((2, 1)), Pixel::with(5, 50, 100));
}

#[test]
fn a_pixel_is_changed_in_place() {
    let mut array = filled();
    *array.index_mut((1, 1)) = Pixel::magenta();
    array.index_mut((0, 0)).blue = 7;
    let mut want = filled();
    want.data[4] = Pixel::magenta();
    want.data[0] = Pixel::with(0, 0, 7);
    assert_eq!(array, want);
    assert_eq!(*array.index((1, 1)), Pixel::magenta());
}

#[test]
fn texture_sources_keep_what_they_are_given() {
    assert_eq!(
        TextureSource::path("ship.png".to_string()),
        TextureSource::Path("ship.png".to_string())
    );
    assert_eq!(
        TextureSource::bytes(vec![1, 2, 3, 4, 5, 6, 7, 8], 2, 1),
        TextureSource::Bytes { data: vec![1, 2, 3, 4, 5, 6, 7, 8], width: 2, height: 1 }
    );
    let source = TextureSource::bytes(vec![1, 2, 3, 4], 1, 1);
    assert_eq!(source.clone(), source);
    let path = TextureSource::path("a".to_string());
    assert_eq!(path.clone(), path);
    assert_ne!(path, source);
}

#[test]
fn by_default_each_axis_is_stretched_on_its_own() {
    assert_eq!(Viewport2DModification::default(), Viewport2DModification::LooseAspectRatio);
    assert_eq!(Viewport3D {}, Viewport3D {});
}
