//! Where the texture of an image comes from.

use vstd::prelude::*;

verus! {

/// The source of a texture. It is carried as given and never decoded here.
#[derive(Debug, PartialEq, Eq, Hash)]
pub enum TextureSource {
    /// The path of an image file.
    Path(String),
    /// The texture itself, as RGBA bytes row by row, with its width and height
    /// in pixels.
    Bytes { data: Vec<u8>, width: u32, height: u32 },
}

/// What a [`TextureSource`] holds.
pub enum TextureSourceView {
    Path(Seq<char>),
    Bytes { data: Seq<u8>, width: u32, height: u32 },
}

impl View for TextureSource {
    type V = TextureSourceView;

    open spec fn view(&self) -> TextureSourceView {
        match *self {
            TextureSource::Path(path) => TextureSourceView::Path(path@),
            TextureSource::Bytes { data, width, height } => TextureSourceView::Bytes {
                data: data@,
                width,
                height,
            },
        }
    }
}

impl Clone for TextureSource {
    /// A copy that holds the same as `self`.
    fn clone(&self) -> (r: TextureSource)
        ensures
            r@ == self@,
    {
        match self {
            TextureSource::Path(path) => TextureSource::Path(path.clone()),
            TextureSource::Bytes { data, width, height } => {
                let copy = data.clone();
                assert(copy@ =~= data@);
                TextureSource::Bytes { data: copy, width: *width, height: *height }
            },
        }
    }
}

impl TextureSource {
    /// The texture in the file at `path`.
    pub fn path(path: String) -> (r: TextureSource)
        ensures
            r == TextureSource::Path(path),
    {
        TextureSource::Path(path)
    }

    /// The texture given by its bytes.
    pub fn bytes(data: Vec<u8>, width: u32, height: u32) -> (r: TextureSource)
        ensures
            r == (TextureSource::Bytes { data, width, height }),
    {
        TextureSource::Bytes { data, width, height }
    }
}

} // verus!
