use gymnarium_visualisers_base::input::{
    Button, ButtonArgs, ButtonState, CloseArgs, ControllerAxisArgs, ControllerButton,
    ControllerHat, FileDrag, HatState, Input, Key, Motion, MouseButton, ResizeArgs, Touch,
    TouchArgs,
};
use gymnarium_visualisers_base::scalar::Scalar;
use gymnarium_visualisers_base::{InputAgentError, InputAgentStorage};

fn s(x: f64) -> Scalar {
    Scalar::from_bits(x.to_bits())
}

#[test]
fn keys_have_their_codes() {
    assert_eq!(Key::Unknown.code(), 0x00);
    assert_eq!(Key::Backspace.code(), 0x08);
    assert_eq!(Key::Return.code(), 0x0D);
    assert_eq!(Key::Space.code(), 0x20);
    assert_eq!(Key::D0.code(), 0x30);
    assert_eq!(Key::A.code(), 0x61);
    assert_eq!(Key::Z.code(), 0x7A);
    assert_eq!(Key::Delete.code(), 0x7F);
    assert_eq!(Key::CapsLock.code(), 0x40000039);
    assert_eq!(Key::F1.code(), 0x4000003A);
    assert_eq!(Key::Up.code(), 0x40000052);
    assert_eq!(Key::Sleep.code(), 0x4000011A);
}

#[test]
fn a_code_gives_its_key() {
    assert_eq!(Key::from(0x00), Key::Unknown);
    assert_eq!(Key::from(0x08), Key::Backspace);
    assert_eq!(Key::from(0x1B), Key::Escape);
    assert_eq!(Key::from(0x61), Key::A);
    assert_eq!(Key::from(0x40000052), Key::Up);
    assert_eq!(Key::from(0x4000011A), Key::Sleep);
}

#[test]
fn a_code_that_no_key_has_gives_unknown() {
    for code in [0x01u32, 0x07, 0x0A, 0x41, 0x5A, 0x80, 0xFF, 0x40000000, 0x4000011B, u32::MAX] {
        assert_eq!(Key::from(code), Key::Unknown, "{code:#x}");
    }
}

#[test]
fn every_code_leads_back_to_its_key() {
    let mut keys = 0;
    let ranges = [0u32..0x100, 0x4000_0000..0x4000_0200];
    for range in ranges {
        for code in range {
            let key = Key::from(code);
            if key != Key::Unknown {
                assert_eq!(key.code(), code as i32);
                assert_eq!(u32::from(key), code);
                keys += 1;
            }
        }
    }
    assert_eq!(keys, 235);
    assert_eq!(u32::from(Key::Unknown), 0);
}

#[test]
fn keys_are_ordered_by_their_codes() {
    let mut before: Option<Key> = None;
    for code in (0u32..0x100).chain(0x4000_0000..0x4000_0200) {
        let key = Key::from(code);
        if key == Key::Unknown && code != 0 {
            continue;
        }
        if let Some(earlier) = before {
            assert!(earlier < key);
            assert!(earlier.code() < key.code());
        }
        before = Some(key);
    }
    assert!(Key::A < Key::B);
    assert!(Key::Z < Key::CapsLock);
    assert_eq!(Key::A.max(Key::Sleep), Key::Sleep);
}

#[test]
fn mouse_buttons_have_their_numbers() {
    let buttons = [
        MouseButton::Unknown,
        MouseButton::Left,
        MouseButton::Right,
        MouseButton::Middle,
        MouseButton::X1,
        MouseButton::X2,
        MouseButton::Button6,
        MouseButton::Button7,
        MouseButton::Button8,
    ];
    for (n, button) in buttons.into_iter().enumerate() {
        assert_eq!(u32::from(button), n as u32);
        assert_eq!(MouseButton::from(n as u32), button);
    }
}

#[test]
fn a_number_that_no_mouse_button_has_gives_unknown() {
    assert_eq!(MouseButton::from(9), MouseButton::Unknown);
    assert_eq!(MouseButton::from(1000), MouseButton::Unknown);
    assert_eq!(MouseButton::from(u32::MAX), MouseButton::Unknown);
}

#[test]
fn controller_buttons_and_hats_keep_what_they_are_given() {
    let button = ControllerButton::new(3, 7);
    assert_eq!((button.id, button.button), (3, 7));
    let hat = ControllerHat::new(3, 1, HatState::LeftUp);
    assert_eq!((hat.id, hat.which, hat.state), (3, 1, HatState::LeftUp));
    let axis = ControllerAxisArgs::new(2, 5, s(-0.75));
    assert_eq!((axis.id, axis.axis, axis.position), (2, 5, s(-0.75)));
}

#[test]
fn a_touch_in_two_dimensions_lies_flat_and_presses_along_z() {
    let touch = TouchArgs::new(11, 22, [s(0.25), s(0.5)], s(0.75), Touch::Start);
    assert_eq!(touch.device, 11);
    assert_eq!(touch.id, 22);
    assert_eq!(touch.position_3d, [s(0.25), s(0.5), s(0.0)]);
    assert_eq!(touch.pressure_3d, [s(0.0), s(0.0), s(0.75)]);
    assert!(!touch.is_3d);
    assert_eq!(touch.touch, Touch::Start);
    assert_eq!(touch.position(), [s(0.25), s(0.5)]);
    assert_eq!(touch.position_3d(), [s(0.25), s(0.5), s(0.0)]);
    assert_eq!(touch.pressure_3d(), [s(0.0), s(0.0), s(0.75)]);
}

#[test]
fn a_touch_in_three_dimensions_keeps_what_it_is_given() {
    let touch = TouchArgs::new_3d(
        1,
        2,
        [s(0.1), s(0.2), s(0.3)],
        [s(0.4), s(0.5), s(0.6)],
        Touch::Move,
    );
    assert_eq!((touch.device, touch.id), (1, 2));
    assert!(touch.is_3d);
    assert_eq!(touch.touch, Touch::Move);
    assert_eq!(touch.position(), [s(0.1), s(0.2)]);
    assert_eq!(touch.position_3d(), [s(0.1), s(0.2), s(0.3)]);
    assert_eq!(touch.pressure_3d(), [s(0.4), s(0.5), s(0.6)]);
}

#[test]
fn the_viewport_of_a_resize_fills_the_drawn_area() {
    let resize = ResizeArgs { window_size: [s(800.0), s(600.0)], draw_size: [1600, 1200] };
    let viewport = resize.viewport();
    assert_eq!(viewport.rect, [0, 0, 1600, 1200]);
    assert_eq!(viewport.draw_size, [1600, 1200]);
    assert_eq!(viewport.window_size, [s(800.0), s(600.0)]);
}

#[test]
fn a_drawn_area_too_wide_for_the_rectangle_wraps_round() {
    let resize = ResizeArgs { window_size: [s(1.0), s(1.0)], draw_size: [0x8000_0000, u32::MAX] };
    assert_eq!(resize.viewport().rect, [0, 0, i32::MIN, -1]);
    let resize = ResizeArgs { window_size: [s(1.0), s(1.0)], draw_size: [0x7FFF_FFFF, 0] };
    assert_eq!(resize.viewport().rect, [0, 0, i32::MAX, 0]);
}

#[test]
fn events_carry_their_arguments() {
    let pressed = ButtonArgs {
        state: ButtonState::Press,
        button: Button::Keyboard(Key::Space),
        scancode: Some(44),
    };
    let events = vec![
        Input::Button(pressed),
        Input::Move(Motion::MouseCursor([s(1.0), s(2.0)])),
        Input::Text("abc".to_string()),
        Input::Focus(true),
        Input::Cursor(false),
        Input::FileDrag(FileDrag::Hover("a/b.txt".into())),
        Input::FileDrag(FileDrag::Cancel),
        Input::Close(CloseArgs),
    ];
    let copies = events.clone();
    assert_eq!(copies, events);
    assert_ne!(events[0], Input::Button(ButtonArgs { state: ButtonState::Release, ..pressed }));
    assert_ne!(events[5], Input::FileDrag(FileDrag::Drop("a/b.txt".into())));
    assert!(Button::Keyboard(Key::A) < Button::Mouse(MouseButton::Left));
    assert!(ButtonState::Press < ButtonState::Release);
}

#[test]
fn the_failure_of_the_mapper_becomes_the_failure_of_the_agent() {
    let error: InputAgentError<String> = InputAgentError::from("no such action".to_string());
    match error {
        InputAgentError::ToActionMapperError(inner) => assert_eq!(inner, "no such action"),
    }
    let error: InputAgentError<u8> = 7u8.into();
    assert!(matches!(error, InputAgentError::ToActionMapperError(7)));
    assert_eq!(InputAgentStorage, InputAgentStorage);
}
