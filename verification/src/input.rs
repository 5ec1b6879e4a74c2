//! The events that a window hands to an agent: buttons, motion, text, resizing,
//! focus, files dragged over it, and closing.

use vstd::prelude::*;
use crate::scalar::{Scalar, ZERO_BITS};

pub use crate::key::Key;

verus! {

/// A path of the file system, carried as it was given.
#[verifier::external_type_specification]
#[verifier::external_body]
pub struct ExPathBuf(std::path::PathBuf);

/// `PathBuf::clone` returns a path equal to the one it was given.
pub assume_specification[ <std::path::PathBuf as Clone>::clone ](path: &std::path::PathBuf) -> (r:
    std::path::PathBuf)
    ensures
        r == *path,
;

/// An input event.
#[derive(Clone, Debug, PartialEq)]
pub enum Input {
    /// A button changed its state.
    Button(ButtonArgs),
    /// Something moved: the cursor, the wheel, an axis, a finger.
    Move(Motion),
    /// Text was entered, usually on the keyboard.
    Text(String),
    /// The window was resized.
    Resize(ResizeArgs),
    /// The window gained or lost focus.
    Focus(bool),
    /// The window gained or lost the cursor.
    Cursor(bool),
    /// A file is dragged over the window or dropped into it.
    FileDrag(FileDrag),
    /// The window was closed.
    Close(CloseArgs),
}

/// A change of a button's state.
#[derive(Clone, Copy, Debug, PartialEq, Eq, PartialOrd, Ord, Hash)]
pub struct ButtonArgs {
    /// The new state of the button.
    pub state: ButtonState,
    /// The button that changed.
    pub button: Button,
    /// The scancode of a keyboard key, which names its place on the keyboard
    /// whatever the layout; `None` for other devices and for back-ends without
    /// scancodes.
    pub scancode: Option<i32>,
}

/// The state of a button.
#[derive(Clone, Copy, Debug, PartialEq, Eq, PartialOrd, Ord, Hash, Structural)]
pub enum ButtonState {
    /// The button was pressed.
    Press,
    /// The button was released.
    Release,
}

/// A button of some device.
#[derive(Clone, Copy, Debug, PartialEq, Eq, PartialOrd, Ord, Hash, Structural)]
pub enum Button {
    /// A key of the keyboard.
    Keyboard(Key),
    /// A button of the mouse.
    Mouse(MouseButton),
    /// A button of a controller.
    Controller(ControllerButton),
    /// A hat (d-pad) of a controller.
    Hat(ControllerHat),
}

/// A button of the mouse.
#[derive(Clone, Copy, Debug, PartialEq, Eq, PartialOrd, Ord, Hash, Structural)]
pub enum MouseButton {
    /// A button that is none of the others.
    Unknown,
    /// The left button.
    Left,
    /// The right button.
    Right,
    /// The middle button.
    Middle,
    /// The first extra button.
    X1,
    /// The second extra button.
    X2,
    /// The sixth button.
    Button6,
    /// The seventh button.
    Button7,
    /// The eighth button.
    Button8,
}

impl MouseButton {
    /// The number of the button: 0 for `Unknown`, then 1 to 8 in the order of
    /// declaration.
    pub open spec fn number(self) -> u32 {
        match self {
            MouseButton::Unknown => 0,
            MouseButton::Left => 1,
            MouseButton::Right => 2,
            MouseButton::Middle => 3,
            MouseButton::X1 => 4,
            MouseButton::X2 => 5,
            MouseButton::Button6 => 6,
            MouseButton::Button7 => 7,
            MouseButton::Button8 => 8,
        }
    }

    /// The button with the number `n`, or `Unknown` where no button has it.
    pub open spec fn of_number(n: u32) -> MouseButton {
        if exists|button: MouseButton| button.number() == n {
            choose|button: MouseButton| button.number() == n
        } else {
            MouseButton::Unknown
        }
    }

    /// The button of a button's number is that button.
    pub proof fn of_number_of_button(button: MouseButton)
        ensures
            MouseButton::of_number(button.number()) == button,
    {
    }
}

impl From<u32> for MouseButton {
    /// The button with the number `n`, or `Unknown` where no button has it.
    fn from(n: u32) -> (r: MouseButton) {
        let button = match n {
            0 => MouseButton::Unknown,
            1 => MouseButton::Left,
            2 => MouseButton::Right,
            3 => MouseButton::Middle,
            4 => MouseButton::X1,
            5 => MouseButton::X2,
            6 => MouseButton::Button6,
            7 => MouseButton::Button7,
            8 => MouseButton::Button8,
            _ => MouseButton::Unknown,
        };
        proof {
            if n <= 8 {
                assert(button.number() == n);
            }
        }
        button
    }
}

impl vstd::std_specs::convert::FromSpecImpl<u32> for MouseButton {
    open spec fn obeys_from_spec() -> bool {
        true
    }

    open spec fn from_spec(n: u32) -> MouseButton {
        MouseButton::of_number(n)
    }
}

impl From<MouseButton> for u32 {
    /// The number of the button.
    fn from(button: MouseButton) -> (r: u32) {
        match button {
            MouseButton::Unknown => 0,
            MouseButton::Left => 1,
            MouseButton::Right => 2,
            MouseButton::Middle => 3,
            MouseButton::X1 => 4,
            MouseButton::X2 => 5,
            MouseButton::Button6 => 6,
            MouseButton::Button7 => 7,
            MouseButton::Button8 => 8,
        }
    }
}

impl vstd::std_specs::convert::FromSpecImpl<MouseButton> for u32 {
    open spec fn obeys_from_spec() -> bool {
        true
    }

    open spec fn from_spec(button: MouseButton) -> u32 {
        button.number()
    }
}

/// A button of a controller. What the numbers mean differs between back-ends.
#[derive(Clone, Copy, Debug, PartialEq, Eq, PartialOrd, Ord, Hash, Structural)]
pub struct ControllerButton {
    /// The controller that the button is on.
    pub id: u32,
    /// The button.
    pub button: u8,
}

impl ControllerButton {
    /// The button `button` of the controller `id`.
    pub fn new(id: u32, button: u8) -> (r: ControllerButton)
        ensures
            r == (ControllerButton { id, button }),
    {
        ControllerButton { id, button }
    }
}

/// A hat (d-pad) of a controller and the direction it is pushed in.
#[derive(Clone, Copy, Debug, PartialEq, Eq, PartialOrd, Ord, Hash, Structural)]
pub struct ControllerHat {
    /// The controller that the hat is on.
    pub id: u32,
    /// The direction that the hat is pushed in.
    pub state: HatState,
    /// The hat.
    pub which: u8,
}

impl ControllerHat {
    /// The hat `which` of the controller `id`, pushed in the direction `state`.
    pub fn new(id: u32, which: u8, state: HatState) -> (r: ControllerHat)
        ensures
            r == (ControllerHat { id, state, which }),
    {
        ControllerHat { id, state, which }
    }
}

/// The direction that a hat is pushed in.
#[derive(Clone, Copy, Debug, PartialEq, Eq, PartialOrd, Ord, Hash, Structural)]
pub enum HatState {
    /// Not pushed.
    Centered,
    Up,
    Right,
    Down,
    Left,
    RightUp,
    RightDown,
    LeftUp,
    LeftDown,
}

/// Something that moved.
#[derive(Clone, Copy, Debug, PartialEq)]
pub enum Motion {
    /// The cursor, to a position in window coordinates.
    MouseCursor([Scalar; 2]),
    /// The cursor, by a displacement.
    MouseRelative([Scalar; 2]),
    /// The wheel, by a number of ticks along each axis.
    MouseScroll([Scalar; 2]),
    /// An axis of a controller.
    ControllerAxis(ControllerAxisArgs),
    /// A finger on a touch device.
    Touch(TouchArgs),
}

/// A move of a controller's axis. What the numbers mean differs between
/// back-ends.
#[derive(Clone, Copy, Debug, PartialEq, Eq, Structural)]
pub struct ControllerAxisArgs {
    /// The controller that moved.
    pub id: u32,
    /// The axis that moved.
    pub axis: u8,
    /// Where the axis stands, usually between -1 and 1.
    pub position: Scalar,
}

impl ControllerAxisArgs {
    /// The axis `axis` of the controller `id` standing at `position`.
    pub fn new(id: u32, axis: u8, position: Scalar) -> (r: ControllerAxisArgs)
        ensures
            r == (ControllerAxisArgs { id, axis, position }),
    {
        ControllerAxisArgs { id, axis, position }
    }
}

/// A touch. Positions and pressures lie between 0 and 1, so that screens and
/// pads are served alike. A touch in two dimensions presses along z.
#[derive(Clone, Copy, Debug, PartialEq)]
pub struct TouchArgs {
    /// The device that was touched.
    pub device: i64,
    /// The touch: the same id may come again for a later touch.
    pub id: i64,
    /// Where the touch is.
    pub position_3d: [Scalar; 3],
    /// How hard and in which direction it presses.
    pub pressure_3d: [Scalar; 3],
    /// Whether the touch has three dimensions.
    pub is_3d: bool,
    /// What the touch does.
    pub touch: Touch,
}

impl TouchArgs {
    /// A touch in two dimensions: at height 0, pressing along z only.
    pub fn new(device: i64, id: i64, position: [Scalar; 2], pressure: Scalar, touch: Touch) -> (r:
        TouchArgs)
        ensures
            r.device == device,
            r.id == id,
            r.position_3d@ == seq![position[0], position[1], Scalar { bits: ZERO_BITS }],
            r.pressure_3d@ == seq![
                Scalar { bits: ZERO_BITS },
                Scalar { bits: ZERO_BITS },
                pressure,
            ],
            !r.is_3d,
            r.touch == touch,
    {
        let r = TouchArgs {
            device,
            id,
            position_3d: [position[0], position[1], Scalar::zero()],
            pressure_3d: [Scalar::zero(), Scalar::zero(), pressure],
            is_3d: false,
            touch,
        };
        assert(r.position_3d@ =~= seq![position[0], position[1], Scalar { bits: ZERO_BITS }]);
        assert(r.pressure_3d@ =~= seq![
            Scalar { bits: ZERO_BITS },
            Scalar { bits: ZERO_BITS },
            pressure,
        ]);
        r
    }

    /// A touch in three dimensions.
    pub fn new_3d(
        device: i64,
        id: i64,
        position_3d: [Scalar; 3],
        pressure_3d: [Scalar; 3],
        touch: Touch,
    ) -> (r: TouchArgs)
        ensures
            r == (TouchArgs { device, id, position_3d, pressure_3d, is_3d: true, touch }),
    {
        TouchArgs { device, id, position_3d, pressure_3d, is_3d: true, touch }
    }

    /// Where the touch is, without its height.
    pub fn position(&self) -> (r: [Scalar; 2])
        ensures
            r@ == seq![self.position_3d[0], self.position_3d[1]],
    {
        let r = [self.position_3d[0], self.position_3d[1]];
        assert(r@ =~= seq![self.position_3d[0], self.position_3d[1]]);
        r
    }

    /// Where the touch is.
    pub fn position_3d(&self) -> (r: [Scalar; 3])
        ensures
            r == self.position_3d,
    {
        self.position_3d
    }

    /// How hard and in which direction the touch presses.
    pub fn pressure_3d(&self) -> (r: [Scalar; 3])
        ensures
            r == self.pressure_3d,
    {
        self.pressure_3d
    }
}

/// What a touch does.
#[derive(Clone, Copy, Debug, PartialEq, Eq, PartialOrd, Ord, Hash, Structural)]
pub enum Touch {
    /// It starts: a finger is set down.
    Start,
    /// It moves: the finger slides.
    Move,
    /// It ends: the finger is lifted.
    End,
    /// It is cancelled, as when the window loses focus.
    Cancel,
}

/// The new size of a window.
#[derive(Clone, Copy, Debug, PartialEq)]
pub struct ResizeArgs {
    /// Width and height of the rendered area in points.
    pub window_size: [Scalar; 2],
    /// Width and height of the rendered area in pixels.
    pub draw_size: [u32; 2],
}

impl ResizeArgs {
    /// The viewport that fills the whole rendered area. A width or height of
    /// 2^31 pixels or more wraps round into the negative numbers.
    pub fn viewport(&self) -> (r: Viewport)
        ensures
            r.rect@ == seq![0i32, 0i32, self.draw_size[0] as i32, self.draw_size[1] as i32],
            r.window_size == self.window_size,
            r.draw_size == self.draw_size,
    {
        let r = Viewport {
            rect: [0, 0, self.draw_size[0] as i32, self.draw_size[1] as i32],
            window_size: self.window_size,
            draw_size: self.draw_size,
        };
        assert(r.rect@ =~= seq![0i32, 0i32, self.draw_size[0] as i32, self.draw_size[1] as i32]);
        r
    }
}

/// A rectangle of the rendered area.
#[derive(Clone, Copy, Debug, PartialEq)]
pub struct Viewport {
    /// The rectangle in pixels: `x`, `y`, width and height, with `(x, y)` its
    /// lower left corner.
    pub rect: [i32; 4],
    /// The size of the frame buffer in pixels.
    pub draw_size: [u32; 2],
    /// The size of the window in points.
    pub window_size: [Scalar; 2],
}

/// A file dragged over the window.
#[derive(Clone, Debug, PartialEq, Eq, PartialOrd, Ord, Hash)]
pub enum FileDrag {
    /// The file hovers over the window.
    Hover(std::path::PathBuf),
    /// The file was dropped into the window.
    Drop(std::path::PathBuf),
    /// The file hovered and has left the window.
    Cancel,
}

/// The window was closed: there is nothing more to say.
#[derive(Clone, Copy, Debug, PartialEq, Eq, PartialOrd, Ord, Hash, Structural)]
pub struct CloseArgs;

} // verus!
