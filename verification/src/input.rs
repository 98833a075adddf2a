//! Controller input as plain values: the buttons and axes of a game
//! controller, the player's gamepad buttons they stand for, and the decisions
//! taken on them while a game runs.
use vstd::prelude::*;

verus! {

/// A button of a game controller, named as SDL names them.
#[derive(Clone, Copy, Debug, PartialEq, Eq, Structural)]
pub enum Button {
    A,
    B,
    X,
    Y,
    Back,
    Guide,
    Start,
    LeftStick,
    RightStick,
    LeftShoulder,
    RightShoulder,
    DPadUp,
    DPadDown,
    DPadLeft,
    DPadRight,
    Misc1,
    Paddle1,
    Paddle2,
    Paddle3,
    Paddle4,
    Touchpad,
}

/// An axis of a game controller, named as SDL names them.
#[derive(Clone, Copy, Debug, PartialEq, Eq, Structural)]
pub enum Axis {
    LeftX,
    LeftY,
    RightX,
    RightY,
    TriggerLeft,
    TriggerRight,
}

/// A gamepad button as the Flash player knows it.
#[derive(Clone, Copy, Debug, PartialEq, Eq, Structural)]
pub enum GamepadButton {
    South,
    East,
    North,
    West,
    LeftTrigger,
    RightTrigger,
    Select,
    Start,
    DPadUp,
    DPadDown,
    DPadLeft,
    DPadRight,
}

/// The player button a controller button stands for, if any.
pub open spec fn player_button(button: Button) -> Option<GamepadButton> {
    match button {
        Button::DPadUp => Some(GamepadButton::DPadUp),
        Button::DPadDown => Some(GamepadButton::DPadDown),
        Button::DPadLeft => Some(GamepadButton::DPadLeft),
        Button::DPadRight => Some(GamepadButton::DPadRight),
        Button::A => Some(GamepadButton::South),
        Button::B => Some(GamepadButton::East),
        Button::X => Some(GamepadButton::West),
        Button::Y => Some(GamepadButton::North),
        Button::Start => Some(GamepadButton::Start),
        Button::Back => Some(GamepadButton::Select),
        Button::RightShoulder => Some(GamepadButton::RightTrigger),
        Button::LeftShoulder => Some(GamepadButton::LeftTrigger),
        _ => None,
    }
}

/// Maps a controller button to the player's gamepad button: face buttons by
/// position (A is South), Back is Select, the shoulders are the triggers.
pub fn sdl_gamepadbutton_to_ruffle(button: Button) -> (r: Option<GamepadButton>)
    ensures
        r == player_button(button),
{
    match button {
        Button::DPadUp => Some(GamepadButton::DPadUp),
        Button::DPadDown => Some(GamepadButton::DPadDown),
        Button::DPadLeft => Some(GamepadButton::DPadLeft),
        Button::DPadRight => Some(GamepadButton::DPadRight),
        Button::A => Some(GamepadButton::South),
        Button::B => Some(GamepadButton::East),
        Button::X => Some(GamepadButton::West),
        Button::Y => Some(GamepadButton::North),
        Button::Start => Some(GamepadButton::Start),
        Button::Back => Some(GamepadButton::Select),
        Button::RightShoulder => Some(GamepadButton::RightTrigger),
        Button::LeftShoulder => Some(GamepadButton::LeftTrigger),
        _ => None,
    }
}

/// Each controller button is forwarded as the player's button in the same
/// place: the D-pad directions as the same directions, the face buttons by
/// position (A south, B east, X west, Y north), Start as Start, Back as
/// Select, the shoulders as the triggers on the same side; the other
/// buttons are not forwarded.
pub proof fn lemma_buttons_keep_their_place()
    ensures
        player_button(Button::DPadUp) == Some(GamepadButton::DPadUp),
        player_button(Button::DPadDown) == Some(GamepadButton::DPadDown),
        player_button(Button::DPadLeft) == Some(GamepadButton::DPadLeft),
        player_button(Button::DPadRight) == Some(GamepadButton::DPadRight),
        player_button(Button::A) == Some(GamepadButton::South),
        player_button(Button::B) == Some(GamepadButton::East),
        player_button(Button::X) == Some(GamepadButton::West),
        player_button(Button::Y) == Some(GamepadButton::North),
        player_button(Button::Start) == Some(GamepadButton::Start),
        player_button(Button::Back) == Some(GamepadButton::Select),
        player_button(Button::LeftShoulder) == Some(GamepadButton::LeftTrigger),
        player_button(Button::RightShoulder) == Some(GamepadButton::RightTrigger),
        player_button(Button::Guide) is None,
        player_button(Button::LeftStick) is None,
        player_button(Button::RightStick) is None,
        player_button(Button::Misc1) is None,
        player_button(Button::Paddle1) is None,
        player_button(Button::Paddle2) is None,
        player_button(Button::Paddle3) is None,
        player_button(Button::Paddle4) is None,
        player_button(Button::Touchpad) is None,
{
}

/// Two different controller buttons never stand for the same player button.
pub proof fn lemma_player_button_injective(a: Button, b: Button)
    requires
        player_button(a) is Some,
        player_button(a) == player_button(b),
    ensures
        a == b,
{
}

/// How far the left stick must be pushed, while a game runs, to count as a
/// direction.
pub const PLAY_DEADZONE: i32 = 8000;

/// The directions in which the left stick is pushed.
pub struct AxisState {
    pub up: bool,
    pub down: bool,
    pub left: bool,
    pub right: bool,
}

impl Default for AxisState {
    fn default() -> (r: Self)
        ensures
            !r.up && !r.down && !r.left && !r.right,
    {
        AxisState { up: false, down: false, left: false, right: false }
    }
}

impl AxisState {
    /// The directions one motion of `axis` to `value` pushes the left stick
    /// in, beyond the dead zone.
    pub fn from_axis_motion(axis: Axis, value: i32) -> (r: Self)
        ensures
            r.up == (axis == Axis::LeftY && value < -PLAY_DEADZONE),
            r.down == (axis == Axis::LeftY && value > PLAY_DEADZONE),
            r.left == (axis == Axis::LeftX && value < -PLAY_DEADZONE),
            r.right == (axis == Axis::LeftX && value > PLAY_DEADZONE),
            !(r.up && r.down),
            !(r.left && r.right),
            !((r.up || r.down) && (r.left || r.right)),
    {
        let x_axis = match axis {
            Axis::LeftX => true,
            _ => false,
        };
        let y_axis = match axis {
            Axis::LeftY => true,
            _ => false,
        };
        AxisState {
            up: y_axis && value < -PLAY_DEADZONE,
            down: y_axis && value > PLAY_DEADZONE,
            left: x_axis && value < -PLAY_DEADZONE,
            right: x_axis && value > PLAY_DEADZONE,
        }
    }
}

/// The new size of the player's viewport after the window was resized to
/// `w` by `h`: only a size with both sides positive is taken.
pub fn resized_viewport(w: i32, h: i32) -> (r: Option<(u32, u32)>)
    ensures
        r == (if w > 0 && h > 0 {
            Some((w as u32, h as u32))
        } else {
            None
        }),
{
    if w > 0 && h > 0 {
        Some((w as u32, h as u32))
    } else {
        None
    }
}

/// What a button press does while a game runs.
#[derive(Clone, Copy, Debug, PartialEq, Eq, Structural)]
pub enum PressOutcome {
    /// Start is held and Back was pressed: leave the game.
    ReturnToMenu,
    /// Hand the press to the player, when the button stands for one of its buttons.
    Forward(Option<GamepadButton>),
}

/// Whether Start is held, which turns Back into the way out of a game.
pub struct ComboState {
    pub start_held: bool,
}

impl ComboState {
    /// Nothing held.
    pub fn new() -> (r: Self)
        ensures
            !r.start_held,
    {
        ComboState { start_held: false }
    }

    /// A button goes down while a game runs.
    pub fn button_down(&mut self, button: Button) -> (r: PressOutcome)
        ensures
            final(self).start_held == (old(self).start_held || button == Button::Start),
            r == (if button == Button::Back && old(self).start_held {
                PressOutcome::ReturnToMenu
            } else {
                PressOutcome::Forward(player_button(button))
            }),
    {
        let is_start = match button {
            Button::Start => true,
            _ => false,
        };
        let is_back = match button {
            Button::Back => true,
            _ => false,
        };
        if is_start {
            self.start_held = true;
        } else if is_back && self.start_held {
            return PressOutcome::ReturnToMenu;
        }
        PressOutcome::Forward(sdl_gamepadbutton_to_ruffle(button))
    }

    /// A button goes up while a game runs; the release is handed to the player.
    pub fn button_up(&mut self, button: Button) -> (r: Option<GamepadButton>)
        ensures
            final(self).start_held == (old(self).start_held && button != Button::Start),
            r == player_button(button),
    {
        match button {
            Button::Start => {
                self.start_held = false;
            },
            _ => {},
        }
        sdl_gamepadbutton_to_ruffle(button)
    }
}

} // verus!
