use vstd::prelude::*;
use enigo::{Axis, Button, Coordinate, Direction, Key};

verus! {

/// Declares enigo's press/release/click direction.
#[verifier::external_type_specification]
pub struct ExDirection(Direction);

/// Declares enigo's absolute/relative coordinate choice.
#[verifier::external_type_specification]
pub struct ExCoordinate(Coordinate);

/// Declares enigo's mouse button, carried unchanged.
#[verifier::external_type_specification]
#[verifier::external_body]
pub struct ExButton(Button);

/// Declares enigo's scroll axis, carried unchanged.
#[verifier::external_type_specification]
#[verifier::external_body]
pub struct ExAxis(Axis);

/// Declares enigo's key, carried unchanged.
#[verifier::external_type_specification]
#[verifier::external_body]
pub struct ExKey(Key);

/// The kind of keyboard action to perform.
pub enum KeyboardActionKind {
    /// Type a string of text.
    Text(String),
    /// Press or release a specific key.
    Key(Key, Direction),
}

/// Types text, or presses or releases a key.
pub struct KeyboardAction(pub KeyboardActionKind);

impl KeyboardAction {
    pub fn text(text: String) -> (r: Self)
        ensures
            r.0 matches KeyboardActionKind::Text(t) && t@ == text@,
    {
        KeyboardAction(KeyboardActionKind::Text(text))
    }

    pub fn key(key: Key, direction: Direction) -> (r: Self)
        ensures
            r.0 == KeyboardActionKind::Key(key, direction),
    {
        KeyboardAction(KeyboardActionKind::Key(key, direction))
    }

    pub fn kind(&self) -> (r: &KeyboardActionKind)
        ensures
            *r == self.0,
    {
        &self.0
    }
}

/// What a mouse action does.
#[derive(Debug, Clone, Copy)]
pub enum MouseActionKind {
    Move { x: i32, y: i32, coordinate: Coordinate },
    Click { button: Button, direction: Direction },
    Scroll { axis: Axis, length: i32 },
}

/// Moves the pointer, presses or releases a button, or scrolls.
pub struct MouseAction {
    pub kind: MouseActionKind,
}

impl MouseAction {
    /// Moves the pointer to absolute screen coordinates.
    pub fn move_mouse(x: i32, y: i32) -> (r: Self)
        ensures
            r.kind == (MouseActionKind::Move { x, y, coordinate: Coordinate::Abs }),
    {
        Self::move_mouse_with_coordinate(x, y, Coordinate::Abs)
    }

    /// Moves the pointer by an offset from where it is.
    pub fn move_mouse_relative(x: i32, y: i32) -> (r: Self)
        ensures
            r.kind == (MouseActionKind::Move { x, y, coordinate: Coordinate::Rel }),
    {
        Self::move_mouse_with_coordinate(x, y, Coordinate::Rel)
    }

    fn move_mouse_with_coordinate(x: i32, y: i32, coordinate: Coordinate) -> (r: Self)
        ensures
            r.kind == (MouseActionKind::Move { x, y, coordinate }),
    {
        MouseAction { kind: MouseActionKind::Move { x, y, coordinate } }
    }

    /// A full click: press and release.
    pub fn click(button: Button) -> (r: Self)
        ensures
            r.kind == (MouseActionKind::Click { button, direction: Direction::Click }),
    {
        Self::with_button_direction(button, Direction::Click)
    }

    pub fn press(button: Button) -> (r: Self)
        ensures
            r.kind == (MouseActionKind::Click { button, direction: Direction::Press }),
    {
        Self::with_button_direction(button, Direction::Press)
    }

    pub fn release(button: Button) -> (r: Self)
        ensures
            r.kind == (MouseActionKind::Click { button, direction: Direction::Release }),
    {
        Self::with_button_direction(button, Direction::Release)
    }

    fn with_button_direction(button: Button, direction: Direction) -> (r: Self)
        ensures
            r.kind == (MouseActionKind::Click { button, direction }),
    {
        MouseAction { kind: MouseActionKind::Click { button, direction } }
    }

    /// Changes the direction of a button action; other actions stay as they are.
    pub fn with_direction(self, direction: Direction) -> (r: Self)
        ensures
            match self.kind {
                MouseActionKind::Click { button, .. } => r.kind == (MouseActionKind::Click { button, direction }),
                _ => r.kind == self.kind,
            },
    {
        match self.kind {
            MouseActionKind::Click { button, .. } => MouseAction { kind: MouseActionKind::Click { button, direction } },
            _ => self,
        }
    }

    /// Scrolls by `length` along `axis`.
    pub fn scroll(length: i32, axis: Axis) -> (r: Self)
        ensures
            r.kind == (MouseActionKind::Scroll { axis, length }),
    {
        MouseAction { kind: MouseActionKind::Scroll { axis, length } }
    }

    pub fn kind(&self) -> (r: &MouseActionKind)
        ensures
            *r == self.kind,
    {
        &self.kind
    }
}

} // verus!
