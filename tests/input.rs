use automat_core::{
    Automat, FileSystemBuilder, KeyboardAction, KeyboardActionKind, MouseAction, MouseActionKind,
};
use enigo::{Axis, Button, Coordinate, Direction, Key};
use std::path::PathBuf;

#[test]
fn mouse_moves_absolute_and_relative() {
    match *MouseAction::move_mouse(10, -3).kind() {
        MouseActionKind::Move { x, y, coordinate } => {
            assert_eq!((x, y), (10, -3));
            assert_eq!(coordinate, Coordinate::Abs);
        }
        _ => panic!("expected a move"),
    }
    match *MouseAction::move_mouse_relative(-1, 4).kind() {
        MouseActionKind::Move { x, y, coordinate } => {
            assert_eq!((x, y), (-1, 4));
            assert_eq!(coordinate, Coordinate::Rel);
        }
        _ => panic!("expected a move"),
    }
}

#[test]
fn mouse_buttons_and_direction_change() {
    let check = |a: MouseAction, want: Direction| match *a.kind() {
        MouseActionKind::Click { button, direction } => {
            assert_eq!(button, Button::Left);
            assert_eq!(direction, want);
        }
        _ => panic!("expected a click"),
    };
    check(MouseAction::click(Button::Left), Direction::Click);
    check(MouseAction::press(Button::Left), Direction::Press);
    check(MouseAction::release(Button::Left), Direction::Release);
    check(MouseAction::click(Button::Left).with_direction(Direction::Press), Direction::Press);
}

#[test]
fn direction_change_leaves_scroll_alone() {
    let a = MouseAction::scroll(5, Axis::Vertical).with_direction(Direction::Press);
    match *a.kind() {
        MouseActionKind::Scroll { axis, length } => {
            assert_eq!(axis, Axis::Vertical);
            assert_eq!(length, 5);
        }
        _ => panic!("expected a scroll"),
    }
}

#[test]
fn keyboard_actions() {
    match KeyboardAction::text("hello".to_string()).kind() {
        KeyboardActionKind::Text(t) => assert_eq!(t, "hello"),
        _ => panic!("expected text"),
    }
    match KeyboardAction::key(Key::Return, Direction::Click).kind() {
        KeyboardActionKind::Key(k, d) => {
            assert_eq!(*k, Key::Return);
            assert_eq!(*d, Direction::Click);
        }
        _ => panic!("expected a key"),
    }
}

#[test]
fn fs_watch_registers_the_built_trigger() {
    let a: Automat<usize, ()> = Automat::new()
        .with_trigger(7)
        .with_fs_watch(|b: FileSystemBuilder| b.watch_recursive(PathBuf::from("/x")).watch_count());
    let a = a.with_fs_watch(|b: FileSystemBuilder| b.watch_count());
    assert_eq!(a.triggers, vec![7, 1, 0]);
}
