use vstd::prelude::*;

verus! {

/// A direction in which the focus moves between the panes of a view.
#[derive(Clone, Copy, Debug, PartialEq, Eq, Structural)]
pub enum Direction {
    Up,
    Down,
    Left,
    Right,
}

/// The direction that undoes a move in `dir`.
pub open spec fn opposite(dir: Direction) -> Direction {
    match dir {
        Direction::Up => Direction::Down,
        Direction::Down => Direction::Up,
        Direction::Left => Direction::Right,
        Direction::Right => Direction::Left,
    }
}

/// A key press as the views of the application receive it.
///
/// `Nav` is a request to move the focus to a neighbouring pane; `Alt` and
/// `Ctrl` carry the character pressed together with that modifier.
#[derive(Clone, Copy, Debug, PartialEq, Eq, Structural)]
pub enum MyKey {
    Enter,
    Tab,
    BackTab,
    Backspace,
    Esc,
    Left,
    Right,
    Up,
    Down,
    Home,
    End,
    PageUp,
    PageDown,
    Delete,
    Insert,
    Null,
    F(u8),
    Char(char),
    Alt(char),
    Ctrl(char),
    Nav(Direction),
}

} // verus!
