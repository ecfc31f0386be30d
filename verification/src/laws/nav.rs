use vstd::prelude::*;

use crate::keys::Direction;
use crate::review::nav::{
    inc_next, review_focus_consistent, review_next, unf_next, IncSelection, ReviewSelection,
    UnfSelection,
};

verus! {

/// The column offset of a move in `dir`.
pub open spec fn dx(dir: Direction) -> int {
    match dir {
        Direction::Left => -1,
        Direction::Right => 1,
        _ => 0,
    }
}

/// The row offset of a move in `dir`; rows count downwards.
pub open spec fn dy(dir: Direction) -> int {
    match dir {
        Direction::Up => -1,
        Direction::Down => 1,
        _ => 0,
    }
}

/// Where a pane of an unfinished card lies on screen, as (column, row): the
/// question above the answer on the left, the dependents above the
/// dependencies on the right.
pub open spec fn unf_place(sel: UnfSelection) -> (int, int) {
    match sel {
        UnfSelection::Question => (0, 0),
        UnfSelection::Answer => (0, 1),
        UnfSelection::Dependents => (1, 0),
        UnfSelection::Dependencies => (1, 1),
    }
}

/// The pane of an unfinished card at (column, row), if any.
pub open spec fn unf_pane_at(col: int, row: int) -> Option<UnfSelection> {
    if col == 0 && row == 0 {
        Some(UnfSelection::Question)
    } else if col == 0 && row == 1 {
        Some(UnfSelection::Answer)
    } else if col == 1 && row == 0 {
        Some(UnfSelection::Dependents)
    } else if col == 1 && row == 1 {
        Some(UnfSelection::Dependencies)
    } else {
        None
    }
}

/// Moving the focus of an unfinished card goes to the neighbouring pane on
/// screen in that direction, and stays put at the edge of the screen.
pub proof fn unf_nav_follows_layout(sel: UnfSelection, dir: Direction)
    ensures
        unf_next(sel, dir) == (match unf_pane_at(
            unf_place(sel).0 + dx(dir),
            unf_place(sel).1 + dy(dir),
        ) {
            Some(pane) => pane,
            None => sel,
        }),
{
}

/// Where a pane of a card under review lies on screen, as (column, row).
/// The left column holds the question, below it the reveal button while the
/// answer is hidden or the answer once shown, and below the answer the
/// rater. The right column holds the dependents above the dependencies.
pub open spec fn review_place(sel: ReviewSelection) -> (int, int) {
    match sel {
        ReviewSelection::Question => (0, 0),
        ReviewSelection::Answer => (0, 1),
        ReviewSelection::RevealButton => (0, 1),
        ReviewSelection::CardRater => (0, 2),
        ReviewSelection::Dependents => (1, 0),
        ReviewSelection::Dependencies => (1, 1),
    }
}

/// The pane of a card under review at (column, row), if any, given whether
/// the answer is shown.
pub open spec fn review_pane_at(col: int, row: int, reveal: bool) -> Option<ReviewSelection> {
    if col == 0 && row == 0 {
        Some(ReviewSelection::Question)
    } else if col == 0 && row == 1 {
        Some(if reveal { ReviewSelection::Answer } else { ReviewSelection::RevealButton })
    } else if col == 0 && row == 2 && reveal {
        Some(ReviewSelection::CardRater)
    } else if col == 1 && row == 0 {
        Some(ReviewSelection::Dependents)
    } else if col == 1 && row == 1 {
        Some(ReviewSelection::Dependencies)
    } else {
        None
    }
}

/// The row reached by a move: a sideways move from the rater, which has no
/// neighbour on its own row, reaches the lowest row of the other column.
pub open spec fn review_target_row(sel: ReviewSelection, dir: Direction) -> int {
    let row = review_place(sel).1 + dy(dir);
    if dx(dir) != 0 && row > 1 {
        1
    } else {
        row
    }
}

/// On a card whose focus agrees with whether its answer is shown, moving the
/// focus goes to the neighbouring pane on screen in that direction, and
/// stays put at the edge of the screen.
pub proof fn review_nav_follows_layout(sel: ReviewSelection, reveal: bool, dir: Direction)
    requires
        review_focus_consistent(sel, reveal),
    ensures
        review_next(sel, reveal, dir) == (match review_pane_at(
            review_place(sel).0 + dx(dir),
            review_target_row(sel, dir),
            reveal,
        ) {
            Some(pane) => pane,
            None => sel,
        }),
{
}

/// Moves between the question and the dependency panes do not depend on
/// whether the answer is shown: down from the dependents reaches the
/// dependencies and up from the dependencies the dependents, right from the
/// question reaches the dependents and left from the dependents the
/// question.
pub proof fn right_column_ignores_reveal(reveal: bool)
    ensures
        review_next(ReviewSelection::Dependents, reveal, Direction::Down)
            == ReviewSelection::Dependencies,
        review_next(ReviewSelection::Dependencies, reveal, Direction::Up)
            == ReviewSelection::Dependents,
        review_next(ReviewSelection::Question, reveal, Direction::Right)
            == ReviewSelection::Dependents,
        review_next(ReviewSelection::Dependents, reveal, Direction::Left)
            == ReviewSelection::Question,
{
}

/// Where a pane of a reading text lies on screen, as (column, row): the
/// source fills the left column, the extracts lie above the clozes on the
/// right.
pub open spec fn inc_place(sel: IncSelection) -> (int, int) {
    match sel {
        IncSelection::Source => (0, 0),
        IncSelection::Extracts => (1, 0),
        IncSelection::Clozes => (1, 1),
    }
}

/// The pane of a reading text at (column, row), if any.
pub open spec fn inc_pane_at(col: int, row: int) -> Option<IncSelection> {
    if col == 0 && (row == 0 || row == 1) {
        Some(IncSelection::Source)
    } else if col == 1 && row == 0 {
        Some(IncSelection::Extracts)
    } else if col == 1 && row == 1 {
        Some(IncSelection::Clozes)
    } else {
        None
    }
}

/// Moving the focus of a reading text goes to the neighbouring pane on
/// screen in that direction, and stays put at the edge of the screen.
pub proof fn inc_nav_follows_layout(sel: IncSelection, dir: Direction)
    ensures
        inc_next(sel, dir) == (match inc_pane_at(
            inc_place(sel).0 + dx(dir),
            inc_place(sel).1 + dy(dir),
        ) {
            Some(pane) => pane,
            None => sel,
        }),
{
}

} // verus!
