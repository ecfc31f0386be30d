use vstd::prelude::*;

use crate::keys::{opposite, Direction};

verus! {

/// The panes of an unfinished card: question and answer on the left,
/// the card's dependents and dependencies on the right.
#[derive(Clone, Copy, Debug, PartialEq, Eq, Structural)]
pub enum UnfSelection {
    Question,
    Answer,
    Dependencies,
    Dependents,
}

/// The panes of a card under review. While the answer is hidden the reveal
/// button stands in for the answer and the rater.
#[derive(Clone, Copy, Debug, PartialEq, Eq, Structural)]
pub enum ReviewSelection {
    Question,
    Answer,
    Dependencies,
    Dependents,
    RevealButton,
    CardRater,
}

/// The panes of an incremental-reading text.
#[derive(Clone, Copy, Debug, PartialEq, Eq, Structural)]
pub enum IncSelection {
    Source,
    Clozes,
    Extracts,
}

/// The pane of an unfinished card that receives the focus when it moves in
/// `dir` from `sel`; a move off the grid keeps the focus where it is.
pub open spec fn unf_next(sel: UnfSelection, dir: Direction) -> UnfSelection {
    match (sel, dir) {
        (UnfSelection::Question, Direction::Right) => UnfSelection::Dependents,
        (UnfSelection::Question, Direction::Down) => UnfSelection::Answer,
        (UnfSelection::Answer, Direction::Right) => UnfSelection::Dependencies,
        (UnfSelection::Answer, Direction::Up) => UnfSelection::Question,
        (UnfSelection::Dependencies, Direction::Left) => UnfSelection::Answer,
        (UnfSelection::Dependencies, Direction::Up) => UnfSelection::Dependents,
        (UnfSelection::Dependents, Direction::Left) => UnfSelection::Question,
        (UnfSelection::Dependents, Direction::Down) => UnfSelection::Dependencies,
        _ => sel,
    }
}

/// The pane of a card under review that receives the focus when it moves in
/// `dir` from `sel`. Below the question lies the answer once it is revealed,
/// and the reveal button before.
pub open spec fn review_next(sel: ReviewSelection, reveal: bool, dir: Direction) -> ReviewSelection {
    match (sel, dir) {
        (ReviewSelection::Question, Direction::Right) => ReviewSelection::Dependents,
        (ReviewSelection::Question, Direction::Down) => if reveal {
            ReviewSelection::Answer
        } else {
            ReviewSelection::RevealButton
        },
        (ReviewSelection::Answer, Direction::Right) => ReviewSelection::Dependencies,
        (ReviewSelection::Answer, Direction::Up) => ReviewSelection::Question,
        (ReviewSelection::Answer, Direction::Down) => if reveal {
            ReviewSelection::CardRater
        } else {
            sel
        },
        (ReviewSelection::Dependencies, Direction::Left) => if reveal {
            ReviewSelection::Answer
        } else {
            ReviewSelection::RevealButton
        },
        (ReviewSelection::Dependencies, Direction::Up) => ReviewSelection::Dependents,
        (ReviewSelection::Dependents, Direction::Left) => ReviewSelection::Question,
        (ReviewSelection::Dependents, Direction::Down) => ReviewSelection::Dependencies,
        (ReviewSelection::RevealButton, Direction::Right) => ReviewSelection::Dependencies,
        (ReviewSelection::RevealButton, Direction::Up) => ReviewSelection::Question,
        (ReviewSelection::CardRater, Direction::Right) => ReviewSelection::Dependencies,
        (ReviewSelection::CardRater, Direction::Up) => ReviewSelection::Answer,
        _ => sel,
    }
}

/// The pane of an incremental-reading text that receives the focus when it
/// moves in `dir` from `sel`.
pub open spec fn inc_next(sel: IncSelection, dir: Direction) -> IncSelection {
    match (sel, dir) {
        (IncSelection::Source, Direction::Right) => IncSelection::Extracts,
        (IncSelection::Clozes, Direction::Up) => IncSelection::Extracts,
        (IncSelection::Clozes, Direction::Left) => IncSelection::Source,
        (IncSelection::Extracts, Direction::Left) => IncSelection::Source,
        (IncSelection::Extracts, Direction::Down) => IncSelection::Clozes,
        _ => sel,
    }
}

/// Whether the focus of a card under review agrees with whether its answer
/// is shown: the answer and the rater are focusable only once the answer is
/// revealed, and the reveal button only before.
pub open spec fn review_focus_consistent(sel: ReviewSelection, reveal: bool) -> bool {
    if reveal {
        sel != ReviewSelection::RevealButton
    } else {
        sel != ReviewSelection::Answer && sel != ReviewSelection::CardRater
    }
}

/// Moves the focus of an unfinished card.
pub fn unf_nav(sel: UnfSelection, dir: Direction) -> (next: UnfSelection)
    ensures
        next == unf_next(sel, dir),
{
    match (sel, dir) {
        (UnfSelection::Question, Direction::Right) => UnfSelection::Dependents,
        (UnfSelection::Question, Direction::Down) => UnfSelection::Answer,
        (UnfSelection::Answer, Direction::Right) => UnfSelection::Dependencies,
        (UnfSelection::Answer, Direction::Up) => UnfSelection::Question,
        (UnfSelection::Dependencies, Direction::Left) => UnfSelection::Answer,
        (UnfSelection::Dependencies, Direction::Up) => UnfSelection::Dependents,
        (UnfSelection::Dependents, Direction::Left) => UnfSelection::Question,
        (UnfSelection::Dependents, Direction::Down) => UnfSelection::Dependencies,
        _ => sel,
    }
}

/// Moves the focus of a card under review; `reveal` tells whether its answer
/// is shown.
pub fn rev_nav(sel: ReviewSelection, reveal: bool, dir: Direction) -> (next: ReviewSelection)
    ensures
        next == review_next(sel, reveal, dir),
        review_focus_consistent(sel, reveal) ==> review_focus_consistent(next, reveal),
{
    match (sel, dir) {
        (ReviewSelection::Question, Direction::Right) => ReviewSelection::Dependents,
        (ReviewSelection::Question, Direction::Down) => {
            if reveal {
                ReviewSelection::Answer
            } else {
                ReviewSelection::RevealButton
            }
        },
        (ReviewSelection::Answer, Direction::Right) => ReviewSelection::Dependencies,
        (ReviewSelection::Answer, Direction::Up) => ReviewSelection::Question,
        (ReviewSelection::Answer, Direction::Down) => {
            if reveal {
                ReviewSelection::CardRater
            } else {
                sel
            }
        },
        (ReviewSelection::Dependencies, Direction::Left) => {
            if reveal {
                ReviewSelection::Answer
            } else {
                ReviewSelection::RevealButton
            }
        },
        (ReviewSelection::Dependencies, Direction::Up) => ReviewSelection::Dependents,
        (ReviewSelection::Dependents, Direction::Left) => ReviewSelection::Question,
        (ReviewSelection::Dependents, Direction::Down) => ReviewSelection::Dependencies,
        (ReviewSelection::RevealButton, Direction::Right) => ReviewSelection::Dependencies,
        (ReviewSelection::RevealButton, Direction::Up) => ReviewSelection::Question,
        (ReviewSelection::CardRater, Direction::Right) => ReviewSelection::Dependencies,
        (ReviewSelection::CardRater, Direction::Up) => ReviewSelection::Answer,
        _ => sel,
    }
}

/// Moves the focus of an incremental-reading text.
pub fn inc_nav(sel: IncSelection, dir: Direction) -> (next: IncSelection)
    ensures
        next == inc_next(sel, dir),
{
    match (sel, dir) {
        (IncSelection::Source, Direction::Right) => IncSelection::Extracts,
        (IncSelection::Clozes, Direction::Up) => IncSelection::Extracts,
        (IncSelection::Clozes, Direction::Left) => IncSelection::Source,
        (IncSelection::Extracts, Direction::Left) => IncSelection::Source,
        (IncSelection::Extracts, Direction::Down) => IncSelection::Clozes,
        _ => sel,
    }
}

/// The panes of an unfinished card form a two-by-two grid: every move that
/// changes the focus is undone by the move in the opposite direction.
pub proof fn unf_nav_undo(sel: UnfSelection, dir: Direction)
    ensures
        unf_next(sel, dir) != sel ==> unf_next(unf_next(sel, dir), opposite(dir)) == sel,
{
}

/// On a card under review whose focus agrees with its reveal state, every
/// move that changes the focus is undone by the opposite move, except a move
/// right from the rater: moving left again from the dependencies leads to
/// the answer.
pub proof fn review_nav_undo(sel: ReviewSelection, reveal: bool, dir: Direction)
    requires
        review_focus_consistent(sel, reveal),
        !(sel == ReviewSelection::CardRater && dir == Direction::Right),
    ensures
        review_next(sel, reveal, dir) != sel ==> review_next(
            review_next(sel, reveal, dir),
            reveal,
            opposite(dir),
        ) == sel,
{
}

/// Moving the focus keeps it consistent with the reveal state: while the
/// answer is hidden the focus never reaches the answer or the rater, and once
/// it is shown the focus never reaches the reveal button.
pub proof fn review_nav_keeps_focus_consistent(sel: ReviewSelection, reveal: bool, dir: Direction)
    requires
        review_focus_consistent(sel, reveal),
    ensures
        review_focus_consistent(review_next(sel, reveal, dir), reveal),
{
}

/// In an incremental-reading text every move that changes the focus is
/// undone by the opposite move, except a move left from the clozes: moving
/// right again from the source leads to the extracts.
pub proof fn inc_nav_undo(sel: IncSelection, dir: Direction)
    requires
        !(sel == IncSelection::Clozes && dir == Direction::Left),
    ensures
        inc_next(sel, dir) != sel ==> inc_next(inc_next(sel, dir), opposite(dir)) == sel,
{
}

} // verus!
