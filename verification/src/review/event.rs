use vstd::prelude::*;

use crate::card::{
    grade_digit, is_grade_digit, spec_grade_digit, CardID, CursorPos, IncID, RecallGrade, TopicID,
};
use crate::keys::MyKey;
use crate::review::nav::{
    inc_nav, inc_next, review_focus_consistent, review_next, rev_nav, unf_nav, unf_next,
    IncSelection, ReviewSelection, UnfSelection,
};

verus! {

/// A card that still lacks its answer, as the review view shows it.
#[derive(Debug, PartialEq)]
pub struct UnfCard {
    pub id: CardID,
    /// The text of the question field.
    pub question: String,
    /// The text of the answer field.
    pub answer: String,
    pub selection: UnfSelection,
}

/// A finished (or pending) card under review.
#[derive(Debug, PartialEq)]
pub struct CardReview {
    pub id: CardID,
    /// The text of the question field.
    pub question: String,
    /// The text of the answer field.
    pub answer: String,
    /// Whether the answer is shown.
    pub reveal: bool,
    pub selection: ReviewSelection,
    /// The grade that the rater currently points at, if any.
    pub rater: Option<RecallGrade>,
}

/// An incremental-reading text under review.
#[derive(Debug, PartialEq)]
pub struct IncMode {
    pub id: IncID,
    /// The text of the source field.
    pub source: String,
    /// The cursor of the source field.
    pub cursor: CursorPos,
    pub selection: IncSelection,
}

/// What the review tab currently shows.
#[derive(Debug, PartialEq)]
pub enum ReviewMode {
    Done,
    Unfinished(UnfCard),
    Pending(CardReview),
    Review(CardReview),
    IncRead(IncMode),
}

/// What a key press in the review tab asks the application to do once the
/// view itself has handled it.
#[derive(Debug, PartialEq)]
pub enum Action {
    IncNext(String, TopicID, CursorPos),
    IncDone(String, TopicID, CursorPos),
    Review(String, String, CardID, char),
    SkipUnf(String, String, CardID),
    SkipRev(String, String, CardID),
    CompleteUnf(String, String, CardID),
    NewDependency(CardID),
    NewDependent(CardID),
    AddDependency(CardID),
    AddDependent(CardID),
    AddChild(IncID),
    PlayBackAudio(CardID),
    Quit,
    Refresh,
    Nothing,
}

/// The widget of the review view that a key press is handed on to.
#[derive(Clone, Copy, Debug, PartialEq, Eq, Structural)]
pub enum KeyTarget {
    Nothing,
    Question(MyKey),
    Answer(MyKey),
    CardRater(MyKey),
    Source(MyKey),
}

/// The outcome of a key press in the review tab: the key goes to `target`
/// first, the card `suspend` names (if any) is suspended next, and `action`
/// is carried out last.
#[derive(Debug, PartialEq)]
pub struct ReviewStep {
    pub action: Action,
    pub suspend: Option<CardID>,
    pub target: KeyTarget,
}

/// A step that only carries out `action`.
pub open spec fn act(action: Action) -> ReviewStep {
    ReviewStep { action, suspend: None, target: KeyTarget::Nothing }
}

/// A step that only hands the key to `target`.
pub open spec fn pass_on(target: KeyTarget) -> ReviewStep {
    ReviewStep { action: Action::Nothing, suspend: None, target }
}

/// The step taken for `key` when the review is done: `Alt+q` quits and
/// `Alt+r` loads the review list again.
pub open spec fn done_step(key: MyKey) -> ReviewStep {
    match key {
        MyKey::Alt(c) => if c == 'q' {
            act(Action::Quit)
        } else if c == 'r' {
            act(Action::Refresh)
        } else {
            act(Action::Nothing)
        },
        _ => act(Action::Nothing),
    }
}

/// The step taken for a key other than a move of the focus on an unfinished
/// card.
pub open spec fn unf_key_step(unf: UnfCard, key: MyKey) -> ReviewStep {
    let q = unf.question;
    let a = unf.answer;
    let id = unf.id;
    let fallback = match unf.selection {
        UnfSelection::Question => pass_on(KeyTarget::Question(key)),
        UnfSelection::Answer => pass_on(KeyTarget::Answer(key)),
        _ => act(Action::Nothing),
    };
    match key {
        MyKey::Alt(c) => if c == 'q' {
            act(Action::Quit)
        } else if c == 's' {
            act(Action::SkipUnf(q, a, id))
        } else if c == 'f' {
            act(Action::CompleteUnf(q, a, id))
        } else if c == 't' {
            act(Action::NewDependent(id))
        } else if c == 'y' {
            act(Action::NewDependency(id))
        } else if c == 'T' {
            act(Action::AddDependent(id))
        } else if c == 'Y' {
            act(Action::AddDependency(id))
        } else if c == 'i' {
            ReviewStep {
                action: Action::SkipRev(q, a, id),
                suspend: Some(id),
                target: KeyTarget::Nothing,
            }
        } else {
            fallback
        },
        _ => fallback,
    }
}

/// The card and the step after `key` on an unfinished card.
pub open spec fn unf_step(unf: UnfCard, key: MyKey) -> (UnfCard, ReviewStep) {
    match key {
        MyKey::Nav(dir) => (
            UnfCard { selection: unf_next(unf.selection, dir), ..unf },
            act(Action::Nothing),
        ),
        _ => (unf, unf_key_step(unf, key)),
    }
}

/// The step taken when the rater of `rev` is confirmed with space or enter:
/// the grade it points at is given, or the card is skipped when it points at
/// none.
pub open spec fn rater_confirm_step(rev: CardReview) -> ReviewStep {
    match rev.rater {
        Some(grade) => act(
            Action::Review(rev.question, rev.answer, rev.id, spec_grade_digit(grade)),
        ),
        None => act(Action::SkipRev(rev.question, rev.answer, rev.id)),
    }
}

/// The card and the step after a key other than a move of the focus, or the
/// `Alt` commands, on a card under review.
pub open spec fn review_pane_step(rev: CardReview, key: MyKey) -> (CardReview, ReviewStep) {
    let confirm = key == MyKey::Char(' ') || key == MyKey::Enter;
    match rev.selection {
        ReviewSelection::RevealButton => if confirm {
            (
                CardReview { reveal: true, selection: ReviewSelection::CardRater, ..rev },
                act(Action::PlayBackAudio(rev.id)),
            )
        } else {
            (rev, act(Action::Nothing))
        },
        ReviewSelection::Question => (rev, pass_on(KeyTarget::Question(key))),
        ReviewSelection::Answer => (rev, pass_on(KeyTarget::Answer(key))),
        ReviewSelection::CardRater => match key {
            MyKey::Char(c) => if is_grade_digit(c) {
                (rev, act(Action::Review(rev.question, rev.answer, rev.id, c)))
            } else if c == ' ' {
                (rev, rater_confirm_step(rev))
            } else {
                (rev, pass_on(KeyTarget::CardRater(key)))
            },
            MyKey::Enter => (rev, rater_confirm_step(rev)),
            _ => (rev, pass_on(KeyTarget::CardRater(key))),
        },
        _ => (rev, act(Action::Nothing)),
    }
}

/// The card and the step after `key` on a card under review.
pub open spec fn review_step(rev: CardReview, key: MyKey) -> (CardReview, ReviewStep) {
    let q = rev.question;
    let a = rev.answer;
    let id = rev.id;
    match key {
        MyKey::Nav(dir) => (
            CardReview { selection: review_next(rev.selection, rev.reveal, dir), ..rev },
            act(Action::Nothing),
        ),
        MyKey::Alt(c) => if c == 'q' {
            (rev, act(Action::Quit))
        } else if c == 's' {
            (rev, act(Action::SkipRev(q, a, id)))
        } else if c == 't' {
            (rev, act(Action::NewDependent(id)))
        } else if c == 'y' {
            (rev, act(Action::NewDependency(id)))
        } else if c == 'T' {
            (rev, act(Action::AddDependent(id)))
        } else if c == 'Y' {
            (rev, act(Action::AddDependency(id)))
        } else if c == 'i' {
            (
                rev,
                ReviewStep {
                    action: Action::SkipRev(q, a, id),
                    suspend: Some(id),
                    target: KeyTarget::Nothing,
                },
            )
        } else {
            review_pane_step(rev, key)
        },
        _ => review_pane_step(rev, key),
    }
}

/// The text and the step after `key` on an incremental-reading text.
pub open spec fn inc_step(inc: IncMode, key: MyKey) -> (IncMode, ReviewStep) {
    let fallback = match (inc.selection, key) {
        (IncSelection::Source, MyKey::Alt(c)) => if c == 'a' {
            act(Action::AddChild(inc.id))
        } else {
            pass_on(KeyTarget::Source(key))
        },
        (IncSelection::Source, _) => pass_on(KeyTarget::Source(key)),
        _ => act(Action::Nothing),
    };
    match key {
        MyKey::Nav(dir) => (
            IncMode { selection: inc_next(inc.selection, dir), ..inc },
            act(Action::Nothing),
        ),
        MyKey::Alt(c) => if c == 'q' {
            (inc, act(Action::Quit))
        } else if c == 'd' {
            (inc, act(Action::IncDone(inc.source, inc.id, inc.cursor)))
        } else if c == 's' {
            (inc, act(Action::IncNext(inc.source, inc.id, inc.cursor)))
        } else {
            (inc, fallback)
        },
        _ => (inc, fallback),
    }
}

/// The view and the step after `key` in the review tab.
pub open spec fn review_transition(mode: ReviewMode, key: MyKey) -> (ReviewMode, ReviewStep) {
    match mode {
        ReviewMode::Done => (ReviewMode::Done, done_step(key)),
        ReviewMode::Unfinished(unf) => {
            let (next, step) = unf_step(unf, key);
            (ReviewMode::Unfinished(next), step)
        },
        ReviewMode::Pending(rev) => {
            let (next, step) = review_step(rev, key);
            (ReviewMode::Pending(next), step)
        },
        ReviewMode::Review(rev) => {
            let (next, step) = review_step(rev, key);
            (ReviewMode::Review(next), step)
        },
        ReviewMode::IncRead(inc) => {
            let (next, step) = inc_step(inc, key);
            (ReviewMode::IncRead(next), step)
        },
    }
}

/// Whether every grade that `action` gives is one of the rating digits.
pub open spec fn grades_are_digits(action: Action) -> bool {
    match action {
        Action::Review(_, _, _, c) => is_grade_digit(c),
        _ => true,
    }
}

/// Handles a key press when the review is done.
pub fn mode_done(key: MyKey) -> (step: ReviewStep)
    ensures
        step == done_step(key),
{
    let mut action = Action::Nothing;
    match key {
        MyKey::Alt(c) => {
            if c == 'q' {
                action = Action::Quit;
            } else if c == 'r' {
                action = Action::Refresh;
            }
        },
        _ => {},
    }
    ReviewStep { action, suspend: None, target: KeyTarget::Nothing }
}

/// Handles a key press on an unfinished card: moves the focus, turns the
/// `Alt` commands into actions, and hands other keys to the question or the
/// answer field when one of them has the focus.
pub fn mode_unfinished(unf: &mut UnfCard, key: MyKey) -> (step: ReviewStep)
    ensures
        (*final(unf), step) == unf_step(*old(unf), key),
{
    if let MyKey::Nav(dir) = key {
        unf.selection = unf_nav(unf.selection, dir);
        return ReviewStep { action: Action::Nothing, suspend: None, target: KeyTarget::Nothing };
    }
    if let MyKey::Alt(c) = key {
        let id = unf.id;
        if c == 'q' {
            return ReviewStep { action: Action::Quit, suspend: None, target: KeyTarget::Nothing };
        } else if c == 's' {
            let action = Action::SkipUnf(unf.question.clone(), unf.answer.clone(), id);
            return ReviewStep { action, suspend: None, target: KeyTarget::Nothing };
        } else if c == 'f' {
            let action = Action::CompleteUnf(unf.question.clone(), unf.answer.clone(), id);
            return ReviewStep { action, suspend: None, target: KeyTarget::Nothing };
        } else if c == 't' {
            return ReviewStep {
                action: Action::NewDependent(id),
                suspend: None,
                target: KeyTarget::Nothing,
            };
        } else if c == 'y' {
            return ReviewStep {
                action: Action::NewDependency(id),
                suspend: None,
                target: KeyTarget::Nothing,
            };
        } else if c == 'T' {
            return ReviewStep {
                action: Action::AddDependent(id),
                suspend: None,
                target: KeyTarget::Nothing,
            };
        } else if c == 'Y' {
            return ReviewStep {
                action: Action::AddDependency(id),
                suspend: None,
                target: KeyTarget::Nothing,
            };
        } else if c == 'i' {
            let action = Action::SkipRev(unf.question.clone(), unf.answer.clone(), id);
            return ReviewStep { action, suspend: Some(id), target: KeyTarget::Nothing };
        }
    }
    let target = match unf.selection {
        UnfSelection::Question => KeyTarget::Question(key),
        UnfSelection::Answer => KeyTarget::Answer(key),
        _ => KeyTarget::Nothing,
    };
    ReviewStep { action: Action::Nothing, suspend: None, target }
}

/// The action that confirms the rater of `rev`.
fn confirm_rater(rev: &CardReview) -> (action: Action)
    ensures
        act(action) == rater_confirm_step(*rev),
        grades_are_digits(action),
{
    match rev.rater {
        Some(grade) => Action::Review(
            rev.question.clone(),
            rev.answer.clone(),
            rev.id,
            grade_digit(grade),
        ),
        None => Action::SkipRev(rev.question.clone(), rev.answer.clone(), rev.id),
    }
}

/// Handles a key press on a card under review: moves the focus, turns the
/// `Alt` commands into actions, reveals the answer from the reveal button,
/// rates the card from the rater, and hands other keys to the focused field.
pub fn mode_review(rev: &mut CardReview, key: MyKey) -> (step: ReviewStep)
    ensures
        (*final(rev), step) == review_step(*old(rev), key),
        grades_are_digits(step.action),
        review_focus_consistent(old(rev).selection, old(rev).reveal) ==> review_focus_consistent(
            final(rev).selection,
            final(rev).reveal,
        ),
{
    let id = rev.id;
    match key {
        MyKey::Nav(dir) => {
            rev.selection = rev_nav(rev.selection, rev.reveal, dir);
            return ReviewStep { action: Action::Nothing, suspend: None, target: KeyTarget::Nothing };
        },
        MyKey::Alt(c) => {
            if c == 'q' {
                return ReviewStep {
                    action: Action::Quit,
                    suspend: None,
                    target: KeyTarget::Nothing,
                };
            } else if c == 's' {
                let action = Action::SkipRev(rev.question.clone(), rev.answer.clone(), id);
                return ReviewStep { action, suspend: None, target: KeyTarget::Nothing };
            } else if c == 't' {
                return ReviewStep {
                    action: Action::NewDependent(id),
                    suspend: None,
                    target: KeyTarget::Nothing,
                };
            } else if c == 'y' {
                return ReviewStep {
                    action: Action::NewDependency(id),
                    suspend: None,
                    target: KeyTarget::Nothing,
                };
            } else if c == 'T' {
                return ReviewStep {
                    action: Action::AddDependent(id),
                    suspend: None,
                    target: KeyTarget::Nothing,
                };
            } else if c == 'Y' {
                return ReviewStep {
                    action: Action::AddDependency(id),
                    suspend: None,
                    target: KeyTarget::Nothing,
                };
            } else if c == 'i' {
                let action = Action::SkipRev(rev.question.clone(), rev.answer.clone(), id);
                return ReviewStep { action, suspend: Some(id), target: KeyTarget::Nothing };
            }
        },
        _ => {},
    }
    let confirm = match key {
        MyKey::Char(c) => c == ' ',
        MyKey::Enter => true,
        _ => false,
    };
    match rev.selection {
        ReviewSelection::RevealButton => {
            if confirm {
                rev.reveal = true;
                rev.selection = ReviewSelection::CardRater;
                ReviewStep {
                    action: Action::PlayBackAudio(id),
                    suspend: None,
                    target: KeyTarget::Nothing,
                }
            } else {
                ReviewStep { action: Action::Nothing, suspend: None, target: KeyTarget::Nothing }
            }
        },
        ReviewSelection::Question => ReviewStep {
            action: Action::Nothing,
            suspend: None,
            target: KeyTarget::Question(key),
        },
        ReviewSelection::Answer => ReviewStep {
            action: Action::Nothing,
            suspend: None,
            target: KeyTarget::Answer(key),
        },
        ReviewSelection::CardRater => {
            if let MyKey::Char(c) = key {
                if '1' <= c && c <= '4' {
                    let action = Action::Review(rev.question.clone(), rev.answer.clone(), id, c);
                    return ReviewStep { action, suspend: None, target: KeyTarget::Nothing };
                }
            }
            if confirm {
                let action = confirm_rater(rev);
                ReviewStep { action, suspend: None, target: KeyTarget::Nothing }
            } else {
                ReviewStep {
                    action: Action::Nothing,
                    suspend: None,
                    target: KeyTarget::CardRater(key),
                }
            }
        },
        _ => ReviewStep { action: Action::Nothing, suspend: None, target: KeyTarget::Nothing },
    }
}

/// Handles a key press on an incremental-reading text: moves the focus,
/// turns the `Alt` commands into actions, and hands other keys to the source
/// text when it has the focus.
pub fn mode_inc(inc: &mut IncMode, key: MyKey) -> (step: ReviewStep)
    ensures
        (*final(inc), step) == inc_step(*old(inc), key),
{
    if let MyKey::Nav(dir) = key {
        inc.selection = inc_nav(inc.selection, dir);
        return ReviewStep { action: Action::Nothing, suspend: None, target: KeyTarget::Nothing };
    }
    if let MyKey::Alt(c) = key {
        if c == 'q' {
            return ReviewStep { action: Action::Quit, suspend: None, target: KeyTarget::Nothing };
        } else if c == 'd' {
            let action = Action::IncDone(inc.source.clone(), inc.id, inc.cursor);
            return ReviewStep { action, suspend: None, target: KeyTarget::Nothing };
        } else if c == 's' {
            let action = Action::IncNext(inc.source.clone(), inc.id, inc.cursor);
            return ReviewStep { action, suspend: None, target: KeyTarget::Nothing };
        }
    }
    match inc.selection {
        IncSelection::Source => {
            if let MyKey::Alt(c) = key {
                if c == 'a' {
                    return ReviewStep {
                        action: Action::AddChild(inc.id),
                        suspend: None,
                        target: KeyTarget::Nothing,
                    };
                }
            }
            ReviewStep { action: Action::Nothing, suspend: None, target: KeyTarget::Source(key) }
        },
        _ => ReviewStep { action: Action::Nothing, suspend: None, target: KeyTarget::Nothing },
    }
}

/// Handles a key press in the review tab. The view moves its focus or
/// reveals an answer in place; what else the key asks for comes back as a
/// step for the application to carry out.
pub fn review_event(mode: &mut ReviewMode, key: MyKey) -> (step: ReviewStep)
    ensures
        (*final(mode), step) == review_transition(*old(mode), key),
        grades_are_digits(step.action),
{
    match mode {
        ReviewMode::Done => mode_done(key),
        ReviewMode::Unfinished(unf) => mode_unfinished(unf, key),
        ReviewMode::Pending(rev) => mode_review(rev, key),
        ReviewMode::Review(rev) => mode_review(rev, key),
        ReviewMode::IncRead(inc) => mode_inc(inc, key),
    }
}

} // verus!
