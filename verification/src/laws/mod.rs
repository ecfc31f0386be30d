pub mod keys;
pub mod nav;
pub mod plan;
pub mod search;

use vstd::prelude::*;

use crate::card::{is_grade_digit, spec_grade_digit, spec_grade_of_digit, CardID, RecallGrade};
use crate::find_card::{chosen_link, find_card_after, CardPurpose, FindCardWidget, Link};
use crate::keys::MyKey;
use crate::review::dispatch::{plans, Command};
use crate::review::event::{
    act, review_step, review_transition, Action, CardReview, ReviewMode,
};
use crate::review::nav::{review_focus_consistent, ReviewSelection};

verus! {

/// The card that the review tab shows, unless it shows a reading text or
/// nothing.
pub open spec fn reviewed_card(mode: ReviewMode) -> Option<CardID> {
    match mode {
        ReviewMode::Unfinished(unf) => Some(unf.id),
        ReviewMode::Pending(rev) => Some(rev.id),
        ReviewMode::Review(rev) => Some(rev.id),
        _ => None,
    }
}

/// `Alt+q` quits from every view of the review tab and leaves the view as
/// it is.
pub proof fn alt_q_quits_everywhere(mode: ReviewMode)
    ensures
        review_transition(mode, MyKey::Alt('q')) == (mode, act(Action::Quit)),
{
}

/// A card under review whose focus agrees with whether its answer is shown
/// keeps that agreement after any key press.
pub proof fn review_keeps_focus_consistent(rev: CardReview, key: MyKey)
    requires
        review_focus_consistent(rev.selection, rev.reveal),
    ensures
        review_focus_consistent(review_step(rev, key).0.selection, review_step(rev, key).0.reveal),
{
}

/// `Alt+y` on a card adds an existing card as its dependency: it opens the
/// card search for that purpose, and confirming the search with a card
/// highlighted links the shown card as the dependent of the chosen one.
pub proof fn alt_y_adds_existing_dependency(
    mode: ReviewMode,
    card_is_pending: bool,
    cmds: Seq<Command>,
    widget: FindCardWidget,
    i: usize,
)
    requires
        reviewed_card(mode) is Some,
        plans(review_transition(mode, MyKey::Alt('y')).1.action, card_is_pending, cmds),
        cmds[0] matches Command::FindCard(_, purpose) && widget.purpose == purpose,
        widget.list.selected == Some(i),
        i < widget.list.items@.len(),
    ensures
        cmds.len() == 1,
        widget.purpose == CardPurpose::NewDependency(reviewed_card(mode).unwrap()),
        chosen_link(widget) == Some(
            Link {
                dependent: reviewed_card(mode).unwrap(),
                dependency: widget.list.items@[i as int].id,
            },
        ),
{
}

/// `Alt+t` on a card adds an existing card as its dependent: it opens the
/// card search for that purpose, and confirming the search with a card
/// highlighted links the chosen card as the dependent of the shown one.
pub proof fn alt_t_adds_existing_dependent(
    mode: ReviewMode,
    card_is_pending: bool,
    cmds: Seq<Command>,
    widget: FindCardWidget,
    i: usize,
)
    requires
        reviewed_card(mode) is Some,
        plans(review_transition(mode, MyKey::Alt('t')).1.action, card_is_pending, cmds),
        cmds[0] matches Command::FindCard(_, purpose) && widget.purpose == purpose,
        widget.list.selected == Some(i),
        i < widget.list.items@.len(),
    ensures
        cmds.len() == 1,
        widget.purpose == CardPurpose::NewDependent(reviewed_card(mode).unwrap()),
        chosen_link(widget) == Some(
            Link {
                dependent: widget.list.items@[i as int].id,
                dependency: reviewed_card(mode).unwrap(),
            },
        ),
{
}

/// Confirming the rater with enter reviews the card with the grade the
/// rater points at; with no grade selected the card is skipped, its fields
/// stored and nothing reviewed.
pub proof fn rater_confirm_reviews_selected_grade(
    rev: CardReview,
    card_is_pending: bool,
    cmds: Seq<Command>,
)
    requires
        rev.selection == ReviewSelection::CardRater,
        plans(review_step(rev, MyKey::Enter).1.action, card_is_pending, cmds),
    ensures
        rev.rater matches Some(grade) ==> cmds.contains(Command::NewReview(rev.id, grade)),
        rev.rater is None ==> cmds =~= seq![
            Command::RandomMode,
            Command::UpdateQuestion(rev.id, rev.question),
            Command::UpdateAnswer(rev.id, rev.answer),
        ],
{
    if let Some(grade) = rev.rater {
        let at: int = if card_is_pending { 1 } else { 0 };
        assert(spec_grade_of_digit(spec_grade_digit(grade)) == grade);
        assert(cmds[at] == Command::NewReview(rev.id, grade));
    }
}

/// Pressing a rating digit on the rater reviews the card with the grade of
/// that digit: `1` is the worst grade and `4` the best.
pub proof fn digit_reviews_its_grade(rev: CardReview, c: char, card_is_pending: bool, cmds: Seq<
    Command,
>)
    requires
        rev.selection == ReviewSelection::CardRater,
        is_grade_digit(c),
        plans(review_step(rev, MyKey::Char(c)).1.action, card_is_pending, cmds),
    ensures
        cmds.contains(Command::NewReview(rev.id, spec_grade_of_digit(c))),
        spec_grade_of_digit('1') == RecallGrade::NoRecall,
        spec_grade_of_digit('4') == RecallGrade::Easy,
{
    let at: int = if card_is_pending { 1 } else { 0 };
    assert(cmds[at] == Command::NewReview(rev.id, spec_grade_of_digit(c)));
}

/// `Alt+i` suspends the shown card and then skips it, storing its fields;
/// on a reading text or an empty review it suspends nothing.
pub proof fn alt_i_suspends_shown_card(mode: ReviewMode)
    ensures
        review_transition(mode, MyKey::Alt('i')).1.suspend == reviewed_card(mode),
        reviewed_card(mode) is Some ==> review_transition(mode, MyKey::Alt('i')).1.action
            is SkipRev,
{
}

/// Whether `after` shows the same item as `before`, with the same texts:
/// a key press moves the focus or reveals the answer, but never switches to
/// another card or text, and the texts change only through their fields.
pub open spec fn same_item(before: ReviewMode, after: ReviewMode) -> bool {
    match (before, after) {
        (ReviewMode::Done, ReviewMode::Done) => true,
        (ReviewMode::Unfinished(a), ReviewMode::Unfinished(b)) => a.id == b.id && a.question
            == b.question && a.answer == b.answer,
        (ReviewMode::Pending(a), ReviewMode::Pending(b)) => a.id == b.id && a.question
            == b.question && a.answer == b.answer && a.rater == b.rater,
        (ReviewMode::Review(a), ReviewMode::Review(b)) => a.id == b.id && a.question == b.question
            && a.answer == b.answer && a.rater == b.rater,
        (ReviewMode::IncRead(a), ReviewMode::IncRead(b)) => a.id == b.id && a.source == b.source
            && a.cursor == b.cursor,
        _ => false,
    }
}

/// A key press in the review tab keeps showing the same item; moving on to
/// another item is left to the commands of its action.
pub proof fn review_event_keeps_item(mode: ReviewMode, key: MyKey)
    ensures
        same_item(mode, review_transition(mode, key).0),
        reviewed_card(review_transition(mode, key).0) == reviewed_card(mode),
{
}

/// A key press in the card search keeps its prompt, its purpose, its search
/// text and the listed cards; only the highlight and whether the search is
/// open change.
pub proof fn find_card_keeps_search(widget: FindCardWidget, key: MyKey)
    ensures
        find_card_after(widget, key).prompt == widget.prompt,
        find_card_after(widget, key).purpose == widget.purpose,
        find_card_after(widget, key).searchterm == widget.searchterm,
        find_card_after(widget, key).list.items == widget.list.items,
{
}

} // verus!
