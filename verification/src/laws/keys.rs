use vstd::prelude::*;

use crate::card::{is_grade_digit, spec_grade_digit, spec_grade_of_digit, RecallGrade};
use crate::keys::{Direction, MyKey};
use crate::review::event::{
    done_step, inc_step, review_step, review_transition, unf_step, Action, CardReview, IncMode,
    KeyTarget, ReviewMode, ReviewStep, UnfCard,
};
use crate::review::nav::{
    inc_next, review_next, unf_next, IncSelection, ReviewSelection, UnfSelection,
};

verus! {

/// The step that carries out `action` and nothing else.
pub open spec fn just(action: Action) -> ReviewStep {
    ReviewStep { action, suspend: None, target: KeyTarget::Nothing }
}

/// The step that hands the key to `target` and does nothing else.
pub open spec fn handed_to(target: KeyTarget) -> ReviewStep {
    ReviewStep { action: Action::Nothing, suspend: None, target }
}

/// Whether `key` is one of the `Alt` commands of a card (quit, skip, finish,
/// the four dependency commands, suspend).
pub open spec fn is_card_command(key: MyKey) -> bool {
    match key {
        MyKey::Alt(c) => c == 'q' || c == 's' || c == 'f' || c == 't' || c == 'y' || c == 'T' || c
            == 'Y' || c == 'i',
        _ => false,
    }
}

/// Whether `key` confirms a button: space or enter.
pub open spec fn is_confirm(key: MyKey) -> bool {
    key == MyKey::Char(' ') || key == MyKey::Enter
}

/// When the review is done, `Alt+q` quits, `Alt+r` loads the review list
/// again, and every other key does nothing.
pub proof fn done_keys(key: MyKey)
    ensures
        key == MyKey::Alt('q') ==> done_step(key) == just(Action::Quit),
        key == MyKey::Alt('r') ==> done_step(key) == just(Action::Refresh),
        key != MyKey::Alt('q') && key != MyKey::Alt('r') ==> done_step(key) == just(
            Action::Nothing,
        ),
{
}

/// On an unfinished card the `Alt` commands do the same whatever pane has
/// the focus, leave the card as it is, and pass no key on: `Alt+q` quits,
/// `Alt+s` skips the card, `Alt+f` finishes it, `Alt+t`/`Alt+y` search for an
/// existing dependent/dependency, `Alt+T`/`Alt+Y` add a new dependent/
/// dependency, and `Alt+i` suspends the card and skips it. Skipping,
/// finishing and suspending carry the card's question and answer.
pub proof fn unfinished_alt_commands(unf: UnfCard)
    ensures
        unf_step(unf, MyKey::Alt('q')) == (unf, just(Action::Quit)),
        unf_step(unf, MyKey::Alt('s')) == (
            unf,
            just(Action::SkipUnf(unf.question, unf.answer, unf.id)),
        ),
        unf_step(unf, MyKey::Alt('f')) == (
            unf,
            just(Action::CompleteUnf(unf.question, unf.answer, unf.id)),
        ),
        unf_step(unf, MyKey::Alt('t')) == (unf, just(Action::NewDependent(unf.id))),
        unf_step(unf, MyKey::Alt('y')) == (unf, just(Action::NewDependency(unf.id))),
        unf_step(unf, MyKey::Alt('T')) == (unf, just(Action::AddDependent(unf.id))),
        unf_step(unf, MyKey::Alt('Y')) == (unf, just(Action::AddDependency(unf.id))),
        unf_step(unf, MyKey::Alt('i')) == (
            unf,
            ReviewStep {
                action: Action::SkipRev(unf.question, unf.answer, unf.id),
                suspend: Some(unf.id),
                target: KeyTarget::Nothing,
            },
        ),
{
}

/// On an unfinished card every key that is neither a move of the focus nor
/// a card command leaves the card as it is and goes to the focused text
/// field: the question or the answer. On the dependency panes it does
/// nothing.
pub proof fn unfinished_keys_reach_focused_field(unf: UnfCard, key: MyKey)
    requires
        !(key is Nav),
        !is_card_command(key),
    ensures
        unf.selection == UnfSelection::Question ==> unf_step(unf, key) == (
            unf,
            handed_to(KeyTarget::Question(key)),
        ),
        unf.selection == UnfSelection::Answer ==> unf_step(unf, key) == (
            unf,
            handed_to(KeyTarget::Answer(key)),
        ),
        (unf.selection == UnfSelection::Dependencies || unf.selection == UnfSelection::Dependents)
            ==> unf_step(unf, key) == (unf, just(Action::Nothing)),
{
}

/// On a card under review the `Alt` commands do the same whatever pane has
/// the focus and whether the answer is shown, leave the card as it is, and
/// pass no key on. A card under review cannot be finished: that command
/// belongs to unfinished cards.
pub proof fn review_alt_commands(rev: CardReview)
    ensures
        review_step(rev, MyKey::Alt('q')) == (rev, just(Action::Quit)),
        review_step(rev, MyKey::Alt('s')) == (
            rev,
            just(Action::SkipRev(rev.question, rev.answer, rev.id)),
        ),
        review_step(rev, MyKey::Alt('t')) == (rev, just(Action::NewDependent(rev.id))),
        review_step(rev, MyKey::Alt('y')) == (rev, just(Action::NewDependency(rev.id))),
        review_step(rev, MyKey::Alt('T')) == (rev, just(Action::AddDependent(rev.id))),
        review_step(rev, MyKey::Alt('Y')) == (rev, just(Action::AddDependency(rev.id))),
        review_step(rev, MyKey::Alt('i')) == (
            rev,
            ReviewStep {
                action: Action::SkipRev(rev.question, rev.answer, rev.id),
                suspend: Some(rev.id),
                target: KeyTarget::Nothing,
            },
        ),
        !(review_step(rev, MyKey::Alt('f')).1.action is CompleteUnf),
{
}

/// Space or enter on the reveal button shows the answer, moves the focus to
/// the rater and plays the answer's audio; nothing else about the card
/// changes.
pub proof fn reveal_button_shows_answer(rev: CardReview, key: MyKey)
    requires
        rev.selection == ReviewSelection::RevealButton,
        is_confirm(key),
    ensures
        review_step(rev, key) == (
            CardReview { reveal: true, selection: ReviewSelection::CardRater, ..rev },
            just(Action::PlayBackAudio(rev.id)),
        ),
{
}

/// The answer is revealed only by confirming the reveal button, and once
/// shown it stays shown.
pub proof fn answer_revealed_only_by_button(rev: CardReview, key: MyKey)
    ensures
        rev.reveal ==> review_step(rev, key).0.reveal,
        review_step(rev, key).0.reveal != rev.reveal ==> rev.selection
            == ReviewSelection::RevealButton && is_confirm(key),
{
}

/// Space and enter confirm the rater alike. Pointing at a grade, they rate
/// the card with that grade; pointing at none, they skip the card: the
/// fields are stored and nothing is rated.
pub proof fn rater_confirm(rev: CardReview, key: MyKey)
    requires
        rev.selection == ReviewSelection::CardRater,
        is_confirm(key),
    ensures
        review_step(rev, key) == review_step(rev, MyKey::Enter),
        review_step(rev, key).0 == rev,
        review_step(rev, key).1.suspend is None,
        review_step(rev, key).1.target == KeyTarget::Nothing,
        rev.rater is None ==> review_step(rev, key).1.action == Action::SkipRev(
            rev.question,
            rev.answer,
            rev.id,
        ),
        rev.rater matches Some(grade) ==> (review_step(rev, key).1.action matches Action::Review(
            q,
            a,
            id,
            c,
        ) && q == rev.question && a == rev.answer && id == rev.id && is_grade_digit(c)
            && spec_grade_of_digit(c) == grade),
{
}

/// A rating digit on the rater rates the card with that digit.
pub proof fn rater_digit_rates(rev: CardReview, c: char)
    requires
        rev.selection == ReviewSelection::CardRater,
        is_grade_digit(c),
    ensures
        review_step(rev, MyKey::Char(c)) == (
            rev,
            just(Action::Review(rev.question, rev.answer, rev.id, c)),
        ),
{
}

/// A card is rated only from the rater, with the card's own texts and id,
/// and only with a rating digit: either the digit pressed, or, on space or
/// enter, the digit of the grade the rater points at.
pub proof fn ratings_come_from_the_rater(rev: CardReview, key: MyKey)
    ensures
        review_step(rev, key).1.action matches Action::Review(q, a, id, c) ==> {
            &&& q == rev.question
            &&& a == rev.answer
            &&& id == rev.id
            &&& rev.selection == ReviewSelection::CardRater
            &&& is_grade_digit(c)
            &&& (key == MyKey::Char(c) || (is_confirm(key) && rev.rater == Some(
                spec_grade_of_digit(c),
            )))
        },
{
}

/// On a card under review every key that is neither a move of the focus nor
/// a card command leaves the card as it is and goes to the focused text
/// field, or does nothing on the dependency panes.
pub proof fn review_keys_reach_focused_field(rev: CardReview, key: MyKey)
    requires
        !(key is Nav),
        !is_card_command(key),
    ensures
        rev.selection == ReviewSelection::Question ==> review_step(rev, key) == (
            rev,
            handed_to(KeyTarget::Question(key)),
        ),
        rev.selection == ReviewSelection::Answer ==> review_step(rev, key) == (
            rev,
            handed_to(KeyTarget::Answer(key)),
        ),
        (rev.selection == ReviewSelection::Dependencies || rev.selection
            == ReviewSelection::Dependents) ==> review_step(rev, key) == (rev, just(Action::Nothing)),
{
}

/// On the rater, keys other than the rating digits, space, enter and the
/// card commands go to the rater itself.
pub proof fn other_rater_keys_reach_rater(rev: CardReview, key: MyKey)
    requires
        rev.selection == ReviewSelection::CardRater,
        !(key is Nav),
        !is_card_command(key),
        !is_confirm(key),
        !(key matches MyKey::Char(c) && is_grade_digit(c)),
    ensures
        review_step(rev, key) == (rev, handed_to(KeyTarget::CardRater(key))),
{
}

/// On a reading text `Alt+q` quits, `Alt+d` marks the text done and `Alt+s`
/// moves on to the next item, whatever pane has the focus; marking done and
/// moving on carry the text and its cursor. The text is left as it is.
pub proof fn reading_alt_commands(inc: IncMode)
    ensures
        inc_step(inc, MyKey::Alt('q')) == (inc, just(Action::Quit)),
        inc_step(inc, MyKey::Alt('d')) == (
            inc,
            just(Action::IncDone(inc.source, inc.id, inc.cursor)),
        ),
        inc_step(inc, MyKey::Alt('s')) == (
            inc,
            just(Action::IncNext(inc.source, inc.id, inc.cursor)),
        ),
{
}

/// On a reading text, `Alt+a` extracts a new card from the source when the
/// source has the focus, and every other key that is not a move or a
/// command goes to the source; with the focus on the extracts or clozes
/// such keys do nothing.
pub proof fn reading_source_keys(inc: IncMode, key: MyKey)
    requires
        !(key is Nav),
        key != MyKey::Alt('q'),
        key != MyKey::Alt('d'),
        key != MyKey::Alt('s'),
    ensures
        inc.selection == IncSelection::Source && key == MyKey::Alt('a') ==> inc_step(inc, key) == (
            inc,
            just(Action::AddChild(inc.id)),
        ),
        inc.selection == IncSelection::Source && key != MyKey::Alt('a') ==> inc_step(inc, key) == (
            inc,
            handed_to(KeyTarget::Source(key)),
        ),
        inc.selection != IncSelection::Source ==> inc_step(inc, key) == (inc, just(Action::Nothing)),
{
}

/// A move of the focus only moves the focus, to the pane the navigation
/// of the view names, and asks for nothing else; the answer stays shown or
/// hidden.
pub proof fn nav_keys_only_move_focus(
    unf: UnfCard,
    rev: CardReview,
    inc: IncMode,
    dir: Direction,
)
    ensures
        unf_step(unf, MyKey::Nav(dir)) == (
            UnfCard { selection: unf_next(unf.selection, dir), ..unf },
            just(Action::Nothing),
        ),
        review_step(rev, MyKey::Nav(dir)) == (
            CardReview { selection: review_next(rev.selection, rev.reveal, dir), ..rev },
            just(Action::Nothing),
        ),
        inc_step(inc, MyKey::Nav(dir)) == (
            IncMode { selection: inc_next(inc.selection, dir), ..inc },
            just(Action::Nothing),
        ),
{
}

/// The review tab hands each key to the view it shows, and keeps showing
/// that kind of view; a pending card is handled exactly like a card due for
/// review.
pub proof fn review_tab_hands_key_to_view(
    unf: UnfCard,
    rev: CardReview,
    inc: IncMode,
    key: MyKey,
)
    ensures
        review_transition(ReviewMode::Done, key) == (ReviewMode::Done, done_step(key)),
        review_transition(ReviewMode::Unfinished(unf), key) == (
            ReviewMode::Unfinished(unf_step(unf, key).0),
            unf_step(unf, key).1,
        ),
        review_transition(ReviewMode::Review(rev), key) == (
            ReviewMode::Review(review_step(rev, key).0),
            review_step(rev, key).1,
        ),
        review_transition(ReviewMode::Pending(rev), key) == (
            ReviewMode::Pending(review_step(rev, key).0),
            review_step(rev, key).1,
        ),
        review_transition(ReviewMode::IncRead(inc), key) == (
            ReviewMode::IncRead(inc_step(inc, key).0),
            inc_step(inc, key).1,
        ),
{
}

/// The position of a grade from the worst (0) to the best (3).
pub open spec fn grade_rank(grade: RecallGrade) -> int {
    match grade {
        RecallGrade::NoRecall => 0,
        RecallGrade::Failed => 1,
        RecallGrade::Decent => 2,
        RecallGrade::Easy => 3,
    }
}

/// The rating digits run from worst to best: the digit of a grade is `1`
/// plus its rank, and each rating digit names the grade of that rank.
pub proof fn rating_digits_run_worst_to_best(grade: RecallGrade, c: char)
    ensures
        spec_grade_digit(grade) as int == '1' as int + grade_rank(grade),
        is_grade_digit(c) ==> grade_rank(spec_grade_of_digit(c)) == c as int - '1' as int,
{
}

} // verus!
