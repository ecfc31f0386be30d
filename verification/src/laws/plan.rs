use vstd::prelude::*;

use crate::card::{is_grade_digit, spec_grade_of_digit, CardID};
use crate::find_card::CardPurpose;
use crate::review::dispatch::{plans, ChildPurpose, Command};
use crate::review::event::Action;

verus! {

/// The question, answer and id that an action on a card carries: rating,
/// skipping and finishing carry them, other actions do not.
pub open spec fn card_texts(action: Action) -> Option<(String, String, CardID)> {
    match action {
        Action::Review(q, a, id, _) => Some((q, a, id)),
        Action::SkipUnf(q, a, id) => Some((q, a, id)),
        Action::SkipRev(q, a, id) => Some((q, a, id)),
        Action::CompleteUnf(q, a, id) => Some((q, a, id)),
        _ => None,
    }
}

/// Whether some command in `cmds` satisfies `p`.
pub open spec fn some_command(cmds: Seq<Command>, p: spec_fn(Command) -> bool) -> bool {
    exists|k: int| 0 <= k < cmds.len() && p(#[trigger] cmds[k])
}

/// Every action on a card stores the card's question and answer, as the
/// action carries them; no other action stores any card text.
pub proof fn plan_stores_card_texts(action: Action, card_is_pending: bool, cmds: Seq<Command>)
    requires
        plans(action, card_is_pending, cmds),
    ensures
        card_texts(action) matches Some((q, a, id)) ==> cmds.contains(
            Command::UpdateQuestion(id, q),
        ) && cmds.contains(Command::UpdateAnswer(id, a)),
        card_texts(action) is None ==> !some_command(
            cmds,
            |c: Command| c is UpdateQuestion || c is UpdateAnswer,
        ),
{
    if let Some((q, a, id)) = card_texts(action) {
        let k: int = match action {
            Action::Review(_, _, _, _) => if card_is_pending {
                2
            } else {
                1
            },
            Action::CompleteUnf(_, _, _) => 2,
            _ => 1,
        };
        assert(cmds[k] == Command::UpdateQuestion(id, q));
        assert(cmds[k + 1] == Command::UpdateAnswer(id, a));
    }
}

/// A rating records a review of the rated card with the grade of its digit,
/// after activating the card first exactly when it is still pending; no
/// other action records a review or activates a card.
pub proof fn plan_records_rating(action: Action, card_is_pending: bool, cmds: Seq<Command>)
    requires
        plans(action, card_is_pending, cmds),
    ensures
        action matches Action::Review(_, _, id, c) ==> {
            &&& card_is_pending ==> cmds[0] == Command::ActivateCard(id) && cmds[1]
                == Command::NewReview(id, spec_grade_of_digit(c))
            &&& !card_is_pending ==> cmds[0] == Command::NewReview(id, spec_grade_of_digit(c))
                && !some_command(cmds, |x: Command| x is ActivateCard)
        },
        !(action is Review) ==> !some_command(
            cmds,
            |x: Command| x is NewReview || x is ActivateCard,
        ),
{
}

/// Skipping and finishing move on to another item of the review list;
/// skipping an unfinished card also doubles the time before it comes back,
/// and finishing marks the card finished before moving on. No other action
/// moves on this way, doubles a skip time or finishes a card.
pub proof fn plan_moves_on(action: Action, card_is_pending: bool, cmds: Seq<Command>)
    requires
        plans(action, card_is_pending, cmds),
    ensures
        (action is SkipUnf || action is SkipRev || action is CompleteUnf) <==> some_command(
            cmds,
            |x: Command| x is RandomMode,
        ),
        action matches Action::SkipUnf(_, _, id) ==> cmds.last() == Command::DoubleSkipDuration(
            id,
        ),
        !(action is SkipUnf) ==> !some_command(cmds, |x: Command| x is DoubleSkipDuration),
        action matches Action::CompleteUnf(_, _, id) ==> cmds[0] == Command::CompleteCard(id)
            && cmds[1] == Command::RandomMode,
        !(action is CompleteUnf) ==> !some_command(cmds, |x: Command| x is CompleteCard),
{
    if action is SkipUnf || action is SkipRev || action is CompleteUnf {
        let k: int = if action is CompleteUnf {
            1
        } else {
            0
        };
        assert(cmds[k] is RandomMode);
    }
}

/// The dependency commands open one dialog each: `Alt+y` and `Alt+t`
/// search for an existing card to become a dependency or a dependent of the
/// card, `Alt+Y` and `Alt+T` add a new card that the card depends on, or
/// that depends on it. Reading texts add new cards extracted from them.
pub proof fn plan_opens_dialogs(action: Action, card_is_pending: bool, cmds: Seq<Command>)
    requires
        plans(action, card_is_pending, cmds),
    ensures
        action matches Action::NewDependency(id) ==> cmds.len() == 1 && (
        cmds[0] matches Command::FindCard(p, purpose) && p@ == "Add new dependency"@ && purpose
            == CardPurpose::NewDependency(id)),
        action matches Action::NewDependent(id) ==> cmds.len() == 1 && (
        cmds[0] matches Command::FindCard(p, purpose) && p@ == "Add new dependent"@ && purpose
            == CardPurpose::NewDependent(id)),
        action matches Action::AddDependency(id) ==> cmds == seq![
            Command::AddChild(ChildPurpose::Dependent(id)),
        ],
        action matches Action::AddDependent(id) ==> cmds == seq![
            Command::AddChild(ChildPurpose::Dependency(id)),
        ],
        action matches Action::AddChild(id) ==> cmds == seq![
            Command::AddChild(ChildPurpose::Source(id)),
        ],
{
}

/// Playing audio, quitting and reloading are single commands, and an empty
/// action does nothing.
pub proof fn plan_simple_actions(action: Action, card_is_pending: bool, cmds: Seq<Command>)
    requires
        plans(action, card_is_pending, cmds),
    ensures
        action matches Action::PlayBackAudio(id) ==> cmds == seq![Command::PlayBackAudio(id)],
        action is Quit ==> cmds == seq![Command::Quit],
        action is Refresh ==> cmds == seq![Command::Refresh],
        action is Nothing ==> cmds.len() == 0,
{
}

/// Finishing and moving through a reading text stores the text with its
/// cursor after moving on.
pub proof fn plan_reading_actions(action: Action, card_is_pending: bool, cmds: Seq<Command>)
    requires
        plans(action, card_is_pending, cmds),
    ensures
        action matches Action::IncNext(s, id, cur) ==> cmds == seq![
            Command::IncNext(id),
            Command::UpdateIncText(s, id, cur),
        ],
        action matches Action::IncDone(s, id, cur) ==> cmds == seq![
            Command::IncDone(id),
            Command::UpdateIncText(s, id, cur),
        ],
{
}

} // verus!
