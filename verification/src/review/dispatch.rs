use vstd::prelude::*;

use crate::card::{
    grade_of_digit, spec_grade_of_digit, CardID, CursorPos, IncID, RecallGrade,
};
use crate::find_card::CardPurpose;
use crate::review::event::{grades_are_digits, Action};

verus! {

/// Why the dialog that adds a new card is opened.
#[derive(Clone, Copy, Debug, PartialEq, Eq, Structural)]
pub enum ChildPurpose {
    /// The new card is extracted from an incremental-reading text.
    Source(IncID),
    /// The given card becomes a dependency of the new card.
    Dependency(CardID),
    /// The given card becomes a dependent of the new card.
    Dependent(CardID),
}

/// One piece of outside work that an action of the review tab consists of;
/// the application carries the commands out in order.
#[derive(Debug, PartialEq)]
pub enum Command {
    /// Moves on from the incremental-reading text to the next item.
    IncNext(IncID),
    /// Marks the incremental-reading text as done and moves on.
    IncDone(IncID),
    /// Stores the text and cursor of the incremental-reading text.
    UpdateIncText(String, IncID, CursorPos),
    /// Turns the pending card into a card that is reviewed.
    ActivateCard(CardID),
    /// Records a review of the card with the grade and moves on.
    NewReview(CardID, RecallGrade),
    /// Stores the question of the card.
    UpdateQuestion(CardID, String),
    /// Stores the answer of the card.
    UpdateAnswer(CardID, String),
    /// Moves on to some other item of the review list.
    RandomMode,
    /// Doubles the time before the skipped unfinished card shows up again.
    DoubleSkipDuration(CardID),
    /// Marks the unfinished card as finished.
    CompleteCard(CardID),
    /// Opens the dialog that searches for an existing card, with its prompt.
    FindCard(String, CardPurpose),
    /// Opens the dialog that adds a new card.
    AddChild(ChildPurpose),
    /// Plays the audio of the card's answer.
    PlayBackAudio(CardID),
    /// Quits the application.
    Quit,
    /// Loads the review list again.
    Refresh,
}

/// The commands that store the fields of a card after it was handled.
pub open spec fn store_fields(question: String, answer: String, id: CardID) -> Seq<Command> {
    seq![Command::UpdateQuestion(id, question), Command::UpdateAnswer(id, answer)]
}

/// Whether `cmds` opens the card search with `prompt` for `purpose`, and
/// does nothing else.
pub open spec fn opens_finder(cmds: Seq<Command>, prompt: Seq<char>, purpose: CardPurpose) -> bool {
    &&& cmds.len() == 1
    &&& cmds[0] matches Command::FindCard(p, pur) && p@ == prompt && pur == purpose
}

/// Whether `cmds` is how the application carries out `action`;
/// `card_is_pending` tells whether the card that a review rates is still
/// pending.
pub open spec fn plans(action: Action, card_is_pending: bool, cmds: Seq<Command>) -> bool {
    match action {
        Action::IncNext(source, id, cursor) => cmds =~= seq![
            Command::IncNext(id),
            Command::UpdateIncText(source, id, cursor),
        ],
        Action::IncDone(source, id, cursor) => cmds =~= seq![
            Command::IncDone(id),
            Command::UpdateIncText(source, id, cursor),
        ],
        Action::Review(q, a, id, c) => {
            let review = seq![Command::NewReview(id, spec_grade_of_digit(c))] + store_fields(
                q,
                a,
                id,
            );
            if card_is_pending {
                cmds =~= seq![Command::ActivateCard(id)] + review
            } else {
                cmds =~= review
            }
        },
        Action::SkipUnf(q, a, id) => cmds =~= seq![Command::RandomMode] + store_fields(q, a, id)
            + seq![Command::DoubleSkipDuration(id)],
        Action::SkipRev(q, a, id) => cmds =~= seq![Command::RandomMode] + store_fields(q, a, id),
        Action::CompleteUnf(q, a, id) => cmds =~= seq![
            Command::CompleteCard(id),
            Command::RandomMode,
        ] + store_fields(q, a, id),
        Action::NewDependency(id) => opens_finder(
            cmds,
            "Add new dependency"@,
            CardPurpose::NewDependency(id),
        ),
        Action::NewDependent(id) => opens_finder(
            cmds,
            "Add new dependent"@,
            CardPurpose::NewDependent(id),
        ),
        Action::AddDependent(id) => cmds =~= seq![
            Command::AddChild(ChildPurpose::Dependency(id)),
        ],
        Action::AddDependency(id) => cmds =~= seq![
            Command::AddChild(ChildPurpose::Dependent(id)),
        ],
        Action::AddChild(id) => cmds =~= seq![Command::AddChild(ChildPurpose::Source(id))],
        Action::PlayBackAudio(id) => cmds =~= seq![Command::PlayBackAudio(id)],
        Action::Quit => cmds =~= seq![Command::Quit],
        Action::Refresh => cmds =~= seq![Command::Refresh],
        Action::Nothing => cmds =~= Seq::<Command>::empty(),
    }
}

/// The card whose type must be read before `action` can be planned: the
/// card that a review rates, since a pending card is activated first.
pub fn card_to_check(action: &Action) -> (id: Option<CardID>)
    ensures
        id == (match *action {
            Action::Review(_, _, card, _) => Some(card),
            _ => None,
        }),
{
    match action {
        Action::Review(_, _, id, _) => Some(*id),
        _ => None,
    }
}

/// The commands that carry out `action`, in order.
///
/// A review is given only with one of the four rating digits; any other
/// grade is refused.
pub fn plan(action: Action, card_is_pending: bool) -> (cmds: Vec<Command>)
    requires
        grades_are_digits(action),
    ensures
        plans(action, card_is_pending, cmds@),
{
    let mut cmds: Vec<Command> = Vec::new();
    match action {
        Action::IncNext(source, id, cursor) => {
            cmds.push(Command::IncNext(id));
            cmds.push(Command::UpdateIncText(source, id, cursor));
        },
        Action::IncDone(source, id, cursor) => {
            cmds.push(Command::IncDone(id));
            cmds.push(Command::UpdateIncText(source, id, cursor));
        },
        Action::Review(question, answer, id, c) => {
            let grade = grade_of_digit(c);
            if card_is_pending {
                cmds.push(Command::ActivateCard(id));
            }
            cmds.push(Command::NewReview(id, grade));
            cmds.push(Command::UpdateQuestion(id, question));
            cmds.push(Command::UpdateAnswer(id, answer));
        },
        Action::SkipUnf(question, answer, id) => {
            cmds.push(Command::RandomMode);
            cmds.push(Command::UpdateQuestion(id, question));
            cmds.push(Command::UpdateAnswer(id, answer));
            cmds.push(Command::DoubleSkipDuration(id));
        },
        Action::SkipRev(question, answer, id) => {
            cmds.push(Command::RandomMode);
            cmds.push(Command::UpdateQuestion(id, question));
            cmds.push(Command::UpdateAnswer(id, answer));
        },
        Action::CompleteUnf(question, answer, id) => {
            cmds.push(Command::CompleteCard(id));
            cmds.push(Command::RandomMode);
            cmds.push(Command::UpdateQuestion(id, question));
            cmds.push(Command::UpdateAnswer(id, answer));
        },
        Action::NewDependency(id) => {
            let prompt = String::from_str("Add new dependency");
            cmds.push(Command::FindCard(prompt, CardPurpose::NewDependency(id)));
        },
        Action::NewDependent(id) => {
            let prompt = String::from_str("Add new dependent");
            cmds.push(Command::FindCard(prompt, CardPurpose::NewDependent(id)));
        },
        Action::AddDependent(id) => {
            cmds.push(Command::AddChild(ChildPurpose::Dependency(id)));
        },
        Action::AddDependency(id) => {
            cmds.push(Command::AddChild(ChildPurpose::Dependent(id)));
        },
        Action::AddChild(id) => {
            cmds.push(Command::AddChild(ChildPurpose::Source(id)));
        },
        Action::PlayBackAudio(id) => {
            cmds.push(Command::PlayBackAudio(id));
        },
        Action::Quit => {
            cmds.push(Command::Quit);
        },
        Action::Refresh => {
            cmds.push(Command::Refresh);
        },
        Action::Nothing => {},
    }
    cmds
}

} // verus!
