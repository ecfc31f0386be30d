use vstd::prelude::*;

use crate::card::{CardID, TopicID};
use crate::keys::MyKey;
use crate::statelist::{next_selected, previous_selected, StatefulList};

verus! {

/// A card that matches the search, as the search list shows it.
#[derive(Clone, Debug, PartialEq)]
pub struct CardMatch {
    pub question: String,
    pub id: CardID,
}

/// Why a card is searched for.
#[derive(Clone, Copy, Debug, PartialEq, Eq, Structural)]
pub enum CardPurpose {
    /// The chosen card becomes a dependency of the given card.
    NewDependency(CardID),
    /// The chosen card becomes a dependent of the given card.
    NewDependent(CardID),
    /// The chosen card gets a cloze from the given topic.
    NewCloze(TopicID),
}

/// Whether a pop-up is still open.
#[derive(Clone, Copy, Debug, PartialEq, Eq, Structural)]
pub enum PopUpStatus {
    OnGoing,
    Finished,
}

/// A dependency to record between two cards: `dependent` needs
/// `dependency` to be understood.
#[derive(Clone, Copy, Debug, PartialEq, Eq, Structural)]
pub struct Link {
    pub dependent: CardID,
    pub dependency: CardID,
}

/// What the application does after a key press in the card search.
#[derive(Clone, Copy, Debug, PartialEq, Eq, Structural)]
pub enum FindCardReply {
    /// Nothing is left to do.
    Nothing,
    /// Records the link; afterwards the dependent card is checked for
    /// whether all its dependencies are resolved.
    Link(Link),
    /// Hands the key to the search field, then fills the list again with the
    /// cards that match its new text.
    EditSearch(MyKey),
}

/// The pop-up that searches for a card by its question.
#[derive(Debug)]
pub struct FindCardWidget {
    pub prompt: String,
    /// The text of the search field.
    pub searchterm: String,
    pub list: StatefulList<CardMatch>,
    pub status: PopUpStatus,
    pub purpose: CardPurpose,
}

/// The text that the cards are matched against: the search field's text
/// without its last character.
pub open spec fn spec_filter_query(searchterm: Seq<char>) -> Seq<char> {
    if searchterm.len() == 0 {
        searchterm
    } else {
        searchterm.drop_last()
    }
}

/// The text that the cards are matched against when the search field holds
/// `searchterm`.
pub fn filter_query(searchterm: String) -> (query: String)
    ensures
        query@ == spec_filter_query(searchterm@),
{
    let text = searchterm.as_str();
    let len = text.unicode_len();
    if len == 0 {
        return searchterm;
    }
    let kept = text.substring_char(0, len - 1);
    kept.to_owned()
}

impl StatefulList<CardMatch> {
    /// Shows `matches`, the cards found for the current search; the
    /// highlight stays at its index.
    pub fn reset_filter(&mut self, matches: Vec<CardMatch>)
        ensures
            final(self).items == matches,
            final(self).selected == old(self).selected,
    {
        self.items = matches;
    }

    /// The card that is highlighted.
    pub fn choose_card(&self) -> (id: u32)
        requires
            self.selected is Some,
            self.selected.unwrap() < self.items@.len(),
        ensures
            id == self.items@[self.selected.unwrap() as int].id,
    {
        let index = self.selected.unwrap();
        self.items[index].id
    }
}

/// The link that confirming the search records: the highlighted card is
/// tied to the card the search was opened for, in the direction the purpose
/// names. Nothing is recorded while no card is highlighted.
pub open spec fn chosen_link(widget: FindCardWidget) -> Option<Link> {
    match widget.list.selected {
        None => None,
        Some(i) => {
            let chosen = widget.list.items@[i as int].id;
            match widget.purpose {
                CardPurpose::NewDependent(source) => Some(
                    Link { dependent: chosen, dependency: source },
                ),
                CardPurpose::NewDependency(source) => Some(
                    Link { dependent: source, dependency: chosen },
                ),
                CardPurpose::NewCloze(_) => None,
            }
        },
    }
}

/// Whether the search can be confirmed: the highlight, if any, points at a
/// listed card, and the search is not for a cloze, which confirming does not
/// handle.
pub open spec fn can_complete(widget: FindCardWidget) -> bool {
    match widget.list.selected {
        None => true,
        Some(i) => i < widget.list.items@.len() && !(widget.purpose is NewCloze),
    }
}

/// The reply to `key` in the card search.
pub open spec fn find_card_reply(widget: FindCardWidget, key: MyKey) -> FindCardReply {
    match key {
        MyKey::Enter => match chosen_link(widget) {
            Some(link) => FindCardReply::Link(link),
            None => FindCardReply::Nothing,
        },
        MyKey::Esc => FindCardReply::Nothing,
        MyKey::Down => FindCardReply::Nothing,
        MyKey::Up => FindCardReply::Nothing,
        _ => FindCardReply::EditSearch(key),
    }
}

/// The pop-up after `key`.
pub open spec fn find_card_after(widget: FindCardWidget, key: MyKey) -> FindCardWidget {
    match key {
        MyKey::Enter => if widget.list.selected is Some {
            FindCardWidget { status: PopUpStatus::Finished, ..widget }
        } else {
            widget
        },
        MyKey::Esc => FindCardWidget { status: PopUpStatus::Finished, ..widget },
        MyKey::Down => FindCardWidget {
            list: StatefulList {
                selected: next_selected(widget.list.selected, widget.list.items@.len()),
                ..widget.list
            },
            ..widget
        },
        MyKey::Up => FindCardWidget {
            list: StatefulList {
                selected: previous_selected(widget.list.selected, widget.list.items@.len()),
                ..widget.list
            },
            ..widget
        },
        _ => widget,
    }
}

impl FindCardWidget {
    /// A search that is open, with an empty search field, listing `matches`
    /// (the cards found for the empty search) with nothing highlighted.
    pub fn new(prompt: String, purpose: CardPurpose, matches: Vec<CardMatch>) -> (widget: Self)
        ensures
            widget.prompt == prompt,
            widget.purpose == purpose,
            widget.searchterm@ == Seq::<char>::empty(),
            widget.list.items == matches,
            widget.list.selected is None,
            widget.status == PopUpStatus::OnGoing,
    {
        let list = StatefulList::with_items(matches);
        FindCardWidget {
            prompt,
            searchterm: String::new(),
            list,
            status: PopUpStatus::OnGoing,
            purpose,
        }
    }

    /// Handles a key press: enter confirms the highlighted card, escape
    /// closes the search, up and down move the highlight, and every other key
    /// edits the search field.
    pub fn keyhandler(&mut self, key: MyKey) -> (reply: FindCardReply)
        requires
            key == MyKey::Enter ==> can_complete(*old(self)),
        ensures
            reply == find_card_reply(*old(self), key),
            *final(self) == find_card_after(*old(self), key),
    {
        match key {
            MyKey::Enter => match self.complete() {
                Some(link) => FindCardReply::Link(link),
                None => FindCardReply::Nothing,
            },
            MyKey::Esc => {
                self.status = PopUpStatus::Finished;
                FindCardReply::Nothing
            },
            MyKey::Down => {
                self.list.next();
                FindCardReply::Nothing
            },
            MyKey::Up => {
                self.list.previous();
                FindCardReply::Nothing
            },
            _ => FindCardReply::EditSearch(key),
        }
    }

    /// Confirms the highlighted card: returns the link to record and closes
    /// the search. Without a highlighted card nothing happens.
    fn complete(&mut self) -> (link: Option<Link>)
        requires
            can_complete(*old(self)),
        ensures
            link == chosen_link(*old(self)),
            *final(self) == find_card_after(*old(self), MyKey::Enter),
    {
        if self.list.selected.is_none() {
            return None;
        }
        let idx = self.list.selected.unwrap();
        let chosen_id = self.list.items[idx].id;
        let link = match self.purpose {
            CardPurpose::NewDependent(source_id) => Link {
                dependent: chosen_id,
                dependency: source_id,
            },
            CardPurpose::NewDependency(source_id) => Link {
                dependent: source_id,
                dependency: chosen_id,
            },
            CardPurpose::NewCloze(_) => unreached(),
        };
        self.status = PopUpStatus::Finished;
        Some(link)
    }
}

} // verus!
