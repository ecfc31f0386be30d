use vstd::prelude::*;

use crate::card::CardID;
use crate::statelist::StatefulList;

verus! {

/// A card as a list of cards shows it: its question, and its id to find it
/// again.
#[derive(Clone, Debug, PartialEq)]
pub struct CardInList {
    pub question: String,
    pub id: CardID,
}

/// The list of a card's dependencies, in the order the card names them:
/// `ids[i]` is the i-th dependency and `questions[i]` its question. Nothing
/// is highlighted.
pub fn dependency_list(ids: &Vec<CardID>, questions: &Vec<String>) -> (list: StatefulList<
    CardInList,
>)
    requires
        ids@.len() == questions@.len(),
    ensures
        list.selected is None,
        list.items@.len() == ids@.len(),
        forall|i: int|
            0 <= i < ids@.len() ==> (#[trigger] list.items@[i]).id == ids@[i]
                && list.items@[i].question == questions@[i],
{
    let mut items: Vec<CardInList> = Vec::new();
    let n = ids.len();
    for k in 0..n
        invariant
            n == ids@.len(),
            n == questions@.len(),
            items@.len() == k,
            forall|i: int|
                0 <= i < k ==> (#[trigger] items@[i]).id == ids@[i] && items@[i].question
                    == questions@[i],
    {
        items.push(CardInList { question: questions[k].clone(), id: ids[k] });
    }
    StatefulList::with_items(items)
}

} // verus!
