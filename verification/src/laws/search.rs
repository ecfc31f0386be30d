use vstd::prelude::*;

use crate::find_card::{
    find_card_after, find_card_reply, spec_filter_query, CardPurpose, FindCardReply,
    FindCardWidget, Link, PopUpStatus,
};
use crate::keys::MyKey;
use vstd::arithmetic::div_mod::{
    lemma_mod_add_multiples_vanish, lemma_mod_self_0, lemma_small_mod,
};
use crate::statelist::{next_selected, previous_selected, StatefulList};

verus! {

/// Confirming the search with a card highlighted records the link between
/// that card and the card the search was opened for, in the direction the
/// purpose names, and closes the search; nothing else changes.
pub proof fn confirm_links_and_closes(widget: FindCardWidget, i: usize)
    requires
        widget.list.selected == Some(i),
        i < widget.list.items@.len(),
        !(widget.purpose is NewCloze),
    ensures
        find_card_after(widget, MyKey::Enter) == (FindCardWidget {
            status: PopUpStatus::Finished,
            ..widget
        }),
        widget.purpose matches CardPurpose::NewDependent(source) ==> find_card_reply(
            widget,
            MyKey::Enter,
        ) == FindCardReply::Link(
            Link { dependent: widget.list.items@[i as int].id, dependency: source },
        ),
        widget.purpose matches CardPurpose::NewDependency(source) ==> find_card_reply(
            widget,
            MyKey::Enter,
        ) == FindCardReply::Link(
            Link { dependent: source, dependency: widget.list.items@[i as int].id },
        ),
{
}

/// Enter with no card highlighted changes nothing and records nothing.
pub proof fn confirm_without_highlight(widget: FindCardWidget)
    requires
        (widget.list.selected is None),
    ensures
        find_card_after(widget, MyKey::Enter) == widget,
        find_card_reply(widget, MyKey::Enter) == FindCardReply::Nothing,
{
}

/// Escape closes the search without recording anything.
pub proof fn escape_closes(widget: FindCardWidget)
    ensures
        find_card_after(widget, MyKey::Esc) == (FindCardWidget {
            status: PopUpStatus::Finished,
            ..widget
        }),
        find_card_reply(widget, MyKey::Esc) == FindCardReply::Nothing,
{
}

/// Down and up move only the highlight, and record nothing.
pub proof fn arrows_move_highlight(widget: FindCardWidget)
    ensures
        find_card_after(widget, MyKey::Down) == (FindCardWidget {
            list: StatefulList {
                selected: next_selected(widget.list.selected, widget.list.items@.len()),
                ..widget.list
            },
            ..widget
        }),
        find_card_after(widget, MyKey::Up) == (FindCardWidget {
            list: StatefulList {
                selected: previous_selected(widget.list.selected, widget.list.items@.len()),
                ..widget.list
            },
            ..widget
        }),
        find_card_reply(widget, MyKey::Down) == FindCardReply::Nothing,
        find_card_reply(widget, MyKey::Up) == FindCardReply::Nothing,
{
}

/// Every other key leaves the search as it is and goes to the search field.
pub proof fn other_keys_edit_search(widget: FindCardWidget, key: MyKey)
    requires
        key != MyKey::Enter,
        key != MyKey::Esc,
        key != MyKey::Up,
        key != MyKey::Down,
    ensures
        find_card_after(widget, key) == widget,
        find_card_reply(widget, key) == FindCardReply::EditSearch(key),
{
}

/// In a list of `len` items, moving down goes from item `i` to item
/// `(i + 1) mod len` and moving up to `(i + len - 1) mod len`; with nothing
/// highlighted either move highlights the first item, and an empty list
/// keeps its highlight.
pub proof fn highlight_moves_cyclically(selected: Option<usize>, len: nat)
    requires
        len <= usize::MAX,
    ensures
        len == 0 ==> next_selected(selected, len) == selected && previous_selected(selected, len)
            == selected,
        len > 0 && selected is None ==> next_selected(selected, len) == Some(0usize)
            && previous_selected(selected, len) == Some(0usize),
        len > 0 && selected is Some && selected.unwrap() < len ==> next_selected(selected, len)
            == Some(((selected.unwrap() + 1) % (len as int)) as usize) && previous_selected(
            selected,
            len,
        ) == Some(((selected.unwrap() + len - 1) % (len as int)) as usize),
{
    if len > 0 && selected is Some {
        let i = selected.unwrap();
        let m = len as int;
        if i < len {
            if i + 1 < len {
                lemma_small_mod((i + 1) as nat, len);
            } else {
                lemma_mod_self_0(m);
            }
            if i == 0 {
                lemma_small_mod((len - 1) as nat, len);
            } else {
                lemma_mod_add_multiples_vanish(i - 1, m);
                lemma_small_mod((i - 1) as nat, len);
            }
        }
    }
}

/// The search text drops exactly the last character of the field: the
/// field's text is the search text followed by one character, unless the
/// field is empty.
pub proof fn filter_query_drops_last_char(searchterm: Seq<char>)
    ensures
        searchterm.len() == 0 ==> spec_filter_query(searchterm) == searchterm,
        searchterm.len() > 0 ==> spec_filter_query(searchterm).push(searchterm.last())
            == searchterm,
{
    if searchterm.len() > 0 {
        assert(searchterm.drop_last().push(searchterm.last()) =~= searchterm);
    }
}

} // verus!
