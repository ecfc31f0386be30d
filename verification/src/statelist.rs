use vstd::prelude::*;

verus! {

/// A list of items together with the position of the highlighted one.
#[derive(Debug)]
pub struct StatefulList<T> {
    /// The index of the highlighted item, if any.
    pub selected: Option<usize>,
    pub items: Vec<T>,
}

/// The highlight after moving down in a list of `len` items: to the next
/// item, from the last one round to the first, and to the first when none is
/// highlighted. An empty list keeps its highlight.
pub open spec fn next_selected(selected: Option<usize>, len: nat) -> Option<usize> {
    if len == 0 {
        selected
    } else {
        match selected {
            Some(i) => if i >= len - 1 {
                Some(0usize)
            } else {
                Some((i + 1) as usize)
            },
            None => Some(0usize),
        }
    }
}

/// The highlight after moving up in a list of `len` items: to the previous
/// item, from the first one round to the last, and to the first when none is
/// highlighted. An empty list keeps its highlight.
pub open spec fn previous_selected(selected: Option<usize>, len: nat) -> Option<usize> {
    if len == 0 {
        selected
    } else {
        match selected {
            Some(i) => if i == 0 {
                Some((len - 1) as usize)
            } else {
                Some((i - 1) as usize)
            },
            None => Some(0usize),
        }
    }
}

/// Whether `selected` is absent or points at one of `len` items.
pub open spec fn selection_in_range(selected: Option<usize>, len: nat) -> bool {
    match selected {
        Some(i) => i < len,
        None => true,
    }
}

impl<T> StatefulList<T> {
    /// An empty list with nothing highlighted.
    pub fn new() -> (list: Self)
        ensures
            list.selected is None,
            list.items@ == Seq::<T>::empty(),
    {
        StatefulList { selected: None, items: Vec::new() }
    }

    /// A list of `items` with nothing highlighted.
    pub fn with_items(items: Vec<T>) -> (list: Self)
        ensures
            list.selected is None,
            list.items == items,
    {
        StatefulList { selected: None, items }
    }

    /// Highlights the next item.
    pub fn next(&mut self)
        ensures
            final(self).selected == next_selected(old(self).selected, old(self).items@.len()),
            final(self).items == old(self).items,
            old(self).items@.len() > 0 ==> selection_in_range(
                final(self).selected,
                final(self).items@.len(),
            ),
    {
        let len = self.items.len();
        if len == 0 {
            return ;
        }
        self.selected = match self.selected {
            Some(i) => if i >= len - 1 {
                Some(0)
            } else {
                Some(i + 1)
            },
            None => Some(0),
        };
    }

    /// Highlights the previous item.
    pub fn previous(&mut self)
        ensures
            final(self).selected == previous_selected(old(self).selected, old(self).items@.len()),
            final(self).items == old(self).items,
            old(self).items@.len() > 0 && selection_in_range(
                old(self).selected,
                old(self).items@.len(),
            ) ==> selection_in_range(final(self).selected, final(self).items@.len()),
    {
        let len = self.items.len();
        if len == 0 {
            return ;
        }
        self.selected = match self.selected {
            Some(i) => if i == 0 {
                Some(len - 1)
            } else {
                Some(i - 1)
            },
            None => Some(0),
        };
    }
}

/// Moving down and then up, or up and then down, returns to the highlighted
/// item of a list that is not empty.
pub proof fn next_previous_undo(i: usize, len: nat)
    requires
        i < len,
        len <= usize::MAX,
    ensures
        previous_selected(next_selected(Some(i), len), len) == Some(i),
        next_selected(previous_selected(Some(i), len), len) == Some(i),
{
}

} // verus!
