//! A list of items with a cursor, as the pod and episode views show it.

use vstd::prelude::*;

verus! {

/// Items and the index of the selected one, if any.
pub struct StatefulList<T> {
    pub selected: Option<usize>,
    pub items: Vec<T>,
}

/// A list's selection and items.
pub struct ListView<T> {
    pub selected: Option<usize>,
    pub items: Seq<T>,
}

impl<T> View for StatefulList<T> {
    type V = ListView<T>;

    open spec fn view(&self) -> ListView<T> {
        ListView { selected: self.selected, items: self.items@ }
    }
}

/// The selected item of a list, if the selection points at one.
pub open spec fn selected_of<T>(l: ListView<T>) -> Option<T> {
    match l.selected {
        Some(i) => if i < l.items.len() { Some(l.items[i as int]) } else { None },
        None => None,
    }
}

/// The selection after moving down: the first item after the last, the first
/// item when nothing was selected, nothing in an empty list.
pub open spec fn next_index(selected: Option<usize>, len: nat) -> Option<usize> {
    if len == 0 {
        None
    } else {
        match selected {
            Some(i) => if i + 1 >= len { Some(0usize) } else { Some((i + 1) as usize) },
            None => Some(0usize),
        }
    }
}

/// The selection after moving up: the last item before the first, the one
/// before otherwise, the first item when nothing was selected, nothing in an
/// empty list.
pub open spec fn previous_index(selected: Option<usize>, len: nat) -> Option<usize> {
    if len == 0 {
        None
    } else {
        match selected {
            Some(i) => if i == 0 { Some((len - 1) as usize) } else { Some((i - 1) as usize) },
            None => Some(0usize),
        }
    }
}

impl<T> StatefulList<T> {
    /// The selection, when there is one, points at an item.
    pub open spec fn wf(&self) -> bool {
        self.selected matches Some(i) ==> i < self.items.len()
    }

    /// A list of `items` with nothing selected.
    pub fn with_items(items: Vec<T>) -> (r: Self)
        ensures
            r.items == items,
            r.selected is None,
            r.wf(),
    {
        StatefulList { selected: None, items }
    }

    /// Moves the selection one item down, wrapping to the top.
    pub fn next(&mut self)
        ensures
            final(self).items == old(self).items,
            final(self).selected == next_index(old(self).selected, old(self).items.len() as nat),
            final(self).wf(),
    {
        let len = self.items.len();
        if len == 0 {
            self.selected = None;
        } else {
            let i = match self.selected {
                Some(i) => if i >= len - 1 { 0 } else { i + 1 },
                None => 0,
            };
            self.selected = Some(i);
        }
    }

    /// Moves the selection one item up, wrapping to the bottom.
    pub fn previous(&mut self)
        ensures
            final(self).items == old(self).items,
            final(self).selected == previous_index(old(self).selected, old(self).items.len() as nat),
            old(self).wf() ==> final(self).wf(),
    {
        let len = self.items.len();
        if len == 0 {
            self.selected = None;
        } else {
            let i = match self.selected {
                Some(i) => if i == 0 { len - 1 } else { i - 1 },
                None => 0,
            };
            self.selected = Some(i);
        }
    }

    /// The selected item, if any.
    pub fn selected_item(&self) -> (r: Option<&T>)
        ensures
            r == (match self.selected {
                Some(i) => if i < self.items.len() { Some(&self.items@[i as int]) } else { None },
                None => None,
            }),
    {
        match self.selected {
            Some(i) => if i < self.items.len() { Some(&self.items[i]) } else { None },
            None => None,
        }
    }
}

} // verus!
