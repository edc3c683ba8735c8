//! Selection menu widget: a list of items and the one that is selected.

use vstd::prelude::*;

verus! {

/// An item in a selection menu.
pub struct MenuItem<T> {
    pub label: String,
    pub value: T,
}

/// A selectable menu with items.
pub struct SelectMenu<T> {
    items: Vec<MenuItem<T>>,
    selected: usize,
}

/// The index after `selected` in a ring of `count` items.
pub open spec fn ring_next(selected: nat, count: nat) -> nat {
    if count == 0 {
        selected
    } else if selected + 1 >= count {
        0
    } else {
        selected + 1
    }
}

/// The index before `selected` in a ring of `count` items.
pub open spec fn ring_previous(selected: nat, count: nat) -> nat {
    if count == 0 {
        selected
    } else if selected == 0 {
        (count - 1) as nat
    } else {
        (selected - 1) as nat
    }
}

impl<T> SelectMenu<T> {
    #[verifier::type_invariant]
    spec fn selection_in_range(&self) -> bool {
        self.selected < self.items@.len() || self.selected == 0
    }

    /// The items of the menu, in order.
    pub closed spec fn items(&self) -> Seq<MenuItem<T>> {
        self.items@
    }

    /// The index of the selected item.
    pub closed spec fn selected(&self) -> nat {
        self.selected as nat
    }

    /// A menu over `items` with the first one selected.
    pub fn new(items: Vec<MenuItem<T>>) -> (menu: Self)
        ensures
            menu.items() == items@,
            menu.selected() == 0,
    {
        SelectMenu { items, selected: 0 }
    }

    pub fn selected_index(&self) -> (index: usize)
        ensures
            index == self.selected(),
            index < self.items().len() || index == 0,
    {
        proof {
            use_type_invariant(self);
        }
        self.selected
    }

    /// The value of the selected item; none in an empty menu.
    pub fn selected_value(&self) -> (value: Option<&T>)
        ensures
            self.items().len() == 0 ==> value is None,
            self.items().len() > 0 ==> value == Some(&self.items()[self.selected() as int].value),
    {
        proof {
            use_type_invariant(self);
        }
        if self.selected < self.items.len() {
            Some(&self.items[self.selected].value)
        } else {
            None
        }
    }

    /// Selects the next item, going round from the last to the first.
    pub fn next(&mut self)
        ensures
            final(self).items() == old(self).items(),
            final(self).selected() == ring_next(old(self).selected(), old(self).items().len()),
    {
        proof {
            use_type_invariant(&*self);
        }
        let count: usize = self.items.len();
        if count > 0 {
            self.selected = if self.selected + 1 >= count {
                0
            } else {
                self.selected + 1
            };
        }
    }

    /// Selects the previous item, going round from the first to the last.
    pub fn previous(&mut self)
        ensures
            final(self).items() == old(self).items(),
            final(self).selected() == ring_previous(
                old(self).selected(),
                old(self).items().len(),
            ),
    {
        proof {
            use_type_invariant(&*self);
        }
        let count: usize = self.items.len();
        if count > 0 {
            self.selected = if self.selected == 0 {
                count - 1
            } else {
                self.selected - 1
            };
        }
    }

    /// The number of items.
    pub fn len(&self) -> (count: usize)
        ensures
            count == self.items().len(),
    {
        self.items.len()
    }

    /// The item at `index`; none behind the last.
    pub fn item(&self, index: usize) -> (item: Option<&MenuItem<T>>)
        ensures
            item == if index < self.items().len() {
                Some(&self.items()[index as int])
            } else {
                None
            },
    {
        if index < self.items.len() {
            Some(&self.items[index])
        } else {
            None
        }
    }
}

} // verus!
