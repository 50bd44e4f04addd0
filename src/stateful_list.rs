use vstd::arithmetic::div_mod::{
    lemma_add_mod_noop_right, lemma_mod_add_multiples_vanish, lemma_mod_bound, lemma_mod_self_0,
    lemma_mod_sub_multiples_vanish, lemma_small_mod,
};
use vstd::prelude::*;

use crate::event::Key;

verus! {

/// Cursor after moving down in a list of `n` items: an unset cursor goes to
/// the first item, the last item wraps to the first, an empty list keeps its
/// (unset) cursor.
pub open spec fn next_cursor(c: Option<int>, n: int) -> Option<int> {
    if n <= 0 {
        c
    } else {
        match c {
            None => Some(0),
            Some(i) => Some(if i + 1 >= n { 0 } else { i + 1 }),
        }
    }
}

/// Cursor after moving up in a list of `n` items: an unset cursor goes to
/// the first item, the first item wraps to the last, an empty list keeps its
/// (unset) cursor.
pub open spec fn previous_cursor(c: Option<int>, n: int) -> Option<int> {
    if n <= 0 {
        c
    } else {
        match c {
            None => Some(0),
            Some(i) => Some(if i <= 0 { n - 1 } else { i - 1 }),
        }
    }
}

/// The cursor after moving down `k` times.
pub open spec fn next_iterate(c: Option<int>, n: int, k: nat) -> Option<int>
    decreases k,
{
    if k == 0 {
        c
    } else {
        next_cursor(next_iterate(c, n, (k - 1) as nat), n)
    }
}

/// The cursor after moving up `k` times.
pub open spec fn previous_iterate(c: Option<int>, n: int, k: nat) -> Option<int>
    decreases k,
{
    if k == 0 {
        c
    } else {
        previous_cursor(previous_iterate(c, n, (k - 1) as nat), n)
    }
}

proof fn lemma_next_iterate(i: int, n: int, k: nat)
    requires
        0 <= i < n,
    ensures
        next_iterate(Some(i), n, k) == Some((i + k) % n),
    decreases k,
{
    if k == 0 {
        lemma_small_mod(i as nat, n as nat);
    } else {
        lemma_next_iterate(i, n, (k - 1) as nat);
        let x = i + k - 1;
        let j = x % n;
        lemma_mod_bound(x, n);
        if j + 1 < n {
            lemma_small_mod((j + 1) as nat, n as nat);
        } else {
            lemma_mod_self_0(n);
        }
        lemma_add_mod_noop_right(1, x, n);
    }
}

proof fn lemma_previous_iterate(i: int, n: int, k: nat)
    requires
        0 <= i < n,
    ensures
        previous_iterate(Some(i), n, k) == Some((i - k) % n),
    decreases k,
{
    if k == 0 {
        lemma_small_mod(i as nat, n as nat);
    } else {
        lemma_previous_iterate(i, n, (k - 1) as nat);
        let x = i - k + 1;
        let j = x % n;
        lemma_mod_bound(x, n);
        if j >= 1 {
            lemma_small_mod((j - 1) as nat, n as nat);
        } else {
            lemma_mod_add_multiples_vanish(-1, n);
            lemma_small_mod((n - 1) as nat, n as nat);
        }
        lemma_add_mod_noop_right(-1, x, n);
    }
}

/// What a list holds: its items and its cursor.
pub struct ListView<T> {
    pub items: Seq<T>,
    pub cursor: Option<int>,
}

impl<T> ListView<T> {
    /// A set cursor is a valid index; so an empty list has no cursor.
    pub open spec fn wf(self) -> bool {
        match self.cursor {
            Some(i) => 0 <= i < self.items.len(),
            None => true,
        }
    }

    /// The list after moving down.
    pub open spec fn next(self) -> ListView<T> {
        ListView { items: self.items, cursor: next_cursor(self.cursor, self.items.len() as int) }
    }

    /// The list after moving up.
    pub open spec fn previous(self) -> ListView<T> {
        ListView { items: self.items, cursor: previous_cursor(self.cursor, self.items.len() as int) }
    }

    /// The item under the cursor.
    pub open spec fn current(self) -> Option<T> {
        match self.cursor {
            Some(i) => Some(self.items[i]),
            None => None,
        }
    }

    /// The list after a key: up and down move the cursor, other keys leave
    /// it.
    pub open spec fn on_key(self, key: Key) -> ListView<T> {
        match key {
            Key::Up => self.previous(),
            Key::Down => self.next(),
            _ => self,
        }
    }
}

/// An ordered sequence of items with a cursor that is either unset or the
/// index of one of them. The items never change after construction.
pub struct StatefulList<T> {
    items: Vec<T>,
    selected: Option<usize>,
}

impl<T> View for StatefulList<T> {
    type V = ListView<T>;

    closed spec fn view(&self) -> ListView<T> {
        ListView {
            items: self.items@,
            cursor: match self.selected {
                Some(i) => Some(i as int),
                None => None,
            },
        }
    }
}

impl<T> StatefulList<T> {
    /// Every list is well formed.
    #[verifier::type_invariant]
    pub open spec fn inv(&self) -> bool {
        self@.wf()
    }

    /// A list over `items` with no cursor.
    pub fn with_items(items: Vec<T>) -> (r: Self)
        ensures
            r@ == (ListView { items: items@, cursor: None }),
    {
        StatefulList { items, selected: None }
    }

    /// The items, in order.
    pub fn items(&self) -> (r: &Vec<T>)
        ensures
            r@ == self@.items,
    {
        &self.items
    }

    /// The cursor, if set.
    pub fn selected(&self) -> (r: Option<usize>)
        ensures
            match r {
                Some(i) => self@.cursor == Some(i as int) && i < self@.items.len(),
                None => self@.cursor is None,
            },
    {
        proof {
            use_type_invariant(self);
        }
        self.selected
    }

    /// Moves the cursor down one item, wrapping from the last to the first.
    pub fn next(&mut self)
        ensures
            final(self)@ == old(self)@.next(),
        no_unwind
    {
        proof {
            use_type_invariant(&*self);
        }
        let n = self.items.len();
        if n > 0 {
            let i: usize = match self.selected {
                None => 0,
                Some(i) => if i + 1 >= n { 0 } else { i + 1 },
            };
            self.selected = Some(i);
        }
    }

    /// Moves the cursor up one item, wrapping from the first to the last.
    pub fn previous(&mut self)
        ensures
            final(self)@ == old(self)@.previous(),
        no_unwind
    {
        proof {
            use_type_invariant(&*self);
        }
        let n = self.items.len();
        if n > 0 {
            let i: usize = match self.selected {
                None => 0,
                Some(i) => if i == 0 { n - 1 } else { i - 1 },
            };
            self.selected = Some(i);
        }
    }

    /// The item under the cursor, if the cursor is set.
    pub fn current(&self) -> (r: Option<&T>)
        ensures
            match self@.current() {
                Some(x) => r == Some(&x),
                None => r is None,
            },
    {
        proof {
            use_type_invariant(self);
        }
        match self.selected {
            Some(i) => Some(&self.items[i]),
            None => None,
        }
    }
}

impl<T> Default for StatefulList<T> {
    /// An empty list.
    fn default() -> (r: Self)
        ensures
            r@ == (ListView::<T> { items: Seq::empty(), cursor: None }),
    {
        StatefulList { items: Vec::new(), selected: None }
    }
}

impl<T: Clone> StatefulList<T> {
    /// A copy of the item under the cursor; `None` while no cursor is set.
    /// The list is left as it is.
    pub fn commit(&self) -> (r: Option<T>)
        ensures
            match self@.current() {
                Some(x) => r is Some && cloned(x, r->0),
                None => r is None,
            },
    {
        proof {
            use_type_invariant(self);
        }
        match self.selected {
            Some(i) => Some(self.items[i].clone()),
            None => None,
        }
    }

    /// Reacts to a key: up and down move the cursor, enter commits. Only
    /// enter can return an item.
    pub fn handle_events(&mut self, key: Key) -> (r: Option<T>)
        ensures
            final(self)@ == old(self)@.on_key(key),
            match key {
                Key::Enter => match old(self)@.current() {
                    Some(x) => r is Some && cloned(x, r->0),
                    None => r is None,
                },
                _ => r is None,
            },
    {
        match key {
            Key::Up => {
                self.previous();
                None
            },
            Key::Down => {
                self.next();
                None
            },
            Key::Enter => self.commit(),
            _ => None,
        }
    }
}

/// Moving down as many times as a non-empty list has items brings a set
/// cursor back to where it was; so does moving up as many times.
pub proof fn lemma_navigation_cycles<T>(list: ListView<T>)
    requires
        list.wf(),
        list.items.len() > 0,
        list.cursor is Some,
    ensures
        next_iterate(list.cursor, list.items.len() as int, list.items.len()) == list.cursor,
        previous_iterate(list.cursor, list.items.len() as int, list.items.len()) == list.cursor,
{
    let n = list.items.len() as int;
    let i = list.cursor->0;
    lemma_next_iterate(i, n, n as nat);
    lemma_previous_iterate(i, n, n as nat);
    lemma_mod_add_multiples_vanish(i, n);
    lemma_mod_sub_multiples_vanish(i, n);
    lemma_small_mod(i as nat, n as nat);
}

/// On an empty list the cursor is unset, and moving down or up leaves it
/// unset.
pub proof fn lemma_empty_list_navigation<T>(list: ListView<T>)
    requires
        list.wf(),
        list.items.len() == 0,
    ensures
        list.cursor is None,
        list.next().cursor is None,
        list.previous().cursor is None,
{
}

} // verus!
