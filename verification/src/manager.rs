//! The window registry: the last-enumerated window list plus a cursor, with
//! wraparound navigation in both directions.
//!
//! Refreshing the list keeps the cursor only when the new list has the same
//! size and the cursor still points into it; otherwise the cursor is reset
//! to the front. Navigation on an empty list is a no-op.

use vstd::prelude::*;
use vstd::arithmetic::div_mod::{
    lemma_add_mod_noop, lemma_mod_add_multiples_vanish, lemma_mod_bound, lemma_small_mod,
};
use crate::window::DofusWindow;

verus! {

/// Cursor position after one step forward in a ring of `n` windows.
pub open spec fn next_index(i: int, n: int) -> int {
    (i + 1) % n
}

/// Cursor position after one step backward in a ring of `n` windows.
pub open spec fn prev_index(i: int, n: int) -> int {
    (i + n - 1) % n
}

/// Cursor position after `k` steps forward.
pub open spec fn iterate_next(i: int, k: nat, n: int) -> int
    decreases k,
{
    if k == 0 {
        i
    } else {
        next_index(iterate_next(i, (k - 1) as nat, n), n)
    }
}

/// Cursor position after `k` steps backward.
pub open spec fn iterate_prev(i: int, k: nat, n: int) -> int
    decreases k,
{
    if k == 0 {
        i
    } else {
        prev_index(iterate_prev(i, (k - 1) as nat, n), n)
    }
}

/// Stepping forward stays within the ring.
pub proof fn lemma_next_index_in_range(i: int, n: int)
    requires
        n > 0,
    ensures
        0 <= next_index(i, n) < n,
{
    lemma_mod_bound(i + 1, n);
}

/// Stepping backward stays within the ring.
pub proof fn lemma_prev_index_in_range(i: int, n: int)
    requires
        n > 0,
    ensures
        0 <= prev_index(i, n) < n,
{
    lemma_mod_bound(i + n - 1, n);
}

/// A step backward undoes a step forward: the two directions are inverse.
pub proof fn lemma_next_prev_inverse(i: int, n: int)
    requires
        0 <= i < n,
    ensures
        next_index(prev_index(i, n), n) == i,
        prev_index(next_index(i, n), n) == i,
{
    if n == 1 {
        lemma_mod_bound(i + n - 1, n);
        lemma_mod_bound(prev_index(i, n) + 1, n);
        lemma_mod_bound(i + 1, n);
        lemma_mod_bound(next_index(i, n) + n - 1, n);
    } else {
        lemma_mod_bound(i + n - 1, n);
        lemma_add_mod_noop(i + n - 1, 1, n);
        lemma_small_mod(1, n as nat);
        lemma_mod_add_multiples_vanish(i, n);
        lemma_small_mod(i as nat, n as nat);
        lemma_mod_bound(i + 1, n);
        lemma_add_mod_noop(i + 1, n - 1, n);
        lemma_small_mod((n - 1) as nat, n as nat);
    }
}

/// Unrolling the iteration from the other end: `k` steps forward from `i`
/// are one step forward and then `k - 1` more.
proof fn lemma_iterate_next_shift(i: int, k: nat, n: int)
    requires
        k > 0,
    ensures
        iterate_next(i, k, n) == iterate_next(next_index(i, n), (k - 1) as nat, n),
    decreases k,
{
    if k == 1 {
        assert(iterate_next(i, 1, n) == next_index(iterate_next(i, 0, n), n));
        assert(iterate_next(next_index(i, n), 0, n) == next_index(i, n));
    } else {
        let kk = (k - 1) as nat;
        lemma_iterate_next_shift(i, kk, n);
        assert(iterate_next(i, k, n) == next_index(iterate_next(i, kk, n), n));
        assert(iterate_next(next_index(i, n), kk, n) == next_index(
            iterate_next(next_index(i, n), (kk - 1) as nat, n),
            n,
        ));
    }
}

/// Closed form of the forward iteration: `k` steps forward from `i` land
/// on `(i + k) % n`.
pub proof fn lemma_iterate_next_closed_form(i: int, k: nat, n: int)
    requires
        0 <= i < n,
    ensures
        iterate_next(i, k, n) == (i + k) % n,
    decreases k,
{
    if k == 0 {
        lemma_small_mod(i as nat, n as nat);
    } else {
        lemma_iterate_next_closed_form(i, (k - 1) as nat, n);
        if n == 1 {
            lemma_mod_bound(i + k - 1, n);
            lemma_mod_bound(i + k, n);
            lemma_mod_bound((i + k - 1) % n + 1, n);
        } else {
            lemma_add_mod_noop(i + k - 1, 1, n);
            lemma_small_mod(1, n as nat);
        }
    }
}

/// Backward steps stay within the ring, for any number of steps.
pub proof fn lemma_iterate_prev_in_range(i: int, k: nat, n: int)
    requires
        0 <= i < n,
    ensures
        0 <= iterate_prev(i, k, n) < n,
    decreases k,
{
    if k > 0 {
        lemma_iterate_prev_in_range(i, (k - 1) as nat, n);
        lemma_prev_index_in_range(iterate_prev(i, (k - 1) as nat, n), n);
    }
}

/// `k` steps forward undo `k` steps backward.
pub proof fn lemma_iterate_next_undoes_prev(i: int, k: nat, n: int)
    requires
        0 <= i < n,
    ensures
        iterate_next(iterate_prev(i, k, n), k, n) == i,
    decreases k,
{
    if k > 0 {
        let kk = (k - 1) as nat;
        let y = iterate_prev(i, kk, n);
        lemma_iterate_prev_in_range(i, kk, n);
        lemma_prev_index_in_range(y, n);
        lemma_iterate_next_shift(prev_index(y, n), k, n);
        lemma_next_prev_inverse(y, n);
        lemma_iterate_next_undoes_prev(i, kk, n);
    }
}

/// Wraparound correctness, forward: on a non-empty ring of `n` windows,
/// `n` steps forward return the cursor to where it started.
pub proof fn lemma_next_full_cycle(i: int, n: int)
    requires
        0 <= i < n,
    ensures
        iterate_next(i, n as nat, n) == i,
{
    lemma_iterate_next_closed_form(i, n as nat, n);
    lemma_mod_add_multiples_vanish(i, n);
    lemma_small_mod(i as nat, n as nat);
}

/// Wraparound correctness, backward: on a non-empty ring of `n` windows,
/// `n` steps backward return the cursor to where it started.
pub proof fn lemma_prev_full_cycle(i: int, n: int)
    requires
        0 <= i < n,
    ensures
        iterate_prev(i, n as nat, n) == i,
{
    let y = iterate_prev(i, n as nat, n);
    lemma_iterate_prev_in_range(i, n as nat, n);
    lemma_iterate_next_undoes_prev(i, n as nat, n);
    lemma_next_full_cycle(y, n);
}

/// The registry: the tracked window list and the cursor of the currently
/// selected window.
pub struct WindowManager {
    pub windows: Vec<DofusWindow>,
    pub current_index: usize,
}

impl WindowManager {
    /// The cursor always points into the list; on an empty list it rests
    /// at the front.
    pub open spec fn wf(&self) -> bool {
        if self.windows@.len() == 0 {
            self.current_index == 0
        } else {
            self.current_index < self.windows@.len()
        }
    }

    /// An empty registry with the cursor at the front.
    pub fn new() -> (m: Self)
        ensures
            m.wf(),
            m.windows@.len() == 0,
            m.current_index == 0,
    {
        WindowManager { windows: Vec::new(), current_index: 0 }
    }

    /// Replaces the window list with a fresh enumeration. The cursor is
    /// reset to the front exactly when the size changed or the old cursor
    /// would fall outside the new list; otherwise it stays.
    pub fn refresh_windows(&mut self, new_windows: Vec<DofusWindow>)
        ensures
            final(self).wf(),
            final(self).windows == new_windows,
            new_windows@.len() != old(self).windows@.len() || old(self).current_index
                >= new_windows@.len() ==> final(self).current_index == 0,
            new_windows@.len() == old(self).windows@.len() && old(self).current_index
                < new_windows@.len() ==> final(self).current_index == old(self).current_index,
    {
        if new_windows.len() != self.windows.len() || self.current_index >= new_windows.len() {
            self.current_index = 0;
        }
        self.windows = new_windows;
    }

    /// Moves the cursor one window forward, wrapping at the end, and
    /// returns the window now under the cursor; on an empty list, changes
    /// nothing and returns nothing.
    pub fn next_window(&mut self) -> (r: Option<DofusWindow>)
        requires
            old(self).wf(),
        ensures
            final(self).wf(),
            final(self).windows == old(self).windows,
            old(self).windows@.len() == 0 ==> r is None && *final(self) == *old(self),
            old(self).windows@.len() > 0 ==> {
                &&& final(self).current_index == next_index(
                    old(self).current_index as int,
                    old(self).windows@.len() as int,
                )
                &&& r matches Some(w) && w@ == final(self).windows@[final(self).current_index as int]@
            },
    {
        if self.windows.is_empty() {
            return None;
        }
        let n = self.windows.len();
        proof {
            lemma_next_index_in_range(self.current_index as int, n as int);
        }
        self.current_index = (self.current_index + 1) % n;
        Some(self.windows[self.current_index].clone())
    }

    /// Moves the cursor one window backward, wrapping at the front, and
    /// returns the window now under the cursor; on an empty list, changes
    /// nothing and returns nothing.
    pub fn previous_window(&mut self) -> (r: Option<DofusWindow>)
        requires
            old(self).wf(),
        ensures
            final(self).wf(),
            final(self).windows == old(self).windows,
            old(self).windows@.len() == 0 ==> r is None && *final(self) == *old(self),
            old(self).windows@.len() > 0 ==> {
                &&& final(self).current_index == prev_index(
                    old(self).current_index as int,
                    old(self).windows@.len() as int,
                )
                &&& r matches Some(w) && w@ == final(self).windows@[final(self).current_index as int]@
            },
    {
        if self.windows.is_empty() {
            return None;
        }
        let n = self.windows.len();
        proof {
            lemma_prev_index_in_range(self.current_index as int, n as int);
            lemma_small_mod(self.current_index as nat, n as nat);
            lemma_mod_add_multiples_vanish(self.current_index - 1, n as int);
        }
        if self.current_index == 0 {
            self.current_index = n - 1;
            proof {
                lemma_small_mod((n - 1) as nat, n as nat);
            }
        } else {
            self.current_index = self.current_index - 1;
            proof {
                lemma_small_mod((old(self).current_index - 1) as nat, n as nat);
            }
        }
        Some(self.windows[self.current_index].clone())
    }
}

} // verus!
