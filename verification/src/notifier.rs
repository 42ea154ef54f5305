//! The focus-change notifier: polled once per tick with "what is active
//! now", it raises an event only on a true transition, never while the
//! observed value repeats.

use vstd::prelude::*;

verus! {

/// What one observation emits, given the previously observed value: the
/// new value on a transition, nothing while the value is unchanged.
pub open spec fn emitted(last: Option<usize>, current: usize) -> Option<usize> {
    if last == Some(current) {
        None
    } else {
        Some(current)
    }
}

/// Debouncing, stated over the transition function: an observation never
/// emits twice for the same value in a row — whatever `current` was, a
/// second observation of it emits nothing — while a genuine change always
/// emits the new value.
pub proof fn lemma_edge_triggered(last: Option<usize>, current: usize)
    ensures
        emitted(Some(current), current) is None,
        last != Some(current) ==> emitted(last, current) == Some(current),
{
}

/// Edge detector over a polled value. Feed it every tick's observation;
/// it hands back the event to raise, if any.
pub struct FocusNotifier {
    /// The value seen on the previous tick; nothing before the first
    /// tick, so the first observation always raises an event.
    pub last: Option<usize>,
}

impl FocusNotifier {
    /// A notifier that has seen nothing yet.
    pub fn new() -> (n: Self)
        ensures
            n.last is None,
    {
        FocusNotifier { last: None }
    }

    /// Takes one tick's observation; returns the event to raise, which is
    /// the new value exactly when it differs from the previous tick's.
    pub fn observe(&mut self, current: usize) -> (emit: Option<usize>)
        ensures
            final(self).last == Some(current),
            emit == emitted(old(self).last, current),
    {
        let changed = match self.last {
            Some(prev) => prev != current,
            None => true,
        };
        self.last = Some(current);
        if changed {
            Some(current)
        } else {
            None
        }
    }
}

/// Is the foreground window one of ours: either the hosting application's
/// own window or the currently active matched window?
pub fn focus_matches(foreground: usize, own_window: usize, active_match: Option<usize>) -> (b:
    bool)
    ensures
        b == (foreground == own_window || active_match == Some(foreground)),
{
    match active_match {
        Some(h) => foreground == own_window || h == foreground,
        None => foreground == own_window,
    }
}

} // verus!
