//! Synthetic left-click injection: the messages that make up one click, and
//! the accounting of a batch of clicks fanned out over many windows.
//!
//! The actual posting of a message is an operating-system call made by the
//! caller; this module fixes what is posted and what the outcome of a batch
//! is for every combination of per-window results.

use vstd::prelude::*;

verus! {

/// Message identifier of a left-button press.
pub const WM_LBUTTONDOWN: u32 = 0x0201;

/// Message identifier of a left-button release.
pub const WM_LBUTTONUP: u32 = 0x0202;

/// Message flag saying that the left button is held down.
pub const MK_LBUTTON: usize = 0x0001;

/// Settle delay between the press and the release of one click, in
/// milliseconds.
pub const CLICK_SETTLE_DELAY_MS: u64 = 50;

/// Delay between two windows of a sequential batch when the caller names
/// none, in milliseconds.
pub const DEFAULT_CLICK_DELAY_MS: u64 = 100;

/// A pointer position in screen coordinates.
#[derive(Clone, Copy, PartialEq, Eq, Structural, Debug)]
pub struct Point {
    pub x: i32,
    pub y: i32,
}

/// Why an injection attempt failed.
#[derive(Clone, Copy, PartialEq, Eq, Structural, Debug)]
pub enum InjectError {
    /// A button message could not be delivered to its window.
    PostFailed,
    /// The pointer position could not be read; a batch aborts on this
    /// before touching any window.
    PointerQueryFailed,
}

/// One synthetic mouse message, ready to be delivered to a window.
#[derive(Clone, Copy, PartialEq, Eq, Structural, Debug)]
pub struct ClickMessage {
    pub message: u32,
    pub wparam: usize,
    pub lparam: isize,
}

/// The packed coordinate word of a mouse message: the low 16 bits hold the
/// x coordinate, the next 16 bits the y coordinate.
pub open spec fn lparam_of(x: i32, y: i32) -> isize {
    ((((y & 0xFFFF) << 16) | (x & 0xFFFF))) as isize
}

/// The packing is faithful: the low word of the coordinate word is the
/// low word of `x`, the next word is the low word of `y`.
pub proof fn lemma_lparam_words(x: i32, y: i32)
    ensures
        (lparam_of(x, y) as i64) & 0xFFFF == (x as i64) & 0xFFFF,
        ((lparam_of(x, y) as i64) >> 16) & 0xFFFF == (y as i64) & 0xFFFF,
{
    assert((((((y & 0xFFFF) << 16) | (x & 0xFFFF)) as isize) as i64) & 0xFFFF == (x as i64)
        & 0xFFFF) by (bit_vector);
    assert(((((((y & 0xFFFF) << 16) | (x & 0xFFFF)) as isize) as i64) >> 16) & 0xFFFF == (y
        as i64) & 0xFFFF) by (bit_vector);
}

/// Packs screen coordinates into the coordinate word of a mouse message.
pub fn make_lparam(x: i32, y: i32) -> (r: isize)
    ensures
        r == lparam_of(x, y),
{
    ((((y & 0xFFFF) << 16) | (x & 0xFFFF))) as isize
}

/// Builds the press/release pair of messages for one left click at `p`,
/// both aimed at the same coordinates.
pub fn click_messages(p: Point) -> (pair: (ClickMessage, ClickMessage))
    ensures
        pair.0.message == WM_LBUTTONDOWN,
        pair.0.wparam == MK_LBUTTON,
        pair.0.lparam == lparam_of(p.x, p.y),
        pair.1.message == WM_LBUTTONUP,
        pair.1.wparam == 0,
        pair.1.lparam == lparam_of(p.x, p.y),
{
    let down = ClickMessage { message: WM_LBUTTONDOWN, wparam: MK_LBUTTON, lparam: make_lparam(p.x, p.y) };
    let up = ClickMessage { message: WM_LBUTTONUP, wparam: 0, lparam: make_lparam(p.x, p.y) };
    (down, up)
}

/// The outcome of one click, given whether the press and the release were
/// each delivered: the click succeeds exactly when both were.
pub fn click_outcome(down_delivered: bool, up_delivered: bool) -> (r: Result<(), InjectError>)
    ensures
        down_delivered && up_delivered ==> r == Ok::<(), InjectError>(()),
        !(down_delivered && up_delivered) ==> r == Err::<(), InjectError>(InjectError::PostFailed),
{
    if down_delivered && up_delivered {
        Ok(())
    } else {
        Err(InjectError::PostFailed)
    }
}

/// The delay enforced between two windows of a sequential batch: the
/// caller's value when one is given, the default otherwise.
pub fn effective_delay(delay_ms: Option<u64>) -> (d: u64)
    ensures
        delay_ms matches Some(v) ==> d == v,
        delay_ms is None ==> d == DEFAULT_CLICK_DELAY_MS,
{
    match delay_ms {
        Some(v) => v,
        None => DEFAULT_CLICK_DELAY_MS,
    }
}

/// Opens a batch click: a batch starts only when the pointer position was
/// read; a failed pointer query aborts the whole batch before any window
/// is touched.
pub fn start_batch(pointer: Option<Point>) -> (r: Result<Point, InjectError>)
    ensures
        pointer matches Some(p) ==> r == Ok::<Point, InjectError>(p),
        pointer is None ==> r == Err::<Point, InjectError>(InjectError::PointerQueryFailed),
{
    match pointer {
        Some(p) => Ok(p),
        None => Err(InjectError::PointerQueryFailed),
    }
}

/// How many entries of `s` are `true`.
pub open spec fn count_successes(s: Seq<bool>) -> int
    decreases s.len(),
{
    if s.len() == 0 {
        0
    } else {
        count_successes(s.drop_last()) + if s.last() {
            1int
        } else {
            0int
        }
    }
}

/// The count of successes never exceeds the number of entries and is never
/// negative.
pub proof fn lemma_count_successes_bounds(s: Seq<bool>)
    ensures
        0 <= count_successes(s) <= s.len(),
    decreases s.len(),
{
    if s.len() > 0 {
        lemma_count_successes_bounds(s.drop_last());
    }
}

/// What a batch of per-window clicks amounted to.
#[derive(Clone, Copy, PartialEq, Eq, Structural, Debug)]
pub struct BatchReport {
    /// Windows whose click was delivered.
    pub clicked: usize,
    /// Windows whose click failed; such failures are reported per window
    /// and never fail the batch as a whole.
    pub failed: usize,
}

/// Tallies the per-window outcomes of a batch. A failed window only adds
/// to `failed`: it neither stops the tally nor taints the other windows.
pub fn tally_batch(results: &Vec<bool>) -> (rep: BatchReport)
    ensures
        rep.clicked == count_successes(results@),
        rep.clicked + rep.failed == results@.len(),
{
    let mut clicked: usize = 0;
    let mut failed: usize = 0;
    let mut i: usize = 0;
    proof {
        assert(results@.subrange(0, 0) =~= Seq::<bool>::empty());
    }
    while i < results.len()
        invariant
            i <= results.len(),
            clicked == count_successes(results@.subrange(0, i as int)),
            clicked + failed == i,
        decreases results.len() - i,
    {
        proof {
            assert(results@.subrange(0, i + 1).drop_last() =~= results@.subrange(0, i as int));
            lemma_count_successes_bounds(results@.subrange(0, i as int));
        }
        if results[i] {
            clicked = clicked + 1;
        } else {
            failed = failed + 1;
        }
        i = i + 1;
    }
    proof {
        assert(results@.subrange(0, results@.len() as int) =~= results@);
    }
    BatchReport { clicked, failed }
}

} // verus!
