//! The focus-stealing protocol: attach the calling thread's input to the
//! target window's thread, restore the window, raise it to the foreground,
//! and detach again.
//!
//! The operating-system calls themselves are made by the caller, one per
//! step. This module decides which step comes next and what the overall
//! outcome is, for every combination of step results. Its central
//! guarantee: once the attach step has succeeded, the protocol never
//! finishes without demanding a detach step first — even when the restore
//! or foreground step failed — so an input attachment is never left
//! dangling.

use vstd::prelude::*;

verus! {

/// Why a focus change failed. When several steps fail in one run, a failed
/// detach outranks the earlier failure: a dangling attachment is the
/// graver condition.
#[derive(Clone, Copy, PartialEq, Eq, Structural, Debug)]
pub enum FocusError {
    /// The thread-input attachment could not be established; nothing else
    /// was attempted.
    AttachFailed,
    /// The window could not be restored from its minimized state.
    RestoreFailed,
    /// The window did not become the foreground window.
    ForegroundFailed,
    /// The thread-input attachment could not be released again; the
    /// foreground change may still have partially taken effect.
    DetachFailed,
}

/// The operating-system step the caller must perform next.
#[derive(Clone, Copy, PartialEq, Eq, Structural, Debug)]
pub enum FocusAction {
    /// Attach the calling thread's input state to the target's thread.
    Attach,
    /// Restore the target window from its minimized state.
    Restore,
    /// Raise the target window to the foreground.
    RaiseForeground,
    /// Release the thread-input attachment.
    Detach,
}

/// Where a focus-change run stands.
#[derive(Clone, Copy, PartialEq, Eq, Debug)]
pub enum FocusState {
    /// Nothing attempted yet; the attach step is next.
    Start,
    /// Attach succeeded; the restore step is next.
    Attached,
    /// Restore succeeded; the foreground step is next.
    Restored,
    /// All that remains is to release the attachment; a failure of an
    /// earlier step is carried along to be surfaced afterwards.
    Cleanup(Option<FocusError>),
    /// The run is over with this outcome.
    Finished(Result<(), FocusError>),
}

/// The step the protocol demands in state `s`, if the run is not over.
pub open spec fn action_of(s: FocusState) -> Option<FocusAction> {
    match s {
        FocusState::Start => Some(FocusAction::Attach),
        FocusState::Attached => Some(FocusAction::Restore),
        FocusState::Restored => Some(FocusAction::RaiseForeground),
        FocusState::Cleanup(_) => Some(FocusAction::Detach),
        FocusState::Finished(_) => None,
    }
}

/// The state after performing the demanded step with result `ok`.
pub open spec fn step(s: FocusState, ok: bool) -> FocusState {
    match s {
        FocusState::Start => if ok {
            FocusState::Attached
        } else {
            FocusState::Finished(Err(FocusError::AttachFailed))
        },
        FocusState::Attached => if ok {
            FocusState::Restored
        } else {
            FocusState::Cleanup(Some(FocusError::RestoreFailed))
        },
        FocusState::Restored => if ok {
            FocusState::Cleanup(None)
        } else {
            FocusState::Cleanup(Some(FocusError::ForegroundFailed))
        },
        FocusState::Cleanup(pending) => if ok {
            match pending {
                None => FocusState::Finished(Ok(())),
                Some(e) => FocusState::Finished(Err(e)),
            }
        } else {
            FocusState::Finished(Err(FocusError::DetachFailed))
        },
        FocusState::Finished(r) => FocusState::Finished(r),
    }
}

/// The thread-input attachment is currently held in state `s`.
pub open spec fn attachment_held(s: FocusState) -> bool {
    s is Attached || s is Restored || s is Cleanup
}

/// The state after feeding a whole sequence of step results, first first.
pub open spec fn run(s: FocusState, outcomes: Seq<bool>) -> FocusState
    decreases outcomes.len(),
{
    if outcomes.len() == 0 {
        s
    } else {
        run(step(s, outcomes[0]), outcomes.drop_first())
    }
}

/// How many detach steps such a run demands of the caller: one for every
/// step taken from a cleanup state.
pub open spec fn detach_attempts(s: FocusState, outcomes: Seq<bool>) -> int
    decreases outcomes.len(),
{
    if outcomes.len() == 0 {
        0
    } else {
        (if s is Cleanup {
            1int
        } else {
            0int
        }) + detach_attempts(step(s, outcomes[0]), outcomes.drop_first())
    }
}

/// A run demands a detach a non-negative number of times.
pub proof fn lemma_detach_attempts_nonneg(s: FocusState, outcomes: Seq<bool>)
    ensures
        detach_attempts(s, outcomes) >= 0,
    decreases outcomes.len(),
{
    if outcomes.len() > 0 {
        lemma_detach_attempts_nonneg(step(s, outcomes[0]), outcomes.drop_first());
    }
}

/// While the attachment is held, the only door out of the protocol is the
/// cleanup state, and the step taken there is the detach.
pub proof fn lemma_finish_only_through_cleanup(s: FocusState, ok: bool)
    ensures
        attachment_held(s) && step(s, ok) is Finished ==> s is Cleanup && action_of(s) == Some(
            FocusAction::Detach,
        ),
        attachment_held(s) && !(step(s, ok) is Finished) ==> attachment_held(step(s, ok)),
{
}

/// Any completed run that starts with the attachment held demands at
/// least one detach.
proof fn lemma_held_run_detaches(s: FocusState, outcomes: Seq<bool>)
    requires
        attachment_held(s),
        run(s, outcomes) is Finished,
    ensures
        detach_attempts(s, outcomes) >= 1,
    decreases outcomes.len(),
{
    if outcomes.len() == 0 {
        assert(run(s, outcomes) == s);
    } else {
        let s1 = step(s, outcomes[0]);
        if s is Cleanup {
            lemma_detach_attempts_nonneg(s1, outcomes.drop_first());
        } else {
            lemma_held_run_detaches(s1, outcomes.drop_first());
        }
    }
}

/// Attach/detach pairing: in every complete run of the protocol whose
/// attach step succeeded, a detach step is demanded of the caller — even
/// when the restore or foreground step was made to fail.
pub proof fn lemma_attach_implies_detach(outcomes: Seq<bool>)
    requires
        outcomes.len() > 0,
        outcomes[0],
        run(FocusState::Start, outcomes) is Finished,
    ensures
        detach_attempts(FocusState::Start, outcomes) >= 1,
{
    assert(step(FocusState::Start, outcomes[0]) == FocusState::Attached);
    lemma_held_run_detaches(FocusState::Attached, outcomes.drop_first());
}

/// One focus-change run, driven step by step by the caller: ask for the
/// next action, perform the operating-system call it names, and report
/// the call's result back.
pub struct FocusSession {
    pub state: FocusState,
}

impl FocusSession {
    /// A fresh run, about to attempt the attach.
    pub fn new() -> (s: Self)
        ensures
            s.state == FocusState::Start,
    {
        FocusSession { state: FocusState::Start }
    }

    /// The operating-system step to perform next, or nothing when the run
    /// is over.
    pub fn next_action(&self) -> (a: Option<FocusAction>)
        ensures
            a == action_of(self.state),
    {
        match self.state {
            FocusState::Start => Some(FocusAction::Attach),
            FocusState::Attached => Some(FocusAction::Restore),
            FocusState::Restored => Some(FocusAction::RaiseForeground),
            FocusState::Cleanup(_) => Some(FocusAction::Detach),
            FocusState::Finished(_) => None,
        }
    }

    /// Advances the run by the result of the step that was just
    /// performed.
    pub fn advance(&mut self, ok: bool)
        ensures
            final(self).state == step(old(self).state, ok),
    {
        self.state = match self.state {
            FocusState::Start => if ok {
                FocusState::Attached
            } else {
                FocusState::Finished(Err(FocusError::AttachFailed))
            },
            FocusState::Attached => if ok {
                FocusState::Restored
            } else {
                FocusState::Cleanup(Some(FocusError::RestoreFailed))
            },
            FocusState::Restored => if ok {
                FocusState::Cleanup(None)
            } else {
                FocusState::Cleanup(Some(FocusError::ForegroundFailed))
            },
            FocusState::Cleanup(pending) => if ok {
                match pending {
                    None => FocusState::Finished(Ok(())),
                    Some(e) => FocusState::Finished(Err(e)),
                }
            } else {
                FocusState::Finished(Err(FocusError::DetachFailed))
            },
            FocusState::Finished(r) => FocusState::Finished(r),
        };
    }

    /// The run's outcome, once it is over.
    pub fn outcome(&self) -> (r: Option<Result<(), FocusError>>)
        ensures
            self.state matches FocusState::Finished(res) ==> r == Some(res),
            !(self.state is Finished) ==> r is None,
    {
        match self.state {
            FocusState::Finished(res) => Some(res),
            _ => None,
        }
    }
}

} // verus!
