//! The per-request transaction state cell.
//!
//! A cell owns the backend transaction handle (type parameter `H`) for
//! exactly one in-flight request. It is created from the outcome of the one
//! backend open call, promoted from `NotTraced` to `Traced` the first time
//! downstream handler code asks for tracing access, and consumed exactly
//! once at response time, handing the handle out inside the one terminal
//! action the backend owes: report (with an error note first if the
//! response failed), discard, or nothing at all. Because the handle moves
//! into the terminal action, a finalized cell cannot be finalized again.

use vstd::prelude::*;

use crate::model::action_calls;
use crate::model::finalize_calls;

verus! {

/// Error priority attached to a failed response's error note.
pub const ERROR_PRIORITY: i32 = 100;

/// The lifecycle state of one request's transaction cell.
pub enum Transaction<H> {
    /// A running transaction no handler has asked for yet; it will be
    /// discarded rather than reported.
    NotTraced(H),
    /// A running transaction some handler has claimed; it will be reported.
    Traced(H),
    /// No transaction: the backend failed to open one, or the cell was
    /// never populated.
    Absent,
}

/// The lifecycle state with the handle abstracted away.
pub enum Phase {
    NotTraced,
    Traced,
    Absent,
}

/// What a response's status contributes to finalization: its numeric code
/// and its rendered text (used as the error-note message on failure).
pub struct ResponseStatus {
    pub code: u16,
    pub text: String,
}

/// An error annotation to attach to a reported transaction.
pub struct ErrorNote {
    pub priority: i32,
    pub message: String,
    pub class: String,
}

/// The single terminal backend action a finalized cell calls for. The
/// handle moves into the action, so it can be consumed at most once.
pub enum FinalizeAction<H> {
    /// End the transaction, attaching `error` first if it is present.
    Report { handle: H, error: Option<ErrorNote> },
    /// Drop the transaction without reporting it.
    Discard { handle: H },
    /// No transaction existed, so the backend is owed nothing.
    Nothing,
}

/// A status code outside the success class (2xx) counts as a failure.
pub open spec fn spec_is_failure(code: u16) -> bool {
    !(200 <= code < 300)
}

pub fn is_failure(code: u16) -> (r: bool)
    ensures
        r == spec_is_failure(code),
{
    !(200 <= code && code < 300)
}

/// The phase a promotion attempt leaves a cell in: a first claim moves
/// `NotTraced` to `Traced`; later claims and absent cells are unchanged.
pub open spec fn spec_promote(p: Phase) -> Phase {
    match p {
        Phase::NotTraced => Phase::Traced,
        Phase::Traced => Phase::Traced,
        Phase::Absent => Phase::Absent,
    }
}

impl<H> Transaction<H> {
    /// The cell's phase.
    pub open spec fn phase(&self) -> Phase {
        match self {
            Transaction::NotTraced(_) => Phase::NotTraced,
            Transaction::Traced(_) => Phase::Traced,
            Transaction::Absent => Phase::Absent,
        }
    }

    /// The handle the cell owns, if any.
    pub open spec fn spec_handle(&self) -> Option<H> {
        match self {
            Transaction::NotTraced(h) => Option::Some(*h),
            Transaction::Traced(h) => Option::Some(*h),
            Transaction::Absent => Option::None,
        }
    }

    /// Build the cell from the outcome of the request's one backend open
    /// call: a fresh handle starts `NotTraced`; an open failure leaves the
    /// cell `Absent`, degrading instrumentation to a no-op.
    pub fn from_open(outcome: Option<H>) -> (cell: Self)
        ensures
            match outcome {
                Option::Some(h) => cell == Transaction::NotTraced(h),
                Option::None => cell == Transaction::<H>::Absent,
            },
    {
        match outcome {
            Option::Some(h) => Transaction::NotTraced(h),
            Option::None => Transaction::Absent,
        }
    }

    /// Claim tracing access for downstream handler code: promote a
    /// `NotTraced` cell to `Traced`, leave a `Traced` or `Absent` cell as
    /// it is, and say whether a live traced transaction is now available.
    /// The handle is kept through every outcome, so repeated claims keep
    /// referring to the same backend transaction and open no second one.
    pub fn promote(&mut self) -> (claimed: bool)
        ensures
            final(self).phase() == spec_promote(old(self).phase()),
            final(self).spec_handle() == old(self).spec_handle(),
            claimed == (final(self).phase() is Traced),
    {
        let mut taken = Transaction::Absent;
        core::mem::swap(self, &mut taken);
        match taken {
            Transaction::NotTraced(h) => {
                *self = Transaction::Traced(h);
                true
            },
            Transaction::Traced(h) => {
                *self = Transaction::Traced(h);
                true
            },
            Transaction::Absent => {
                *self = Transaction::Absent;
                false
            },
        }
    }

    /// Consume the cell at response time and return the one terminal
    /// action owed to the backend: a `Traced` cell is reported (with an
    /// error note carrying the status text first, when the status is a
    /// failure), a `NotTraced` cell is discarded, an `Absent` cell calls
    /// for nothing. The handle, when there is one, moves out unchanged.
    pub fn finalize(self, status: &ResponseStatus) -> (act: FinalizeAction<H>)
        ensures
            self.phase() is Traced && spec_is_failure(status.code) ==> (match act {
                FinalizeAction::Report { handle, error } => {
                    &&& Option::Some(handle) == self.spec_handle()
                    &&& error matches Option::Some(note) && note.priority == ERROR_PRIORITY
                        && note.message@ == status.text@ && note.class@ == Seq::<char>::empty()
                },
                _ => false,
            }),
            self.phase() is Traced && !spec_is_failure(status.code) ==> (match act {
                FinalizeAction::Report { handle, error } => {
                    &&& Option::Some(handle) == self.spec_handle()
                    &&& error is None
                },
                _ => false,
            }),
            self.phase() is NotTraced ==> (match act {
                FinalizeAction::Discard { handle } => Option::Some(handle) == self.spec_handle(),
                _ => false,
            }),
            self.phase() is Absent ==> act is Nothing,
            action_calls(act) == finalize_calls(
                self.phase(),
                spec_is_failure(status.code),
                status.text@,
            ),
    {
        match self {
            Transaction::Traced(h) => {
                if is_failure(status.code) {
                    FinalizeAction::Report {
                        handle: h,
                        error: Option::Some(
                            ErrorNote {
                                priority: ERROR_PRIORITY,
                                message: status.text.clone(),
                                class: String::new(),
                            },
                        ),
                    }
                } else {
                    FinalizeAction::Report { handle: h, error: Option::None }
                }
            },
            Transaction::NotTraced(h) => FinalizeAction::Discard { handle: h },
            Transaction::Absent => FinalizeAction::Nothing,
        }
    }
}

} // verus!
