//! The backend-call model.
//!
//! Every effect this core asks of the tracing backend is recorded here as
//! data: one `BackendCall` per backend invocation. `request_calls` gives
//! the complete call sequence of one request's lifecycle — the single open
//! at creation time (promotion makes no backend call), followed by the
//! calls of the terminal action that `finalize` hands back for the phase
//! the cell ended in. The laws about call counts are proved over these
//! definitions.

use vstd::prelude::*;

use crate::lifecycle::ERROR_PRIORITY;
use crate::lifecycle::FinalizeAction;
use crate::lifecycle::Phase;
use crate::lifecycle::spec_promote;
use crate::naming::RouteInfo;
use crate::naming::spec_transaction_name;

verus! {

/// One call into the tracing backend.
pub enum BackendCall {
    /// Open a transaction under the given name.
    Open { name: Seq<char> },
    /// Attach an error annotation to the open transaction.
    NoticeError { priority: i32, message: Seq<char>, class: Seq<char> },
    /// End the open transaction, reporting it.
    End,
    /// Drop the open transaction without reporting it.
    Discard,
}

/// The four kinds of backend call, for counting.
pub enum CallKind {
    Open,
    NoticeError,
    End,
    Discard,
}

pub open spec fn kind_of(c: BackendCall) -> CallKind {
    match c {
        BackendCall::Open { .. } => CallKind::Open,
        BackendCall::NoticeError { .. } => CallKind::NoticeError,
        BackendCall::End => CallKind::End,
        BackendCall::Discard => CallKind::Discard,
    }
}

/// How many calls of kind `k` a call sequence holds.
pub open spec fn count_kind(s: Seq<BackendCall>, k: CallKind) -> nat
    decreases s.len(),
{
    if s.len() == 0 {
        0
    } else {
        (if kind_of(s.first()) == k {
            1nat
        } else {
            0nat
        }) + count_kind(s.drop_first(), k)
    }
}

/// The backend calls a terminal action performs, in order.
pub open spec fn action_calls<H>(a: FinalizeAction<H>) -> Seq<BackendCall> {
    match a {
        FinalizeAction::Report { handle, error } => match error {
            Option::Some(n) => seq![
                BackendCall::NoticeError { priority: n.priority, message: n.message@, class: n.class@ },
                BackendCall::End,
            ],
            Option::None => seq![BackendCall::End],
        },
        FinalizeAction::Discard { .. } => seq![BackendCall::Discard],
        FinalizeAction::Nothing => Seq::empty(),
    }
}

/// The backend calls finalization owes a cell that ended in `phase`, given
/// whether the response failed and the status text used as the error
/// message: a traced cell is ended (after one error note when the response
/// failed), an untraced cell is discarded, an absent cell gets no call.
pub open spec fn finalize_calls(phase: Phase, failed: bool, text: Seq<char>) -> Seq<BackendCall> {
    match phase {
        Phase::Traced => if failed {
            seq![
                BackendCall::NoticeError {
                    priority: ERROR_PRIORITY,
                    message: text,
                    class: Seq::empty(),
                },
                BackendCall::End,
            ]
        } else {
            seq![BackendCall::End]
        },
        Phase::NotTraced => seq![BackendCall::Discard],
        Phase::Absent => Seq::empty(),
    }
}

/// The phase a cell starts in, given whether the backend open succeeded.
pub open spec fn initial_phase(opened: bool) -> Phase {
    if opened {
        Phase::NotTraced
    } else {
        Phase::Absent
    }
}

/// The phase a cell is in after `n` promotion attempts.
pub open spec fn phase_after_promotes(p: Phase, n: nat) -> Phase
    decreases n,
{
    if n == 0 {
        p
    } else {
        spec_promote(phase_after_promotes(p, (n - 1) as nat))
    }
}

/// Every backend call one request's lifecycle makes: exactly one open
/// (under the route-derived name, whether or not it succeeds), no call at
/// all from the `n_expose` promotion attempts, then the terminal calls for
/// the phase the cell ended in.
pub open spec fn request_calls(
    route: Option<RouteInfo>,
    opened: bool,
    n_expose: nat,
    failed: bool,
    text: Seq<char>,
) -> Seq<BackendCall> {
    seq![BackendCall::Open { name: spec_transaction_name(route) }] + finalize_calls(
        phase_after_promotes(initial_phase(opened), n_expose),
        failed,
        text,
    )
}

/// One request's lifecycle, summarized: whether the backend open
/// succeeded, how often handler code asked for tracing access, and the
/// response outcome.
pub struct RequestRun {
    pub route: Option<RouteInfo>,
    pub opened: bool,
    pub n_expose: nat,
    pub failed: bool,
    pub text: Seq<char>,
}

/// The call sequence of one summarized request.
pub open spec fn run_calls(r: RequestRun) -> Seq<BackendCall> {
    request_calls(r.route, r.opened, r.n_expose, r.failed, r.text)
}

/// Total calls of kind `k` over a batch of requests, each run in its own
/// flow with its own cell.
pub open spec fn total_kind(runs: Seq<RequestRun>, k: CallKind) -> nat
    decreases runs.len(),
{
    if runs.len() == 0 {
        0
    } else {
        count_kind(run_calls(runs.first()), k) + total_kind(runs.drop_first(), k)
    }
}

/// How many requests of a batch terminated without any backend call,
/// because their open had failed and their cell was absent.
pub open spec fn total_skipped(runs: Seq<RequestRun>) -> nat
    decreases runs.len(),
{
    if runs.len() == 0 {
        0
    } else {
        (if !runs.first().opened {
            1nat
        } else {
            0nat
        }) + total_skipped(runs.drop_first())
    }
}

} // verus!
