//! Laws of the lifecycle, proved over the backend-call model.
//!
//! Each public proof function here states one guarantee the instrumentor
//! gives for every request: one open per request, the right terminal call
//! for the phase the cell ended in, error notes only and always on failed
//! traced requests, idempotent promotion, silence after a failed open, and
//! balanced totals over any batch of requests.

use vstd::prelude::*;

use crate::lifecycle::ERROR_PRIORITY;
use crate::lifecycle::Phase;
use crate::lifecycle::spec_promote;
use crate::model::BackendCall;
use crate::model::CallKind;
use crate::model::RequestRun;
use crate::model::count_kind;
use crate::model::finalize_calls;
use crate::model::initial_phase;
use crate::model::kind_of;
use crate::model::phase_after_promotes;
use crate::model::request_calls;
use crate::model::total_kind;
use crate::model::total_skipped;
use crate::naming::RouteInfo;
use crate::naming::spec_transaction_name;

verus! {

proof fn lemma_count_empty(k: CallKind)
    ensures
        count_kind(Seq::empty(), k) == 0,
{
}

proof fn lemma_count_concat(s: Seq<BackendCall>, t: Seq<BackendCall>, k: CallKind)
    ensures
        count_kind(s + t, k) == count_kind(s, k) + count_kind(t, k),
    decreases s.len(),
{
    if s.len() == 0 {
        assert(s + t =~= t);
    } else {
        assert((s + t).drop_first() =~= s.drop_first() + t);
        assert((s + t).first() == s.first());
        lemma_count_concat(s.drop_first(), t, k);
    }
}

proof fn lemma_count_singleton(x: BackendCall, k: CallKind)
    ensures
        count_kind(seq![x], k) == (if kind_of(x) == k {
            1nat
        } else {
            0nat
        }),
{
    assert(seq![x].drop_first() =~= Seq::<BackendCall>::empty());
    lemma_count_empty(k);
    assert(seq![x].first() == x);
}

/// The calls of finalization, counted by kind: never an open; one end
/// exactly when the cell was traced; one discard exactly when it was not;
/// one error note exactly when it was traced and the response failed.
pub proof fn lemma_finalize_counts(phase: Phase, failed: bool, text: Seq<char>)
    ensures
        count_kind(finalize_calls(phase, failed, text), CallKind::Open) == 0,
        count_kind(finalize_calls(phase, failed, text), CallKind::End) == (if phase is Traced {
            1nat
        } else {
            0nat
        }),
        count_kind(finalize_calls(phase, failed, text), CallKind::Discard) == (
        if phase is NotTraced {
            1nat
        } else {
            0nat
        }),
        count_kind(finalize_calls(phase, failed, text), CallKind::NoticeError) == (
        if phase is Traced && failed {
            1nat
        } else {
            0nat
        }),
{
    let fin = finalize_calls(phase, failed, text);
    match phase {
        Phase::Traced => {
            if failed {
                let note = BackendCall::NoticeError {
                    priority: ERROR_PRIORITY,
                    message: text,
                    class: Seq::empty(),
                };
                assert(fin =~= seq![note] + seq![BackendCall::End]);
                lemma_count_concat(seq![note], seq![BackendCall::End], CallKind::Open);
                lemma_count_concat(seq![note], seq![BackendCall::End], CallKind::End);
                lemma_count_concat(seq![note], seq![BackendCall::End], CallKind::Discard);
                lemma_count_concat(seq![note], seq![BackendCall::End], CallKind::NoticeError);
                lemma_count_singleton(note, CallKind::Open);
                lemma_count_singleton(note, CallKind::End);
                lemma_count_singleton(note, CallKind::Discard);
                lemma_count_singleton(note, CallKind::NoticeError);
                lemma_count_singleton(BackendCall::End, CallKind::Open);
                lemma_count_singleton(BackendCall::End, CallKind::End);
                lemma_count_singleton(BackendCall::End, CallKind::Discard);
                lemma_count_singleton(BackendCall::End, CallKind::NoticeError);
            } else {
                lemma_count_singleton(BackendCall::End, CallKind::Open);
                lemma_count_singleton(BackendCall::End, CallKind::End);
                lemma_count_singleton(BackendCall::End, CallKind::Discard);
                lemma_count_singleton(BackendCall::End, CallKind::NoticeError);
            }
        },
        Phase::NotTraced => {
            lemma_count_singleton(BackendCall::Discard, CallKind::Open);
            lemma_count_singleton(BackendCall::Discard, CallKind::End);
            lemma_count_singleton(BackendCall::Discard, CallKind::Discard);
            lemma_count_singleton(BackendCall::Discard, CallKind::NoticeError);
        },
        Phase::Absent => {
        },
    }
}

/// Promotion attempts settle after the first: however many more follow, a
/// cell's phase is the one the first attempt left it in.
pub proof fn lemma_promote_idempotent(p: Phase)
    ensures
        spec_promote(spec_promote(p)) == spec_promote(p),
{
}

/// The phase after `n` promotion attempts: the starting phase for none,
/// and the phase one promotion gives for any positive number of them.
pub proof fn lemma_phase_after_promotes(p: Phase, n: nat)
    ensures
        phase_after_promotes(p, n) == (if n == 0 {
            p
        } else {
            spec_promote(p)
        }),
    decreases n,
{
    if n > 0 {
        lemma_phase_after_promotes(p, (n - 1) as nat);
    }
}

/// Exactly one open call occurs per request, however many times handler
/// code asks for tracing access: no duplicate creation.
pub proof fn lemma_open_called_once(
    route: Option<RouteInfo>,
    opened: bool,
    n_expose: nat,
    failed: bool,
    text: Seq<char>,
)
    ensures
        count_kind(request_calls(route, opened, n_expose, failed, text), CallKind::Open) == 1,
{
    let opening = BackendCall::Open { name: spec_transaction_name(route) };
    let phase = phase_after_promotes(initial_phase(opened), n_expose);
    lemma_count_concat(seq![opening], finalize_calls(phase, failed, text), CallKind::Open);
    lemma_count_singleton(opening, CallKind::Open);
    lemma_finalize_counts(phase, failed, text);
}

/// A request whose open succeeded but whose transaction was never exposed
/// ends in exactly one discard, with no end and no error note.
pub proof fn lemma_unexposed_discarded(
    route: Option<RouteInfo>,
    failed: bool,
    text: Seq<char>,
)
    ensures
        count_kind(request_calls(route, true, 0, failed, text), CallKind::Discard) == 1,
        count_kind(request_calls(route, true, 0, failed, text), CallKind::End) == 0,
        count_kind(request_calls(route, true, 0, failed, text), CallKind::NoticeError) == 0,
{
    let opening = BackendCall::Open { name: spec_transaction_name(route) };
    let phase = phase_after_promotes(initial_phase(true), 0);
    lemma_count_concat(seq![opening], finalize_calls(phase, failed, text), CallKind::Discard);
    lemma_count_concat(seq![opening], finalize_calls(phase, failed, text), CallKind::End);
    lemma_count_concat(seq![opening], finalize_calls(phase, failed, text), CallKind::NoticeError);
    lemma_count_singleton(opening, CallKind::Discard);
    lemma_count_singleton(opening, CallKind::End);
    lemma_count_singleton(opening, CallKind::NoticeError);
    lemma_finalize_counts(phase, failed, text);
}

/// A request whose transaction was exposed at least once ends in exactly
/// one end call and no discard.
pub proof fn lemma_exposed_ended(
    route: Option<RouteInfo>,
    n_expose: nat,
    failed: bool,
    text: Seq<char>,
)
    requires
        n_expose >= 1,
    ensures
        count_kind(request_calls(route, true, n_expose, failed, text), CallKind::End) == 1,
        count_kind(request_calls(route, true, n_expose, failed, text), CallKind::Discard) == 0,
{
    let opening = BackendCall::Open { name: spec_transaction_name(route) };
    let phase = phase_after_promotes(initial_phase(true), n_expose);
    lemma_phase_after_promotes(initial_phase(true), n_expose);
    lemma_count_concat(seq![opening], finalize_calls(phase, failed, text), CallKind::End);
    lemma_count_concat(seq![opening], finalize_calls(phase, failed, text), CallKind::Discard);
    lemma_count_singleton(opening, CallKind::End);
    lemma_count_singleton(opening, CallKind::Discard);
    lemma_finalize_counts(phase, failed, text);
}

/// A failed response on an exposed transaction gets exactly one error
/// note, placed immediately before the end call, with the status text as
/// its message: the whole call sequence is open, error note, end.
pub proof fn lemma_failure_noted(
    route: Option<RouteInfo>,
    n_expose: nat,
    failed: bool,
    text: Seq<char>,
)
    requires
        n_expose >= 1,
        failed,
    ensures
        request_calls(route, true, n_expose, failed, text) =~= seq![
            BackendCall::Open { name: spec_transaction_name(route) },
            BackendCall::NoticeError {
                priority: ERROR_PRIORITY,
                message: text,
                class: Seq::empty(),
            },
            BackendCall::End,
        ],
        count_kind(request_calls(route, true, n_expose, failed, text), CallKind::NoticeError)
            == 1,
{
    lemma_phase_after_promotes(initial_phase(true), n_expose);
    let opening = BackendCall::Open { name: spec_transaction_name(route) };
    let phase = phase_after_promotes(initial_phase(true), n_expose);
    lemma_count_concat(seq![opening], finalize_calls(phase, failed, text), CallKind::NoticeError);
    lemma_count_singleton(opening, CallKind::NoticeError);
    lemma_finalize_counts(phase, failed, text);
}

/// When the open fails, the request's whole call sequence is that one
/// failed open: finalization makes no backend call at all, however often
/// the absent transaction was asked for and whatever the response was.
pub proof fn lemma_failed_open_silent(
    route: Option<RouteInfo>,
    n_expose: nat,
    failed: bool,
    text: Seq<char>,
)
    ensures
        request_calls(route, false, n_expose, failed, text) =~= seq![
            BackendCall::Open { name: spec_transaction_name(route) },
        ],
        count_kind(request_calls(route, false, n_expose, failed, text), CallKind::End) == 0,
        count_kind(request_calls(route, false, n_expose, failed, text), CallKind::Discard) == 0,
        count_kind(request_calls(route, false, n_expose, failed, text), CallKind::NoticeError)
            == 0,
{
    lemma_phase_after_promotes(initial_phase(false), n_expose);
    let opening = BackendCall::Open { name: spec_transaction_name(route) };
    let phase = phase_after_promotes(initial_phase(false), n_expose);
    lemma_count_concat(seq![opening], finalize_calls(phase, failed, text), CallKind::End);
    lemma_count_concat(seq![opening], finalize_calls(phase, failed, text), CallKind::Discard);
    lemma_count_concat(seq![opening], finalize_calls(phase, failed, text), CallKind::NoticeError);
    lemma_count_singleton(opening, CallKind::End);
    lemma_count_singleton(opening, CallKind::Discard);
    lemma_count_singleton(opening, CallKind::NoticeError);
    lemma_finalize_counts(phase, failed, text);
}

/// Every request terminates exactly once: one end, one discard, or — when
/// its open failed — no terminal call at all.
pub proof fn lemma_one_terminal(
    route: Option<RouteInfo>,
    opened: bool,
    n_expose: nat,
    failed: bool,
    text: Seq<char>,
)
    ensures
        count_kind(request_calls(route, opened, n_expose, failed, text), CallKind::End)
            + count_kind(request_calls(route, opened, n_expose, failed, text), CallKind::Discard)
            + (if opened {
            0nat
        } else {
            1nat
        }) == 1,
{
    let opening = BackendCall::Open { name: spec_transaction_name(route) };
    let phase = phase_after_promotes(initial_phase(opened), n_expose);
    lemma_phase_after_promotes(initial_phase(opened), n_expose);
    lemma_count_concat(seq![opening], finalize_calls(phase, failed, text), CallKind::End);
    lemma_count_concat(seq![opening], finalize_calls(phase, failed, text), CallKind::Discard);
    lemma_count_singleton(opening, CallKind::End);
    lemma_count_singleton(opening, CallKind::Discard);
    lemma_finalize_counts(phase, failed, text);
}

/// Over any batch of requests, each run in its own flow with its own
/// cell, the books balance: as many opens as requests, and as many
/// terminations — ends, discards, and the silent terminations of requests
/// whose open failed — as requests.
pub proof fn lemma_balanced_batch(runs: Seq<RequestRun>)
    ensures
        total_kind(runs, CallKind::Open) == runs.len(),
        total_kind(runs, CallKind::End) + total_kind(runs, CallKind::Discard) + total_skipped(
            runs,
        ) == runs.len(),
    decreases runs.len(),
{
    if runs.len() > 0 {
        let r = runs.first();
        lemma_open_called_once(r.route, r.opened, r.n_expose, r.failed, r.text);
        lemma_one_terminal(r.route, r.opened, r.n_expose, r.failed, r.text);
        lemma_balanced_batch(runs.drop_first());
    }
}

} // verus!
