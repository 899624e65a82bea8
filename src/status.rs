//! The status aggregator: two latches that remember whether any flagged typo
//! or any error went past, safe to share between threads.
use vstd::prelude::*;
use std::sync::atomic::{AtomicBool, Ordering};
use crate::message::Message;

verus! {

/// One step of a latch: once set it stays set, and a hit sets it.
pub open spec fn latch(seen: bool, hit: bool) -> bool {
    seen || hit
}

/// The typo latch after the events, one after another, from a cleared start.
pub open spec fn typos_seen(msgs: Seq<Message>) -> bool
    decreases msgs.len(),
{
    if msgs.len() == 0 {
        false
    } else {
        latch(typos_seen(msgs.drop_last()), msgs.last().spec_is_correction())
    }
}

/// The error latch after the events, one after another, from a cleared start.
pub open spec fn errors_seen(msgs: Seq<Message>) -> bool
    decreases msgs.len(),
{
    if msgs.len() == 0 {
        false
    } else {
        latch(errors_seen(msgs.drop_last()), msgs.last().spec_is_error())
    }
}

/// The typo latch is set exactly when some event so far is a flagged typo,
/// and the error latch exactly when some event so far is an error.
pub proof fn lemma_latches_record_any(msgs: Seq<Message>)
    ensures
        typos_seen(msgs) <==> exists|i: int| 0 <= i < msgs.len() && #[trigger] msgs[i].spec_is_correction(),
        errors_seen(msgs) <==> exists|i: int| 0 <= i < msgs.len() && #[trigger] msgs[i].spec_is_error(),
    decreases msgs.len(),
{
    if msgs.len() > 0 {
        let front = msgs.drop_last();
        lemma_latches_record_any(front);
        assert(forall|i: int| 0 <= i < front.len() ==> front[i] == msgs[i]);
        if msgs.last().spec_is_correction() {
            assert(msgs[msgs.len() - 1].spec_is_correction());
        }
        if msgs.last().spec_is_error() {
            assert(msgs[msgs.len() - 1].spec_is_error());
        }
        if exists|i: int| 0 <= i < msgs.len() && #[trigger] msgs[i].spec_is_correction() {
            let i = choose|i: int| 0 <= i < msgs.len() && #[trigger] msgs[i].spec_is_correction();
            if i < front.len() {
                assert(front[i].spec_is_correction());
            }
        }
        if exists|i: int| 0 <= i < msgs.len() && #[trigger] msgs[i].spec_is_error() {
            let i = choose|i: int| 0 <= i < msgs.len() && #[trigger] msgs[i].spec_is_error();
            if i < front.len() {
                assert(front[i].spec_is_error());
            }
        }
    }
}

/// A set latch stays set whatever events follow, flagged or not.
pub proof fn lemma_latches_stay_set(msgs: Seq<Message>, later: Seq<Message>)
    ensures
        typos_seen(msgs) ==> typos_seen(msgs + later),
        errors_seen(msgs) ==> errors_seen(msgs + later),
{
    lemma_latches_record_any(msgs);
    lemma_latches_record_any(msgs + later);
    if typos_seen(msgs) {
        let i = choose|i: int| 0 <= i < msgs.len() && #[trigger] msgs[i].spec_is_correction();
        assert((msgs + later)[i] == msgs[i]);
    }
    if errors_seen(msgs) {
        let i = choose|i: int| 0 <= i < msgs.len() && #[trigger] msgs[i].spec_is_error();
        assert((msgs + later)[i] == msgs[i]);
    }
}

/// Wraps a reporter and latches whether any flagged typo or any error was
/// recorded. Each latch moves with an atomic `fetch_or` of the event's
/// predicate, the `latch` step above, so concurrent records never lose a set.
pub struct MessageStatus<R> {
    typos_found: AtomicBool,
    errors_found: AtomicBool,
    reporter: R,
}

impl<R> MessageStatus<R> {
    /// The wrapped reporter.
    pub closed spec fn spec_reporter(&self) -> R {
        self.reporter
    }

    /// Both latches cleared, wrapping `reporter`.
    pub fn new(reporter: R) -> (r: Self)
        ensures
            r.spec_reporter() == reporter,
    {
        MessageStatus {
            typos_found: AtomicBool::new(false),
            errors_found: AtomicBool::new(false),
            reporter,
        }
    }

    /// The reporter that events are forwarded to.
    pub fn reporter(&self) -> (r: &R)
        ensures
            *r == self.spec_reporter(),
    {
        &self.reporter
    }

    /// Whether a flagged typo was recorded.
    pub fn typos_found(&self) -> bool {
        self.typos_found.load(Ordering::Relaxed)
    }

    /// Whether an error was recorded.
    pub fn errors_found(&self) -> bool {
        self.errors_found.load(Ordering::Relaxed)
    }

    /// Sets the typo latch where the event is a flagged typo and the error
    /// latch where it is an error; a latch already set stays set.
    pub fn record(&self, m: &Message) {
        self.typos_found.fetch_or(m.is_correction(), Ordering::Relaxed);
        self.errors_found.fetch_or(m.is_error(), Ordering::Relaxed);
    }
}

} // verus!
