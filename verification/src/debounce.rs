//! The debounce ledger: for each logical path, the time (in
//! milliseconds on a monotonic clock) of the last accepted change
//! event. Events that arrive within the debounce window of the last
//! accepted one for the same path are suppressed, so that an editor
//! emitting several notifications per save causes one invalidation.
//! The ledger is owned by the single invalidation engine alone.

use vstd::prelude::*;
use crate::strmap::StrMap;

verus! {

/// Length of the debounce window, in milliseconds.
pub const DEBOUNCE_WINDOW_MS: u64 = 200;

/// An event for `key` at `now_ms` is suppressed when the last accepted
/// event for the same key lies less than the debounce window in the
/// past (or, on a clock glitch, in the future).
pub open spec fn spec_suppressed(ledger: Map<Seq<char>, u64>, key: Seq<char>, now_ms: u64) -> bool {
    ledger.contains_key(key) && now_ms < ledger[key] + DEBOUNCE_WINDOW_MS
}

/// One debounce step: the ledger after an event for `key` at `now_ms`,
/// and whether the event was accepted.
pub open spec fn spec_note(ledger: Map<Seq<char>, u64>, key: Seq<char>, now_ms: u64) -> (
    Map<Seq<char>, u64>,
    bool,
) {
    if spec_suppressed(ledger, key, now_ms) {
        (ledger, false)
    } else {
        (ledger.insert(key, now_ms), true)
    }
}

/// Per-path record of the last accepted change event.
pub struct DebounceLedger {
    last_event: StrMap<u64>,
}

impl View for DebounceLedger {
    type V = Map<Seq<char>, u64>;

    closed spec fn view(&self) -> Map<Seq<char>, u64> {
        self.last_event@
    }
}

impl DebounceLedger {
    /// Internal well-formedness of the ledger.
    pub closed spec fn wf(&self) -> bool {
        self.last_event.wf()
    }

    /// An empty ledger: no event has been accepted yet.
    pub fn new() -> (r: Self)
        ensures
            r.wf(),
            r@ == Map::<Seq<char>, u64>::empty(),
    {
        DebounceLedger { last_event: StrMap::new() }
    }

    /// Records an event for `key` observed at `now_ms` and reports
    /// whether it is accepted (not suppressed by the debounce window).
    /// Accepted events update the ledger; suppressed ones leave it
    /// unchanged.
    pub fn note_event(&mut self, key: &str, now_ms: u64) -> (accepted: bool)
        requires
            old(self).wf(),
        ensures
            final(self).wf(),
            (final(self)@, accepted) == spec_note(old(self)@, key@, now_ms),
    {
        let suppressed: bool = match self.last_event.get(key) {
            Some(last) => now_ms < *last || now_ms - *last < DEBOUNCE_WINDOW_MS,
            None => false,
        };
        if suppressed {
            false
        } else {
            self.last_event.insert(key, now_ms);
            true
        }
    }
}

} // verus!
