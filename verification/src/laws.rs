//! The guarantees that relate the cache store, the invalidation
//! engine and the request coordinator, stated and proved over the
//! same specification functions that the executable functions'
//! contracts use.

use vstd::prelude::*;
use crate::debounce::{spec_note, spec_suppressed, DEBOUNCE_WINDOW_MS};
use crate::request::{spec_finish, spec_fs_rel, spec_handle, spec_resolve, SpecStep};
use crate::watch::{spec_logical_key, spec_process, spec_recognized, spec_relevant, FsEventKind};

verus! {

/// Cache correctness: for a path never requested before, the first
/// retrieval is a miss that names the backing file, and once the miss
/// is finished with the file's bytes, every subsequent retrieval of
/// the same target (absent an intervening invalidation) is answered
/// from the store with a response byte-identical to the first one.
pub proof fn lemma_read_through(
    m: Map<Seq<char>, (Seq<u8>, Seq<char>)>,
    target: Seq<char>,
    fs_path: Seq<char>,
    bytes: Seq<u8>,
)
    requires
        !m.contains_key(spec_resolve(target)),
    ensures
        ({
            let key = spec_resolve(target);
            let filled = spec_finish(m, key, fs_path, Some(bytes));
            &&& spec_handle(m, "GET"@, target) == (SpecStep::Fetch {
                key,
                fs_rel: spec_fs_rel(key),
            })
            &&& spec_handle(filled.0, "GET"@, target) == (SpecStep::Reply {
                head: filled.1.0,
                body: filled.1.1,
            })
            &&& filled.1.1 == bytes
        }),
{
}

/// Invalidation correctness: an accepted change event for a watched
/// file with a recognized extension removes the matching entry, so
/// the next retrieval of that target goes back to the disk.
pub proof fn lemma_invalidation_forces_reread(
    m: Map<Seq<char>, (Seq<u8>, Seq<char>)>,
    ledger: Map<Seq<char>, u64>,
    root: Seq<char>,
    kind: FsEventKind,
    abs: Seq<char>,
    now_ms: u64,
    target: Seq<char>,
)
    requires
        spec_relevant(kind),
        spec_recognized(abs),
        !spec_suppressed(ledger, spec_logical_key(root, abs), now_ms),
        spec_resolve(target) == spec_logical_key(root, abs),
    ensures
        ({
            let stepped = spec_process(m, ledger, root, kind, abs, now_ms);
            &&& stepped.2 == true
            &&& stepped.0 == m.remove(spec_resolve(target))
            &&& spec_handle(stepped.0, "GET"@, target) == (SpecStep::Fetch {
                key: spec_resolve(target),
                fs_rel: spec_fs_rel(spec_resolve(target)),
            })
        }),
{
}

/// The cache, ledger and number of invalidations after a run of
/// modification events for one path at the given times.
pub open spec fn spec_run_events(
    m: Map<Seq<char>, (Seq<u8>, Seq<char>)>,
    ledger: Map<Seq<char>, u64>,
    root: Seq<char>,
    abs: Seq<char>,
    times: Seq<u64>,
) -> (Map<Seq<char>, (Seq<u8>, Seq<char>)>, Map<Seq<char>, u64>, int)
    decreases times.len(),
{
    if times.len() == 0 {
        (m, ledger, 0)
    } else {
        let stepped = spec_process(m, ledger, root, FsEventKind::Modify, abs, times[0]);
        let rest = spec_run_events(stepped.0, stepped.1, root, abs, times.skip(1));
        (
            rest.0,
            rest.1,
            rest.2 + if stepped.2 {
                1int
            } else {
                0int
            },
        )
    }
}

proof fn lemma_all_suppressed(
    m: Map<Seq<char>, (Seq<u8>, Seq<char>)>,
    ledger: Map<Seq<char>, u64>,
    root: Seq<char>,
    abs: Seq<char>,
    times: Seq<u64>,
)
    requires
        ledger.contains_key(spec_logical_key(root, abs)),
        forall|i: int| 0 <= i < times.len()
            ==> times[i] < ledger[spec_logical_key(root, abs)] + DEBOUNCE_WINDOW_MS,
    ensures
        spec_run_events(m, ledger, root, abs, times).0 == m,
        spec_run_events(m, ledger, root, abs, times).1 == ledger,
        spec_run_events(m, ledger, root, abs, times).2 == 0,
    decreases times.len(),
{
    if times.len() > 0 {
        let stepped = spec_process(m, ledger, root, FsEventKind::Modify, abs, times[0]);
        assert(stepped.0 == m && stepped.1 == ledger && !stepped.2);
        assert(forall|i: int| 0 <= i < times.skip(1).len() ==> times.skip(1)[i] == times[i + 1]);
        lemma_all_suppressed(m, ledger, root, abs, times.skip(1));
    }
}

/// Debounce property: however many modification events fire for one
/// path, if they all lie within one debounce window of the first (and
/// arrive in time order), at most one invalidation results.
pub proof fn lemma_debounce_at_most_one(
    m: Map<Seq<char>, (Seq<u8>, Seq<char>)>,
    ledger: Map<Seq<char>, u64>,
    root: Seq<char>,
    abs: Seq<char>,
    times: Seq<u64>,
)
    requires
        forall|i: int, j: int| 0 <= i <= j < times.len() ==> times[i] <= times[j],
        forall|i: int| 0 <= i < times.len() ==> #[trigger] times[i] < times[0] + DEBOUNCE_WINDOW_MS,
    ensures
        spec_run_events(m, ledger, root, abs, times).2 <= 1,
    decreases times.len(),
{
    if times.len() > 0 {
        let key = spec_logical_key(root, abs);
        let stepped = spec_process(m, ledger, root, FsEventKind::Modify, abs, times[0]);
        let tail = times.skip(1);
        assert(forall|i: int| 0 <= i < tail.len() ==> tail[i] == times[i + 1]);
        if !spec_recognized(abs) {
            lemma_debounce_at_most_one(m, ledger, root, abs, tail);
        } else if !spec_note(ledger, key, times[0]).1 {
            lemma_debounce_at_most_one(m, ledger, root, abs, tail);
        } else {
            assert(stepped.1 == ledger.insert(key, times[0]));
            assert(forall|i: int| 0 <= i < tail.len()
                ==> tail[i] < stepped.1[key] + DEBOUNCE_WINDOW_MS);
            lemma_all_suppressed(stepped.0, stepped.1, root, abs, tail);
        }
    }
}

/// Root mapping: the root path and the default document are the same
/// request, both as a cache key and for filesystem resolution.
pub proof fn lemma_root_maps_to_index(m: Map<Seq<char>, (Seq<u8>, Seq<char>)>, method: Seq<char>)
    ensures
        spec_resolve("/"@) == "/index.html"@,
        spec_handle(m, method, "/"@) == spec_handle(m, method, "/index.html"@),
{
    reveal_strlit("/");
    reveal_strlit("/index.html");
    assert("/"@.len() == 1);
    assert("/index.html"@.len() == 11);
}

} // verus!
