//! Decision logic of the invalidation engine: which filesystem change
//! notifications matter, how an affected absolute path translates into
//! the store's logical key, and the debounced invalidation step itself.
//! The blocking receive on the notification stream stays outside this
//! crate; it hands each event's kind, path and arrival time in here.

use vstd::prelude::*;
use vstd::string::StrSliceExecFns;
use vstd::string::StringExecFns;
use crate::cache::CacheStore;
use crate::debounce::{spec_note, DebounceLedger};
use crate::text::{spec_ends_with, spec_starts_with, str_ends_with, str_starts_with};

verus! {

/// The kinds of filesystem change notification the engine
/// distinguishes; only the first three drive invalidation.
pub enum FsEventKind {
    Create,
    Modify,
    Remove,
    Other,
}

/// Create, modify and remove events are relevant; everything else
/// (access notifications, rescans) is ignored.
pub open spec fn spec_relevant(kind: FsEventKind) -> bool {
    !(kind is Other)
}

/// Whether an event of this kind drives invalidation.
pub fn event_is_relevant(kind: &FsEventKind) -> (r: bool)
    ensures
        r == spec_relevant(*kind),
{
    match kind {
        FsEventKind::Other => false,
        _ => true,
    }
}

/// The path ends in `.` followed by `ext`, with at least one
/// character of file name before the dot: a file named by the bare
/// suffix alone (`.html`) has no extension and does not count.
pub open spec fn spec_has_ext(path: Seq<char>, suffix: Seq<char>) -> bool {
    spec_ends_with(path, suffix) && path.len() > suffix.len() && path[path.len() - suffix.len()
        - 1] != '/'
}

fn has_ext(path: &str, suffix: &str) -> (r: bool)
    ensures
        r == spec_has_ext(path@, suffix@),
{
    let plen = path.unicode_len();
    let slen = suffix.unicode_len();
    str_ends_with(path, suffix) && plen > slen && path.get_char(plen - slen - 1) != '/'
}

/// A path carries a recognized content-bearing extension.
pub open spec fn spec_recognized(path: Seq<char>) -> bool {
    spec_has_ext(path, ".html"@) || spec_has_ext(path, ".css"@) || spec_has_ext(path, ".js"@)
}

/// Whether the file's extension is one of the recognized
/// content-bearing types; all other files are ignored.
pub fn has_recognized_extension(path: &str) -> (r: bool)
    ensures
        r == spec_recognized(path@),
{
    has_ext(path, ".html") || has_ext(path, ".css") || has_ext(path, ".js")
}

/// `abs` names something strictly inside the watch root `root`: the
/// root is a proper prefix and the separator follows it.
pub open spec fn spec_under_root(root: Seq<char>, abs: Seq<char>) -> bool {
    root.len() < abs.len() && spec_starts_with(abs, root) && abs[root.len() as int] == '/'
}

/// As `spec_under_root`, for a root that itself ends with the
/// separator (such as the filesystem root): the remainder after the
/// root is then already the relative path.
pub open spec fn spec_under_sep_root(root: Seq<char>, abs: Seq<char>) -> bool {
    0 < root.len() < abs.len() && spec_starts_with(abs, root) && abs[root.len() as int] != '/'
        && root[root.len() - 1] == '/'
}

/// The logical cache key for an affected absolute path: the path
/// relative to the watch root, prefixed with `/`. A path outside the
/// root falls back to the raw path as the key, rather than failing
/// the event.
pub open spec fn spec_logical_key(root: Seq<char>, abs: Seq<char>) -> Seq<char> {
    if spec_under_root(root, abs) {
        seq!['/'] + abs.subrange(root.len() as int + 1, abs.len() as int)
    } else if spec_under_sep_root(root, abs) {
        seq!['/'] + abs.subrange(root.len() as int, abs.len() as int)
    } else {
        abs
    }
}

/// Translates an affected absolute path into the store's logical key.
pub fn logical_key(root: &str, abs: &str) -> (key: String)
    ensures
        key@ == spec_logical_key(root@, abs@),
{
    let rlen = root.unicode_len();
    let alen = abs.unicode_len();
    if rlen < alen && str_starts_with(abs, root) {
        if abs.get_char(rlen) == '/' {
            let mut key = ("/").to_owned();
            key.append(abs.substring_char(rlen + 1, alen));
            proof {
                reveal_strlit("/");
                assert(key@ =~= spec_logical_key(root@, abs@));
            }
            return key;
        }
        if rlen > 0 && root.get_char(rlen - 1) == '/' {
            let mut key = ("/").to_owned();
            key.append(abs.substring_char(rlen, alen));
            proof {
                reveal_strlit("/");
                assert(key@ =~= spec_logical_key(root@, abs@));
            }
            return key;
        }
    }
    let key = abs.to_owned();
    proof {
        assert(key@ =~= spec_logical_key(root@, abs@));
    }
    key
}

/// One step of the invalidation engine, at the specification level:
/// the cache and ledger after an event, and whether an entry was
/// invalidated.
pub open spec fn spec_process(
    m: Map<Seq<char>, (Seq<u8>, Seq<char>)>,
    ledger: Map<Seq<char>, u64>,
    root: Seq<char>,
    kind: FsEventKind,
    abs: Seq<char>,
    now_ms: u64,
) -> (Map<Seq<char>, (Seq<u8>, Seq<char>)>, Map<Seq<char>, u64>, bool) {
    if !spec_relevant(kind) || !spec_recognized(abs) {
        (m, ledger, false)
    } else {
        let key = spec_logical_key(root, abs);
        let step = spec_note(ledger, key, now_ms);
        if step.1 {
            (m.remove(key), step.0, true)
        } else {
            (m, step.0, false)
        }
    }
}

/// Processes one affected path of one change notification: irrelevant
/// kinds and unrecognized extensions are discarded, events inside the
/// debounce window are suppressed, and an accepted event removes the
/// matching cache entry. Returns whether an invalidation happened.
pub fn process_event(
    cache: &mut CacheStore,
    ledger: &mut DebounceLedger,
    root: &str,
    kind: &FsEventKind,
    abs: &str,
    now_ms: u64,
) -> (invalidated: bool)
    requires
        old(cache).wf(),
        old(ledger).wf(),
    ensures
        final(cache).wf(),
        final(ledger).wf(),
        (final(cache)@, final(ledger)@, invalidated) == spec_process(
            old(cache)@,
            old(ledger)@,
            root@,
            *kind,
            abs@,
            now_ms,
        ),
{
    if !event_is_relevant(kind) {
        return false;
    }
    if !has_recognized_extension(abs) {
        return false;
    }
    let key = logical_key(root, abs);
    let accepted = ledger.note_event(key.as_str(), now_ms);
    if accepted {
        cache.invalidate(key.as_str());
        true
    } else {
        false
    }
}

} // verus!
