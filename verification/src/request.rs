//! The request coordinator: given a request's method and target, it
//! refuses anything but GET, resolves the target to a cache key,
//! answers hits from the store, and on a miss names the file to read;
//! once the filesystem has answered, it populates the store and builds
//! the response from the very bytes just cached. The socket reads and
//! writes and the disk read itself happen outside this crate.

use vstd::prelude::*;
use vstd::string::StrSliceExecFns;
use crate::cache::{clone_bytes, CacheStore};
use crate::http::{
    error_response, spec_error_response, spec_success_response, success_response, HttpResponse,
};
use crate::text::str_eq;

verus! {

/// What the MIME classifier answers for a path: a pure function of
/// the path's characters (only the extension is consulted).
pub uninterp spec fn mime_of(path: Seq<char>) -> Seq<char>;

/// Relies on `mime_guess::from_path` and
/// `MimeGuess::first_or_octet_stream`: the content type guessed from
/// the path's extension, `application/octet-stream` when the table
/// knows none. The guess is a lookup in a fixed table keyed by the
/// extension, so the result is a function of the path characters
/// alone.
#[verifier::external_body]
fn guess_mime(path: &str) -> (r: String)
    ensures
        r@ == mime_of(path@),
{
    mime_guess::from_path(path).first_or_octet_stream().to_string()
}

/// The root path maps to the default document; every other target is
/// itself the cache key.
pub open spec fn spec_resolve(target: Seq<char>) -> Seq<char> {
    if target == "/"@ {
        "/index.html"@
    } else {
        target
    }
}

/// Resolves a request target to its cache key.
pub fn resolve_target(target: &str) -> (key: String)
    ensures
        key@ == spec_resolve(target@),
{
    if str_eq(target, "/") {
        ("/index.html").to_owned()
    } else {
        target.to_owned()
    }
}

/// The filesystem path, relative to the served root, for a logical
/// key: the key minus its leading separator.
pub open spec fn spec_fs_rel(key: Seq<char>) -> Seq<char> {
    if key.len() >= 1 {
        key.subrange(1, key.len() as int)
    } else {
        key
    }
}

/// Strips the leading separator off a logical key.
pub fn fs_relative_path(key: &str) -> (rel: String)
    ensures
        rel@ == spec_fs_rel(key@),
{
    let n = key.unicode_len();
    if n >= 1 {
        key.substring_char(1, n).to_owned()
    } else {
        key.to_owned()
    }
}

/// What the coordinator decides for a request, at the specification
/// level.
pub enum SpecStep {
    Reply { head: Seq<char>, body: Seq<u8> },
    Fetch { key: Seq<char>, fs_rel: Seq<char> },
}

/// The coordinator's decision for a request.
pub enum RequestOutcome {
    /// The response is ready: the method was refused, or the store
    /// held the entry.
    Reply(HttpResponse),
    /// Cache miss: the file at `fs_rel` under the served root must be
    /// read, and the result handed to `finish_miss` together with
    /// `key`.
    Fetch { key: String, fs_rel: String },
}

impl View for RequestOutcome {
    type V = SpecStep;

    open spec fn view(&self) -> SpecStep {
        match self {
            RequestOutcome::Reply(r) => SpecStep::Reply { head: r.head@, body: r.body@ },
            RequestOutcome::Fetch { key, fs_rel } => SpecStep::Fetch {
                key: key@,
                fs_rel: fs_rel@,
            },
        }
    }
}

/// The coordinator's decision, at the specification level: any
/// non-GET method is answered 405 before any cache or filesystem
/// access; a hit is answered from the store; a miss names the file.
pub open spec fn spec_handle(
    m: Map<Seq<char>, (Seq<u8>, Seq<char>)>,
    method: Seq<char>,
    target: Seq<char>,
) -> SpecStep {
    if method != "GET"@ {
        SpecStep::Reply {
            head: spec_error_response(405, "Method Not Allowed"@).0,
            body: spec_error_response(405, "Method Not Allowed"@).1,
        }
    } else {
        let key = spec_resolve(target);
        if m.contains_key(key) {
            SpecStep::Reply {
                head: spec_success_response(m[key].0, m[key].1).0,
                body: spec_success_response(m[key].0, m[key].1).1,
            }
        } else {
            SpecStep::Fetch { key, fs_rel: spec_fs_rel(key) }
        }
    }
}

/// Decides a request against the store. The store is only read; the
/// cache lookup always precedes any filesystem access, and a non-GET
/// method skips both.
pub fn handle_request(cache: &CacheStore, method: &str, target: &str) -> (out: RequestOutcome)
    requires
        cache.wf(),
    ensures
        out@ == spec_handle(cache@, method@, target@),
{
    if !str_eq(method, "GET") {
        return RequestOutcome::Reply(error_response(405, "Method Not Allowed"));
    }
    let key = resolve_target(target);
    match cache.lookup(key.as_str()) {
        Some(entry) => {
            let body = entry.content_clone();
            let resp = success_response(body, entry.content_type.as_str());
            RequestOutcome::Reply(resp)
        },
        None => {
            let fs_rel = fs_relative_path(key.as_str());
            RequestOutcome::Fetch { key, fs_rel }
        },
    }
}

/// The view of the filesystem's answer to a miss: the file's bytes
/// when it existed as a regular file and could be read.
pub open spec fn opt_bytes_view(file: Option<Vec<u8>>) -> Option<Seq<u8>> {
    match file {
        Some(b) => Some(b@),
        None => None,
    }
}

/// The store and the response after a miss is finished, at the
/// specification level.
pub open spec fn spec_finish(
    m: Map<Seq<char>, (Seq<u8>, Seq<char>)>,
    key: Seq<char>,
    fs_path: Seq<char>,
    file: Option<Seq<u8>>,
) -> (Map<Seq<char>, (Seq<u8>, Seq<char>)>, (Seq<char>, Seq<u8>)) {
    match file {
        Some(bytes) => (
            m.insert(key, (bytes, mime_of(fs_path))),
            spec_success_response(bytes, mime_of(fs_path)),
        ),
        None => (m, spec_error_response(404, "Not Found"@)),
    }
}

/// Finishes a cache miss once the filesystem has answered. `file`
/// holds the file's full content when it existed as a regular file
/// and was read, and nothing otherwise. On content, the content type
/// is derived from `fs_path` (the path the file was read from), the
/// pair is inserted into the store, and the response carries the very
/// bytes just cached; otherwise nothing is cached and the answer is a
/// 404.
pub fn finish_miss(
    cache: &mut CacheStore,
    key: &str,
    fs_path: &str,
    file: Option<Vec<u8>>,
) -> (resp: HttpResponse)
    requires
        old(cache).wf(),
    ensures
        final(cache).wf(),
        (final(cache)@, resp@) == spec_finish(old(cache)@, key@, fs_path@, opt_bytes_view(file)),
{
    match file {
        Some(bytes) => {
            let content_type = guess_mime(fs_path);
            let body = clone_bytes(&bytes);
            let type_copy = content_type.clone();
            cache.insert(key, bytes, content_type);
            success_response(body, type_copy.as_str())
        },
        None => {
            error_response(404, "Not Found")
        },
    }
}

} // verus!
