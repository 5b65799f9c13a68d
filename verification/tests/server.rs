use staticserve::cache::CacheStore;
use staticserve::debounce::DebounceLedger;
use staticserve::request::{finish_miss, handle_request, resolve_target, RequestOutcome};
use staticserve::text::{str_ends_with, str_eq, str_starts_with, u64_to_dec};
use staticserve::watch::{has_recognized_extension, logical_key, process_event, FsEventKind};

fn expect_fetch(out: RequestOutcome) -> (String, String) {
    match out {
        RequestOutcome::Fetch { key, fs_rel } => (key, fs_rel),
        RequestOutcome::Reply(_) => panic!("expected a cache miss"),
    }
}

#[test]
fn serves_index_then_cache_then_fresh_after_invalidation() {
    let mut cache = CacheStore::new();
    let mut ledger = DebounceLedger::new();

    let (key, fs_rel) = expect_fetch(handle_request(&cache, "GET", "/"));
    assert_eq!(key, "/index.html");
    assert_eq!(fs_rel, "index.html");

    let resp = finish_miss(&mut cache, &key, "index.html", Some(b"hello world".to_vec()));
    assert_eq!(
        resp.head,
        "HTTP/1.1 200 OK\r\nContent-Length: 11\r\nContent-Type: text/html\r\n\r\n"
    );
    assert_eq!(resp.body, b"hello world".to_vec());

    match handle_request(&cache, "GET", "/") {
        RequestOutcome::Reply(r) => {
            assert_eq!(r.head, resp.head);
            assert_eq!(r.body, resp.body);
        }
        RequestOutcome::Fetch { .. } => panic!("second retrieval must be a hit"),
    }

    let invalidated = process_event(
        &mut cache,
        &mut ledger,
        "/site",
        &FsEventKind::Modify,
        "/site/index.html",
        1000,
    );
    assert!(invalidated);

    let (key3, _) = expect_fetch(handle_request(&cache, "GET", "/"));
    assert_eq!(key3, "/index.html");
    let resp3 = finish_miss(&mut cache, &key3, "index.html", Some(b"goodbye!!!!".to_vec()));
    assert_eq!(resp3.head, resp.head);
    assert_eq!(resp3.body, b"goodbye!!!!".to_vec());
}

#[test]
fn missing_file_yields_404_and_caches_nothing() {
    let mut cache = CacheStore::new();
    let (key, fs_rel) = expect_fetch(handle_request(&cache, "GET", "/missing.css"));
    assert_eq!(key, "/missing.css");
    assert_eq!(fs_rel, "missing.css");

    let resp = finish_miss(&mut cache, &key, "missing.css", None);
    assert_eq!(
        resp.head,
        "HTTP/1.1 404 Not Found\r\nContent-Length: 22\r\nContent-Type: text/html\r\n\r\n"
    );
    assert_eq!(resp.body, b"<h1>404 Not Found</h1>".to_vec());

    let (key2, _) = expect_fetch(handle_request(&cache, "GET", "/missing.css"));
    assert_eq!(key2, "/missing.css");
}

#[test]
fn non_get_method_yields_405() {
    let cache = CacheStore::new();
    match handle_request(&cache, "POST", "/index.html") {
        RequestOutcome::Reply(r) => {
            assert_eq!(
                r.head,
                "HTTP/1.1 405 Method Not Allowed\r\nContent-Length: 31\r\nContent-Type: text/html\r\n\r\n"
            );
            assert_eq!(r.body, b"<h1>405 Method Not Allowed</h1>".to_vec());
        }
        RequestOutcome::Fetch { .. } => panic!("a non-GET request must not reach the filesystem"),
    }
}

#[test]
fn events_within_window_collapse_to_one_invalidation() {
    let mut cache = CacheStore::new();
    let mut ledger = DebounceLedger::new();
    finish_miss(&mut cache, "/a.html", "a.html", Some(b"x".to_vec()));

    let mut invalidations = 0;
    for t in [1000u64, 1050, 1100, 1199] {
        if process_event(&mut cache, &mut ledger, "/r", &FsEventKind::Modify, "/r/a.html", t) {
            invalidations += 1;
        }
    }
    assert_eq!(invalidations, 1);

    assert!(process_event(
        &mut cache,
        &mut ledger,
        "/r",
        &FsEventKind::Modify,
        "/r/a.html",
        1200
    ));
}

#[test]
fn unrecognized_extension_is_ignored() {
    let mut cache = CacheStore::new();
    let mut ledger = DebounceLedger::new();
    finish_miss(&mut cache, "/logo.png", "logo.png", Some(b"png".to_vec()));

    assert!(!process_event(
        &mut cache,
        &mut ledger,
        "/r",
        &FsEventKind::Modify,
        "/r/logo.png",
        1000
    ));
    match handle_request(&cache, "GET", "/logo.png") {
        RequestOutcome::Reply(_) => {}
        RequestOutcome::Fetch { .. } => panic!("the entry must still be cached"),
    }
}

#[test]
fn irrelevant_event_kind_is_ignored() {
    let mut cache = CacheStore::new();
    let mut ledger = DebounceLedger::new();
    finish_miss(&mut cache, "/a.html", "a.html", Some(b"x".to_vec()));

    assert!(!process_event(
        &mut cache,
        &mut ledger,
        "/r",
        &FsEventKind::Other,
        "/r/a.html",
        1000
    ));
    match handle_request(&cache, "GET", "/a.html") {
        RequestOutcome::Reply(_) => {}
        RequestOutcome::Fetch { .. } => panic!("the entry must still be cached"),
    }
}

#[test]
fn create_and_remove_events_also_invalidate() {
    let mut cache = CacheStore::new();
    let mut ledger = DebounceLedger::new();
    finish_miss(&mut cache, "/a.js", "a.js", Some(b"x".to_vec()));
    assert!(process_event(&mut cache, &mut ledger, "/r", &FsEventKind::Create, "/r/a.js", 1000));

    finish_miss(&mut cache, "/b.css", "b.css", Some(b"y".to_vec()));
    assert!(process_event(&mut cache, &mut ledger, "/r", &FsEventKind::Remove, "/r/b.css", 1000));
}

#[test]
fn logical_key_strips_the_watch_root() {
    assert_eq!(logical_key("/site", "/site/a/b.html"), "/a/b.html");
    assert_eq!(logical_key("/site", "/site/index.html"), "/index.html");
}

#[test]
fn logical_key_handles_a_root_ending_with_the_separator() {
    assert_eq!(logical_key("/", "/a.html"), "/a.html");
    assert_eq!(logical_key("/site/", "/site/a.html"), "/a.html");
}

#[test]
fn logical_key_falls_back_to_the_raw_path() {
    assert_eq!(logical_key("/site", "/elsewhere/a.html"), "/elsewhere/a.html");
    assert_eq!(logical_key("/site", "rel.html"), "rel.html");
}

#[test]
fn recognized_extensions() {
    assert!(has_recognized_extension("/r/a.html"));
    assert!(has_recognized_extension("/r/a.css"));
    assert!(has_recognized_extension("/r/a.js"));
    assert!(has_recognized_extension("/r/a.b.html"));
    assert!(!has_recognized_extension("/r/a.png"));
    assert!(!has_recognized_extension("/r/html"));
    assert!(!has_recognized_extension("/r/a.jsx"));
    assert!(!has_recognized_extension("/r/.html"));
    assert!(!has_recognized_extension(".css"));
    assert!(!has_recognized_extension(".js"));
}

#[test]
fn root_target_resolves_to_the_default_document() {
    assert_eq!(resolve_target("/"), "/index.html");
    assert_eq!(resolve_target("/other.css"), "/other.css");
    assert_eq!(resolve_target("/index.html"), "/index.html");
}

#[test]
fn content_type_comes_from_the_extension() {
    let mut cache = CacheStore::new();
    let resp = finish_miss(&mut cache, "/style.css", "style.css", Some(b"p{}".to_vec()));
    assert_eq!(
        resp.head,
        "HTTP/1.1 200 OK\r\nContent-Length: 3\r\nContent-Type: text/css\r\n\r\n"
    );
}

#[test]
fn unknown_binary_type_omits_the_content_type_header() {
    let mut cache = CacheStore::new();
    let resp = finish_miss(&mut cache, "/data.bin", "data.bin", Some(b"abc".to_vec()));
    assert_eq!(resp.head, "HTTP/1.1 200 OK\r\nContent-Length: 3\r\n\r\n");
    assert_eq!(resp.body, b"abc".to_vec());
}

#[test]
fn repopulation_replaces_the_entry() {
    let mut cache = CacheStore::new();
    finish_miss(&mut cache, "/a.html", "a.html", Some(b"one".to_vec()));
    finish_miss(&mut cache, "/a.html", "a.html", Some(b"two".to_vec()));
    match handle_request(&cache, "GET", "/a.html") {
        RequestOutcome::Reply(r) => assert_eq!(r.body, b"two".to_vec()),
        RequestOutcome::Fetch { .. } => panic!("expected a hit"),
    }
}

#[test]
fn target_without_separator_is_a_literal_key() {
    let cache = CacheStore::new();
    let (key, fs_rel) = expect_fetch(handle_request(&cache, "GET", "x"));
    assert_eq!(key, "x");
    assert_eq!(fs_rel, "");
}

#[test]
fn clock_going_backwards_still_suppresses() {
    let mut cache = CacheStore::new();
    let mut ledger = DebounceLedger::new();
    assert!(process_event(&mut cache, &mut ledger, "/r", &FsEventKind::Modify, "/r/a.html", 1000));
    assert!(!process_event(&mut cache, &mut ledger, "/r", &FsEventKind::Modify, "/r/a.html", 900));
}

#[test]
fn decimal_formatting() {
    assert_eq!(u64_to_dec(0), "0");
    assert_eq!(u64_to_dec(9), "9");
    assert_eq!(u64_to_dec(10), "10");
    assert_eq!(u64_to_dec(405), "405");
    assert_eq!(u64_to_dec(1234567890), "1234567890");
}

#[test]
fn string_helpers() {
    assert!(str_eq("GET", "GET"));
    assert!(!str_eq("GET", "POST"));
    assert!(!str_eq("GET", "GE"));
    assert!(str_ends_with("index.html", ".html"));
    assert!(!str_ends_with("x.xhtml", "a.html"));
    assert!(str_starts_with("/site/a", "/site"));
    assert!(!str_starts_with("/si", "/site"));
}
