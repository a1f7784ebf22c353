use std::cell::Cell;

use search_rs::render_cache::{fingerprint, RenderCache};
use search_rs::result::SearchResult;

fn result_at(path: &str, line: usize) -> SearchResult {
    SearchResult::new(
        path.to_string(),
        line,
        format!("content {}", line),
        "m".to_string(),
        None,
        None,
    )
}

#[test]
fn test_cache_bound_is_never_exceeded() {
    // Insert limit + 1 distinct fingerprints: the size never exceeds the
    // limit, and the triggering insert evicted a quarter of the entries.
    let limit: usize = 8;
    let mut cache = RenderCache::new(limit);
    for fp in 0..(limit as u64) {
        cache.insert(fp, format!("line {}", fp));
        let (size, cap) = cache.stats();
        assert!(size <= cap);
    }
    assert_eq!(cache.stats().0, limit);

    cache.insert(limit as u64, "one more".to_string());
    let (size, cap) = cache.stats();
    assert!(size <= cap);
    // A quarter of the prior entries left in the triggering insert.
    assert_eq!(size, limit - limit / 4 + 1);
}

#[test]
fn test_five_inserts_into_a_cache_of_four() {
    // Fresh cache with limit 4: after inserting fingerprints 1..=5, the size
    // stays at most 4 and the newest fingerprint is present.
    let mut cache = RenderCache::new(4);
    for fp in 1u64..=5u64 {
        cache.insert(fp, format!("rendered {}", fp));
    }
    let (size, _) = cache.stats();
    assert!(size <= 4);
    assert!(cache.get(5).is_some());
    assert_eq!(cache.get(5).unwrap(), "rendered 5");
}

#[test]
fn test_get_or_render_renders_once() {
    let mut cache = RenderCache::new(16);
    let result = result_at("src/a.rs", 3);
    let calls = Cell::new(0u32);

    let line1 = cache.get_or_render(&result, |r: &SearchResult| {
        calls.set(calls.get() + 1);
        format!("<{}>", r.line_content)
    });
    assert_eq!(line1, "<content 3>");
    assert_eq!(calls.get(), 1);

    // The second request hits the cache: the render function is not invoked.
    let line2 = cache.get_or_render(&result, |r: &SearchResult| {
        calls.set(calls.get() + 1);
        format!("<{}>", r.line_content)
    });
    assert_eq!(line2, "<content 3>");
    assert_eq!(calls.get(), 1);
}

#[test]
fn test_fingerprint_is_deterministic_and_content_sensitive() {
    let a = result_at("src/a.rs", 3);
    let b = result_at("src/a.rs", 3);
    let c = result_at("src/a.rs", 4);
    assert_eq!(fingerprint(&a), fingerprint(&b));
    assert_ne!(fingerprint(&a), fingerprint(&c));

    // The fingerprint covers path, line and raw text, not derived fields.
    let colored = SearchResult::new(
        "src/a.rs".to_string(),
        3,
        "content 3".to_string(),
        "different match".to_string(),
        Some("colored".to_string()),
        None,
    );
    assert_eq!(fingerprint(&a), fingerprint(&colored));
}

#[test]
fn test_clear_empties_the_cache() {
    let mut cache = RenderCache::new(4);
    cache.insert(1, "x".to_string());
    cache.insert(2, "y".to_string());
    assert_eq!(cache.stats().0, 2);
    cache.clear();
    assert_eq!(cache.stats().0, 0);
    assert!(cache.get(1).is_none());
}

#[test]
fn test_insert_keeps_the_first_line_for_a_fingerprint() {
    let mut cache = RenderCache::new(4);
    cache.insert(9, "first".to_string());
    cache.insert(9, "second".to_string());
    assert_eq!(cache.stats().0, 1);
    assert_eq!(cache.get(9).unwrap(), "first");
}

#[test]
fn test_tiny_cache_limit_still_bounded() {
    let mut cache = RenderCache::new(1);
    cache.insert(1, "a".to_string());
    assert_eq!(cache.stats().0, 1);
    cache.insert(2, "b".to_string());
    assert_eq!(cache.stats().0, 1);
    assert!(cache.get(2).is_some());
    assert!(cache.get(1).is_none());
}
