use yastr::server::immutable::{cache_forever, cache_headers, CacheHeaders, CacheStep};

#[test]
fn a_client_with_any_tag_has_it_already() {
    assert_eq!(cache_forever(true), CacheStep::NotModified);
    assert_eq!(cache_forever(false), CacheStep::Handle);
}

#[test]
fn only_a_success_is_kept() {
    assert_eq!(
        cache_headers(200),
        Some(CacheHeaders {
            etag: "\"immutable\"",
            cache_control: "public, no-transform, max-age=31536000, stale-while-revalidate=31536000, immutable",
        })
    );
    for status in [199, 201, 206, 304, 404, 500] {
        assert_eq!(cache_headers(status), None, "{status}");
    }
}
