use nostr::JsonUtil;
use yastr::event::{Event, EventId, PublicKey};
use yastr::server::nip95::meta::FileMeta;
use yastr::server::nip95::{add_slash, attr_escape, content_type, get_bytes, get_file, get_info, html_escape, info_html, requested_id, serve_file, show_html, stream_bytes, FileHeaders, FileReply, FileStream, Info};

const CACHE: &str = "public, no-transform, max-age=31536000, stale-while-revalidate=31536000, immutable";

fn event(kind: u16, tags: &[&[&str]], content: &str) -> Event {
    Event {
        id: EventId { bytes: [1; 32] },
        pubkey: PublicKey { bytes: [2; 32] },
        kind,
        tags: tags.iter().map(|tag| tag.iter().map(|part| part.to_string()).collect()).collect(),
        content: content.to_string(),
        json: "{}".to_string(),
    }
}

fn id(n: u8) -> String {
    format!("{n:02x}").repeat(32)
}

fn err<T>(message: &str) -> Result<T, String> {
    Err(message.to_string())
}

fn accept(value: &[u8]) -> Option<Vec<u8>> {
    Some(value.to_vec())
}

fn single() -> Event {
    event(1065, &[&["e", &id(1)], &["size", "12"], &["fileName", "a.txt"]], "")
}

#[test]
fn text_is_escaped_for_html() {
    assert_eq!(html_escape("a < b & c > \"d\""), "a &lt; b &amp; c > \"d\"");
    assert_eq!(html_escape("&lt;"), "&amp;lt;");
    assert_eq!(html_escape(""), "");
    assert!(!html_escape("<<script>").contains('<'));
}

#[test]
fn text_is_escaped_for_attributes() {
    assert_eq!(attr_escape("say \"hi\" & <go>"), "say &quot;hi&quot; & <go>");
    assert!(!attr_escape("\"\"").contains('"'));
}

#[test]
fn addresses_get_a_slash() {
    assert_eq!(add_slash("abc"), "abc/");
}

#[test]
fn addresses_name_events() {
    assert_eq!(requested_id(&id(0xab)).unwrap().bytes, [0xab; 32]);
    assert_eq!(requested_id("abc"), err("error: InvalidId"));
}

#[test]
fn references_are_found_in_order() {
    let event = event(1065, &[&["e", &id(2)], &["t", "x"], &["e", &id(1), ""], &["e", "nonsense"], &["e"], &["E", &id(3)], &["p", &id(4)]], "");
    let ids = FileMeta::from(&event).event_ids();
    assert_eq!(ids, vec![EventId { bytes: [2; 32] }, EventId { bytes: [1; 32] }]);
    assert!(FileMeta::from(&event).is_multi_part());
    assert!(!FileMeta::from(&single()).is_multi_part());
}

#[test]
fn a_file_may_have_a_name() {
    assert_eq!(FileMeta::from(&event(1065, &[], "")).file_name(), Ok(None));
    assert_eq!(FileMeta::from(&single()).file_name(), Ok(Some("a.txt".to_string())));
    let odd = event(1065, &[&["fileName"], &["fileName", "a", "b"], &["filename", "c"], &["fileName", "d"]], "");
    assert_eq!(FileMeta::from(&odd).file_name(), Ok(Some("d".to_string())));
}

#[test]
fn a_file_may_not_have_two_names() {
    let event = event(1065, &[&["fileName", "a"], &["fileName", "b\""], &["fileName", "c"]], "");
    assert_eq!(FileMeta::from(&event).file_name(), err("Multiple fileName tags found: [\"a\", \"b\\\"\"]"));
}

#[test]
fn the_first_size_counts() {
    assert_eq!(FileMeta::from(&single()).size(), Ok(12));
    let event1 = event(1065, &[&["size"], &["size", "+7", "x"], &["size", "8"]], "");
    assert_eq!(FileMeta::from(&event1).size(), Ok(7));
    let largest = event(1065, &[&["size", "18446744073709551615"]], "");
    assert_eq!(FileMeta::from(&largest).size(), Ok(u64::MAX));
}

#[test]
fn a_size_has_to_be_a_number() {
    assert_eq!(FileMeta::from(&event(1065, &[&["size"]], "")).size(), err("Missing required size."));
    for (text, error) in [
        ("", "cannot parse integer from empty string"),
        ("-1", "invalid digit found in string"),
        ("+", "invalid digit found in string"),
        ("1 ", "invalid digit found in string"),
        ("18446744073709551616", "number too large to fit in target type"),
    ] {
        let event = event(1065, &[&["size", text]], "");
        assert_eq!(FileMeta::from(&event).size(), Err(format!("Error parsing size: {error}")));
    }
}

#[test]
fn a_block_size_is_needed_for_several_parts() {
    assert_eq!(FileMeta::from(&single()).block_size(), Ok(None));
    let two = event(1065, &[&["e", &id(1)], &["e", &id(2)]], "");
    assert_eq!(FileMeta::from(&two).block_size(), err("A multi-part message requires a blockSize argument."));
    let given = event(1065, &[&["blockSize", "1024", "x"]], "");
    assert_eq!(FileMeta::from(&given).block_size(), Ok(Some(1024)));
}

#[test]
fn a_block_size_has_to_be_one_number() {
    let empty = event(1065, &[&["blockSize"]], "");
    assert_eq!(FileMeta::from(&empty).block_size(), err("Missing value for {tag_name}"));
    let odd = event(1065, &[&["blockSize", "1k"]], "");
    assert_eq!(FileMeta::from(&odd).block_size(), err("Invalid value for blockSize: invalid digit found in string"));
    let twice = event(1065, &[&["blockSize", "1"], &["blockSize", "2"], &["blockSize", "3"]], "");
    assert_eq!(FileMeta::from(&twice).block_size(), err("Expected 1 tag named blockSize but found 3"));
}

#[test]
fn custom_tags_are_looked_up_by_name() {
    let event = event(1065, &[&["mine", "a", "b"], &["title", "t"]], "");
    let meta = FileMeta::from(&event);
    assert_eq!(meta.custom_tag("mine"), Ok(Some(vec!["a".to_string(), "b".to_string()])));
    assert_eq!(meta.custom_tag("title"), Ok(None));
    assert_eq!(meta.custom_tag("other"), Ok(None));
    assert_eq!(meta.require_custom_tag("mine"), Ok(vec!["a".to_string(), "b".to_string()]));
    assert_eq!(meta.require_custom_tag("other"), err("Required tag other is missing"));
}

#[test]
fn a_custom_tag_may_not_be_required_twice() {
    let event = event(1065, &[&["mine", "a"], &["mine", "b"]], "");
    assert_eq!(FileMeta::from(&event).require_custom_tag("mine"), err("Expected 1 tag named mine but found 2"));
}

#[test]
fn other_events_are_not_rejected() {
    assert_eq!(FileMeta::reject(&event(1, &[], "")), Ok(()));
    assert_eq!(FileMeta::reject(&single()), Ok(()));
}

#[test]
fn incomplete_files_are_rejected() {
    assert_eq!(
        FileMeta::reject(&event(1065, &[&["size", "1"]], "")),
        err("Event must have at least one event ID reference.")
    );
    assert_eq!(FileMeta::reject(&event(1065, &[&["e", &id(1)]], "")), err("Missing required size."));
}

#[test]
fn files_of_several_parts_have_to_say_more() {
    let (a, b) = (id(1), id(2));
    let parts: [&[&str]; 3] = [&["e", &a], &["e", &b], &["size", "9"]];
    let with = |more: &[&[&str]]| FileMeta::reject(&event(1065, &[&parts[..], more].concat(), ""));
    assert_eq!(with(&[]), err("A multi-part message requires a blockSize argument."));
    assert_eq!(with(&[&["blockSize", "5"]]), err("a fileName is required."));
    assert_eq!(with(&[&["blockSize", "5"], &["fileName", "a/b"]]), err("invalid file name"));
    assert_eq!(with(&[&["blockSize", "5"], &["fileName", "a..b"]]), err("invalid file name"));
    assert_eq!(with(&[&["blockSize", "5"], &["fileName", "a\\b"]]), err("invalid file name"));
    assert_eq!(
        with(&[&["blockSize", "5"], &["fileName", "a"], &["fileName", "b"]]),
        err("Multiple fileName tags found: [\"a\", \"b\"]")
    );
    assert_eq!(with(&[&["blockSize", "5"], &["fileName", "a.b"]]), Ok(()));
}

#[test]
fn a_browser_wants_html() {
    assert!(show_html(&accept(b"text/html,application/xhtml+xml;q=0.9")));
    assert!(show_html(&accept(b"\ttext/html")));
    assert!(!show_html(&accept(b"application/json")));
    assert!(!show_html(&accept(b"text/html\xff")));
    assert!(!show_html(&accept(b"")));
    assert!(!show_html(&None));
}

#[test]
fn nothing_is_shown_about_other_events() {
    assert_eq!(get_info(None, Ok(None)), Ok(Info::NotFound));
    assert_eq!(get_info(None, Ok(Some(event(1, &[], "")))), Ok(Info::NotFound));
    assert_eq!(get_info(None, err("Db")), err("error: Db"));
    assert_eq!(get_info(None, Ok(Some(event(1065, &[], "")))), err("Event must have at least one event ID reference."));
}

#[test]
fn a_program_is_shown_the_event() {
    assert_eq!(get_info(None, Ok(Some(single()))), Ok(Info::Json("{}".to_string())));
    assert_eq!(get_info(accept(b"*/*"), Ok(Some(single()))), Ok(Info::Json("{}".to_string())));
}

#[test]
fn the_page_links_to_the_file() {
    assert_eq!(
        info_html("a\"<b", Ok("{ & }".to_string())),
        "<html><head><title>File Metadata</title></head><body><p>This is a Kind 1095 file as described in (in-progress) <a href=\"https://github.com/nostr-protocol/nips/pull/345\">NIP-95</a>.</p><p>For your convenience, you may view the file here: <a href=\"file/a&quot;<b\">a\"&lt;b</a></p><div style='background-color: #ddd; display: inline-block; padding: 1em;'><code><pre>{ &amp; }</pre></code></div></body></html>"
    );
    assert!(info_html("x", Err("E".to_string())).contains("<pre>Error encoding JSON: E</pre>"));
}

#[test]
fn a_browser_is_shown_a_page() {
    let keys = nostr::Keys::parse("6b911fd37cdf5c81d4c0adb1ab7fa822ed253ab0ad9aa18d77257c88b29b718e").unwrap();
    let signed = nostr::EventBuilder::new(nostr::Kind::from(1065u16), "")
        .tags([nostr::Tag::parse(["e", &id(1)]).unwrap(), nostr::Tag::parse(["size", "5"]).unwrap()])
        .sign_with_keys(&keys)
        .unwrap();
    let event = Event::from_json(&signed.as_json()).unwrap();
    let pretty = serde_json::to_string_pretty(&signed).unwrap();
    assert_eq!(
        get_info(accept(b"text/html"), Ok(Some(event.clone()))),
        Ok(Info::Html(info_html("unknown", Ok(pretty))))
    );
    assert_eq!(get_file("unknown", Ok(Some(event))).unwrap(), serve_file(5, None, vec![EventId { bytes: [1; 32] }]));
}

#[test]
fn a_page_needs_one_file_name() {
    let event = event(1065, &[&["e", &id(1)], &["size", "12"], &["fileName", "a"], &["fileName", "b"]], "");
    let error = "Multiple fileName tags found: [\"a\", \"b\"]";
    assert_eq!(get_info(accept(b"text/html"), Ok(Some(event.clone()))), err(error));
    assert_eq!(get_info(None, Ok(Some(event.clone()))), Ok(Info::Json("{}".to_string())));
    assert_eq!(get_file("a", Ok(Some(event))), err(error));
}

#[test]
fn scripts_are_served_as_text() {
    let plain = Some("text/plain; charset=utf-8".to_string());
    assert_eq!(content_type(Some("text/javascript".to_string())), plain);
    assert_eq!(content_type(Some("application/postscript".to_string())), plain);
    assert_eq!(content_type(Some("image/png".to_string())), Some("image/png".to_string()));
    assert_eq!(content_type(Some("image/\u{1}".to_string())), None);
    assert_eq!(content_type(Some("a\tb\u{e9}".to_string())), Some("a\tb\u{e9}".to_string()));
    assert_eq!(content_type(Some("a\u{7f}".to_string())), None);
    assert_eq!(content_type(None), None);
}

#[test]
fn a_file_is_served_with_headers() {
    assert_eq!(
        serve_file(7, Some("image/png".to_string()), vec![]),
        FileReply::Serve {
            headers: FileHeaders {
                content_length: 7,
                content_type: Some("image/png".to_string()),
                content_security_policy: "default-src 'none';",
                cache_control: CACHE,
            },
            event_ids: vec![],
        }
    );
}

#[test]
fn a_file_is_served_under_its_name() {
    let ids = vec![EventId { bytes: [1; 32] }];
    assert_eq!(
        get_file("a.txt", Ok(Some(single()))),
        Ok(serve_file(12, Some("text/plain".to_string()), ids.clone()))
    );
    assert_eq!(get_file("b.txt", Ok(Some(single()))), Ok(FileReply::NotFound));
    let script = event(1065, &[&["e", &id(1)], &["size", "12"], &["fileName", "a.js"]], "");
    assert_eq!(
        get_file("a.js", Ok(Some(script))),
        Ok(serve_file(12, Some("text/plain; charset=utf-8".to_string()), ids))
    );
}

#[test]
fn a_file_without_a_name_is_served_under_any() {
    let event = event(1065, &[&["e", &id(1)], &["size", "12"]], "");
    assert_eq!(
        get_file("whatever.png", Ok(Some(event))),
        Ok(serve_file(12, None, vec![EventId { bytes: [1; 32] }]))
    );
}

#[test]
fn other_events_are_not_served() {
    assert_eq!(get_file("a", Ok(None)), Ok(FileReply::NotFound));
    assert_eq!(get_file("a", Ok(Some(event(1, &[], "")))), Ok(FileReply::NotFound));
    assert_eq!(get_file("a", err("Db")), err("error: Db"));
    assert_eq!(get_file("a", Ok(Some(event(1065, &[&["e", &id(1)]], "")))), err("Missing required size."));
}

#[test]
fn parts_are_decoded() {
    assert_eq!(get_bytes(&event(1064, &[], "aGVsbG8=")), Ok(b"hello".to_vec()));
    assert_eq!(get_bytes(&event(1064, &[], "")), Ok(vec![]));
    assert_eq!(
        get_bytes(&event(1064, &[], "a*==")),
        err("Error decoding base64 content: InvalidByte(1, 42)")
    );
}

#[test]
fn a_file_is_streamed_part_by_part() {
    let first = EventId { bytes: [1; 32] };
    let second = EventId { bytes: [2; 32] };
    let mut stream = stream_bytes(vec![first, second]);
    assert_eq!(stream.next_id(), Some(first));
    assert_eq!(FileStream::part(&first, Ok(Some(event(1064, &[], "aGVs")))), Ok(b"hel".to_vec()));
    assert_eq!(stream.next_id(), Some(second));
    assert_eq!(FileStream::part(&second, Ok(Some(event(1064, &[], "bG8=")))), Ok(b"lo".to_vec()));
    assert_eq!(stream.next_id(), None);
    assert_eq!(stream.next_id(), None);
}

#[test]
fn a_missing_part_is_an_error() {
    let first = EventId { bytes: [1; 32] };
    assert_eq!(FileStream::part(&first, Ok(None)), Err(format!("no such event: {}", id(1))));
    assert_eq!(FileStream::part(&first, err("Db")), err("error: Db"));
}
