use nostr::JsonUtil;
use yastr::event::{to_hex, Event, EventId, PublicKey};

const HEX_ID: &str = "b3e392b11f5d4f28321cedd09303a748acfd0487aea5a7450b3481c60b6e4f87";

fn signed(kind: u16, content: &str) -> nostr::Event {
    let keys = nostr::Keys::parse("6b911fd37cdf5c81d4c0adb1ab7fa822ed253ab0ad9aa18d77257c88b29b718e").unwrap();
    nostr::EventBuilder::new(nostr::Kind::from(kind), content)
        .tags([nostr::Tag::parse(["t", "test"]).unwrap()])
        .custom_created_at(nostr::Timestamp::from(1700000000))
        .sign_with_keys(&keys)
        .unwrap()
}

#[test]
fn bytes_are_written_in_hexadecimal() {
    assert_eq!(to_hex(&[]), "");
    assert_eq!(to_hex(&[0, 9, 10, 15, 16, 255]), "00090a0f10ff");
}

#[test]
fn identifiers_are_read_from_hexadecimal() {
    let id = EventId::parse(HEX_ID).unwrap();
    assert_eq!(id.bytes[0], 0xb3);
    assert_eq!(id.bytes[31], 0x87);
    assert_eq!(id.to_hex(), HEX_ID);
    assert_eq!(EventId::parse(&HEX_ID.to_uppercase()).unwrap(), id);
}

#[test]
fn identifiers_are_read_from_bech32() {
    let id = nostr::EventId::from_hex(HEX_ID).unwrap();
    let bech32 = nostr::ToBech32::to_bech32(&id).unwrap();
    assert_eq!(EventId::parse(&bech32).unwrap().to_hex(), HEX_ID);
}

#[test]
fn other_texts_are_no_identifiers() {
    assert_eq!(EventId::parse(""), Err("InvalidId".to_string()));
    assert_eq!(EventId::parse("b3e3"), Err("InvalidId".to_string()));
    assert_eq!(EventId::parse(&HEX_ID.replace('b', "g")), Err("InvalidId".to_string()));
}

#[test]
fn keys_are_written_in_hexadecimal() {
    assert_eq!(PublicKey { bytes: [0xab; 32] }.to_hex(), "ab".repeat(32));
}

#[test]
fn an_event_is_read_with_its_parts() {
    let original = signed(1, "hello");
    let event = Event::from_json(&original.as_json()).unwrap();
    assert_eq!(event.id.bytes, original.id.to_bytes());
    assert_eq!(event.pubkey.bytes, original.pubkey.to_bytes());
    assert_eq!(event.kind, 1);
    assert_eq!(event.tags, vec![vec!["t".to_string(), "test".to_string()]]);
    assert_eq!(event.content, "hello");
    assert_eq!(event.json, original.as_json());
}

#[test]
fn an_event_comes_back_from_its_json() {
    let event = Event::from_json(&signed(30023, "a \"quoted\" text \u{1f980}\n").as_json()).unwrap();
    assert_eq!(Event::from_json(&event.json), Ok(event));
}

#[test]
fn other_texts_are_no_events() {
    assert!(Event::from_json("").is_err());
    assert!(Event::from_json("{}").is_err());
    assert!(Event::from_json("[1]").is_err());
}

#[test]
fn signatures_are_verified() {
    let original = signed(1, "hello");
    let event = Event::from_json(&original.as_json()).unwrap();
    assert!(event.verify());

    let mut forged = original.clone();
    forged.content = "goodbye".to_string();
    let forged = Event::from_json(&forged.as_json()).unwrap();
    assert!(!forged.verify());

    let mut renamed = original;
    renamed.id = nostr::EventId::from_hex(HEX_ID).unwrap();
    let renamed = Event::from_json(&renamed.as_json()).unwrap();
    assert!(!renamed.verify());
}
