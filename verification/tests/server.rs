use nostr::JsonUtil;
use yastr::event::{Event, EventId, PublicKey};
use yastr::message::{ClientMessage, Filter, JsonError, RelayMessage, TagFilter};
use yastr::server::{get_root, got_message, handle_frame, react, Frame, FrameAction, Limitation, MessageAction, RelayInfo, RootReply};

fn signed() -> nostr::Event {
    let keys = nostr::Keys::parse("6b911fd37cdf5c81d4c0adb1ab7fa822ed253ab0ad9aa18d77257c88b29b718e").unwrap();
    nostr::EventBuilder::new(nostr::Kind::from(1u16), "hello")
        .custom_created_at(nostr::Timestamp::from(1700000000))
        .sign_with_keys(&keys)
        .unwrap()
}

fn notice(error: &str) -> MessageAction {
    MessageAction::Reply(RelayMessage::Notice(format!("error: Message from client was invalid: {error}")))
}

#[test]
fn the_relay_introduces_itself() {
    let info = RelayInfo::default();
    assert_eq!(info.name.as_deref(), Some("Yastr Relay"));
    assert_eq!(info.software.as_deref(), Some("https://github.com/NfNitLoop/yastr"));
    assert_eq!(info.version.as_deref(), Some("0.1.0"));
    assert_eq!(info.supported_nips, vec![1]);
    assert_eq!(info.limitation, Some(Limitation::default()));
}

#[test]
fn the_relay_announces_its_limits() {
    let limits = Limitation::default();
    assert_eq!(limits.max_filters, Some(1));
    assert_eq!(limits.max_message_length, Some(131072));
    assert_eq!(limits.restricted_writes, Some(true));
    assert_eq!(limits.max_subscriptions, None);
    assert_eq!(limits.max_limit, None);
    assert_eq!(limits.max_subid_length, None);
    assert_eq!(limits.max_event_tags, None);
    assert_eq!(limits.max_content_length, None);
    assert_eq!(limits.min_pow_difficulty, None);
    assert_eq!(limits.auth_required, None);
    assert_eq!(limits.payment_required, None);
    assert_eq!(limits.created_at_lower_limit, None);
    assert_eq!(limits.created_at_upper_limit, None);
}

#[test]
fn the_root_serves_sockets_and_information() {
    assert_eq!(get_root(true), RootReply::Upgrade);
    assert_eq!(get_root(false), RootReply::Info(RelayInfo::default()));
}

#[test]
fn only_text_frames_are_messages() {
    assert_eq!(handle_frame(Some(Frame::Text("[]".to_string()))), FrameAction::Message("[]".to_string()));
    assert_eq!(handle_frame(Some(Frame::Binary)), FrameAction::Ignore);
    assert_eq!(handle_frame(Some(Frame::Ping)), FrameAction::Ignore);
    assert_eq!(handle_frame(Some(Frame::Pong)), FrameAction::Ignore);
    assert_eq!(handle_frame(Some(Frame::Close)), FrameAction::Stop);
    assert_eq!(handle_frame(None), FrameAction::Stop);
}

#[test]
fn an_event_is_to_be_saved() {
    let event = signed();
    let text = format!("[\"EVENT\",{}]", event.as_json());
    assert_eq!(got_message(&text), MessageAction::SaveEvent(Event::from_json(&event.as_json()).unwrap()));
}

#[test]
fn a_request_is_searched_for() {
    let id = "b3e392b11f5d4f28321cedd09303a748acfd0487aea5a7450b3481c60b6e4f87";
    let text = format!("[\"REQ\",\"sub\",{{\"ids\":[\"{id}\"],\"kinds\":[1,0],\"since\":5,\"until\":9,\"limit\":3}}]");
    let MessageAction::Search { subscription_id, filters } = got_message(&text) else {
        panic!("not a search");
    };
    assert_eq!(subscription_id, "sub");
    assert_eq!(
        filters,
        vec![Filter {
            ids: Some(vec![EventId::parse(id).unwrap()]),
            authors: None,
            kinds: Some(vec![0, 1]),
            since: Some(5),
            until: Some(9),
            limit: Some(3),
            tags: vec![],
        }]
    );
}

#[test]
fn a_request_keeps_all_its_filters() {
    let key = "ab".repeat(32);
    let author = nostr::Keys::parse(&"01".repeat(32)).unwrap().public_key();
    let text = format!("[\"REQ\",\"sub\",{{\"authors\":[\"{}\"]}},{{\"#p\":[\"{key}\"]}}]", author.to_hex());
    let MessageAction::Search { filters, .. } = got_message(&text) else {
        panic!("not a search");
    };
    assert_eq!(filters.len(), 2);
    assert_eq!(filters[0].authors, Some(vec![PublicKey { bytes: author.to_bytes() }]));
    assert_eq!(filters[0].tags, vec![]);
    assert_eq!(filters[1].authors, None);
    assert_eq!(filters[1].tags, vec![TagFilter { name: "p".to_string(), values: vec![key] }]);
}

#[test]
fn a_subscription_is_closed() {
    assert_eq!(got_message("[\"CLOSE\",\"sub\"]"), MessageAction::CloseSub("sub".to_string()));
}

#[test]
fn other_messages_are_ignored() {
    assert_eq!(got_message("[\"COUNT\",\"sub\",{}]"), MessageAction::Ignore);
    assert_eq!(got_message(&format!("[\"AUTH\",{}]", signed().as_json())), MessageAction::Ignore);
    assert_eq!(got_message("[\"NEG-OPEN\",\"sub\",{},\"00\"]"), MessageAction::Ignore);
    assert_eq!(got_message("[\"NEG-MSG\",\"sub\",\"00\"]"), MessageAction::Ignore);
    assert_eq!(got_message("[\"NEG-CLOSE\",\"sub\"]"), MessageAction::Ignore);
    for message in [
        ClientMessage::Auth,
        ClientMessage::Count,
        ClientMessage::NegOpen,
        ClientMessage::NegMsg,
        ClientMessage::NegClose,
    ] {
        assert_eq!(react(Ok(message)), MessageAction::Ignore);
    }
}

#[test]
fn a_request_by_tags_keeps_them() {
    let text = "[\"REQ\",\"sub\",{\"#t\":[\"b\",\"a\"],\"#e\":[],\"#T\":[\"x\"],\"search\":\"s\"}]";
    let MessageAction::Search { filters, .. } = got_message(text) else {
        panic!("not a search");
    };
    let tag = |name: &str, values: &[&str]| TagFilter {
        name: name.to_string(),
        values: values.iter().map(|value| value.to_string()).collect(),
    };
    let mut tags = filters[0].tags.clone();
    tags.sort_by(|a, b| a.name.cmp(&b.name));
    assert_eq!(tags, vec![tag("T", &["x"]), tag("e", &[]), tag("t", &["a", "b"])]);
}

#[test]
fn a_message_that_cannot_be_read_gets_a_notice() {
    let error = JsonError { category: "Syntax".to_string(), display: "short".to_string(), debug: "long".to_string() };
    assert_eq!(react(Err(error)), notice("long"));

    let expected = serde_json::from_str::<nostr::ClientMessage>("not json").unwrap_err();
    assert_eq!(got_message("not json"), notice(&format!("{expected:#?}")));
}

#[test]
fn a_message_about_no_event_gets_a_notice() {
    let expected = Event::from_json("{}").unwrap_err();
    assert_eq!(react(Ok(ClientMessage::Event("{}".to_string()))), notice(&expected));
}

#[test]
fn a_request_without_a_filter_gets_a_notice() {
    assert_eq!(Filter::from_json("["), None);
    let request = ClientMessage::Req {
        subscription_id: "sub".to_string(),
        filters: vec!["{}".to_string(), "[".to_string()],
    };
    assert_eq!(react(Ok(request)), notice("unreadable filter"));
}

#[test]
fn messages_are_written_as_json() {
    let event = Event::from_json(&signed().as_json()).unwrap();
    let id = event.id;
    let json = event.json.clone();
    let written = RelayMessage::Event { subscription_id: "sub".to_string(), event }.to_json().unwrap();
    assert_eq!(
        serde_json::from_str::<serde_json::Value>(&written).unwrap(),
        serde_json::from_str::<serde_json::Value>(&format!("[\"EVENT\",\"sub\",{json}]")).unwrap()
    );
    assert_eq!(
        RelayMessage::Status { event_id: id, accepted: true, message: "".to_string() }.to_json(),
        Ok(format!("[\"OK\",\"{}\",true,\"\"]", id.to_hex()))
    );
    assert_eq!(
        RelayMessage::Status { event_id: id, accepted: false, message: "blocked: no".to_string() }.to_json(),
        Ok(format!("[\"OK\",\"{}\",false,\"blocked: no\"]", id.to_hex()))
    );
    assert_eq!(RelayMessage::EndOfStoredEvents("sub".to_string()).to_json(), Ok("[\"EOSE\",\"sub\"]".to_string()));
    assert_eq!(
        RelayMessage::Closed { subscription_id: "sub".to_string(), message: "error: bye".to_string() }.to_json(),
        Ok("[\"CLOSED\",\"sub\",\"error: bye\"]".to_string())
    );
    assert_eq!(RelayMessage::Notice("hi".to_string()).to_json(), Ok("[\"NOTICE\",\"hi\"]".to_string()));
}

#[test]
fn an_event_without_json_cannot_be_written() {
    let event = Event {
        id: EventId { bytes: [0; 32] },
        pubkey: PublicKey { bytes: [0; 32] },
        kind: 1,
        tags: vec![],
        content: String::new(),
        json: String::new(),
    };
    assert!(RelayMessage::Event { subscription_id: "sub".to_string(), event }.to_json().is_err());
}
