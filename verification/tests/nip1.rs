use yastr::message::{ClientMessage, JsonError};
use yastr::server::nip1::{parse_client_message, parse_subscription_id, reject_message, subscription_in, JsonItem, ParsedEvent};

fn text(value: &str) -> JsonItem {
    JsonItem::Text(value.to_string())
}

#[test]
fn a_message_is_read() {
    assert_eq!(
        parse_client_message("[\"CLOSE\",\"sub\"]"),
        ParsedEvent::Message(ClientMessage::Close("sub".to_string()))
    );
}

#[test]
fn a_request_that_cannot_be_read_names_its_subscription() {
    let request = "[\"REQ\",\"sub\",{\"kinds\":[\"one\"]}]";
    let error = serde_json::from_str::<nostr::ClientMessage>(request).unwrap_err();
    assert_eq!(
        parse_client_message(request),
        ParsedEvent::InvalidRequest {
            subscription_id: "sub".to_string(),
            error_message: format!("{:?} error deserializing REQ event: {error}", error.classify()),
        }
    );
}

#[test]
fn other_texts_are_invalid() {
    let error = serde_json::from_str::<nostr::ClientMessage>("nonsense").unwrap_err();
    assert_eq!(
        parse_client_message("nonsense"),
        ParsedEvent::Invalid { message: format!("Message from client was invalid: {error}") }
    );
}

#[test]
fn errors_are_told_by_what_was_asked_for() {
    let error = JsonError { category: "Data".to_string(), display: "no filter".to_string(), debug: "?".to_string() };
    assert_eq!(
        reject_message(&error, Some("sub".to_string())),
        ParsedEvent::InvalidRequest {
            subscription_id: "sub".to_string(),
            error_message: "Data error deserializing REQ event: no filter".to_string(),
        }
    );
    assert_eq!(
        reject_message(&error, None),
        ParsedEvent::Invalid { message: "Message from client was invalid: no filter".to_string() }
    );
}

#[test]
fn subscriptions_are_found_in_requests() {
    assert_eq!(parse_subscription_id("[\"REQ\",\"sub\"]"), Some("sub".to_string()));
    assert_eq!(parse_subscription_id("[\"REQ\", \"a b\", 5, null]"), Some("a b".to_string()));
}

#[test]
fn subscriptions_are_found_nowhere_else() {
    assert_eq!(parse_subscription_id(""), None);
    assert_eq!(parse_subscription_id("{\"REQ\":\"sub\"}"), None);
    assert_eq!(parse_subscription_id("[\"REQ\"]"), None);
    assert_eq!(parse_subscription_id("[\"REQ\",5]"), None);
    assert_eq!(parse_subscription_id("[5,\"sub\"]"), None);
    assert_eq!(parse_subscription_id("[\"CLOSE\",\"sub\"]"), None);
}

#[test]
fn the_second_of_two_strings_is_the_subscription() {
    assert_eq!(subscription_in(&None), None);
    assert_eq!(subscription_in(&Some(vec![])), None);
    assert_eq!(subscription_in(&Some(vec![text("REQ"), JsonItem::Other])), None);
    assert_eq!(subscription_in(&Some(vec![JsonItem::Other, text("sub")])), None);
    assert_eq!(subscription_in(&Some(vec![text("req"), text("sub")])), None);
    assert_eq!(subscription_in(&Some(vec![text("REQ"), text("sub"), JsonItem::Other])), Some("sub".to_string()));
}
