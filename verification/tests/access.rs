use nostr::JsonUtil;
use yastr::event::{Event, EventId, PublicKey};
use yastr::message::RelayMessage;
use yastr::server::access::{after_check, check_allowed, check_kind, check_replied, check_signature, save_event, save_replied, save_stored, unsupported_kind, CheckStep, Question, SaveStep, StoreError};
use yastr::server::ServerOptions;

fn unsigned(kind: u16) -> Event {
    Event {
        id: EventId { bytes: [7; 32] },
        pubkey: PublicKey { bytes: [0xcd; 32] },
        kind,
        tags: vec![],
        content: String::new(),
        json: String::new(),
    }
}

fn signed(kind: u16) -> Event {
    let keys = nostr::Keys::parse("6b911fd37cdf5c81d4c0adb1ab7fa822ed253ab0ad9aa18d77257c88b29b718e").unwrap();
    let event = nostr::EventBuilder::new(nostr::Kind::from(kind), "hello")
        .custom_created_at(nostr::Timestamp::from(1700000000))
        .sign_with_keys(&keys)
        .unwrap();
    Event::from_json(&event.as_json()).unwrap()
}

fn denied(message: &str) -> CheckStep {
    CheckStep::Denied(message.to_string())
}

fn status(event: &Event, accepted: bool, message: &str) -> RelayMessage {
    RelayMessage::Status { event_id: event.id, accepted, message: message.to_string() }
}

#[test]
fn some_kinds_are_never_stored() {
    let options = ServerOptions::default();
    for kind in [4, 5000, 5999, 6000, 6999, 20000, 29999] {
        assert!(unsupported_kind(kind, &options), "{kind}");
    }
    for kind in [0, 1, 3, 5, 4999, 7000, 19999, 30000, 1065, u16::MAX] {
        assert!(!unsupported_kind(kind, &options), "{kind}");
    }
}

#[test]
fn encrypted_messages_are_a_choice() {
    assert!(!ServerOptions::default().allow_encrypted_messages);
    let options = ServerOptions { allow_encrypted_messages: true };
    assert!(!unsupported_kind(4, &options));
    assert_eq!(check_kind(&unsigned(4), &options), None);
}

#[test]
fn an_unsupported_kind_is_refused_first() {
    assert_eq!(check_allowed(&unsigned(4)), denied("blocked: Unsupported event kind: 4"));
    assert_eq!(check_allowed(&unsigned(20001)), denied("blocked: Unsupported event kind: 20001"));
    assert_eq!(check_allowed(&unsigned(5001)), denied("blocked: Unsupported event kind: 5001"));
    assert_eq!(check_allowed(&unsigned(6001)), denied("blocked: Unsupported event kind: 6001"));
}

#[test]
fn an_invalid_signature_is_refused() {
    assert_eq!(check_allowed(&unsigned(1)), denied("invalid: Invalid signature"));
    assert_eq!(check_signature(false), denied("invalid: Invalid signature"));
}

#[test]
fn a_valid_event_is_asked_about() {
    assert_eq!(check_allowed(&signed(1)), CheckStep::Ask(Question::UserAllowed));
    assert_eq!(check_signature(true), CheckStep::Ask(Question::UserAllowed));
}

#[test]
fn each_yes_grants_access() {
    for question in [Question::UserAllowed, Question::ReferredEvent, Question::ReferredPubkey] {
        assert_eq!(check_replied(&unsigned(1), question, Ok(true)), CheckStep::Allowed);
    }
}

#[test]
fn the_questions_come_in_order() {
    assert_eq!(check_replied(&unsigned(0), Question::UserAllowed, Ok(false)), CheckStep::Ask(Question::ReferredEvent));
    assert_eq!(check_replied(&unsigned(0), Question::ReferredEvent, Ok(false)), CheckStep::Ask(Question::ReferredPubkey));
}

#[test]
fn users_are_denied_by_default() {
    let message = format!("blocked: Access not granted for pubkey {}", "cd".repeat(32));
    assert_eq!(check_replied(&unsigned(1), Question::ReferredEvent, Ok(false)), denied(&message));
    assert_eq!(check_replied(&unsigned(0), Question::ReferredPubkey, Ok(false)), denied(&message));
}

#[test]
fn a_database_error_refuses() {
    for question in [Question::UserAllowed, Question::ReferredEvent, Question::ReferredPubkey] {
        assert_eq!(check_replied(&unsigned(0), question, Err("disk full".to_string())), denied("error: disk full"));
    }
}

#[test]
fn a_refused_event_is_answered() {
    let event = unsigned(20000);
    assert_eq!(save_event(&event), SaveStep::Reply(status(&event, false, "blocked: Unsupported event kind: 20000")));
    assert_eq!(
        save_replied(&event, Question::UserAllowed, Err("gone".to_string())),
        SaveStep::Reply(status(&event, false, "error: gone"))
    );
}

#[test]
fn an_allowed_event_is_stored() {
    let event = signed(1);
    assert_eq!(save_event(&event), SaveStep::Ask(Question::UserAllowed));
    assert_eq!(save_replied(&event, Question::UserAllowed, Ok(true)), SaveStep::Store);
    assert_eq!(after_check(&event, CheckStep::Allowed), SaveStep::Store);
}

#[test]
fn a_stored_event_is_confirmed() {
    let event = unsigned(1);
    assert_eq!(save_stored(&event, Ok(())), status(&event, true, ""));
}

#[test]
fn a_duplicate_counts_as_accepted() {
    let event = unsigned(1);
    let error = StoreError { unique_violation: true, message: "UNIQUE constraint failed".to_string() };
    assert_eq!(save_stored(&event, Err(error)), status(&event, true, "duplicate: duplicate event"));
}

#[test]
fn a_failure_to_store_is_told() {
    let event = unsigned(1);
    let error = StoreError { unique_violation: false, message: "disk full".to_string() };
    assert_eq!(save_stored(&event, Err(error)), status(&event, false, "disk full"));
}
