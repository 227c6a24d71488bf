use yastr::event::{Event, EventId, PublicKey};
use yastr::message::{Filter, RelayMessage};
use yastr::server::search::{Search, SearchAction, SearchInput};

fn filter() -> Filter {
    Filter { ids: None, authors: None, kinds: None, since: None, until: None, limit: None, tags: vec![] }
}

fn event(n: u8) -> Event {
    Event {
        id: EventId { bytes: [n; 32] },
        pubkey: PublicKey { bytes: [0; 32] },
        kind: 1,
        tags: vec![],
        content: String::new(),
        json: String::new(),
    }
}

fn end() -> SearchAction {
    SearchAction::Send(RelayMessage::EndOfStoredEvents("sub".to_string()))
}

fn closed() -> SearchAction {
    SearchAction::Send(RelayMessage::Closed {
        subscription_id: "sub".to_string(),
        message: "TODO: implement streaming".to_string(),
    })
}

fn found(n: u8) -> SearchAction {
    SearchAction::Send(RelayMessage::Event { subscription_id: "sub".to_string(), event: event(n) })
}

#[test]
fn events_come_before_the_end() {
    let (mut search, action) = Search::handle_search("sub".to_string(), &vec![filter()]);
    assert_eq!(action, SearchAction::Read);
    assert_eq!(search.step(SearchInput::Row(event(1))), found(1));
    assert_eq!(search.step(SearchInput::Sent(true)), SearchAction::Read);
    assert_eq!(search.step(SearchInput::Row(event(2))), found(2));
    assert_eq!(search.step(SearchInput::Sent(false)), SearchAction::Read);
    assert_eq!(search.step(SearchInput::RowsEnd), end());
    assert_eq!(search.step(SearchInput::Sent(true)), closed());
    assert!(!search.is_finished());
    assert_eq!(search.step(SearchInput::Sent(true)), SearchAction::Stop);
    assert!(search.is_finished());
}

#[test]
fn a_request_without_filters_is_searched() {
    let (_, action) = Search::handle_search("sub".to_string(), &vec![]);
    assert_eq!(action, SearchAction::Read);
}

#[test]
fn several_filters_get_a_notice() {
    let (mut search, action) = Search::handle_search("sub".to_string(), &vec![filter(), filter()]);
    assert_eq!(
        action,
        SearchAction::Notify(RelayMessage::Notice(
            "TODO: support multiple filters. Until then, please use separate subscriptions.".to_string()
        ))
    );
    assert_eq!(search.step(SearchInput::Sent(true)), end());
    assert_eq!(search.step(SearchInput::Sent(true)), closed());
    assert_eq!(search.step(SearchInput::Sent(false)), SearchAction::Stop);
}

#[test]
fn a_database_error_ends_the_events() {
    let (mut search, _) = Search::handle_search("sub".to_string(), &vec![filter()]);
    assert_eq!(search.step(SearchInput::RowError), end());
    assert_eq!(search.step(SearchInput::Sent(true)), closed());
}

#[test]
fn a_client_that_is_gone_is_not_told_more() {
    let (mut search, _) = Search::handle_search("sub".to_string(), &vec![filter()]);
    assert_eq!(search.step(SearchInput::RowsEnd), end());
    assert_eq!(search.step(SearchInput::Sent(false)), SearchAction::Stop);
    assert!(search.is_finished());
}
