//! Reading what clients send, with more to say about requests that cannot be
//! read.

use crate::message::{client_message_from_str, client_message_of, readable, ClientMessage, ClientMessageView, JsonError, JsonErrorView};
use crate::text::{cat, same};
use vstd::prelude::*;

verus! {

/// What was made of a message.
#[derive(Clone, Debug, PartialEq, Eq)]
pub enum ParsedEvent {
    Message(ClientMessage),
    /// The text is no message.
    Invalid { message: String },
    /// The text is a request that cannot be read, for this subscription.
    InvalidRequest { subscription_id: String, error_message: String },
}

/// The mathematical model of a [`ParsedEvent`].
pub enum ParsedEventView {
    Message(ClientMessageView),
    Invalid { message: Seq<char> },
    InvalidRequest { subscription_id: Seq<char>, error_message: Seq<char> },
}

impl View for ParsedEvent {
    type V = ParsedEventView;

    open spec fn view(&self) -> ParsedEventView {
        match self {
            ParsedEvent::Message(message) => ParsedEventView::Message(message@),
            ParsedEvent::Invalid { message } => ParsedEventView::Invalid { message: message@ },
            ParsedEvent::InvalidRequest { subscription_id, error_message } => {
                ParsedEventView::InvalidRequest {
                    subscription_id: subscription_id@,
                    error_message: error_message@,
                }
            },
        }
    }
}

/// An item of a JSON array, as far as requests are told apart.
#[derive(Clone, Debug, PartialEq, Eq)]
pub enum JsonItem {
    Text(String),
    Other,
}

/// The mathematical model of a [`JsonItem`].
pub enum JsonItemView {
    Text(Seq<char>),
    Other,
}

impl View for JsonItem {
    type V = JsonItemView;

    open spec fn view(&self) -> JsonItemView {
        match self {
            JsonItem::Text(text) => JsonItemView::Text(text@),
            JsonItem::Other => JsonItemView::Other,
        }
    }
}

/// The items of a JSON array, each by its view.
pub open spec fn item_views(items: Seq<JsonItem>) -> Seq<JsonItemView> {
    Seq::new(items.len(), |i: int| items[i]@)
}

/// A JSON array that was read, by its view.
pub open spec fn array_view(array: Option<Vec<JsonItem>>) -> Option<Seq<JsonItemView>> {
    match array {
        Some(items) => Some(item_views(items@)),
        None => None,
    }
}

/// What `serde_json::from_str` at `serde_json::Value` makes of a text, where
/// that is an array.
pub uninterp spec fn json_array_of(text: Seq<char>) -> Option<Seq<JsonItemView>>;

/// `serde_json::from_str` at `serde_json::Value`: the items of the array that
/// a text holds.
#[verifier::external_body]
fn json_array(text: &str) -> (array: Option<Vec<JsonItem>>)
    ensures
        array_view(array) == json_array_of(text@),
{
    match serde_json::from_str::<serde_json::Value>(text) {
        Ok(serde_json::Value::Array(items)) => Some(items.into_iter().map(|item| match item {
            serde_json::Value::String(text) => JsonItem::Text(text),
            _ => JsonItem::Other,
        }).collect()),
        _ => None,
    }
}

/// The subscription of a request: the second of two strings, the first of
/// which is `REQ`.
pub open spec fn subscription_of(array: Option<Seq<JsonItemView>>) -> Option<Seq<char>> {
    match array {
        Some(items) => if items.len() >= 2 && items[0] == JsonItemView::Text("REQ"@)
            && items[1] is Text {
            Some(items[1]->Text_0)
        } else {
            None
        },
        None => None,
    }
}

/// A subscription that was looked for, by its view.
pub open spec fn subscription_view(subscription_id: Option<String>) -> Option<Seq<char>> {
    match subscription_id {
        Some(text) => Some(text@),
        None => None,
    }
}

/// The subscription of a request, from the items of its array.
pub fn subscription_in(array: &Option<Vec<JsonItem>>) -> (subscription_id: Option<String>)
    ensures
        subscription_view(subscription_id) == subscription_of(array_view(*array)),
{
    match array {
        None => None,
        Some(items) => {
            proof {
                assert(item_views(items@).len() == items@.len());
            }
            if items.len() < 2 {
                return None;
            }
            proof {
                assert(item_views(items@)[0] == items@[0]@);
                assert(item_views(items@)[1] == items@[1]@);
            }
            match (&items[0], &items[1]) {
                (JsonItem::Text(message_type), JsonItem::Text(subscription_id)) => {
                    if same(message_type, "REQ") {
                        Some(subscription_id.clone())
                    } else {
                        None
                    }
                },
                _ => None,
            }
        },
    }
}

/// The subscription that a text asks for, though it may not be a request that
/// can be read.
pub fn parse_subscription_id(text: &str) -> (subscription_id: Option<String>)
    ensures
        subscription_view(subscription_id) == subscription_of(json_array_of(text@)),
{
    subscription_in(&json_array(text))
}

/// What is made of a message that could not be read, by the subscription that
/// it asks for.
pub open spec fn unreadable(error: JsonErrorView, subscription_id: Option<Seq<char>>) -> ParsedEventView {
    match subscription_id {
        Some(subscription_id) => ParsedEventView::InvalidRequest {
            subscription_id,
            error_message: error.category + " error deserializing REQ event: "@ + error.display,
        },
        None => ParsedEventView::Invalid {
            message: "Message from client was invalid: "@ + error.display,
        },
    }
}

/// Tells what is wrong with a message that could not be read.
pub fn reject_message(error: &JsonError, subscription_id: Option<String>) -> (parsed: ParsedEvent)
    ensures
        parsed@ == unreadable(error@, subscription_view(subscription_id)),
{
    match subscription_id {
        Some(subscription_id) => {
            let head = cat(&error.category, " error deserializing REQ event: ");
            ParsedEvent::InvalidRequest {
                subscription_id,
                error_message: cat(&head, &error.display),
            }
        },
        None => ParsedEvent::Invalid {
            message: cat("Message from client was invalid: ", &error.display),
        },
    }
}

/// Reads a message from a client.
pub fn parse_client_message(text: &str) -> (parsed: ParsedEvent)
    ensures
        parsed@ == match client_message_of(text@) {
            Ok(message) => ParsedEventView::Message(message),
            Err(error) => unreadable(error, subscription_of(json_array_of(text@))),
        },
        parsed is Message ==> readable(parsed->Message_0@),
        parsed is Message <==> client_message_of(text@) is Ok,
        parsed is Message ==> parsed->Message_0@ == client_message_of(text@)->Ok_0,
{
    match client_message_from_str(text) {
        Ok(message) => ParsedEvent::Message(message),
        Err(error) => reject_message(&error, parse_subscription_id(text)),
    }
}

/// A text asks for a subscription exactly when it is an array of `REQ`, a
/// string and anything more; the string is the subscription.
pub proof fn requests_name_their_subscription(
    subscription_id: Seq<char>,
    more: Seq<JsonItemView>,
    array: Option<Seq<JsonItemView>>,
)
    ensures
        subscription_of(
            Some(seq![JsonItemView::Text("REQ"@), JsonItemView::Text(subscription_id)] + more),
        ) == Some(subscription_id),
        subscription_of(array) is Some ==> array is Some && array->0 == seq![
            JsonItemView::Text("REQ"@),
            JsonItemView::Text(subscription_of(array)->0),
        ] + array->0.skip(2),
{
    let items = seq![JsonItemView::Text("REQ"@), JsonItemView::Text(subscription_id)] + more;
    assert(items[0] == JsonItemView::Text("REQ"@));
    assert(items[1] == JsonItemView::Text(subscription_id));
    if subscription_of(array) is Some {
        assert(array->0 =~= seq![
            JsonItemView::Text("REQ"@),
            JsonItemView::Text(subscription_of(array)->0),
        ] + array->0.skip(2));
    }
}

/// What is wrong with a message is told in full: to the subscription that it
/// asks for, with the class of the error, and else on its own.
pub proof fn errors_are_told_in_full(error: JsonErrorView, subscription_id: Seq<char>)
    ensures
        unreadable(error, Some(subscription_id)) == (ParsedEventView::InvalidRequest {
            subscription_id,
            error_message: error.category + " error deserializing REQ event: "@ + error.display,
        }),
        unreadable(error, None) == (ParsedEventView::Invalid {
            message: "Message from client was invalid: "@ + error.display,
        }),
{
}

/// The models of what was made of a message and of JSON arrays hold all of it.
pub proof fn parsed_messages_are_modelled_whole(
    message: ClientMessage,
    text: String,
    subscription_id: String,
    items: Vec<JsonItem>,
)
    ensures
        ParsedEvent::Message(message)@ == ParsedEventView::Message(message@),
        (ParsedEvent::Invalid { message: text })@ == (ParsedEventView::Invalid { message: text@ }),
        (ParsedEvent::InvalidRequest { subscription_id, error_message: text })@ == (
        ParsedEventView::InvalidRequest {
            subscription_id: subscription_id@,
            error_message: text@,
        }),
        JsonItem::Text(text)@ == JsonItemView::Text(text@),
        JsonItem::Other@ is Other,
        array_view(None) is None,
        array_view(Some(items)) is Some,
        array_view(Some(items))->0.len() == items@.len(),
        forall|i: int|
            0 <= i < items@.len() ==> #[trigger] array_view(Some(items))->0[i] == items@[i]@,
        subscription_view(Some(text)) == Some(text@),
        subscription_view(None) is None,
{
}

} // verus!
