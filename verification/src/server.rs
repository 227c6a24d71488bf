//! The relay as its clients see it.

pub mod access;
pub mod immutable;
pub mod nip1;
pub mod nip95;
pub mod search;

use crate::event::{event_of_json, Event, EventView};
use crate::message::{client_message_from_str, client_message_of, filter_of_json, filter_views, parsed_message, readable, ClientMessage, ClientMessageView, Filter, FilterView, JsonError, JsonErrorView, RelayMessage, RelayMessageView};
use crate::server::search::{start, SearchState};
use crate::text::{cat, texts};
use vstd::prelude::*;

verus! {

/// What the relay's operator can choose.
#[derive(Clone, Copy, Debug, PartialEq, Eq)]
pub struct ServerOptions {
    pub allow_encrypted_messages: bool,
}

impl Default for ServerOptions {
    /// Encrypted messages have no forward secrecy, and a key that leaks later
    /// opens them: they are not taken.
    fn default() -> (options: ServerOptions)
        ensures
            !options.allow_encrypted_messages,
    {
        ServerOptions { allow_encrypted_messages: false }
    }
}

/// The version of the relay.
pub const VERSION: &'static str = "0.1.0";

/// What the relay says about itself, as NIP-11 has it.
#[derive(Clone, Debug, PartialEq, Eq)]
pub struct RelayInfo {
    pub name: Option<String>,
    pub supported_nips: Vec<u32>,
    pub software: Option<String>,
    pub version: Option<String>,
    pub limitation: Option<Limitation>,
}

/// What the relay says about its limits, as NIP-11 has it.
#[derive(Clone, Copy, Debug, PartialEq, Eq)]
pub struct Limitation {
    pub max_message_length: Option<u64>,
    pub max_subscriptions: Option<u32>,
    pub max_filters: Option<u32>,
    pub max_limit: Option<u32>,
    pub max_subid_length: Option<u32>,
    pub max_event_tags: Option<u32>,
    pub max_content_length: Option<u32>,
    pub min_pow_difficulty: Option<u8>,
    pub auth_required: Option<bool>,
    pub payment_required: Option<bool>,
    pub restricted_writes: Option<bool>,
    pub created_at_lower_limit: Option<u64>,
    pub created_at_upper_limit: Option<u64>,
}

/// The limits of this relay: one filter, messages of 128 KiB, and writing for
/// friends only.
pub open spec fn limits() -> Limitation {
    Limitation {
        max_message_length: Some(131072),
        max_subscriptions: None,
        max_filters: Some(1),
        max_limit: None,
        max_subid_length: None,
        max_event_tags: None,
        max_content_length: None,
        min_pow_difficulty: None,
        auth_required: None,
        payment_required: None,
        restricted_writes: Some(true),
        created_at_lower_limit: None,
        created_at_upper_limit: None,
    }
}

impl Default for Limitation {
    fn default() -> (limitation: Limitation)
        ensures
            limitation == limits(),
            limitation.max_message_length == Some(131072u64),
            limitation.max_filters == Some(1u32),
            limitation.restricted_writes == Some(true),
            limitation.max_subscriptions is None,
            limitation.max_limit is None,
            limitation.max_subid_length is None,
            limitation.max_event_tags is None,
            limitation.max_content_length is None,
            limitation.min_pow_difficulty is None,
            limitation.auth_required is None,
            limitation.payment_required is None,
            limitation.created_at_lower_limit is None,
            limitation.created_at_upper_limit is None,
    {
        Limitation {
            max_message_length: Some(128 * 1024),
            max_subscriptions: None,
            max_filters: Some(1),
            max_limit: None,
            max_subid_length: None,
            max_event_tags: None,
            max_content_length: None,
            min_pow_difficulty: None,
            auth_required: None,
            payment_required: None,
            restricted_writes: Some(true),
            created_at_lower_limit: None,
            created_at_upper_limit: None,
        }
    }
}

/// What this relay says about itself.
pub open spec fn introduces(info: RelayInfo) -> bool {
    &&& info.name is Some && info.name->0@ == "Yastr Relay"@
    &&& info.supported_nips@ == seq![1u32]
    &&& info.software is Some && info.software->0@ == "https://github.com/NfNitLoop/yastr"@
    &&& info.version is Some && info.version->0@ == VERSION@
    &&& info.limitation == Some(limits())
}

impl Default for RelayInfo {
    fn default() -> (info: RelayInfo)
        ensures
            introduces(info),
            info.name is Some && info.name->0@ == "Yastr Relay"@,
            info.supported_nips@ == seq![1u32],
            info.software is Some && info.software->0@ == "https://github.com/NfNitLoop/yastr"@,
            info.version is Some && info.version->0@ == "0.1.0"@,
            info.limitation == Some(limits()),
    {
        let info = RelayInfo {
            name: Some("Yastr Relay".to_owned()),
            supported_nips: vec![1u32],
            software: Some("https://github.com/NfNitLoop/yastr".to_owned()),
            version: Some(VERSION.to_owned()),
            limitation: Some(Limitation::default()),
        };
        proof {
            assert(info.supported_nips@ =~= seq![1u32]);
        }
        info
    }
}

/// A request is told to come with fewer filters exactly when it has more than
/// the relay announces.
pub proof fn announced_filter_limit_holds(filters: nat)
    ensures
        limits().max_filters is Some,
        start(filters).0 == SearchState::Noticing <==> filters > limits().max_filters->0,
{
}

/// How the root of the relay is answered.
#[derive(Clone, Debug, PartialEq, Eq)]
pub enum RootReply {
    /// The connection becomes a web socket.
    Upgrade,
    Info(RelayInfo),
}

/// Answers at the root: a client that asks for a web socket gets one, and
/// anyone else what the relay says about itself.
pub fn get_root(wants_websocket: bool) -> (reply: RootReply)
    ensures
        wants_websocket ==> reply is Upgrade,
        !wants_websocket ==> reply is Info && introduces(reply->Info_0),
{
    if wants_websocket {
        RootReply::Upgrade
    } else {
        RootReply::Info(RelayInfo::default())
    }
}

/// What comes in over a web socket.
#[derive(Clone, Debug, PartialEq, Eq)]
pub enum Frame {
    Text(String),
    Binary,
    Ping,
    Pong,
    Close,
}

/// What is done with what comes in.
#[derive(Clone, Debug, PartialEq, Eq)]
pub enum FrameAction {
    /// The text is a message.
    Message(String),
    Ignore,
    /// The connection is over.
    Stop,
}

/// Takes what comes in over a web socket, or that nothing more comes.
pub fn handle_frame(frame: Option<Frame>) -> (action: FrameAction)
    ensures
        action is Message <==> frame is Some && frame->0 is Text,
        action is Message ==> action->Message_0@ == frame->0->Text_0@,
        action is Stop <==> frame is None || frame->0 is Close,
{
    match frame {
        Some(Frame::Text(text)) => FrameAction::Message(text),
        Some(Frame::Binary) => FrameAction::Ignore,
        Some(Frame::Ping) => FrameAction::Ignore,
        Some(Frame::Pong) => FrameAction::Ignore,
        Some(Frame::Close) => FrameAction::Stop,
        None => FrameAction::Stop,
    }
}

/// What is done about a message from a client.
#[derive(Clone, Debug, PartialEq, Eq)]
pub enum MessageAction {
    /// The client is told something.
    Reply(RelayMessage),
    SaveEvent(Event),
    Search { subscription_id: String, filters: Vec<Filter> },
    CloseSub(String),
    Ignore,
}

/// The mathematical model of a [`MessageAction`].
pub enum MessageActionView {
    Reply(RelayMessageView),
    SaveEvent(EventView),
    Search { subscription_id: Seq<char>, filters: Seq<FilterView> },
    CloseSub(Seq<char>),
    Ignore,
}

impl View for MessageAction {
    type V = MessageActionView;

    open spec fn view(&self) -> MessageActionView {
        match self {
            MessageAction::Reply(message) => MessageActionView::Reply(message@),
            MessageAction::SaveEvent(event) => MessageActionView::SaveEvent(event@),
            MessageAction::Search { subscription_id, filters } => MessageActionView::Search {
                subscription_id: subscription_id@,
                filters: filter_views(filters@),
            },
            MessageAction::CloseSub(subscription_id) => MessageActionView::CloseSub(
                subscription_id@,
            ),
            MessageAction::Ignore => MessageActionView::Ignore,
        }
    }
}

/// What a client is told whose message cannot be read.
pub open spec fn complaint(error: Seq<char>) -> MessageActionView {
    MessageActionView::Reply(
        RelayMessageView::Notice("error: Message from client was invalid: "@ + error),
    )
}

/// The filters that JSON texts hold, where each holds one.
pub open spec fn filters_of(
    texts: Seq<Seq<char>>,
    read: spec_fn(Seq<char>) -> Option<FilterView>,
) -> Option<Seq<FilterView>> {
    if forall|i: int| 0 <= i < texts.len() ==> read(#[trigger] texts[i]) is Some {
        Some(Seq::new(texts.len(), |i: int| read(texts[i])->0))
    } else {
        None
    }
}

/// How a filter is read.
pub open spec fn reads_filter() -> spec_fn(Seq<char>) -> Option<FilterView> {
    |json: Seq<char>| filter_of_json(json)
}

/// What is done about a message that was read or could not be. A message whose
/// event or filter cannot be read counts as one that could not be.
pub open spec fn reaction(parsed: Result<ClientMessageView, JsonErrorView>) -> MessageActionView {
    match parsed {
        Err(error) => complaint(error.debug),
        Ok(ClientMessageView::Event(json)) => match event_of_json(json) {
            Err(error) => complaint(error),
            Ok(event) => MessageActionView::SaveEvent(event),
        },
        Ok(ClientMessageView::Req { subscription_id, filters }) => match filters_of(
            filters,
            reads_filter(),
        ) {
            None => complaint("unreadable filter"@),
            Some(filters) => MessageActionView::Search { subscription_id, filters },
        },
        Ok(ClientMessageView::Close(subscription_id)) => MessageActionView::CloseSub(
            subscription_id,
        ),
        Ok(ClientMessageView::Auth) => MessageActionView::Ignore,
        Ok(ClientMessageView::Count) => MessageActionView::Ignore,
        Ok(ClientMessageView::NegOpen) => MessageActionView::Ignore,
        Ok(ClientMessageView::NegMsg) => MessageActionView::Ignore,
        Ok(ClientMessageView::NegClose) => MessageActionView::Ignore,
    }
}

/// The complaint about a message that cannot be read.
fn complain(error: &str) -> (action: MessageAction)
    ensures
        action@ == complaint(error@),
{
    MessageAction::Reply(
        RelayMessage::Notice(cat("error: Message from client was invalid: ", error)),
    )
}

/// Filters that were read, by their views.
pub open spec fn filters_view(filters: Option<Vec<Filter>>) -> Option<Seq<FilterView>> {
    match filters {
        Some(filters) => Some(filter_views(filters@)),
        None => None,
    }
}

/// Reads the filters of a request.
fn read_filters(jsons: &Vec<String>) -> (filters: Option<Vec<Filter>>)
    ensures
        filters_view(filters) == filters_of(texts(jsons@), reads_filter()),
{
    let mut filters: Vec<Filter> = Vec::new();
    let mut i: usize = 0;
    let ghost all = texts(jsons@);
    while i < jsons.len()
        invariant
            i <= jsons.len(),
            all == texts(jsons@),
            filters@.len() == i,
            forall|k: int|
                0 <= k < i ==> filter_of_json(#[trigger] all[k]) == Some(filters@[k]@),
        decreases jsons.len() - i,
    {
        proof {
            assert(all[i as int] == jsons@[i as int]@);
        }
        match Filter::from_json(&jsons[i]) {
            None => {
                proof {
                    assert(reads_filter()(all[i as int]) is None);
                }
                return None;
            },
            Some(filter) => {
                filters.push(filter);
            },
        }
        i = i + 1;
    }
    proof {
        assert forall|k: int| 0 <= k < all.len() implies reads_filter()(#[trigger] all[k]) is Some by {}
        assert(filter_views(filters@) =~= filters_of(all, reads_filter())->0);
    }
    Some(filters)
}

/// Decides what is done about a message that was read or could not be.
pub fn react(parsed: Result<ClientMessage, JsonError>) -> (action: MessageAction)
    ensures
        action@ == reaction(parsed_message(parsed)),
        action is SaveEvent ==> event_of_json(action->SaveEvent_0@.json) == Ok::<
            EventView,
            Seq<char>,
        >(action->SaveEvent_0@),
{
    match parsed {
        Err(error) => complain(&error.debug),
        Ok(ClientMessage::Event(json)) => match Event::from_json(&json) {
            Err(error) => complain(&error),
            Ok(event) => MessageAction::SaveEvent(event),
        },
        Ok(ClientMessage::Req { subscription_id, filters }) => match read_filters(&filters) {
            None => complain("unreadable filter"),
            Some(filters) => MessageAction::Search { subscription_id, filters },
        },
        Ok(ClientMessage::Close(subscription_id)) => MessageAction::CloseSub(subscription_id),
        Ok(ClientMessage::Auth) => MessageAction::Ignore,
        Ok(ClientMessage::Count) => MessageAction::Ignore,
        Ok(ClientMessage::NegOpen) => MessageAction::Ignore,
        Ok(ClientMessage::NegMsg) => MessageAction::Ignore,
        Ok(ClientMessage::NegClose) => MessageAction::Ignore,
    }
}

/// Nobody who sends what can be read is told otherwise: an event that can be
/// read is saved, and a request whose filters can be read is searched for by
/// all of them.
pub proof fn readable_messages_are_not_complained_about(message: ClientMessageView)
    requires
        readable(message),
    ensures
        !(reaction(Ok(message)) is Reply),
        message is Event ==> reaction(Ok(message)) == MessageActionView::SaveEvent(
            event_of_json(message->Event_0)->Ok_0,
        ),
        message is Req ==> {
            let action = reaction(Ok(message));
            &&& action is Search
            &&& action->Search_subscription_id == message->subscription_id
            &&& action->Search_filters.len() == message->filters.len()
            &&& forall|i: int|
                0 <= i < message->filters.len() ==> #[trigger] action->Search_filters[i]
                    == filter_of_json(message->filters[i])->0
        },
{
}

/// Takes a message from a client. One that can be read is not complained
/// about.
pub fn got_message(text: &str) -> (action: MessageAction)
    ensures
        action@ == reaction(client_message_of(text@)),
        client_message_of(text@) is Ok ==> readable(client_message_of(text@)->Ok_0),
        action is Reply <==> client_message_of(text@) is Err,
        action is SaveEvent <==> client_message_of(text@) is Ok && client_message_of(text@)->Ok_0 is Event,
        action is Search <==> client_message_of(text@) is Ok && client_message_of(text@)->Ok_0 is Req,
        action is SaveEvent ==> event_of_json(action->SaveEvent_0@.json) == Ok::<
            EventView,
            Seq<char>,
        >(action->SaveEvent_0@),
{
    let parsed = client_message_from_str(text);
    proof {
        if parsed is Ok {
            readable_messages_are_not_complained_about(parsed->Ok_0@);
        }
    }
    react(parsed)
}

/// A message that cannot be read is complained about, with the whole error;
/// a closed subscription is closed, and the other messages are ignored.
pub proof fn other_messages_have_their_reaction(
    error: JsonErrorView,
    subscription_id: Seq<char>,
    filters: Seq<Seq<char>>,
    json: Seq<char>,
)
    ensures
        reaction(Err(error)) == MessageActionView::Reply(
            RelayMessageView::Notice("error: Message from client was invalid: "@ + error.debug),
        ),
        reaction(Ok(ClientMessageView::Close(subscription_id))) == MessageActionView::CloseSub(
            subscription_id,
        ),
        reaction(Ok(ClientMessageView::Auth)) is Ignore,
        reaction(Ok(ClientMessageView::Count)) is Ignore,
        reaction(Ok(ClientMessageView::NegOpen)) is Ignore,
        reaction(Ok(ClientMessageView::NegMsg)) is Ignore,
        reaction(Ok(ClientMessageView::NegClose)) is Ignore,
        event_of_json(json) is Ok ==> reaction(Ok(ClientMessageView::Event(json)))
            == MessageActionView::SaveEvent(event_of_json(json)->Ok_0),
        event_of_json(json) is Err ==> reaction(Ok(ClientMessageView::Event(json)))
            == MessageActionView::Reply(
            RelayMessageView::Notice(
                "error: Message from client was invalid: "@ + event_of_json(json)->Err_0,
            ),
        ),
        (forall|i: int| 0 <= i < filters.len() ==> filter_of_json(#[trigger] filters[i]) is Some)
            <==> reaction(Ok(ClientMessageView::Req { subscription_id, filters })) is Search,
{
}

/// A message that can be read is exactly one whose event or filters can be.
pub proof fn readable_is_what_can_be_read(
    json: Seq<char>,
    subscription_id: Seq<char>,
    filters: Seq<Seq<char>>,
)
    ensures
        readable(ClientMessageView::Event(json)) <==> event_of_json(json) is Ok,
        readable(ClientMessageView::Req { subscription_id, filters }) <==> forall|i: int|
            0 <= i < filters.len() ==> filter_of_json(#[trigger] filters[i]) is Some,
{
}

/// The models of what is done about a message hold all of it.
pub proof fn message_actions_are_modelled_whole(
    message: RelayMessage,
    event: Event,
    subscription_id: String,
    filters: Vec<Filter>,
)
    ensures
        MessageAction::Reply(message)@ == MessageActionView::Reply(message@),
        MessageAction::SaveEvent(event)@ == MessageActionView::SaveEvent(event@),
        (MessageAction::Search { subscription_id, filters })@ == (MessageActionView::Search {
            subscription_id: subscription_id@,
            filters: filter_views(filters@),
        }),
        MessageAction::CloseSub(subscription_id)@ == MessageActionView::CloseSub(subscription_id@),
        MessageAction::Ignore@ is Ignore,
        filters_view(None) is None,
        filters_view(Some(filters)) == Some(filter_views(filters@)),
{
}

} // verus!
