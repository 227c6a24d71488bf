//! What clients and the relay say to each other.

use crate::event::{event_of_json, Event, EventId, EventView, PublicKey};
use crate::text::texts;
use nostr::ClientMessage::{Auth, Close, Count, Event as SentEvent, NegClose, NegMsg, NegOpen, Req, ReqMultiFilter};
use nostr::{EventId as NostrId, JsonUtil, Kind, PublicKey as NostrKey, RelayMessage as FromRelay, SubscriptionId};
use vstd::prelude::*;

verus! {

/// What a client asks to see. A list that is there names what an event may
/// have; one that is not leaves that open.
#[derive(Clone, Debug, PartialEq, Eq)]
pub struct Filter {
    pub ids: Option<Vec<EventId>>,
    pub authors: Option<Vec<PublicKey>>,
    pub kinds: Option<Vec<u16>>,
    pub since: Option<u64>,
    pub until: Option<u64>,
    pub limit: Option<usize>,
    /// An event must meet all of these.
    pub tags: Vec<TagFilter>,
}

/// What a client asks of the tags of an event: one with this name and one of
/// these values.
#[derive(Clone, Debug, PartialEq, Eq)]
pub struct TagFilter {
    /// The letter that names the tag.
    pub name: String,
    pub values: Vec<String>,
}

/// The mathematical model of a [`TagFilter`].
#[verifier::ext_equal]
pub struct TagFilterView {
    pub name: Seq<char>,
    pub values: Seq<Seq<char>>,
}

impl View for TagFilter {
    type V = TagFilterView;

    open spec fn view(&self) -> TagFilterView {
        TagFilterView { name: self.name@, values: texts(self.values@) }
    }
}

/// The tag conditions, each by its view.
pub open spec fn tag_filters(tags: Seq<TagFilter>) -> Seq<TagFilterView> {
    Seq::new(tags.len(), |i: int| tags[i]@)
}

/// The mathematical model of a [`Filter`].
#[verifier::ext_equal]
pub struct FilterView {
    pub ids: Option<Seq<Seq<u8>>>,
    pub authors: Option<Seq<Seq<u8>>>,
    pub kinds: Option<Seq<u16>>,
    pub since: Option<u64>,
    pub until: Option<u64>,
    pub limit: Option<usize>,
    pub tags: Seq<TagFilterView>,
}

/// The keys, each by its bytes.
pub open spec fn key_list(keys: Option<Vec<PublicKey>>) -> Option<Seq<Seq<u8>>> {
    match keys {
        Some(list) => Some(Seq::new(list@.len(), |i: int| list@[i]@)),
        None => None,
    }
}

/// The identifiers, each by its bytes.
pub open spec fn id_list(ids: Option<Vec<EventId>>) -> Option<Seq<Seq<u8>>> {
    match ids {
        Some(list) => Some(Seq::new(list@.len(), |i: int| list@[i]@)),
        None => None,
    }
}

/// The kinds, where there is a list of them.
pub open spec fn kind_list(kinds: Option<Vec<u16>>) -> Option<Seq<u16>> {
    match kinds {
        Some(list) => Some(list@),
        None => None,
    }
}

impl View for Filter {
    type V = FilterView;

    open spec fn view(&self) -> FilterView {
        FilterView {
            ids: id_list(self.ids),
            authors: key_list(self.authors),
            kinds: kind_list(self.kinds),
            since: self.since,
            until: self.until,
            limit: self.limit,
            tags: tag_filters(self.tags@),
        }
    }
}

/// The filters, each by its view.
pub open spec fn filter_views(filters: Seq<Filter>) -> Seq<FilterView> {
    Seq::new(filters.len(), |i: int| filters[i]@)
}

/// A filter as it was read, with nothing but plain values.
struct RawFilter {
    ids: Option<Vec<[u8; 32]>>,
    authors: Option<Vec<[u8; 32]>>,
    kinds: Option<Vec<u16>>,
    since: Option<u64>,
    until: Option<u64>,
    limit: Option<usize>,
    tags: Vec<(String, Vec<String>)>,
}

/// Identifiers or keys as they were read, each by its bytes.
spec fn raw_list(list: Option<Vec<[u8; 32]>>) -> Option<Seq<Seq<u8>>> {
    match list {
        Some(items) => Some(Seq::new(items@.len(), |i: int| items@[i]@)),
        None => None,
    }
}

/// Tag conditions as they were read, by their model.
spec fn raw_tags(tags: Seq<(String, Vec<String>)>) -> Seq<TagFilterView> {
    Seq::new(tags.len(), |i: int| TagFilterView { name: tags[i].0@, values: texts(tags[i].1@) })
}

impl View for RawFilter {
    type V = FilterView;

    closed spec fn view(&self) -> FilterView {
        FilterView {
            ids: raw_list(self.ids),
            authors: raw_list(self.authors),
            kinds: kind_list(self.kinds),
            since: self.since,
            until: self.until,
            limit: self.limit,
            tags: raw_tags(self.tags@),
        }
    }
}

/// A filter that was read, by its view.
spec fn raw_view(parsed: Option<RawFilter>) -> Option<FilterView> {
    match parsed {
        Some(filter) => Some(filter@),
        None => None,
    }
}

/// A filter that was read, by its view.
pub open spec fn parsed_filter(parsed: Option<Filter>) -> Option<FilterView> {
    match parsed {
        Some(filter) => Some(filter@),
        None => None,
    }
}

/// The filter that `nostr::Filter::from_json` finds in a text.
pub uninterp spec fn filter_of_json(json: Seq<char>) -> Option<FilterView>;

/// `nostr::Filter::from_json`, with the parts of the filter that the relay
/// honours as plain values; nothing where it rejects the text.
#[verifier::external_body]
fn filter_from_json(json: &str) -> (parsed: Option<RawFilter>)
    ensures
        raw_view(parsed) == filter_of_json(json@),
{
    let f = nostr::Filter::from_json(json).ok()?;
    Some(RawFilter {
        ids: f.ids.map(|ids| ids.into_iter().map(NostrId::to_bytes).collect()),
        authors: f.authors.map(|keys| keys.into_iter().map(NostrKey::to_bytes).collect()),
        kinds: f.kinds.map(|kinds| kinds.iter().map(Kind::as_u16).collect()),
        since: f.since.map(|time| time.as_u64()),
        until: f.until.map(|time| time.as_u64()),
        limit: f.limit,
        tags: f.generic_tags.into_iter().map(|(letter, values)| (letter.to_string(), values.into_iter().collect())).collect(),
    })
}

/// The identifiers with these bytes.
fn ids_of(list: &Option<Vec<[u8; 32]>>) -> (ids: Option<Vec<EventId>>)
    ensures
        id_list(ids) == raw_list(*list),
{
    match list {
        None => None,
        Some(items) => {
            let mut ids: Vec<EventId> = Vec::new();
            let mut i: usize = 0;
            while i < items.len()
                invariant
                    i <= items.len(),
                    ids@.len() == i,
                    forall|k: int| 0 <= k < i ==> (#[trigger] ids@[k])@ == items@[k]@,
                decreases items.len() - i,
            {
                ids.push(EventId { bytes: items[i] });
                i = i + 1;
            }
            proof {
                assert(id_list(Some(ids))->0 =~= raw_list(*list)->0);
            }
            Some(ids)
        },
    }
}

/// The keys with these bytes.
fn keys_of(list: &Option<Vec<[u8; 32]>>) -> (keys: Option<Vec<PublicKey>>)
    ensures
        key_list(keys) == raw_list(*list),
{
    match list {
        None => None,
        Some(items) => {
            let mut keys: Vec<PublicKey> = Vec::new();
            let mut i: usize = 0;
            while i < items.len()
                invariant
                    i <= items.len(),
                    keys@.len() == i,
                    forall|k: int| 0 <= k < i ==> (#[trigger] keys@[k])@ == items@[k]@,
                decreases items.len() - i,
            {
                keys.push(PublicKey { bytes: items[i] });
                i = i + 1;
            }
            proof {
                assert(key_list(Some(keys))->0 =~= raw_list(*list)->0);
            }
            Some(keys)
        },
    }
}

/// The tag conditions with these names and values.
fn tags_of(items: Vec<(String, Vec<String>)>) -> (tags: Vec<TagFilter>)
    ensures
        tag_filters(tags@) == raw_tags(items@),
{
    let mut rest = items;
    let mut tags: Vec<TagFilter> = Vec::new();
    while rest.len() > 0
        invariant
            tags@.len() + rest@.len() == items@.len(),
            rest@ == items@.skip(tags@.len() as int),
            forall|k: int| 0 <= k < tags@.len() ==> #[trigger] tags@[k]@ == raw_tags(items@)[k],
        decreases rest.len(),
    {
        let (name, values) = rest.remove(0);
        proof {
            assert((name, values) == items@[tags@.len() as int]);
        }
        tags.push(TagFilter { name, values });
        proof {
            assert(rest@ =~= items@.skip(tags@.len() as int));
        }
    }
    proof {
        assert(tag_filters(tags@) =~= raw_tags(items@));
    }
    tags
}

impl Filter {
    /// Reads a filter.
    pub fn from_json(json: &str) -> (parsed: Option<Filter>)
        ensures
            parsed_filter(parsed) == filter_of_json(json@),
    {
        match filter_from_json(json) {
            None => None,
            Some(raw) => {
                let filter = Filter {
                    ids: ids_of(&raw.ids),
                    authors: keys_of(&raw.authors),
                    kinds: raw.kinds,
                    since: raw.since,
                    until: raw.until,
                    limit: raw.limit,
                    tags: tags_of(raw.tags),
                };
                Some(filter)
            },
        }
    }
}

/// Why a JSON text was rejected: the class of the error, and its `Display`
/// and alternate `Debug` forms.
#[derive(Clone, Debug, PartialEq, Eq)]
pub struct JsonError {
    pub category: String,
    pub display: String,
    pub debug: String,
}

/// The mathematical model of a [`JsonError`].
#[verifier::ext_equal]
pub struct JsonErrorView {
    pub category: Seq<char>,
    pub display: Seq<char>,
    pub debug: Seq<char>,
}

impl View for JsonError {
    type V = JsonErrorView;

    open spec fn view(&self) -> JsonErrorView {
        JsonErrorView { category: self.category@, display: self.display@, debug: self.debug@ }
    }
}

/// A message from a client. Events and filters are the JSON that stands for
/// them.
#[derive(Clone, Debug, PartialEq, Eq)]
pub enum ClientMessage {
    Event(String),
    Req { subscription_id: String, filters: Vec<String> },
    Close(String),
    Auth,
    Count,
    NegOpen,
    NegMsg,
    NegClose,
}

/// The mathematical model of a [`ClientMessage`].
pub enum ClientMessageView {
    Event(Seq<char>),
    Req { subscription_id: Seq<char>, filters: Seq<Seq<char>> },
    Close(Seq<char>),
    Auth,
    Count,
    NegOpen,
    NegMsg,
    NegClose,
}

impl View for ClientMessage {
    type V = ClientMessageView;

    open spec fn view(&self) -> ClientMessageView {
        match self {
            ClientMessage::Event(json) => ClientMessageView::Event(json@),
            ClientMessage::Req { subscription_id, filters } => ClientMessageView::Req {
                subscription_id: subscription_id@,
                filters: texts(filters@),
            },
            ClientMessage::Close(subscription_id) => ClientMessageView::Close(subscription_id@),
            ClientMessage::Auth => ClientMessageView::Auth,
            ClientMessage::Count => ClientMessageView::Count,
            ClientMessage::NegOpen => ClientMessageView::NegOpen,
            ClientMessage::NegMsg => ClientMessageView::NegMsg,
            ClientMessage::NegClose => ClientMessageView::NegClose,
        }
    }
}

/// What reading a client's message gave, by its view.
pub open spec fn parsed_message(parsed: Result<ClientMessage, JsonError>) -> Result<
    ClientMessageView,
    JsonErrorView,
> {
    match parsed {
        Ok(message) => Ok(message@),
        Err(error) => Err(error@),
    }
}

/// A message whose event or filters can be read.
pub open spec fn readable(message: ClientMessageView) -> bool {
    match message {
        ClientMessageView::Event(json) => event_of_json(json) is Ok,
        ClientMessageView::Req { subscription_id, filters } => forall|i: int|
            0 <= i < filters.len() ==> filter_of_json(#[trigger] filters[i]) is Some,
        _ => true,
    }
}

/// What `serde_json::from_str` at `nostr::ClientMessage` makes of a text.
pub uninterp spec fn client_message_of(text: Seq<char>) -> Result<ClientMessageView, JsonErrorView>;

/// `serde_json::from_str` at `nostr::ClientMessage`, with the message that it
/// gives moved into a [`ClientMessage`]: `as_json` for events and filters, and
/// one filter or several under the same name. What `as_json` wrote can be read
/// again. Of an error it keeps what `classify`, `Display` and `Debug` say.
#[verifier::external_body]
pub(crate) fn client_message_from_str(text: &str) -> (parsed: Result<ClientMessage, JsonError>)
    ensures
        parsed_message(parsed) == client_message_of(text@),
        parsed is Ok ==> readable(parsed->Ok_0@),
{
    Ok(match serde_json::from_str(text)
        .map_err(|e| JsonError { category: format!("{:?}", e.classify()), display: e.to_string(), debug: format!("{e:#?}") })? {
        SentEvent(event) => ClientMessage::Event(event.as_json()),
        Req { subscription_id, filter } =>
            ClientMessage::Req { subscription_id: subscription_id.to_string(), filters: vec![filter.as_json()] },
        ReqMultiFilter { subscription_id, filters } => ClientMessage::Req {
            subscription_id: subscription_id.to_string(), filters: filters.iter().map(JsonUtil::as_json).collect() },
        Close(subscription_id) => ClientMessage::Close(subscription_id.to_string()),
        Auth(_) => ClientMessage::Auth,
        Count { .. } => ClientMessage::Count,
        NegOpen { .. } => ClientMessage::NegOpen,
        NegMsg { .. } => ClientMessage::NegMsg,
        NegClose { .. } => ClientMessage::NegClose
    })
}

/// A message from the relay.
#[derive(Clone, Debug, PartialEq, Eq)]
pub enum RelayMessage {
    Event { subscription_id: String, event: Event },
    /// `OK`: whether an event was accepted.
    Status { event_id: EventId, accepted: bool, message: String },
    EndOfStoredEvents(String),
    Closed { subscription_id: String, message: String },
    Notice(String),
}

/// The mathematical model of a [`RelayMessage`].
pub enum RelayMessageView {
    Event { subscription_id: Seq<char>, event: EventView },
    Status { event_id: Seq<u8>, accepted: bool, message: Seq<char> },
    EndOfStoredEvents(Seq<char>),
    Closed { subscription_id: Seq<char>, message: Seq<char> },
    Notice(Seq<char>),
}

impl View for RelayMessage {
    type V = RelayMessageView;

    open spec fn view(&self) -> RelayMessageView {
        match self {
            RelayMessage::Event { subscription_id, event } => RelayMessageView::Event {
                subscription_id: subscription_id@,
                event: event@,
            },
            RelayMessage::Status { event_id, accepted, message } => RelayMessageView::Status {
                event_id: event_id@,
                accepted: *accepted,
                message: message@,
            },
            RelayMessage::EndOfStoredEvents(subscription_id) => RelayMessageView::EndOfStoredEvents(
                subscription_id@,
            ),
            RelayMessage::Closed { subscription_id, message } => RelayMessageView::Closed {
                subscription_id: subscription_id@,
                message: message@,
            },
            RelayMessage::Notice(message) => RelayMessageView::Notice(message@),
        }
    }
}

/// What writing a message gave, by its view.
pub open spec fn written(json: Result<String, String>) -> Result<Seq<char>, Seq<char>> {
    match json {
        Ok(text) => Ok(text@),
        Err(error) => Err(error@),
    }
}

/// What `serde_json::to_string` makes of a `nostr::RelayMessage`.
pub uninterp spec fn relay_message_json(message: RelayMessageView) -> Result<Seq<char>, Seq<char>>;

/// `serde_json::to_string` on the `nostr::RelayMessage` that a
/// [`RelayMessage`] stands for; an event is the one that its JSON holds.
#[verifier::external_body]
fn relay_message_to_string(message: &RelayMessage) -> (json: Result<String, String>)
    ensures
        written(json) == relay_message_json(message@),
{
    let message = match message {
        RelayMessage::Event { subscription_id, event } => {
            FromRelay::event(SubscriptionId::new(subscription_id), nostr::Event::from_json(&event.json).map_err(|e| e.to_string())?)
        },
        RelayMessage::Status { event_id, accepted, message } => {
            FromRelay::ok(nostr::EventId::from_byte_array(event_id.bytes), *accepted, message)
        },
        RelayMessage::EndOfStoredEvents(subscription_id) => FromRelay::eose(SubscriptionId::new(subscription_id)),
        RelayMessage::Closed { subscription_id, message } => FromRelay::closed(SubscriptionId::new(subscription_id), message),
        RelayMessage::Notice(message) => FromRelay::notice(message),
    };
    serde_json::to_string(&message).map_err(|e| e.to_string())
}

impl RelayMessage {
    /// The text that goes over the wire.
    pub fn to_json(&self) -> (json: Result<String, String>)
        ensures
            written(json) == relay_message_json(self@),
    {
        relay_message_to_string(self)
    }
}

/// The model of a filter holds all of it.
pub proof fn a_filter_is_modelled_whole(filter: Filter)
    ensures
        filter@.since == filter.since,
        filter@.until == filter.until,
        filter@.limit == filter.limit,
        filter.ids is None <==> filter@.ids is None,
        filter.ids is Some ==> filter@.ids->0.len() == filter.ids->0@.len(),
        filter.ids is Some ==> forall|i: int|
            0 <= i < filter.ids->0@.len() ==> #[trigger] filter@.ids->0[i] == filter.ids->0@[i].bytes@,
        filter.authors is None <==> filter@.authors is None,
        filter.authors is Some ==> filter@.authors->0.len() == filter.authors->0@.len(),
        filter.authors is Some ==> forall|i: int|
            0 <= i < filter.authors->0@.len() ==> #[trigger] filter@.authors->0[i]
                == filter.authors->0@[i].bytes@,
        filter.kinds is None <==> filter@.kinds is None,
        filter.kinds is Some ==> filter@.kinds->0 == filter.kinds->0@,
        filter@.tags.len() == filter.tags@.len(),
        forall|i: int|
            #![trigger filter@.tags[i]]
            0 <= i < filter.tags@.len() ==> {
                &&& filter@.tags[i].name == filter.tags@[i].name@
                &&& filter@.tags[i].values.len() == filter.tags@[i].values@.len()
            },
        forall|i: int, j: int|
            0 <= i < filter.tags@.len() && 0 <= j < filter.tags@[i].values@.len()
                ==> #[trigger] filter@.tags[i].values[j] == filter.tags@[i].values@[j]@,
{
}

/// Several filters are modelled one by one.
pub proof fn filters_are_modelled_one_by_one(filters: Seq<Filter>, filter: Option<Filter>)
    ensures
        filter_views(filters).len() == filters.len(),
        forall|i: int| 0 <= i < filters.len() ==> #[trigger] filter_views(filters)[i] == filters[i]@,
        filter is Some ==> parsed_filter(filter) == Some(filter->0@),
        filter is None ==> parsed_filter(filter) is None,
{
}

/// What was read of a filter is modelled whole.
proof fn what_was_read_is_modelled_whole(raw: RawFilter)
    ensures
        raw_view(Some(raw)) == Some(raw@),
        raw_view(None) is None,
        raw@.since == raw.since,
        raw@.until == raw.until,
        raw@.limit == raw.limit,
        raw.ids is None <==> raw@.ids is None,
        raw.ids is Some ==> raw@.ids->0.len() == raw.ids->0@.len(),
        raw.ids is Some ==> forall|i: int|
            0 <= i < raw.ids->0@.len() ==> #[trigger] raw@.ids->0[i] == raw.ids->0@[i]@,
        raw.authors is None <==> raw@.authors is None,
        raw.authors is Some ==> raw@.authors->0.len() == raw.authors->0@.len(),
        raw.authors is Some ==> forall|i: int|
            0 <= i < raw.authors->0@.len() ==> #[trigger] raw@.authors->0[i] == raw.authors->0@[i]@,
        raw.kinds is None <==> raw@.kinds is None,
        raw.kinds is Some ==> raw@.kinds->0 == raw.kinds->0@,
        raw@.tags.len() == raw.tags@.len(),
        forall|i: int|
            #![trigger raw@.tags[i]]
            0 <= i < raw.tags@.len() ==> {
                &&& raw@.tags[i].name == raw.tags@[i].0@
                &&& raw@.tags[i].values.len() == raw.tags@[i].1@.len()
            },
        forall|i: int, j: int|
            0 <= i < raw.tags@.len() && 0 <= j < raw.tags@[i].1@.len()
                ==> #[trigger] raw@.tags[i].values[j] == raw.tags@[i].1@[j]@,
{
}

/// The model of a client's message holds all of it, and so does that of what
/// was wrong with one.
pub proof fn client_messages_are_modelled_whole(
    json: String,
    subscription_id: String,
    filters: Vec<String>,
    error: JsonError,
    parsed: Result<ClientMessage, JsonError>,
)
    ensures
        ClientMessage::Event(json)@ == ClientMessageView::Event(json@),
        ClientMessage::Close(subscription_id)@ == ClientMessageView::Close(subscription_id@),
        ({
            let request = (ClientMessage::Req { subscription_id, filters })@;
            &&& request is Req
            &&& request->subscription_id == subscription_id@
            &&& request->filters.len() == filters@.len()
            &&& forall|i: int|
                0 <= i < filters@.len() ==> #[trigger] request->filters[i] == filters@[i]@
        }),
        ClientMessage::Auth@ is Auth,
        ClientMessage::Count@ is Count,
        ClientMessage::NegOpen@ is NegOpen,
        ClientMessage::NegMsg@ is NegMsg,
        ClientMessage::NegClose@ is NegClose,
        error@.category == error.category@,
        error@.display == error.display@,
        error@.debug == error.debug@,
        parsed is Ok ==> parsed_message(parsed) == Ok::<ClientMessageView, JsonErrorView>(
            parsed->Ok_0@,
        ),
        parsed is Err ==> parsed_message(parsed) == Err::<ClientMessageView, JsonErrorView>(
            parsed->Err_0@,
        ),
{
}

/// The model of the relay's message holds all of it, and so does that of what
/// goes over the wire.
pub proof fn relay_messages_are_modelled_whole(
    subscription_id: String,
    event: Event,
    event_id: EventId,
    accepted: bool,
    message: String,
    json: Result<String, String>,
)
    ensures
        (RelayMessage::Event { subscription_id, event })@ == (RelayMessageView::Event {
            subscription_id: subscription_id@,
            event: event@,
        }),
        (RelayMessage::Status { event_id, accepted, message })@ == (RelayMessageView::Status {
            event_id: event_id.bytes@,
            accepted,
            message: message@,
        }),
        RelayMessage::EndOfStoredEvents(subscription_id)@ == RelayMessageView::EndOfStoredEvents(
            subscription_id@,
        ),
        (RelayMessage::Closed { subscription_id, message })@ == (RelayMessageView::Closed {
            subscription_id: subscription_id@,
            message: message@,
        }),
        RelayMessage::Notice(message)@ == RelayMessageView::Notice(message@),
        json is Ok ==> written(json) == Ok::<Seq<char>, Seq<char>>(json->Ok_0@),
        json is Err ==> written(json) == Err::<Seq<char>, Seq<char>>(json->Err_0@),
{
}

} // verus!
