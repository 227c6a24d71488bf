//! Events, as far as the relay reads them.

use crate::text::texts;
use nostr::JsonUtil;
use vstd::prelude::*;

verus! {

/// The digit that stands for four bits.
pub open spec fn hex_digit(n: int) -> char {
    if n < 10 {
        ('0' as int + n) as char
    } else {
        ('a' as int + (n - 10)) as char
    }
}

/// Bytes in lower-case hexadecimal, two digits each.
pub open spec fn hex_text(bytes: Seq<u8>) -> Seq<char> {
    Seq::new(
        2 * bytes.len(),
        |i: int| hex_digit(if i % 2 == 0 { bytes[i / 2] as int / 16 } else { bytes[i / 2] as int % 16 }),
    )
}

/// The four bits that a hexadecimal digit of either case stands for.
pub open spec fn hex_value(c: char) -> int {
    if '0' <= c <= '9' {
        c as int - '0' as int
    } else if 'a' <= c <= 'f' {
        c as int - 'a' as int + 10
    } else if 'A' <= c <= 'F' {
        c as int - 'A' as int + 10
    } else {
        -1
    }
}

/// An even number of hexadecimal digits, and nothing else.
pub open spec fn is_hex(text: Seq<char>) -> bool {
    &&& text.len() % 2 == 0
    &&& forall|i: int| 0 <= i < text.len() ==> 0 <= hex_value(#[trigger] text[i])
}

/// The bytes that hexadecimal digits stand for.
pub open spec fn hex_bytes(text: Seq<char>) -> Seq<u8> {
    Seq::new(
        text.len() / 2,
        |i: int| (16 * hex_value(text[2 * i]) + hex_value(text[2 * i + 1])) as u8,
    )
}

/// Reading the hexadecimal form of bytes gives the bytes.
pub proof fn hex_round_trip(bytes: Seq<u8>)
    ensures
        hex_text(bytes).len() == 2 * bytes.len(),
        is_hex(hex_text(bytes)),
        hex_bytes(hex_text(bytes)) == bytes,
{
    let text = hex_text(bytes);
    assert(hex_bytes(text) =~= bytes) by {
        assert forall|i: int| 0 <= i < bytes.len() implies hex_bytes(text)[i] == bytes[i] by {
            assert((2 * i + 1) / 2 == i);
            assert(text[2 * i] == hex_digit(bytes[i] as int / 16));
            assert(text[2 * i + 1] == hex_digit(bytes[i] as int % 16));
        }
    }
}

/// The character of a hexadecimal digit.
fn digit(n: u8) -> (c: char)
    requires
        n < 16,
    ensures
        c == hex_digit(n as int),
{
    if n < 10 {
        (48u8 + n) as char
    } else {
        (97u8 + (n - 10)) as char
    }
}

/// Writes bytes in lower-case hexadecimal.
pub fn to_hex(bytes: &[u8]) -> (text: String)
    ensures
        text@ == hex_text(bytes@),
{
    let mut text = String::new();
    let mut i: usize = 0;
    proof {
        assert(hex_text(bytes@.take(0)) =~= Seq::<char>::empty());
    }
    while i < bytes.len()
        invariant
            i <= bytes.len(),
            text@ == hex_text(bytes@.take(i as int)),
        decreases bytes.len() - i,
    {
        text.push(digit(bytes[i] / 16));
        text.push(digit(bytes[i] % 16));
        i = i + 1;
        proof {
            let all = hex_text(bytes@.take(i as int));
            assert forall|k: int| 0 <= k < all.len() implies text@[k] == #[trigger] all[k] by {}
            assert(text@ =~= all);
        }
    }
    proof {
        assert(bytes@.take(bytes@.len() as int) =~= bytes@);
    }
    text
}

/// The identifier of an event.
#[derive(Clone, Copy, Debug, PartialEq, Eq)]
pub struct EventId {
    pub bytes: [u8; 32],
}

impl View for EventId {
    type V = Seq<u8>;

    open spec fn view(&self) -> Seq<u8> {
        self.bytes@
    }
}

/// The identifiers, each by its bytes.
pub open spec fn id_views(ids: Seq<EventId>) -> Seq<Seq<u8>> {
    Seq::new(ids.len(), |i: int| ids[i]@)
}

/// What reading an identifier gave, by its view.
pub open spec fn parsed_id(parsed: Result<EventId, String>) -> Result<Seq<u8>, Seq<char>> {
    match parsed {
        Ok(id) => Ok(id@),
        Err(error) => Err(error@),
    }
}

/// What `nostr::EventId::parse` makes of a text.
pub uninterp spec fn event_id_of(text: Seq<char>) -> Result<Seq<u8>, Seq<char>>;

/// `nostr::EventId::parse`: reads an identifier written in hexadecimal, in
/// bech32 or as a `nostr:` address; a rejected text is told the debug form of
/// the error. Sixty-four hexadecimal digits are read as the bytes they stand
/// for, and a rejection is always `InvalidId`.
#[verifier::external_body]
fn parse_event_id(text: &str) -> (parsed: Result<EventId, String>)
    ensures
        parsed_id(parsed) == event_id_of(text@),
        is_hex(text@) && text@.len() == 64 ==> parsed is Ok && parsed->Ok_0@ == hex_bytes(text@),
        parsed is Err ==> parsed->Err_0@ == "InvalidId"@,
{
    match nostr::EventId::parse(text) {
        Ok(id) => Ok(EventId { bytes: id.to_bytes() }),
        Err(error) => Err(format!("{error:?}")),
    }
}

impl EventId {
    /// Reads an identifier.
    pub fn parse(text: &str) -> (parsed: Result<EventId, String>)
        ensures
            parsed_id(parsed) == event_id_of(text@),
            is_hex(text@) && text@.len() == 64 ==> parsed is Ok && parsed->Ok_0@ == hex_bytes(text@),
            parsed is Err ==> parsed->Err_0@ == "InvalidId"@,
    {
        parse_event_id(text)
    }

    /// The identifier in lower-case hexadecimal.
    pub fn to_hex(&self) -> (text: String)
        ensures
            text@ == hex_text(self@),
    {
        to_hex(self.bytes.as_slice())
    }
}

/// The key that an event is signed with.
#[derive(Clone, Copy, Debug, PartialEq, Eq)]
pub struct PublicKey {
    pub bytes: [u8; 32],
}

impl View for PublicKey {
    type V = Seq<u8>;

    open spec fn view(&self) -> Seq<u8> {
        self.bytes@
    }
}

impl PublicKey {
    /// The key in lower-case hexadecimal.
    pub fn to_hex(&self) -> (text: String)
        ensures
            text@ == hex_text(self@),
    {
        to_hex(self.bytes.as_slice())
    }
}

/// An event: what the relay's rules read, and the JSON that stands for all of
/// it.
#[derive(Clone, Debug, PartialEq, Eq)]
pub struct Event {
    pub id: EventId,
    pub pubkey: PublicKey,
    pub kind: u16,
    /// Each tag with its name first and its values behind it.
    pub tags: Vec<Vec<String>>,
    pub content: String,
    /// The whole event, signature included.
    pub json: String,
}

/// The mathematical model of an [`Event`].
#[verifier::ext_equal]
pub struct EventView {
    pub id: Seq<u8>,
    pub pubkey: Seq<u8>,
    pub kind: u16,
    pub tags: Seq<Seq<Seq<char>>>,
    pub content: Seq<char>,
    pub json: Seq<char>,
}

/// The tags, each by the characters of its parts.
pub open spec fn tag_views(tags: Seq<Vec<String>>) -> Seq<Seq<Seq<char>>> {
    Seq::new(tags.len(), |i: int| texts(tags[i]@))
}

impl View for Event {
    type V = EventView;

    open spec fn view(&self) -> EventView {
        EventView {
            id: self.id@,
            pubkey: self.pubkey@,
            kind: self.kind,
            tags: tag_views(self.tags@),
            content: self.content@,
            json: self.json@,
        }
    }
}

/// What reading an event gave, by its view.
pub open spec fn parsed_event(parsed: Result<Event, String>) -> Result<EventView, Seq<char>> {
    match parsed {
        Ok(event) => Ok(event@),
        Err(error) => Err(error@),
    }
}

/// What `nostr::Event::from_json` makes of a text.
pub uninterp spec fn event_of_json(json: Seq<char>) -> Result<EventView, Seq<char>>;

/// `nostr::Event::from_json`, with the parts of the event that it gives moved
/// into an [`Event`], and `as_json` for the JSON of the whole. What `as_json`
/// wrote is read again as the same event.
#[verifier::external_body]
fn event_from_json(json: &str) -> (parsed: Result<Event, String>)
    ensures
        parsed_event(parsed) == event_of_json(json@),
        parsed is Ok ==> event_of_json(parsed->Ok_0.json@) == parsed_event(parsed),
{
    let event = nostr::Event::from_json(json).map_err(|e| e.to_string())?;
    Ok(Event {
        id: EventId { bytes: event.id.to_bytes() },
        pubkey: PublicKey { bytes: event.pubkey.to_bytes() },
        kind: event.kind.as_u16(),
        json: event.as_json(),
        tags: event.tags.into_iter().map(|tag| tag.to_vec()).collect(),
        content: event.content,
    })
}

/// Whether `nostr::Event::verify` accepts the event that a JSON text holds.
pub uninterp spec fn signature_valid(json: Seq<char>) -> bool;

/// `nostr::Event::verify`, on the event that a JSON text holds: whether its
/// identifier is the hash of its parts and its signature is the key's. False
/// of a text that holds no event.
#[verifier::external_body]
fn verify_json(json: &str) -> (valid: bool)
    ensures
        valid == signature_valid(json@),
{
    match nostr::Event::from_json(json) {
        Ok(event) => event.verify().is_ok(),
        Err(_) => false,
    }
}

impl Event {
    /// Reads an event.
    pub fn from_json(json: &str) -> (parsed: Result<Event, String>)
        ensures
            parsed_event(parsed) == event_of_json(json@),
            parsed is Ok ==> event_of_json(parsed->Ok_0.json@) == parsed_event(parsed),
    {
        event_from_json(json)
    }

    /// Whether the event's identifier and signature are valid.
    pub fn verify(&self) -> (valid: bool)
        ensures
            valid == signature_valid(self@.json),
    {
        verify_json(&self.json)
    }
}

/// `nostr::Kind::is_ephemeral`: the kinds from 20000 up to 29999.
#[verifier::external_body]
pub(crate) fn is_ephemeral(kind: u16) -> (answer: bool)
    ensures
        answer == (20000 <= kind < 30000),
{
    nostr::Kind::from(kind).is_ephemeral()
}

/// `nostr::Kind::is_job_request`: the kinds from 5000 up to 5999.
#[verifier::external_body]
pub(crate) fn is_job_request(kind: u16) -> (answer: bool)
    ensures
        answer == (5000 <= kind < 6000),
{
    nostr::Kind::from(kind).is_job_request()
}

/// `nostr::Kind::is_job_result`: the kinds from 6000 up to 6999.
#[verifier::external_body]
pub(crate) fn is_job_result(kind: u16) -> (answer: bool)
    ensures
        answer == (6000 <= kind < 7000),
{
    nostr::Kind::from(kind).is_job_result()
}

/// Bytes are written in hexadecimal one by one, each with the digits of its
/// high and its low four bits.
pub proof fn bytes_are_written_one_by_one(a: Seq<u8>, b: Seq<u8>, byte: u8)
    ensures
        hex_text(Seq::<u8>::empty()) == Seq::<char>::empty(),
        hex_text(seq![byte]) == seq![
            "0123456789abcdef"@[byte as int / 16],
            "0123456789abcdef"@[byte as int % 16],
        ],
        hex_text(a + b) == hex_text(a) + hex_text(b),
{
    reveal_strlit("0123456789abcdef");
    assert(hex_text(Seq::<u8>::empty()) =~= Seq::<char>::empty());
    let digits = "0123456789abcdef"@;
    assert forall|n: int| 0 <= n < 16 implies #[trigger] digits[n] == hex_digit(n) by {}
    assert(hex_text(seq![byte]) =~= seq![digits[byte as int / 16], digits[byte as int % 16]]);
    assert(hex_text(a + b) =~= hex_text(a) + hex_text(b));
}

/// The model of an event holds all of it.
pub proof fn an_event_is_modelled_whole(event: Event, id: EventId, key: PublicKey)
    ensures
        id@ == id.bytes@,
        key@ == key.bytes@,
        event@.id == event.id.bytes@,
        event@.pubkey == event.pubkey.bytes@,
        event@.kind == event.kind,
        event@.content == event.content@,
        event@.json == event.json@,
        event@.tags.len() == event.tags@.len(),
        forall|i: int, j: int|
            0 <= i < event.tags@.len() && 0 <= j < event.tags@[i]@.len()
                ==> #[trigger] event@.tags[i][j] == event.tags@[i]@[j]@,
        forall|i: int|
            0 <= i < event.tags@.len() ==> (#[trigger] event@.tags[i]).len()
                == event.tags@[i]@.len(),
{
}

/// Lists and results keep what they hold in their models.
pub proof fn models_keep_what_they_hold(
    ids: Seq<EventId>,
    id: Result<EventId, String>,
    event: Result<Event, String>,
)
    ensures
        id_views(ids).len() == ids.len(),
        forall|i: int| 0 <= i < ids.len() ==> #[trigger] id_views(ids)[i] == ids[i].bytes@,
        id is Ok ==> parsed_id(id) == Ok::<Seq<u8>, Seq<char>>(id->Ok_0.bytes@),
        id is Err ==> parsed_id(id) == Err::<Seq<u8>, Seq<char>>(id->Err_0@),
        event is Ok ==> parsed_event(event) == Ok::<EventView, Seq<char>>(event->Ok_0@),
        event is Err ==> parsed_event(event) == Err::<EventView, Seq<char>>(event->Err_0@),
{
}

} // verus!
