//! Files that are stored in events, and how browsers see them.

pub mod meta;
pub mod ranges;

use crate::event::{event_id_of, hex_text, id_views, Event, EventId, EventView};
use crate::server::immutable::CACHE_FOREVER;
use crate::server::nip95::meta::{file_name_of, reference_rules, references, rejection, size_of, FileMeta, FILE_KIND};
use crate::text::{cat, contains, occurs, occurs_at, replace, replaced, replacement, replacing_goes_character_by_character, same};
use base64::Engine;
use nostr::JsonUtil;
use std::collections::VecDeque;
use vstd::prelude::*;

verus! {

/// A text with `&` and `<` written as entities.
pub open spec fn html_escaped(text: Seq<char>) -> Seq<char> {
    replaced(replaced(text, '&', "&amp;"@), '<', "&lt;"@)
}

/// A text with `"` written as an entity.
pub open spec fn attr_escaped(text: Seq<char>) -> Seq<char> {
    replaced(text, '"', "&quot;"@)
}

/// Makes a text fit to stand in HTML.
pub fn html_escape(value: &str) -> (escaped: String)
    ensures
        escaped@ == html_escaped(value@),
{
    replace(&replace(value, '&', "&amp;"), '<', "&lt;")
}

/// Makes a text fit to stand in an attribute in double quotes.
pub fn attr_escape(value: &str) -> (escaped: String)
    ensures
        escaped@ == attr_escaped(value@),
{
    replace(value, '"', "&quot;")
}

/// Where `/:event_id` is redirected to.
pub fn add_slash(event_id: &str) -> (dest: String)
    ensures
        dest@ == event_id@ + "/"@,
{
    cat(event_id, "/")
}

/// What an address says about the event that it names.
pub open spec fn requested(parsed: Result<Seq<u8>, Seq<char>>) -> Result<Seq<u8>, Seq<char>> {
    match parsed {
        Ok(id) => Ok(id),
        Err(error) => Err("error: "@ + error),
    }
}

/// The event that an address names. An address that names none is answered
/// with an error.
pub fn requested_id(event_id: &str) -> (id: Result<EventId, String>)
    ensures
        id is Ok ==> requested(event_id_of(event_id@)) == Ok::<Seq<u8>, Seq<char>>(id->Ok_0@),
        id is Err ==> requested(event_id_of(event_id@)) == Err::<Seq<u8>, Seq<char>>(id->Err_0@),
        id is Err ==> id->Err_0@ == "error: "@ + "InvalidId"@,
        id is Ok <==> event_id_of(event_id@) is Ok,
        id is Ok ==> id->Ok_0.bytes@ == event_id_of(event_id@)->Ok_0,
{
    match EventId::parse(event_id) {
        Ok(id) => Ok(id),
        Err(error) => Err(cat("error: ", &error)),
    }
}

/// What the database replied about an event, by its view.
pub open spec fn loaded_view(loaded: Result<Option<Event>, String>) -> Result<
    Option<EventView>,
    Seq<char>,
> {
    match loaded {
        Ok(Some(event)) => Ok(Some(event@)),
        Ok(None) => Ok(None),
        Err(error) => Err(error@),
    }
}

/// The description of a file in what the database replied: none where the
/// event is missing or of another kind, and an error where the database
/// failed or the relay would not take the event today.
pub open spec fn description(loaded: Result<Option<EventView>, Seq<char>>) -> Result<
    Option<EventView>,
    Seq<char>,
> {
    match loaded {
        Err(error) => Err("error: "@ + error),
        Ok(None) => Ok(None),
        Ok(Some(event)) => if event.kind != FILE_KIND {
            Ok(None)
        } else {
            match rejection(event) {
                Err(error) => Err(error),
                Ok(_) => Ok(Some(event)),
            }
        },
    }
}

/// What is known of the references in what the database replied.
pub open spec fn known_references(loaded: Result<Option<EventView>, Seq<char>>) -> bool {
    loaded is Ok && loaded->Ok_0 is Some && loaded->Ok_0->0.kind == FILE_KIND ==> reference_rules(
        loaded->Ok_0->0.tags,
    )
}

/// The description of a file in what the database replied.
fn description_in(loaded: Result<Option<Event>, String>) -> (found: Result<Option<Event>, String>)
    ensures
        loaded_view(found) == description(loaded_view(loaded)),
        known_references(loaded_view(loaded)),
{
    match loaded {
        Err(error) => Err(cat("error: ", &error)),
        Ok(None) => Ok(None),
        Ok(Some(event)) => {
            if event.kind != FILE_KIND {
                return Ok(None);
            }
            match FileMeta::reject(&event) {
                Err(error) => Err(error),
                Ok(_) => Ok(Some(event)),
            }
        },
    }
}

/// Bytes that are visible in a header.
pub open spec fn visible(bytes: Seq<u8>) -> bool {
    forall|i: int| 0 <= i < bytes.len() ==> (32 <= #[trigger] bytes[i] < 127 || bytes[i] == 9)
}

/// The characters of bytes, one each.
pub open spec fn characters(bytes: Seq<u8>) -> Seq<char> {
    Seq::new(bytes.len(), |i: int| bytes[i] as char)
}

/// The text of a header, where all of it is visible.
fn header_text(bytes: &Vec<u8>) -> (text: Option<String>)
    ensures
        text is Some <==> visible(bytes@),
        text is Some ==> text->0@ == characters(bytes@),
{
    let mut text = String::new();
    let mut i: usize = 0;
    proof {
        assert(text@ =~= characters(bytes@.take(0)));
    }
    while i < bytes.len()
        invariant
            i <= bytes.len(),
            visible(bytes@.take(i as int)),
            text@ == characters(bytes@.take(i as int)),
        decreases bytes.len() - i,
    {
        let b = bytes[i];
        if (b < 32 || b >= 127) && b != 9 {
            return None;
        }
        text.push(b as char);
        i = i + 1;
        proof {
            let taken = bytes@.take(i as int);
            assert forall|k: int| 0 <= k < taken.len() implies (32 <= #[trigger] taken[k] < 127
                || taken[k] == 9) by {
                if k < i - 1 {
                    assert(bytes@.take(i - 1)[k] == taken[k]);
                }
            }
            assert(text@ =~= characters(taken));
        }
    }
    proof {
        assert(bytes@.take(bytes@.len() as int) =~= bytes@);
    }
    Some(text)
}

/// Whether a client wants to see HTML, by its `Accept` header.
pub open spec fn wants_html(accept: Option<Seq<u8>>) -> bool {
    accept is Some && visible(accept->0) && occurs(characters(accept->0), "text/html"@)
}

/// The `Accept` header, by its view.
pub open spec fn accept_view(accept: Option<Vec<u8>>) -> Option<Seq<u8>> {
    match accept {
        Some(bytes) => Some(bytes@),
        None => None,
    }
}

/// Whether a client wants to see HTML, by its `Accept` header.
pub fn show_html(accept: &Option<Vec<u8>>) -> (html: bool)
    ensures
        html == wants_html(accept_view(*accept)),
        accept is None ==> !html,
{
    match accept {
        None => false,
        Some(bytes) => match header_text(bytes) {
            None => false,
            Some(text) => contains(&text, "text/html"),
        },
    }
}

/// What writing JSON gave, by its view.
pub open spec fn encoded(json: Result<String, String>) -> Result<Seq<char>, Seq<char>> {
    match json {
        Ok(text) => Ok(text@),
        Err(error) => Err(error@),
    }
}

/// What `serde_json::to_string_pretty` makes of the event that a JSON text
/// holds.
pub uninterp spec fn pretty_event(json: Seq<char>) -> Result<Seq<char>, Seq<char>>;

/// `serde_json::to_string_pretty` on the `nostr::Event` that a JSON text
/// holds; an error is told by its alternate debug form.
#[verifier::external_body]
fn event_to_string_pretty(json: &str) -> (pretty: Result<String, String>)
    ensures
        encoded(pretty) == pretty_event(json@),
{
    let event = nostr::Event::from_json(json).map_err(|e| format!("{e:#?}"))?;
    serde_json::to_string_pretty(&event).map_err(|e| format!("{e:#?}"))
}

/// The start of the page about a file.
pub const PAGE_HEAD: &'static str = "<html><head><title>File Metadata</title></head><body>";

/// What the page says about the kind of the event.
pub const PAGE_KIND: &'static str = "<p>This is a Kind 1095 file as described in (in-progress) <a href=\"https://github.com/nostr-protocol/nips/pull/345\">NIP-95</a>.</p>";

/// The start of the link to the file.
pub const PAGE_LINK: &'static str = "<p>For your convenience, you may view the file here: <a href=\"file/";

/// The start of the event on the page.
pub const PAGE_EVENT: &'static str = "<div style='background-color: #ddd; display: inline-block; padding: 1em;'><code><pre>";

/// The event as the page shows it.
pub open spec fn shown_json(json: Result<Seq<char>, Seq<char>>) -> Seq<char> {
    match json {
        Ok(text) => text,
        Err(error) => "Error encoding JSON: "@ + error,
    }
}

/// The page about a file: a link to it, and the event.
pub open spec fn info_page(file_name: Seq<char>, json: Result<Seq<char>, Seq<char>>) -> Seq<char> {
    PAGE_HEAD@ + PAGE_KIND@ + PAGE_LINK@ + attr_escaped(file_name) + "\">"@ + html_escaped(file_name)
        + "</a></p>"@ + PAGE_EVENT@ + html_escaped(shown_json(json)) + "</pre></code></div>"@
        + "</body></html>"@
}

/// Writes the page about a file, from its name and its event in JSON.
pub fn info_html(file_name: &str, json: Result<String, String>) -> (html: String)
    ensures
        html@ == info_page(file_name@, encoded(json)),
{
    let text = match json {
        Ok(text) => text,
        Err(error) => cat("Error encoding JSON: ", &error),
    };
    let mut html = PAGE_HEAD.to_owned();
    html.append(PAGE_KIND);
    html.append(PAGE_LINK);
    html.append(&attr_escape(file_name));
    html.append("\">");
    html.append(&html_escape(file_name));
    html.append("</a></p>");
    html.append(PAGE_EVENT);
    html.append(&html_escape(&text));
    html.append("</pre></code></div>");
    html.append("</body></html>");
    html
}

/// What a browser is shown about a file.
#[derive(Clone, Debug, PartialEq, Eq)]
pub enum Info {
    NotFound,
    Json(String),
    Html(String),
}

/// The mathematical model of an [`Info`].
pub enum InfoView {
    NotFound,
    Json(Seq<char>),
    Html(Seq<char>),
}

impl View for Info {
    type V = InfoView;

    open spec fn view(&self) -> InfoView {
        match self {
            Info::NotFound => InfoView::NotFound,
            Info::Json(text) => InfoView::Json(text@),
            Info::Html(text) => InfoView::Html(text@),
        }
    }
}

/// What was answered, by its view.
pub open spec fn info_view(info: Result<Info, String>) -> Result<InfoView, Seq<char>> {
    match info {
        Ok(info) => Ok(info@),
        Err(error) => Err(error@),
    }
}

/// The name under which the page links to a file.
pub open spec fn linked_name(file_name: Option<Seq<char>>) -> Seq<char> {
    match file_name {
        Some(name) => name,
        None => "unknown"@,
    }
}

/// What is shown about a file, from what the database replied and the event
/// in JSON.
pub open spec fn info_of(
    accept: Option<Seq<u8>>,
    loaded: Result<Option<EventView>, Seq<char>>,
    json: spec_fn(Seq<char>) -> Result<Seq<char>, Seq<char>>,
) -> Result<InfoView, Seq<char>> {
    match description(loaded) {
        Err(error) => Err(error),
        Ok(None) => Ok(InfoView::NotFound),
        Ok(Some(event)) => if !wants_html(accept) {
            Ok(InfoView::Json(event.json))
        } else {
            match file_name_of(event.tags) {
                Err(error) => Err(error),
                Ok(name) => Ok(InfoView::Html(info_page(linked_name(name), json(event.json)))),
            }
        },
    }
}

/// Shows what the relay knows about a file: the event itself, or a page for
/// those who read HTML.
pub fn get_info(accept: Option<Vec<u8>>, loaded: Result<Option<Event>, String>) -> (info: Result<
    Info,
    String,
>)
    ensures
        info_view(info) == info_of(
            accept_view(accept),
            loaded_view(loaded),
            |json: Seq<char>| pretty_event(json),
        ),
        known_references(loaded_view(loaded)),
{
    let event = match description_in(loaded) {
        Err(error) => return Err(error),
        Ok(None) => return Ok(Info::NotFound),
        Ok(Some(event)) => event,
    };
    if !show_html(&accept) {
        return Ok(Info::Json(event.json));
    }
    let file_name = match FileMeta::from(&event).file_name() {
        Err(error) => return Err(error),
        Ok(Some(name)) => name,
        Ok(None) => "unknown".to_owned(),
    };
    Ok(Info::Html(info_html(&file_name, event_to_string_pretty(&event.json))))
}

/// A media type that was guessed, by its view.
pub open spec fn type_view(media_type: Option<String>) -> Option<Seq<char>> {
    match media_type {
        Some(text) => Some(text@),
        None => None,
    }
}

/// What `mime_guess::from_path` guesses first from a file name.
pub uninterp spec fn guessed_type(file_name: Seq<char>) -> Option<Seq<char>>;

/// `mime_guess::from_path`: the first media type that it guesses from the
/// extension of a file name.
#[verifier::external_body]
fn guess_mime(file_name: &str) -> (media_type: Option<String>)
    ensures
        type_view(media_type) == guessed_type(file_name@),
{
    mime_guess::from_path(file_name).first().map(|m| m.to_string())
}

/// The characters that a header can hold.
pub open spec fn header_safe(text: Seq<char>) -> bool {
    forall|i: int| 0 <= i < text.len() ==> {
        let c = #[trigger] text[i] as int;
        c == 9 || c >= 32 && c != 127
    }
}

/// `axum::http::HeaderValue::try_from`, at a string: accepts every text
/// without control characters, tabs excepted.
#[verifier::external_body]
fn is_header_value(text: &str) -> (valid: bool)
    ensures
        valid == header_safe(text@),
{
    axum::http::HeaderValue::try_from(text.to_owned()).is_ok()
}

/// The media type of plain text.
pub const TEXT_PLAIN_UTF_8: &'static str = "text/plain; charset=utf-8";

/// What a browser would otherwise run is plain text.
pub open spec fn defused(media_type: Seq<char>) -> Seq<char> {
    if occurs(media_type, "script"@) {
        TEXT_PLAIN_UTF_8@
    } else {
        media_type
    }
}

/// The `Content-Type` that a file is served with, by the media type that was
/// guessed.
pub open spec fn content_type_of(media_type: Option<Seq<char>>) -> Option<Seq<char>> {
    match media_type {
        Some(text) => if header_safe(defused(text)) {
            Some(defused(text))
        } else {
            None
        },
        None => None,
    }
}

/// Turns a guessed media type into a `Content-Type`: never that of a script,
/// and none where no header can hold it.
pub fn content_type(media_type: Option<String>) -> (content_type: Option<String>)
    ensures
        type_view(content_type) == content_type_of(type_view(media_type)),
        media_type is None ==> content_type is None,
        content_type is Some && !occurs(media_type->0@, "script"@) ==> content_type->0@
            == media_type->0@,
        content_type is Some && occurs(media_type->0@, "script"@) ==> content_type->0@
            == "text/plain; charset=utf-8"@,
{
    match media_type {
        None => None,
        Some(text) => {
            let text = if contains(&text, "script") {
                TEXT_PLAIN_UTF_8.to_owned()
            } else {
                text
            };
            if is_header_value(&text) {
                Some(text)
            } else {
                None
            }
        },
    }
}

/// What a served file may do: nothing.
pub const CONTENT_SECURITY: &'static str = "default-src 'none';";

/// The headers that a file is served with.
#[derive(Clone, Debug, PartialEq, Eq)]
pub struct FileHeaders {
    pub content_length: u64,
    pub content_type: Option<String>,
    pub content_security_policy: &'static str,
    pub cache_control: &'static str,
}

/// The mathematical model of [`FileHeaders`].
#[verifier::ext_equal]
pub struct FileHeadersView {
    pub content_length: u64,
    pub content_type: Option<Seq<char>>,
    pub content_security_policy: Seq<char>,
    pub cache_control: Seq<char>,
}

impl View for FileHeaders {
    type V = FileHeadersView;

    open spec fn view(&self) -> FileHeadersView {
        FileHeadersView {
            content_length: self.content_length,
            content_type: type_view(self.content_type),
            content_security_policy: self.content_security_policy@,
            cache_control: self.cache_control@,
        }
    }
}

/// How a request for a file is answered.
#[derive(Clone, Debug, PartialEq, Eq)]
pub enum FileReply {
    NotFound,
    /// The file, whose parts are in these events.
    Serve { headers: FileHeaders, event_ids: Vec<EventId> },
}

/// The mathematical model of a [`FileReply`].
pub enum FileReplyView {
    NotFound,
    Serve { headers: FileHeadersView, event_ids: Seq<Seq<u8>> },
}

impl View for FileReply {
    type V = FileReplyView;

    open spec fn view(&self) -> FileReplyView {
        match self {
            FileReply::NotFound => FileReplyView::NotFound,
            FileReply::Serve { headers, event_ids } => FileReplyView::Serve {
                headers: headers@,
                event_ids: id_views(event_ids@),
            },
        }
    }
}

/// What was answered, by its view.
pub open spec fn file_reply_view(reply: Result<FileReply, String>) -> Result<
    FileReplyView,
    Seq<char>,
> {
    match reply {
        Ok(reply) => Ok(reply@),
        Err(error) => Err(error@),
    }
}

/// A file with its headers, by its size, its parts and the media type that
/// was guessed.
pub open spec fn served(size: u64, media_type: Option<Seq<char>>, event_ids: Seq<Seq<u8>>) -> FileReplyView {
    FileReplyView::Serve {
        headers: FileHeadersView {
            content_length: size,
            content_type: content_type_of(media_type),
            content_security_policy: CONTENT_SECURITY@,
            cache_control: CACHE_FOREVER@,
        },
        event_ids,
    }
}

/// How a request for a file is answered, from what the database replied and
/// how media types are guessed.
pub open spec fn file_of(
    file_name: Seq<char>,
    loaded: Result<Option<EventView>, Seq<char>>,
    guess: spec_fn(Seq<char>) -> Option<Seq<char>>,
) -> Result<FileReplyView, Seq<char>> {
    match description(loaded) {
        Err(error) => Err(error),
        Ok(None) => Ok(FileReplyView::NotFound),
        Ok(Some(event)) => match size_of(event.tags) {
            Err(error) => Err(error),
            Ok(size) => match file_name_of(event.tags) {
                Err(error) => Err(error),
                Ok(None) => Ok(served(size, None, references(event.tags))),
                Ok(Some(name)) => if name != file_name {
                    Ok(FileReplyView::NotFound)
                } else {
                    Ok(served(size, guess(name), references(event.tags)))
                },
            },
        },
    }
}

/// Serves a file, from its description and the media type that was guessed.
pub fn serve_file(size: u64, media_type: Option<String>, event_ids: Vec<EventId>) -> (reply:
    FileReply)
    ensures
        reply@ == served(size, type_view(media_type), id_views(event_ids@)),
        reply is Serve,
        reply->headers.content_length == size,
        reply->headers.content_security_policy@ == "default-src 'none';"@,
        reply->headers.cache_control@
            == "public, no-transform, max-age=31536000, stale-while-revalidate=31536000, immutable"@,
        reply->event_ids@ == event_ids@,
        media_type is None ==> reply->headers.content_type is None,
{
    FileReply::Serve {
        headers: FileHeaders {
            content_length: size,
            content_type: content_type(media_type),
            content_security_policy: CONTENT_SECURITY,
            cache_control: CACHE_FOREVER,
        },
        event_ids,
    }
}

/// Answers a request for a file with what the database replied about the event
/// that describes it. A file that has a name goes by that name alone.
pub fn get_file(req_file_name: &str, loaded: Result<Option<Event>, String>) -> (reply: Result<
    FileReply,
    String,
>)
    ensures
        file_reply_view(reply) == file_of(
            req_file_name@,
            loaded_view(loaded),
            |name: Seq<char>| guessed_type(name),
        ),
        known_references(loaded_view(loaded)),
        reply is Ok && reply->Ok_0 is Serve ==> loaded is Ok && loaded->Ok_0 is Some
            && loaded->Ok_0->0.kind == 1065,
        reply is Ok && reply->Ok_0 is Serve ==> size_of(loaded->Ok_0->0@.tags) == Ok::<
            u64,
            Seq<char>,
        >(reply->Ok_0->headers.content_length),
        reply is Ok && reply->Ok_0 is Serve ==> id_views(reply->Ok_0->event_ids@) == references(
            loaded->Ok_0->0@.tags,
        ),
{
    let event = match description_in(loaded) {
        Err(error) => return Err(error),
        Ok(None) => return Ok(FileReply::NotFound),
        Ok(Some(event)) => event,
    };
    let meta = FileMeta::from(&event);
    let size = match meta.size() {
        Err(error) => return Err(error),
        Ok(size) => size,
    };
    let media_type = match meta.file_name() {
        Err(error) => return Err(error),
        Ok(None) => None,
        Ok(Some(name)) => {
            if !same(&name, req_file_name) {
                return Ok(FileReply::NotFound);
            }
            guess_mime(&name)
        },
    };
    Ok(serve_file(size, media_type, meta.event_ids()))
}

/// What decoding gave, by its view.
pub open spec fn decoded(bytes: Result<Vec<u8>, String>) -> Result<Seq<u8>, Seq<char>> {
    match bytes {
        Ok(bytes) => Ok(bytes@),
        Err(error) => Err(error@),
    }
}

/// What `base64::Engine::decode` makes of a text, in the standard alphabet with
/// padding.
pub uninterp spec fn base64_bytes(text: Seq<char>) -> Result<Seq<u8>, Seq<char>>;

/// `base64::Engine::decode` of `BASE64_STANDARD`; an error is told by its debug
/// form.
#[verifier::external_body]
fn base64_decode(text: &str) -> (bytes: Result<Vec<u8>, String>)
    ensures
        decoded(bytes) == base64_bytes(text@),
{
    base64::prelude::BASE64_STANDARD.decode(text).map_err(|e| format!("{e:?}"))
}

/// The bytes of a part, by what decoding its content gave.
pub open spec fn content_bytes(bytes: Result<Seq<u8>, Seq<char>>) -> Result<Seq<u8>, Seq<char>> {
    match bytes {
        Ok(bytes) => Ok(bytes),
        Err(error) => Err("Error decoding base64 content: "@ + error),
    }
}

/// The bytes that an event holds as a part of a file.
pub fn get_bytes(event: &Event) -> (bytes: Result<Vec<u8>, String>)
    ensures
        decoded(bytes) == content_bytes(base64_bytes(event@.content)),
        bytes is Ok <==> base64_bytes(event.content@) is Ok,
        bytes is Ok ==> bytes->Ok_0@ == base64_bytes(event.content@)->Ok_0,
        bytes is Err ==> bytes->Err_0@ == "Error decoding base64 content: "@ + base64_bytes(
            event.content@,
        )->Err_0,
{
    match base64_decode(&event.content) {
        Ok(bytes) => Ok(bytes),
        Err(error) => Err(cat("Error decoding base64 content: ", &error)),
    }
}

/// One part of a file, by what the database replied about its event.
pub open spec fn part_of(id: Seq<u8>, loaded: Result<Option<EventView>, Seq<char>>) -> Result<
    Seq<u8>,
    Seq<char>,
> {
    match loaded {
        Err(error) => Err("error: "@ + error),
        Ok(None) => Err("no such event: "@ + hex_text(id)),
        Ok(Some(event)) => content_bytes(base64_bytes(event.content)),
    }
}

/// The parts of a file that are still to be sent.
pub struct FileStream {
    event_ids: VecDeque<EventId>,
}

impl View for FileStream {
    type V = Seq<Seq<u8>>;

    closed spec fn view(&self) -> Seq<Seq<u8>> {
        id_views(self.event_ids@)
    }
}

/// Starts to send a file, whose parts are in these events.
pub fn stream_bytes(event_ids: Vec<EventId>) -> (stream: FileStream)
    ensures
        stream@ == id_views(event_ids@),
{
    let mut queue: VecDeque<EventId> = VecDeque::new();
    let mut i: usize = 0;
    while i < event_ids.len()
        invariant
            i <= event_ids.len(),
            queue@ == event_ids@.take(i as int),
        decreases event_ids.len() - i,
    {
        queue.push_back(event_ids[i]);
        i = i + 1;
        proof {
            assert(queue@ =~= event_ids@.take(i as int));
        }
    }
    proof {
        assert(event_ids@.take(event_ids@.len() as int) =~= event_ids@);
    }
    FileStream { event_ids: queue }
}

impl FileStream {
    /// The event that holds the next part. It is then on its way.
    pub fn next_id(&mut self) -> (id: Option<EventId>)
        ensures
            id is Some <==> old(self)@.len() > 0,
            id is Some ==> id->0@ == old(self)@[0] && final(self)@ == old(self)@.drop_first(),
            id is None ==> final(self)@ == old(self)@,
    {
        let id = self.event_ids.pop_front();
        proof {
            if id is Some {
                assert(self@ =~= old(self)@.drop_first());
            } else {
                assert(self@ =~= old(self)@);
            }
        }
        id
    }

    /// The bytes of a part, from what the database replied about its event.
    /// With an error the stream ends.
    pub fn part(event_id: &EventId, loaded: Result<Option<Event>, String>) -> (bytes: Result<
        Vec<u8>,
        String,
    >)
        ensures
            decoded(bytes) == part_of(event_id@, loaded_view(loaded)),
            bytes is Ok <==> loaded is Ok && loaded->Ok_0 is Some && base64_bytes(
                loaded->Ok_0->0.content@,
            ) is Ok,
            bytes is Ok ==> bytes->Ok_0@ == base64_bytes(loaded->Ok_0->0.content@)->Ok_0,
            loaded is Err ==> bytes->Err_0@ == "error: "@ + loaded->Err_0@,
            loaded is Ok && loaded->Ok_0 is None ==> bytes->Err_0@ == "no such event: "@ + hex_text(
                event_id.bytes@,
            ),
    {
        match loaded {
            Err(error) => Err(cat("error: ", &error)),
            Ok(None) => Err(cat("no such event: ", &event_id.to_hex())),
            Ok(Some(event)) => get_bytes(&event),
        }
    }
}

/// All that is sent of a file whose parts are in these events: the parts up to
/// the first that fails, and how that one failed.
pub open spec fn streamed(
    ids: Seq<Seq<u8>>,
    load: spec_fn(Seq<u8>) -> Result<Option<EventView>, Seq<char>>,
) -> (Seq<Seq<u8>>, Option<Seq<char>>)
    decreases ids.len(),
{
    if ids.len() == 0 {
        (Seq::empty(), None)
    } else {
        match part_of(ids[0], load(ids[0])) {
            Err(error) => (Seq::empty(), Some(error)),
            Ok(bytes) => {
                let (rest, failure) = streamed(ids.drop_first(), load);
                (seq![bytes] + rest, failure)
            },
        }
    }
}

/// A file is sent as its parts, all of them and in the order in which its
/// description names them; each part is what the content of its event decodes
/// to.
pub proof fn file_is_its_parts_in_order(
    ids: Seq<Seq<u8>>,
    load: spec_fn(Seq<u8>) -> Result<Option<EventView>, Seq<char>>,
    parts: Seq<Seq<u8>>,
)
    requires
        parts.len() == ids.len(),
        forall|i: int|
            #![trigger ids[i]]
            0 <= i < ids.len() ==> {
                &&& load(ids[i]) is Ok
                &&& load(ids[i])->Ok_0 is Some
                &&& base64_bytes(load(ids[i])->Ok_0->0.content) == Ok::<Seq<u8>, Seq<char>>(parts[i])
            },
    ensures
        streamed(ids, load).0 == parts,
        streamed(ids, load).1 is None,
    decreases ids.len(),
{
    if ids.len() > 0 {
        let rest = ids.drop_first();
        assert forall|i: int| #![trigger rest[i]] 0 <= i < rest.len() implies {
            &&& load(rest[i]) is Ok
            &&& load(rest[i])->Ok_0 is Some
            &&& base64_bytes(load(rest[i])->Ok_0->0.content) == Ok::<Seq<u8>, Seq<char>>(
                parts.drop_first()[i],
            )
        } by {
            assert(rest[i] == ids[i + 1]);
        }
        file_is_its_parts_in_order(rest, load, parts.drop_first());
        assert(load(ids[0]) is Ok);
    }
    assert(streamed(ids, load).0 =~= parts);
}

/// Where a part cannot be had, the file is sent up to that part, and then
/// fails as that part did.
pub proof fn a_missing_part_ends_the_file(
    ids: Seq<Seq<u8>>,
    load: spec_fn(Seq<u8>) -> Result<Option<EventView>, Seq<char>>,
    parts: Seq<Seq<u8>>,
)
    requires
        parts.len() < ids.len(),
        forall|i: int|
            0 <= i < parts.len() ==> part_of(#[trigger] ids[i], load(ids[i])) == Ok::<
                Seq<u8>,
                Seq<char>,
            >(parts[i]),
        part_of(ids[parts.len() as int], load(ids[parts.len() as int])) is Err,
    ensures
        streamed(ids, load).0 == parts,
        streamed(ids, load).1 == Some(
            part_of(ids[parts.len() as int], load(ids[parts.len() as int]))->Err_0,
        ),
    decreases ids.len(),
{
    if parts.len() > 0 {
        let rest = ids.drop_first();
        assert forall|i: int| 0 <= i < parts.len() - 1 implies part_of(
            #[trigger] rest[i],
            load(rest[i]),
        ) == Ok::<Seq<u8>, Seq<char>>(parts.drop_first()[i]) by {
            assert(rest[i] == ids[i + 1]);
        }
        assert(rest[parts.len() - 1] == ids[parts.len() as int]);
        a_missing_part_ends_the_file(rest, load, parts.drop_first());
        assert(part_of(ids[0], load(ids[0])) == Ok::<Seq<u8>, Seq<char>>(parts[0]));
    }
    assert(streamed(ids, load).0 =~= parts);
}

/// A part is exactly what its content decodes to, however long it is, and one
/// that cannot be had says why.
pub proof fn a_part_is_what_its_content_decodes_to(
    id: Seq<u8>,
    event: EventView,
    bytes: Result<Seq<u8>, Seq<char>>,
    error: Seq<char>,
)
    ensures
        bytes is Ok ==> content_bytes(bytes) == Ok::<Seq<u8>, Seq<char>>(bytes->Ok_0),
        bytes is Err ==> content_bytes(bytes) == Err::<Seq<u8>, Seq<char>>(
            "Error decoding base64 content: "@ + bytes->Err_0,
        ),
        base64_bytes(event.content) is Ok ==> part_of(id, Ok(Some(event))) == Ok::<
            Seq<u8>,
            Seq<char>,
        >(base64_bytes(event.content)->Ok_0),
        base64_bytes(event.content) is Err ==> part_of(id, Ok(Some(event))) == Err::<
            Seq<u8>,
            Seq<char>,
        >("Error decoding base64 content: "@ + base64_bytes(event.content)->Err_0),
        part_of(id, Ok(None)) == Err::<Seq<u8>, Seq<char>>("no such event: "@ + hex_text(id)),
        part_of(id, Err(error)) == Err::<Seq<u8>, Seq<char>>("error: "@ + error),
{
}

/// A replaced character is gone, where what replaces it does not hold it.
proof fn replaced_is_gone(text: Seq<char>, from: char, to: Seq<char>)
    requires
        !to.contains(from),
    ensures
        !replaced(text, from, to).contains(from),
    decreases text.len(),
{
    let f = replacement(from, to);
    if text.len() == 0 {
        assert(text.flat_map(f) =~= Seq::<char>::empty());
    } else {
        let n = text.len() - 1;
        replaced_is_gone(text.take(n), from, to);
        text.lemma_flat_map_take_append(f, n);
        assert(text.take(n + 1) =~= text);
        let head = text.take(n).flat_map(f);
        let all = head + f(text[n]);
        assert(text.flat_map(f) =~= all);
        assert forall|i: int| 0 <= i < all.len() implies all[i] != from by {
            if i < head.len() {
                assert(all[i] == head[i]);
                assert(head.contains(head[i]));
            } else {
                assert(all[i] == f(text[n])[i - head.len()]);
                if text[n] == from {
                    assert(to.contains(to[i - head.len()]));
                }
            }
        }
    }
}

/// No escaped text opens a tag, and none ends an attribute.
pub proof fn escaped_text_stays_text(text: Seq<char>)
    ensures
        !html_escaped(text).contains('<'),
        !attr_escaped(text).contains('"'),
{
    reveal_strlit("&lt;");
    reveal_strlit("&quot;");
    replaced_is_gone(replaced(text, '&', "&amp;"@), '<', "&lt;"@);
    replaced_is_gone(text, '"', "&quot;"@);
}

/// No file is served as a script, whatever its name suggests.
pub proof fn never_served_as_script(media_type: Option<Seq<char>>)
    ensures
        content_type_of(media_type) is Some ==> !occurs(content_type_of(media_type)->0, "script"@),
{
    reveal_strlit("script");
    reveal_strlit("text/plain; charset=utf-8");
    let plain = TEXT_PLAIN_UTF_8@;
    assert forall|i: int| !occurs_at(plain, "script"@, i) by {
        if occurs_at(plain, "script"@, i) {
            let found = plain.subrange(i, i + 6);
            assert(found[0] == plain[i]);
            assert(found[1] == plain[i + 1]);
            assert(found[0] == 's' && found[1] == 'c');
        }
    }
}

/// The page about a file links to the file: under the name that it links to,
/// the file is found.
pub proof fn the_link_leads_to_the_file(
    accept: Option<Seq<u8>>,
    loaded: Result<Option<EventView>, Seq<char>>,
    json: spec_fn(Seq<char>) -> Result<Seq<char>, Seq<char>>,
    guess: spec_fn(Seq<char>) -> Option<Seq<char>>,
)
    requires
        info_of(accept, loaded, json) is Ok,
        info_of(accept, loaded, json)->Ok_0 is Html,
    ensures
        loaded is Ok && loaded->Ok_0 is Some,
        ({
            let event = loaded->Ok_0->0;
            let name = linked_name(file_name_of(event.tags)->Ok_0);
            &&& info_of(accept, loaded, json)->Ok_0 == InfoView::Html(
                info_page(name, json(event.json)),
            )
            &&& file_of(name, loaded, guess) is Ok
            &&& file_of(name, loaded, guess)->Ok_0 is Serve
            &&& file_of(name, loaded, guess)->Ok_0->event_ids == references(event.tags)
        }),
{
}

/// What the relay would not take it does not serve: a description that it
/// rejects is answered with the reason, whoever asks and under whatever name.
pub proof fn rejected_files_are_not_served(
    event: EventView,
    accept: Option<Seq<u8>>,
    file_name: Seq<char>,
    json: spec_fn(Seq<char>) -> Result<Seq<char>, Seq<char>>,
    guess: spec_fn(Seq<char>) -> Option<Seq<char>>,
)
    requires
        rejection(event) is Err,
    ensures
        info_of(accept, Ok(Some(event)), json) == Err::<InfoView, Seq<char>>(
            rejection(event)->Err_0,
        ),
        file_of(file_name, Ok(Some(event)), guess) == Err::<FileReplyView, Seq<char>>(
            rejection(event)->Err_0,
        ),
{
}

/// Escaping goes character by character: for HTML `&` and `<` become entities,
/// in attributes `"` does, and nothing else changes.
pub proof fn escaping_goes_character_by_character(a: Seq<char>, b: Seq<char>, c: char)
    ensures
        html_escaped(Seq::<char>::empty()) == Seq::<char>::empty(),
        html_escaped(seq!['&']) == "&amp;"@,
        html_escaped(seq!['<']) == "&lt;"@,
        c != '&' && c != '<' ==> html_escaped(seq![c]) == seq![c],
        html_escaped(a + b) == html_escaped(a) + html_escaped(b),
        attr_escaped(Seq::<char>::empty()) == Seq::<char>::empty(),
        attr_escaped(seq!['"']) == "&quot;"@,
        c != '"' ==> attr_escaped(seq![c]) == seq![c],
        attr_escaped(a + b) == attr_escaped(a) + attr_escaped(b),
{
    reveal_strlit("&amp;");
    let amp = "&amp;"@;
    let lt = "&lt;"@;
    replacing_goes_character_by_character(a, b, c, '&', amp);
    replacing_goes_character_by_character(a, b, '<', '&', amp);
    replacing_goes_character_by_character(
        replaced(a, '&', amp),
        replaced(b, '&', amp),
        c,
        '<',
        lt,
    );
    replacing_goes_character_by_character(a, b, c, '"', "&quot;"@);
    // The entity for `&` holds no `<`.
    assert(amp =~= seq!['&'] + seq!['a'] + seq!['m'] + seq!['p'] + seq![';']);
    replacing_goes_character_by_character(seq!['&'], seq!['a'], '&', '<', lt);
    replacing_goes_character_by_character(seq!['&'] + seq!['a'], seq!['m'], 'a', '<', lt);
    replacing_goes_character_by_character(
        seq!['&'] + seq!['a'] + seq!['m'],
        seq!['p'],
        'm',
        '<',
        lt,
    );
    replacing_goes_character_by_character(
        seq!['&'] + seq!['a'] + seq!['m'] + seq!['p'],
        seq![';'],
        'p',
        '<',
        lt,
    );
    replacing_goes_character_by_character(a, b, ';', '<', lt);
}

/// What an address names is passed on, and what is wrong with it told.
pub proof fn addresses_are_taken_as_they_are(id: Seq<u8>, error: Seq<char>)
    ensures
        requested(Ok(id)) == Ok::<Seq<u8>, Seq<char>>(id),
        requested(Err(error)) == Err::<Seq<u8>, Seq<char>>("error: "@ + error),
{
}

/// An event describes a file exactly when the database has it, its kind is
/// 1065 and nothing is wrong with it; then it is that event. What is missing
/// or of another kind is not found, and anything else is an error.
pub proof fn only_accepted_files_are_described(event: EventView, error: Seq<char>)
    ensures
        description(Err(error)) == Err::<Option<EventView>, Seq<char>>("error: "@ + error),
        description(Ok(None)) == Ok::<Option<EventView>, Seq<char>>(None),
        event.kind != 1065 ==> description(Ok(Some(event))) == Ok::<Option<EventView>, Seq<char>>(
            None,
        ),
        event.kind == 1065 && rejection(event) is Ok ==> description(Ok(Some(event))) == Ok::<
            Option<EventView>,
            Seq<char>,
        >(Some(event)),
        event.kind == 1065 && rejection(event) is Err ==> description(Ok(Some(event))) == Err::<
            Option<EventView>,
            Seq<char>,
        >(rejection(event)->Err_0),
{
}

/// A client wants HTML exactly when its `Accept` header is there, holds nothing
/// but visible characters, spaces and tabs, and names `text/html` somewhere.
pub proof fn html_is_for_those_who_accept_it(accept: Seq<u8>)
    ensures
        !wants_html(None),
        wants_html(Some(accept)) <==> {
            &&& forall|i: int|
                0 <= i < accept.len() ==> (32 <= #[trigger] accept[i] <= 126 || accept[i] == 9)
            &&& exists|i: int|
                #![trigger accept[i]]
                0 <= i && i + 9 <= accept.len() && accept[i] == 116 && accept[i + 1] == 101
                    && accept[i + 2] == 120 && accept[i + 3] == 116 && accept[i + 4] == 47
                    && accept[i + 5] == 104 && accept[i + 6] == 116 && accept[i + 7] == 109
                    && accept[i + 8] == 108
        },
{
    reveal_strlit("text/html");
    let pattern = "text/html"@;
    let text = characters(accept);
    if wants_html(Some(accept)) {
        let i = choose|i: int| occurs_at(text, pattern, i);
        let found = text.subrange(i, i + 9);
        assert forall|k: int| 0 <= k < 9 implies text[i + k] == #[trigger] pattern[k] by {
            assert(found[k] == text[i + k]);
        }
        assert(pattern[0] == text[i] && pattern[1] == text[i + 1] && pattern[2] == text[i + 2]
            && pattern[3] == text[i + 3] && pattern[4] == text[i + 4] && pattern[5] == text[i + 5]
            && pattern[6] == text[i + 6] && pattern[7] == text[i + 7] && pattern[8] == text[i + 8]);
        assert(accept[i] == 116);
    }
    if visible(accept) && exists|i: int|
        #![trigger accept[i]]
        0 <= i && i + 9 <= accept.len() && accept[i] == 116 && accept[i + 1] == 101 && accept[i + 2]
            == 120 && accept[i + 3] == 116 && accept[i + 4] == 47 && accept[i + 5] == 104
            && accept[i + 6] == 116 && accept[i + 7] == 109 && accept[i + 8] == 108 {
        let i = choose|i: int|
            #![trigger accept[i]]
            0 <= i && i + 9 <= accept.len() && accept[i] == 116 && accept[i + 1] == 101
                && accept[i + 2] == 120 && accept[i + 3] == 116 && accept[i + 4] == 47 && accept[i
                + 5] == 104 && accept[i + 6] == 116 && accept[i + 7] == 109 && accept[i + 8] == 108;
        assert(text.subrange(i, i + 9) =~= pattern);
        assert(occurs_at(text, pattern, i));
    }
}

/// The page about a file shows its name and its event in full, and is otherwise
/// the same for every file.
pub proof fn the_page_shows_name_and_event(
    file_name: Seq<char>,
    json: Seq<char>,
    error: Seq<char>,
)
    ensures
        info_page(file_name, Ok(json)) == "<html><head><title>File Metadata</title></head><body>"@
            + "<p>This is a Kind 1095 file as described in (in-progress) <a href=\"https://github.com/nostr-protocol/nips/pull/345\">NIP-95</a>.</p>"@
            + "<p>For your convenience, you may view the file here: <a href=\"file/"@ + attr_escaped(
            file_name,
        ) + "\">"@ + html_escaped(file_name) + "</a></p>"@
            + "<div style='background-color: #ddd; display: inline-block; padding: 1em;'><code><pre>"@
            + html_escaped(json) + "</pre></code></div>"@ + "</body></html>"@,
        info_page(file_name, Err(error)) == info_page(
            file_name,
            Ok("Error encoding JSON: "@ + error),
        ),
{
}

/// What is shown about a file that can be served is its event, as it is, or the
/// page with its name, `unknown` where it has none.
pub proof fn accepted_files_are_shown(
    event: EventView,
    accept: Option<Seq<u8>>,
    json: spec_fn(Seq<char>) -> Result<Seq<char>, Seq<char>>,
)
    requires
        event.kind == 1065,
        rejection(event) is Ok,
    ensures
        ({
            let info = info_of(accept, Ok(Some(event)), json);
            let name = file_name_of(event.tags);
            &&& !wants_html(accept) ==> info == Ok::<InfoView, Seq<char>>(InfoView::Json(event.json))
            &&& wants_html(accept) && name is Err ==> info == Err::<InfoView, Seq<char>>(name->Err_0)
            &&& wants_html(accept) && name is Ok && name->Ok_0 is Some ==> info == Ok::<
                InfoView,
                Seq<char>,
            >(InfoView::Html(info_page(name->Ok_0->0, json(event.json))))
            &&& wants_html(accept) && name is Ok && name->Ok_0 is None ==> info == Ok::<
                InfoView,
                Seq<char>,
            >(InfoView::Html(info_page("unknown"@, json(event.json))))
        }),
{
}

/// What is missing or describes no file is not found, and a failure of the
/// database is told.
pub proof fn other_events_are_not_found(
    event: EventView,
    accept: Option<Seq<u8>>,
    file_name: Seq<char>,
    error: Seq<char>,
    json: spec_fn(Seq<char>) -> Result<Seq<char>, Seq<char>>,
    guess: spec_fn(Seq<char>) -> Option<Seq<char>>,
)
    ensures
        info_of(accept, Ok(None), json) == Ok::<InfoView, Seq<char>>(InfoView::NotFound),
        file_of(file_name, Ok(None), guess) == Ok::<FileReplyView, Seq<char>>(
            FileReplyView::NotFound,
        ),
        info_of(accept, Err(error), json) == Err::<InfoView, Seq<char>>("error: "@ + error),
        file_of(file_name, Err(error), guess) == Err::<FileReplyView, Seq<char>>(
            "error: "@ + error,
        ),
        event.kind != 1065 ==> info_of(accept, Ok(Some(event)), json) == Ok::<InfoView, Seq<char>>(
            InfoView::NotFound,
        ),
        event.kind != 1065 ==> file_of(file_name, Ok(Some(event)), guess) == Ok::<
            FileReplyView,
            Seq<char>,
        >(FileReplyView::NotFound),
{
}

/// A file is served whole: whatever its parts, the length that is announced is
/// the size that its description gives, its parts are those that the
/// description refers to, and it may do nothing and be kept for good. It is
/// served under its name alone, or under any where it has none.
pub proof fn accepted_files_are_served_whole(
    event: EventView,
    file_name: Seq<char>,
    guess: spec_fn(Seq<char>) -> Option<Seq<char>>,
)
    requires
        event.kind == 1065,
        rejection(event) is Ok,
        file_name_of(event.tags) is Ok,
    ensures
        ({
            let reply = file_of(file_name, Ok(Some(event)), guess);
            let name = file_name_of(event.tags)->Ok_0;
            &&& reply is Ok
            &&& reply->Ok_0 is Serve <==> name is None || name->0 == file_name
            &&& reply->Ok_0 is Serve ==> {
                let headers = reply->Ok_0->headers;
                &&& size_of(event.tags) == Ok::<u64, Seq<char>>(headers.content_length)
                &&& reply->Ok_0->event_ids == references(event.tags)
                &&& headers.content_security_policy == "default-src 'none';"@
                &&& headers.cache_control
                    == "public, no-transform, max-age=31536000, stale-while-revalidate=31536000, immutable"@
                &&& name is None ==> headers.content_type is None
                &&& name is Some ==> headers.content_type == content_type_of(guess(file_name))
            }
        }),
{
}

/// A file with several names is not served.
pub proof fn files_with_several_names_are_not_served(
    event: EventView,
    file_name: Seq<char>,
    guess: spec_fn(Seq<char>) -> Option<Seq<char>>,
)
    requires
        event.kind == 1065,
        rejection(event) is Ok,
        file_name_of(event.tags) is Err,
    ensures
        file_of(file_name, Ok(Some(event)), guess) == Err::<FileReplyView, Seq<char>>(
            file_name_of(event.tags)->Err_0,
        ),
{
}

/// The length that is announced and the parts that are sent do not depend on
/// each other: a file of the same size is announced alike, whatever its parts
/// and its type.
pub proof fn the_size_alone_is_announced(
    size: u64,
    one: Seq<Seq<u8>>,
    other: Seq<Seq<u8>>,
    media_type: Option<Seq<char>>,
    other_type: Option<Seq<char>>,
)
    ensures
        served(size, media_type, one)->headers.content_length == size,
        served(size, media_type, one)->headers.content_length == served(
            size,
            other_type,
            other,
        )->headers.content_length,
        served(size, media_type, one)->headers == served(size, media_type, other)->headers,
        served(size, media_type, one)->event_ids == one,
{
}

/// A guessed type is served as it is, unless it is that of a script, which is
/// served as plain text, or no header can hold it.
pub proof fn types_are_served_as_guessed(media_type: Seq<char>)
    ensures
        content_type_of(None) is None,
        occurs(media_type, "script"@) ==> content_type_of(Some(media_type)) == Some(
            "text/plain; charset=utf-8"@,
        ),
        !occurs(media_type, "script"@) ==> {
            let safe = forall|i: int|
                0 <= i < media_type.len() ==> (#[trigger] media_type[i] == '\t' || media_type[i] as int
                    >= 32 && media_type[i] as int != 127);
            &&& safe ==> content_type_of(Some(media_type)) == Some(media_type)
            &&& !safe ==> content_type_of(Some(media_type)) is None
        },
{
    reveal_strlit("text/plain; charset=utf-8");
    assert(header_safe("text/plain; charset=utf-8"@));
    assert('\t' as int == 9);
    let safe = forall|i: int|
        0 <= i < media_type.len() ==> (#[trigger] media_type[i] == '\t' || media_type[i] as int >= 32
            && media_type[i] as int != 127);
    if safe {
        assert(header_safe(media_type));
    }
    if header_safe(media_type) {
        assert forall|i: int| 0 <= i < media_type.len() implies (#[trigger] media_type[i] == '\t'
            || media_type[i] as int >= 32 && media_type[i] as int != 127) by {}
    }
}

/// The models of what is loaded, shown and served hold all of it.
pub proof fn files_are_modelled_whole(
    event: Event,
    text: String,
    bytes: Vec<u8>,
    headers: FileHeaders,
    event_ids: Vec<EventId>,
    info: Info,
    reply: FileReply,
)
    ensures
        loaded_view(Ok(Some(event))) == Ok::<Option<EventView>, Seq<char>>(Some(event@)),
        loaded_view(Ok(None)) == Ok::<Option<EventView>, Seq<char>>(None),
        loaded_view(Err(text)) == Err::<Option<EventView>, Seq<char>>(text@),
        accept_view(Some(bytes)) == Some(bytes@),
        accept_view(None) is None,
        encoded(Ok(text)) == Ok::<Seq<char>, Seq<char>>(text@),
        encoded(Err(text)) == Err::<Seq<char>, Seq<char>>(text@),
        decoded(Ok(bytes)) == Ok::<Seq<u8>, Seq<char>>(bytes@),
        decoded(Err(text)) == Err::<Seq<u8>, Seq<char>>(text@),
        type_view(Some(text)) == Some(text@),
        type_view(None) is None,
        Info::NotFound@ is NotFound,
        Info::Json(text)@ == InfoView::Json(text@),
        Info::Html(text)@ == InfoView::Html(text@),
        info_view(Ok(info)) == Ok::<InfoView, Seq<char>>(info@),
        info_view(Err(text)) == Err::<InfoView, Seq<char>>(text@),
        headers@.content_length == headers.content_length,
        headers@.content_type is Some <==> headers.content_type is Some,
        headers.content_type is Some ==> headers@.content_type->0 == headers.content_type->0@,
        headers@.content_security_policy == headers.content_security_policy@,
        headers@.cache_control == headers.cache_control@,
        FileReply::NotFound@ is NotFound,
        (FileReply::Serve { headers, event_ids })@ == (FileReplyView::Serve {
            headers: headers@,
            event_ids: id_views(event_ids@),
        }),
        file_reply_view(Ok(reply)) == Ok::<FileReplyView, Seq<char>>(reply@),
        file_reply_view(Err(text)) == Err::<FileReplyView, Seq<char>>(text@),
{
}

/// The model of a stream is the events whose parts are still to be sent.
proof fn a_stream_is_modelled_whole(stream: FileStream)
    ensures
        stream@.len() == stream.event_ids@.len(),
        forall|i: int|
            0 <= i < stream@.len() ==> #[trigger] stream@[i] == stream.event_ids@[i].bytes@,
{
}

} // verus!
