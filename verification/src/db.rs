//! The statements that the relay runs against its database.

use crate::event::{event_of_json, hex_text, Event, EventId, EventView, PublicKey};
use crate::message::{filter_views, id_list, key_list, kind_list, tag_filters, Filter, FilterView, TagFilter, TagFilterView};
use crate::server::access::Question;
use crate::sqlx_extras::{arg_values, in_clause, placeholders, query_args, query_bind_int, query_bind_text, query_new, query_open, query_push, query_text, Query, SqlArg, SqlValue};
use vstd::prelude::*;

verus! {

/// The events. All but the JSON itself is derived from it.
pub const CREATE_EVENT: &'static str = "CREATE TABLE event(
    jsonb BLOB NOT NULL
    , id TEXT NOT NULL AS (jsonb ->> '$.id')
    , kind INT NOT NULL AS (jsonb ->> '$.kind')
    , pubkey TEXT NOT NULL AS (jsonb ->> '$.pubkey')
    , signature TEXT NOT NULL AS (jsonb ->> '$.sig')
    , content TEXT NOT NULL AS (jsonb ->> '$.content')
    , created_at INTEGER NOT NULL AS (jsonb ->> '$.created_at')
    , created_at_utc TEXT NOT NULL AS (datetime(created_at, 'unixepoch'))
    , json TEXT NOT NULL AS (json(jsonb))
) STRICT
";

/// The ways in which events are looked up.
pub const CREATE_EVENT_INDEXES: &'static str = "CREATE UNIQUE INDEX event_id ON event(unhex(id)); -- Using unhex to save on index size.
CREATE INDEX event_kind ON event(kind, created_at);
CREATE INDEX event_created_at ON event(created_at, unhex(id));
CREATE INDEX event_pubkey ON event(unhex(pubkey), created_at DESC);
CREATE INDEX event_pubkey_kind ON event(unhex(pubkey), kind, created_at DESC); -- Useful for finding the latest profile/follow-list, etc
";

/// The tags of every event, read from its JSON.
pub const CREATE_TAG_VIEW: &'static str = "CREATE VIEW tag_view AS
SELECT
    e.id AS event_id
    , t.value ->> '$[0]' AS name
    , t.value ->> '$[1]' AS value
    , t.value ->> '$[2]' AS value2
    , t.value ->> '$[2]' AS value3
    , t.id AS json_id
FROM
    event AS e
    , json_each(jsonb, '$.tags') AS t
ORDER BY 
    unhex(event_id)
    , json_id
;
";

/// The one-letter tags, kept for lookups.
pub const CREATE_TAG: &'static str = "CREATE TABLE tag( -- 'materialized view' of event tags
    event_id BLOB NOT NULL
    , name TEXT NOT NULL
    , value TEXT NOT NULL
);
CREATE INDEX tag_event ON tag(event_id);
CREATE INDEX tag_name_value ON tag(name, value);
";

/// Keeps the kept tags in step with the events.
pub const CREATE_TAG_TRIGGERS: &'static str = "CREATE TRIGGER event_tags AFTER INSERT ON event
BEGIN
    INSERT INTO tag(event_id, name, value)
    SELECT unhex(t.event_id), name, value
    FROM tag_view AS t
    WHERE unhex(t.event_id) = unhex(new.id)
    AND length(t.name) = 1;
END;

CREATE TRIGGER event_tags_delete AFTER DELETE ON event
BEGIN
    DELETE FROM tag WHERE event_id = unhex(old.id);
END;
";

/// The latest event of each kind by each key.
pub const CREATE_LATEST_VIEW: &'static str = "CREATE VIEW event_latest_kind AS
WITH k AS (
    SELECT
        e.pubkey
        , e.kind
        , e.id AS event_id
        , row_number() OVER (
            PARTITION BY unhex(e.pubkey), e.kind 
            ORDER BY unhex(e.pubkey), e.kind, created_at DESC
        ) AS row_number
    FROM event AS e
)
SELECT
    pubkey, kind, event_id
FROM k
WHERE row_number = 1;
";

/// What the latest profile of each key says.
pub const CREATE_PROFILE_VIEW: &'static str = "CREATE VIEW profile_info AS
SELECT
    elk.pubkey
    , e.content ->> '$.name' AS name
    , e.content ->> '$.display_name' AS display_name
    , e.content ->> '$.username' AS username
    , e.content ->> '$.nip05' AS nip05
    , e.content ->> '$.about' AS about
FROM
    event_latest_kind AS elk
    JOIN event AS e ON (unhex(e.id) = unhex(elk.event_id))
WHERE
    elk.kind = 0;
SELECT * from profile_info;
";

/// Who follows whom, by the latest lists.
pub const CREATE_FOLLOWS_VIEW: &'static str = "CREATE VIEW follows AS
SELECT
    elk.pubkey AS follower
    , t.value AS followed
FROM
    event_latest_kind AS elk
    JOIN tag AS t ON (t.event_id = unhex(elk.event_id) AND t.name = 'p')
WHERE elk.kind = 3;
";

/// Who follows whom, with names.
pub const CREATE_FOLLOWS_NAMED_VIEW: &'static str = "CREATE VIEW follows_named AS
SELECT
    follower
    , pi1.name AS follower_name
    , followed
    , pi2.name AS followed_name
FROM
    follows AS f
    -- JOIN event AS e ON (unhex(e.id) = unhex(elk.event_id))
    LEFT JOIN profile_info AS pi1 ON (unhex(pi1.pubkey) = unhex(follower))
    LEFT JOIN profile_info AS pi2 ON (unhex(pi2.pubkey) = unhex(followed))
;
";

/// The keys that were granted access, and how far it reaches along follows.
pub const CREATE_ALLOW_USERS: &'static str = "CREATE TABLE allow_users(
    pubkey TEXT NOT NULL
    , note TEXT DEFAULT NULL
    , allowed_levels INTEGER NOT NULL DEFAULT 1
)
";

/// The keys that have access: the granted ones, and those they follow, as far as the grant reaches.
pub const CREATE_ALLOWED_USERS_VIEW: &'static str = "CREATE VIEW allowed_users AS
WITH RECURSIVE
    au(pubkey, level) AS (
        SELECT pubkey, allowed_levels FROM allow_users
        UNION
        SELECT followed, au.level - 1
        FROM au
        JOIN follows ON (unhex(au.pubkey) = unhex(follows.follower))
        WHERE au.level > 0
    )
select * from au;
";

/// Stores an event.
pub const INSERT_EVENT: &'static str = "INSERT INTO event(jsonb)
VALUES (jsonb(?))
";

/// Whether a key has access.
pub const SELECT_USER_ALLOWED: &'static str = "SELECT EXISTS (
    SELECT pubkey from allowed_users where pubkey = ?
)";

/// Whether a stored event refers to an event.
pub const SELECT_REFERRED_EVENT: &'static str = "SELECT EXISTS (
    SELECT name from tag where name = 'e' AND value = ?
) AS has_ref
";

/// Whether a stored event refers to a key, or was written with it.
pub const SELECT_REFERRED_PUBKEY: &'static str = "SELECT EXISTS (
    SELECT name from tag where name = 'p' AND value = ?
) OR EXISTS (
    SELECT 1 from event where unhex(pubkey) = ?
) AS has_ref
";

/// The statements that make a new database, in order.
pub open spec fn schema() -> Seq<Seq<char>> {
    seq![
        CREATE_EVENT@,
        CREATE_EVENT_INDEXES@,
        CREATE_TAG_VIEW@,
        CREATE_TAG@,
        CREATE_TAG_TRIGGERS@,
        CREATE_LATEST_VIEW@,
        CREATE_PROFILE_VIEW@,
        CREATE_FOLLOWS_VIEW@,
        CREATE_FOLLOWS_NAMED_VIEW@,
        CREATE_ALLOW_USERS@,
        CREATE_ALLOWED_USERS_VIEW@,
    ]
}

/// The characters of each statement.
pub open spec fn str_texts(values: Seq<&'static str>) -> Seq<Seq<char>> {
    Seq::new(values.len(), |i: int| values[i]@)
}

/// What a new database holds, word for word: the events, their tags and how
/// they are kept in step, the latest event of each kind, who follows whom, and
/// who has access.
pub proof fn the_schema_word_for_word()
    ensures
        CREATE_EVENT@ == "CREATE TABLE event(\n    jsonb BLOB NOT NULL\n    , id TEXT NOT NULL AS (jsonb ->> '$.id')\n    , kind INT NOT NULL AS (jsonb ->> '$.kind')\n    , pubkey TEXT NOT NULL AS (jsonb ->> '$.pubkey')\n    , signature TEXT NOT NULL AS (jsonb ->> '$.sig')\n    , content TEXT NOT NULL AS (jsonb ->> '$.content')\n    , created_at INTEGER NOT NULL AS (jsonb ->> '$.created_at')\n    , created_at_utc TEXT NOT NULL AS (datetime(created_at, 'unixepoch'))\n    , json TEXT NOT NULL AS (json(jsonb))\n) STRICT\n"@,
        CREATE_EVENT_INDEXES@ == "CREATE UNIQUE INDEX event_id ON event(unhex(id)); -- Using unhex to save on index size.\nCREATE INDEX event_kind ON event(kind, created_at);\nCREATE INDEX event_created_at ON event(created_at, unhex(id));\nCREATE INDEX event_pubkey ON event(unhex(pubkey), created_at DESC);\nCREATE INDEX event_pubkey_kind ON event(unhex(pubkey), kind, created_at DESC); -- Useful for finding the latest profile/follow-list, etc\n"@,
        CREATE_TAG_VIEW@ == "CREATE VIEW tag_view AS\nSELECT\n    e.id AS event_id\n    , t.value ->> '$[0]' AS name\n    , t.value ->> '$[1]' AS value\n    , t.value ->> '$[2]' AS value2\n    , t.value ->> '$[2]' AS value3\n    , t.id AS json_id\nFROM\n    event AS e\n    , json_each(jsonb, '$.tags') AS t\nORDER BY \n    unhex(event_id)\n    , json_id\n;\n"@,
        CREATE_TAG@ == "CREATE TABLE tag( -- 'materialized view' of event tags\n    event_id BLOB NOT NULL\n    , name TEXT NOT NULL\n    , value TEXT NOT NULL\n);\nCREATE INDEX tag_event ON tag(event_id);\nCREATE INDEX tag_name_value ON tag(name, value);\n"@,
        CREATE_TAG_TRIGGERS@ == "CREATE TRIGGER event_tags AFTER INSERT ON event\nBEGIN\n    INSERT INTO tag(event_id, name, value)\n    SELECT unhex(t.event_id), name, value\n    FROM tag_view AS t\n    WHERE unhex(t.event_id) = unhex(new.id)\n    AND length(t.name) = 1;\nEND;\n\nCREATE TRIGGER event_tags_delete AFTER DELETE ON event\nBEGIN\n    DELETE FROM tag WHERE event_id = unhex(old.id);\nEND;\n"@,
        CREATE_LATEST_VIEW@ == "CREATE VIEW event_latest_kind AS\nWITH k AS (\n    SELECT\n        e.pubkey\n        , e.kind\n        , e.id AS event_id\n        , row_number() OVER (\n            PARTITION BY unhex(e.pubkey), e.kind \n            ORDER BY unhex(e.pubkey), e.kind, created_at DESC\n        ) AS row_number\n    FROM event AS e\n)\nSELECT\n    pubkey, kind, event_id\nFROM k\nWHERE row_number = 1;\n"@,
        CREATE_PROFILE_VIEW@ == "CREATE VIEW profile_info AS\nSELECT\n    elk.pubkey\n    , e.content ->> '$.name' AS name\n    , e.content ->> '$.display_name' AS display_name\n    , e.content ->> '$.username' AS username\n    , e.content ->> '$.nip05' AS nip05\n    , e.content ->> '$.about' AS about\nFROM\n    event_latest_kind AS elk\n    JOIN event AS e ON (unhex(e.id) = unhex(elk.event_id))\nWHERE\n    elk.kind = 0;\nSELECT * from profile_info;\n"@,
        CREATE_FOLLOWS_VIEW@ == "CREATE VIEW follows AS\nSELECT\n    elk.pubkey AS follower\n    , t.value AS followed\nFROM\n    event_latest_kind AS elk\n    JOIN tag AS t ON (t.event_id = unhex(elk.event_id) AND t.name = 'p')\nWHERE elk.kind = 3;\n"@,
        CREATE_FOLLOWS_NAMED_VIEW@ == "CREATE VIEW follows_named AS\nSELECT\n    follower\n    , pi1.name AS follower_name\n    , followed\n    , pi2.name AS followed_name\nFROM\n    follows AS f\n    -- JOIN event AS e ON (unhex(e.id) = unhex(elk.event_id))\n    LEFT JOIN profile_info AS pi1 ON (unhex(pi1.pubkey) = unhex(follower))\n    LEFT JOIN profile_info AS pi2 ON (unhex(pi2.pubkey) = unhex(followed))\n;\n"@,
        CREATE_ALLOW_USERS@ == "CREATE TABLE allow_users(\n    pubkey TEXT NOT NULL\n    , note TEXT DEFAULT NULL\n    , allowed_levels INTEGER NOT NULL DEFAULT 1\n)\n"@,
        CREATE_ALLOWED_USERS_VIEW@ == "CREATE VIEW allowed_users AS\nWITH RECURSIVE\n    au(pubkey, level) AS (\n        SELECT pubkey, allowed_levels FROM allow_users\n        UNION\n        SELECT followed, au.level - 1\n        FROM au\n        JOIN follows ON (unhex(au.pubkey) = unhex(follows.follower))\n        WHERE au.level > 0\n    )\nselect * from au;\n"@,
{
}

/// A statement with a fixed text, and the values for its placeholders.
#[derive(Clone, Debug, PartialEq, Eq)]
pub struct Statement {
    pub sql: &'static str,
    pub args: Vec<SqlArg>,
}

/// How connections to the database are kept.
#[derive(Clone, Copy, Debug, PartialEq, Eq)]
pub struct PoolSettings {
    pub max_connections: u32,
    pub idle_timeout_secs: u64,
    pub acquire_timeout_secs: u64,
}

/// The relay's database, as the statements that are run against it.
pub struct DB {}

/// A list condition of a search: nothing where the list is not there or
/// empty.
pub open spec fn list_text(head: Seq<char>, list: Option<nat>) -> Seq<char> {
    match list {
        Some(count) if count > 0 => head + placeholders(count, ","@) + ")"@,
        _ => Seq::empty(),
    }
}

/// The length of a list, where there is one.
pub open spec fn list_len<T>(list: Option<Seq<T>>) -> Option<nat> {
    match list {
        Some(items) => Some(items.len()),
        None => None,
    }
}

/// A condition on a time: nothing where there is no time.
pub open spec fn time_text(head: Seq<char>, time: Option<u64>) -> Seq<char> {
    match time {
        Some(_) => head.push('?'),
        None => Seq::empty(),
    }
}

/// The condition that an event has a tag with a name and one of so many values.
/// Of no value none can be had.
pub open spec fn tag_text(count: nat) -> Seq<char> {
    " AND unhex(id) IN (SELECT event_id FROM tag WHERE name = "@.push('?') + " AND "@ + in_clause(
        "value"@,
        count,
    ) + ")"@
}

/// The conditions on the tags of an event, one by one.
pub open spec fn tags_text(tags: Seq<TagFilterView>) -> Seq<char>
    decreases tags.len(),
{
    if tags.len() == 0 {
        Seq::empty()
    } else {
        tags_text(tags.drop_last()) + tag_text(tags.last().values.len())
    }
}

/// The text of a search by one filter.
pub open spec fn filter_text(filter: FilterView) -> Seq<char> {
    "SELECT json FROM event WHERE true"@ + list_text(
        " AND unhex(pubkey) IN ("@,
        list_len(filter.authors),
    ) + time_text(" AND created_at < "@, filter.until) + time_text(
        " AND created_at >= "@,
        filter.since,
    ) + list_text(" AND unhex(id) IN ("@, list_len(filter.ids)) + list_text(
        " AND kind IN ("@,
        list_len(filter.kinds),
    ) + tags_text(filter.tags) + " LIMIT "@.push('?')
}

/// The text of a search: the first filter counts.
pub open spec fn search_text(filters: Seq<FilterView>) -> Seq<char> {
    if filters.len() == 0 {
        "SELECT json FROM event WHERE true"@
    } else {
        filter_text(filters[0])
    }
}

/// Byte strings as values.
pub open spec fn blob_values(list: Option<Seq<Seq<u8>>>) -> Seq<SqlValue> {
    match list {
        Some(items) => Seq::new(items.len(), |i: int| SqlValue::Blob(items[i])),
        None => Seq::empty(),
    }
}

/// Kinds as values.
pub open spec fn kind_values(list: Option<Seq<u16>>) -> Seq<SqlValue> {
    match list {
        Some(items) => Seq::new(items.len(), |i: int| SqlValue::Int(items[i] as i64)),
        None => Seq::empty(),
    }
}

/// A time as a value.
pub open spec fn time_values(time: Option<u64>) -> Seq<SqlValue> {
    match time {
        Some(secs) => seq![SqlValue::Int(secs as i64)],
        None => Seq::empty(),
    }
}

/// Texts as values.
pub open spec fn text_values(items: Seq<Seq<char>>) -> Seq<SqlValue> {
    Seq::new(items.len(), |i: int| SqlValue::Text(items[i]))
}

/// The values of the conditions on tags: each name, and then its values.
pub open spec fn tags_values(tags: Seq<TagFilterView>) -> Seq<SqlValue>
    decreases tags.len(),
{
    if tags.len() == 0 {
        Seq::empty()
    } else {
        tags_values(tags.drop_last()).push(SqlValue::Text(tags.last().name)) + text_values(
            tags.last().values,
        )
    }
}

/// How many events a search gives at most.
pub open spec fn limit_of(filter: FilterView) -> i64 {
    match filter.limit {
        Some(limit) => limit as i64,
        None => 100,
    }
}

/// The values of a search by one filter, in the order of their placeholders.
pub open spec fn filter_args(filter: FilterView) -> Seq<SqlValue> {
    blob_values(filter.authors) + time_values(filter.until) + time_values(filter.since)
        + blob_values(filter.ids) + kind_values(filter.kinds) + tags_values(filter.tags) + seq![
        SqlValue::Int(limit_of(filter)),
    ]
}

/// The values of a search: the first filter counts.
pub open spec fn search_args(filters: Seq<FilterView>) -> Seq<SqlValue> {
    if filters.len() == 0 {
        Seq::empty()
    } else {
        filter_args(filters[0])
    }
}

/// The text of the statement that answers a question.
pub open spec fn question_text(question: Question) -> Seq<char> {
    match question {
        Question::UserAllowed => SELECT_USER_ALLOWED@,
        Question::ReferredEvent => SELECT_REFERRED_EVENT@,
        Question::ReferredPubkey => SELECT_REFERRED_PUBKEY@,
    }
}

/// The values that a question about an event is answered for: its author, its
/// identifier, or its author in both spellings.
pub open spec fn question_values(event: EventView, question: Question) -> Seq<SqlValue> {
    match question {
        Question::UserAllowed => seq![SqlValue::Text(hex_text(event.pubkey))],
        Question::ReferredEvent => seq![SqlValue::Text(hex_text(event.id))],
        Question::ReferredPubkey => seq![
            SqlValue::Text(hex_text(event.pubkey)),
            SqlValue::Blob(event.pubkey),
        ],
    }
}

/// The values that an event is stored with: its JSON.
pub open spec fn save_values(event: EventView) -> Seq<SqlValue> {
    seq![SqlValue::Text(event.json)]
}

/// Searches for one event and for nothing else about it.
pub open spec fn only(id: Seq<u8>) -> FilterView {
    FilterView {
        ids: Some(seq![id]),
        authors: None,
        kinds: None,
        since: None,
        until: None,
        limit: None,
        tags: Seq::empty(),
    }
}

/// Why a search came to an early end.
#[derive(Clone, Debug, PartialEq, Eq)]
pub enum SearchError {
    /// The database failed.
    Database(String),
    /// A column holds what cannot be read.
    ColumnDecode { index: &'static str, source: String },
}

/// The mathematical model of a [`SearchError`].
pub enum SearchErrorView {
    Database(Seq<char>),
    ColumnDecode { index: Seq<char>, source: Seq<char> },
}

impl View for SearchError {
    type V = SearchErrorView;

    open spec fn view(&self) -> SearchErrorView {
        match self {
            SearchError::Database(error) => SearchErrorView::Database(error@),
            SearchError::ColumnDecode { index, source } => SearchErrorView::ColumnDecode {
                index: index@,
                source: source@,
            },
        }
    }
}

/// A row that was found, by its view.
pub open spec fn row_view(row: Result<String, String>) -> Result<Seq<char>, Seq<char>> {
    match row {
        Ok(json) => Ok(json@),
        Err(error) => Err(error@),
    }
}

/// What a row stands for, by its view.
pub open spec fn found_view(found: Result<Event, SearchError>) -> Result<EventView, SearchErrorView> {
    match found {
        Ok(event) => Ok(event@),
        Err(error) => Err(error@),
    }
}

/// What a row stands for, where `read` is how its JSON is read.
pub open spec fn found(
    row: Result<Seq<char>, Seq<char>>,
    read: spec_fn(Seq<char>) -> Result<EventView, Seq<char>>,
) -> Result<EventView, SearchErrorView> {
    match row {
        Err(error) => Err(SearchErrorView::Database(error)),
        Ok(json) => match read(json) {
            Ok(event) => Ok(event),
            Err(source) => Err(SearchErrorView::ColumnDecode { index: "event.json"@, source }),
        },
    }
}

/// Whether a search goes on after a row: it ends with the first error, and
/// where nobody takes its events any more.
pub open spec fn row_goes_on(row: Result<EventView, SearchErrorView>, delivered: bool) -> bool {
    row is Ok && delivered
}

impl DB {
    /// The statements that make a new database, in the order in which they
    /// are run.
    pub fn init() -> (statements: Vec<&'static str>)
        ensures
            str_texts(statements@) == schema(),
            statements@.len() == 11,
            statements@[0]@ == CREATE_EVENT@,
            statements@[1]@ == CREATE_EVENT_INDEXES@,
            statements@[2]@ == CREATE_TAG_VIEW@,
            statements@[3]@ == CREATE_TAG@,
            statements@[4]@ == CREATE_TAG_TRIGGERS@,
            statements@[5]@ == CREATE_LATEST_VIEW@,
            statements@[6]@ == CREATE_PROFILE_VIEW@,
            statements@[7]@ == CREATE_FOLLOWS_VIEW@,
            statements@[8]@ == CREATE_FOLLOWS_NAMED_VIEW@,
            statements@[9]@ == CREATE_ALLOW_USERS@,
            statements@[10]@ == CREATE_ALLOWED_USERS_VIEW@,
    {
        let mut statements: Vec<&'static str> = Vec::new();
        statements.push(CREATE_EVENT);
        statements.push(CREATE_EVENT_INDEXES);
        statements.push(CREATE_TAG_VIEW);
        statements.push(CREATE_TAG);
        statements.push(CREATE_TAG_TRIGGERS);
        statements.push(CREATE_LATEST_VIEW);
        statements.push(CREATE_PROFILE_VIEW);
        statements.push(CREATE_FOLLOWS_VIEW);
        statements.push(CREATE_FOLLOWS_NAMED_VIEW);
        statements.push(CREATE_ALLOW_USERS);
        statements.push(CREATE_ALLOWED_USERS_VIEW);
        proof {
            assert(str_texts(statements@) =~= schema());
        }
        statements
    }

    /// How the pool of connections is set up.
    pub fn connect() -> (settings: PoolSettings)
        ensures
            settings.max_connections == 20,
            settings.idle_timeout_secs == 60,
            settings.acquire_timeout_secs == 5,
    {
        PoolSettings { max_connections: 20, idle_timeout_secs: 60, acquire_timeout_secs: 5 }
    }

    /// Stores an event, which was validated before.
    pub fn save_event(event: &Event) -> (statement: Statement)
        ensures
            statement.sql@ == INSERT_EVENT@,
            statement.sql@ == "INSERT INTO event(jsonb)\nVALUES (jsonb(?))\n"@,
            arg_values(statement.args@) == save_values(event@),
            arg_values(statement.args@) == seq![SqlValue::Text(event@.json)],
    {
        let statement = Statement { sql: INSERT_EVENT, args: vec![SqlArg::Text(event.json.clone())] };
        proof {
            assert(arg_values(statement.args@) =~= seq![SqlValue::Text(event@.json)]);
        }
        statement
    }

    /// Asks whether a key has access.
    pub fn user_allowed(pubkey: &PublicKey) -> (statement: Statement)
        ensures
            statement.sql@ == SELECT_USER_ALLOWED@,
            statement.sql@ == "SELECT EXISTS (\n    SELECT pubkey from allowed_users where pubkey = ?\n)"@,
            arg_values(statement.args@) == seq![SqlValue::Text(hex_text(pubkey@))],
    {
        let statement = Statement {
            sql: SELECT_USER_ALLOWED,
            args: vec![SqlArg::Text(pubkey.to_hex())],
        };
        proof {
            assert(arg_values(statement.args@) =~= seq![SqlValue::Text(hex_text(pubkey@))]);
        }
        statement
    }

    /// Asks whether a stored event refers to this one.
    pub fn referred_event(id: &EventId) -> (statement: Statement)
        ensures
            statement.sql@ == SELECT_REFERRED_EVENT@,
            statement.sql@ == "SELECT EXISTS (\n    SELECT name from tag where name = 'e' AND value = ?\n) AS has_ref\n"@,
            arg_values(statement.args@) == seq![SqlValue::Text(hex_text(id@))],
    {
        let statement = Statement {
            sql: SELECT_REFERRED_EVENT,
            args: vec![SqlArg::Text(id.to_hex())],
        };
        proof {
            assert(arg_values(statement.args@) =~= seq![SqlValue::Text(hex_text(id@))]);
        }
        statement
    }

    /// Asks whether a stored event refers to a key or was written with it.
    pub fn referred_pubkey(pubkey: &PublicKey) -> (statement: Statement)
        ensures
            statement.sql@ == SELECT_REFERRED_PUBKEY@,
            statement.sql@ == "SELECT EXISTS (\n    SELECT name from tag where name = 'p' AND value = ?\n) OR EXISTS (\n    SELECT 1 from event where unhex(pubkey) = ?\n) AS has_ref\n"@,
            arg_values(statement.args@) == seq![
                SqlValue::Text(hex_text(pubkey@)),
                SqlValue::Blob(pubkey@),
            ],
    {
        let statement = Statement {
            sql: SELECT_REFERRED_PUBKEY,
            args: vec![SqlArg::Text(pubkey.to_hex()), SqlArg::Blob(bytes_of(&pubkey.bytes))],
        };
        proof {
            assert(arg_values(statement.args@) =~= seq![
                SqlValue::Text(hex_text(pubkey@)),
                SqlValue::Blob(pubkey@),
            ]);
        }
        statement
    }

    /// The statement that answers a question about an event.
    pub fn ask(event: &Event, question: Question) -> (statement: Statement)
        ensures
            statement.sql@ == question_text(question),
            arg_values(statement.args@) == question_values(event@, question),
            question == Question::UserAllowed ==> arg_values(statement.args@) == seq![
                SqlValue::Text(hex_text(event@.pubkey)),
            ],
            question == Question::ReferredEvent ==> arg_values(statement.args@) == seq![
                SqlValue::Text(hex_text(event@.id)),
            ],
            question == Question::ReferredPubkey ==> arg_values(statement.args@) == seq![
                SqlValue::Text(hex_text(event@.pubkey)),
                SqlValue::Blob(event@.pubkey),
            ],
            question == Question::UserAllowed ==> statement.sql@ == SELECT_USER_ALLOWED@,
            question == Question::ReferredEvent ==> statement.sql@ == SELECT_REFERRED_EVENT@,
            question == Question::ReferredPubkey ==> statement.sql@ == SELECT_REFERRED_PUBKEY@,
    {
        match question {
            Question::UserAllowed => Self::user_allowed(&event.pubkey),
            Question::ReferredEvent => Self::referred_event(&event.id),
            Question::ReferredPubkey => Self::referred_pubkey(&event.pubkey),
        }
    }

    /// Searches for the events that match the first filter, or for all events
    /// where there is none.
    pub fn search(filters: &Vec<Filter>) -> (query: Query)
        ensures
            query_open(query),
            query_text(query) == search_text(filter_views(filters@)),
            query_args(query) == search_args(filter_views(filters@)),
    {
        let mut query = query_new("SELECT json FROM event WHERE true");
        if filters.len() == 0 {
            return query;
        }
        let filter = &filters[0];
        push_keys(&mut query, " AND unhex(pubkey) IN (", &filter.authors);
        push_time(&mut query, " AND created_at < ", filter.until);
        push_time(&mut query, " AND created_at >= ", filter.since);
        push_ids(&mut query, " AND unhex(id) IN (", &filter.ids);
        push_kinds(&mut query, " AND kind IN (", &filter.kinds);
        push_tags(&mut query, &filter.tags);
        let limit: i64 = match filter.limit {
            Some(limit) => limit as i64,
            None => 100,
        };
        push_number(&mut query, " LIMIT ", limit);
        proof {
            assert(filter_views(filters@)[0] == filter@);
            assert(query_args(query) =~= filter_args(filter@));
        }
        query
    }

    /// Searches for one event.
    pub fn get_event(id: &EventId) -> (query: Query)
        ensures
            query_open(query),
            query_text(query) == filter_text(only(id@)),
            query_args(query) == filter_args(only(id@)),
            query_text(query) == "SELECT json FROM event WHERE true AND unhex(id) IN (?) LIMIT ?"@,
            query_args(query) == seq![SqlValue::Blob(id@), SqlValue::Int(100)],
    {
        let mut ids: Vec<EventId> = Vec::new();
        ids.push(*id);
        let filter = Filter {
            ids: Some(ids),
            authors: None,
            kinds: None,
            since: None,
            until: None,
            limit: None,
            tags: Vec::new(),
        };
        let mut filters: Vec<Filter> = Vec::new();
        filters.push(filter);
        proof {
            assert(filter@.ids->0 =~= seq![id@]);
            assert(filter@.tags =~= Seq::<TagFilterView>::empty());
            assert(filter_views(filters@)[0] == only(id@));
            one_event_is_one_condition(id@);
        }
        Self::search(&filters)
    }

    /// Reads a row that a search gave.
    pub fn search_row(row: Result<String, String>) -> (event: Result<Event, SearchError>)
        ensures
            found_view(event) == found(row_view(row), |json: Seq<char>| event_of_json(json)),
            event is Ok ==> event_of_json(event->Ok_0@.json) == Ok::<EventView, Seq<char>>(
                event->Ok_0@,
            ),
            event is Ok <==> row is Ok && event_of_json(row->Ok_0@) is Ok,
            event is Ok ==> event->Ok_0@ == event_of_json(row->Ok_0@)->Ok_0,
            row is Err ==> event is Err && event->Err_0@ == SearchErrorView::Database(row->Err_0@),
            row is Ok && event is Err ==> event->Err_0@ == (SearchErrorView::ColumnDecode {
                index: "event.json"@,
                source: event_of_json(row->Ok_0@)->Err_0,
            }),
    {
        match row {
            Err(error) => Err(SearchError::Database(error)),
            Ok(json) => match Event::from_json(&json) {
                Ok(event) => Ok(event),
                Err(source) => Err(SearchError::ColumnDecode { index: "event.json", source }),
            },
        }
    }

    /// Whether a search goes on after a row: it ends with the first error, and
    /// where nobody takes its events any more.
    pub fn search_goes_on(row: &Result<Event, SearchError>, delivered: bool) -> (goes_on: bool)
        ensures
            goes_on == row_goes_on(found_view(*row), delivered),
            goes_on == (row is Ok && delivered),
    {
        row.is_ok() && delivered
    }
}

/// Adds the condition that an event has a tag with this name and one of these
/// values.
fn push_tag(query: &mut Query, tag: &TagFilter)
    requires
        query_open(*old(query)),
    ensures
        query_open(*final(query)),
        query_text(*final(query)) == query_text(*old(query)) + tag_text(tag@.values.len()),
        query_args(*final(query)) == query_args(*old(query)).push(SqlValue::Text(tag@.name))
            + text_values(tag@.values),
{
    let mut values: Vec<SqlArg> = Vec::new();
    let mut i: usize = 0;
    while i < tag.values.len()
        invariant
            i <= tag.values.len(),
            values@.len() == i,
            forall|k: int|
                0 <= k < i ==> #[trigger] values@[k]@ == SqlValue::Text(tag.values@[k]@),
        decreases tag.values.len() - i,
    {
        values.push(SqlArg::Text(tag.values[i].clone()));
        i = i + 1;
    }
    proof {
        assert(arg_values(values@) =~= text_values(tag@.values));
        assert(tag@.values.len() == values@.len());
    }
    query_push(query, " AND unhex(id) IN (SELECT event_id FROM tag WHERE name = ");
    query_bind_text(query, tag.name.clone());
    query_push(query, " AND ");
    query.is_in("value", values);
    query_push(query, ")");
    proof {
        assert(query_text(*query) =~= query_text(*old(query)) + tag_text(tag@.values.len()));
    }
}

/// Adds the conditions on tags.
fn push_tags(query: &mut Query, tags: &Vec<TagFilter>)
    requires
        query_open(*old(query)),
    ensures
        query_open(*final(query)),
        query_text(*final(query)) == query_text(*old(query)) + tags_text(tag_filters(tags@)),
        query_args(*final(query)) == query_args(*old(query)) + tags_values(tag_filters(tags@)),
{
    let ghost text = query_text(*query);
    let ghost args = query_args(*query);
    let ghost all = tag_filters(tags@);
    let mut i: usize = 0;
    proof {
        assert(text =~= text + tags_text(all.take(0)));
        assert(args =~= args + tags_values(all.take(0)));
    }
    while i < tags.len()
        invariant
            i <= tags.len(),
            all == tag_filters(tags@),
            query_open(*query),
            query_text(*query) == text + tags_text(all.take(i as int)),
            query_args(*query) == args + tags_values(all.take(i as int)),
        decreases tags.len() - i,
    {
        push_tag(query, &tags[i]);
        i = i + 1;
        proof {
            assert(all.take(i as int).drop_last() =~= all.take(i - 1));
            assert(all.take(i as int).last() == tags@[i - 1]@);
            assert(query_text(*query) =~= text + tags_text(all.take(i as int)));
            assert(query_args(*query) =~= args + tags_values(all.take(i as int)));
        }
    }
    proof {
        assert(all.take(all.len() as int) =~= all);
    }
}

/// All that a search delivers of the rows that the database gives, where
/// `taken` is how many of them are taken before nobody does any more.
pub open spec fn delivered(
    rows: Seq<Result<EventView, SearchErrorView>>,
    taken: nat,
) -> Seq<Result<EventView, SearchErrorView>>
    decreases rows.len(),
{
    if rows.len() == 0 {
        Seq::empty()
    } else {
        let first = if taken > 0 {
            seq![rows[0]]
        } else {
            Seq::empty()
        };
        if row_goes_on(rows[0], taken > 0) {
            first + delivered(rows.drop_first(), (taken - 1) as nat)
        } else {
            first
        }
    }
}

/// A search delivers what the database gives, row by row and in order, and
/// nothing behind an error.
pub proof fn search_delivers_rows_in_order(
    rows: Seq<Result<EventView, SearchErrorView>>,
    taken: nat,
)
    ensures
        ({
            let sent = delivered(rows, taken);
            &&& sent.len() <= taken
            &&& sent.len() <= rows.len()
            &&& sent == rows.take(sent.len() as int)
            &&& forall|i: int| 0 <= i < sent.len() - 1 ==> #[trigger] sent[i] is Ok
            &&& sent.len() < taken && sent.len() < rows.len() ==> sent.len() > 0 && sent.last() is Err
        }),
    decreases rows.len(),
{
    let sent = delivered(rows, taken);
    if rows.len() > 0 && taken > 0 && rows[0] is Ok {
        let rest = delivered(rows.drop_first(), (taken - 1) as nat);
        search_delivers_rows_in_order(rows.drop_first(), (taken - 1) as nat);
        assert forall|i: int| 0 <= i < sent.len() implies sent[i] == rows[i] by {
            if i > 0 {
                assert(sent[i] == rest[i - 1]);
                assert(rows.drop_first().take(rest.len() as int)[i - 1] == rows[i]);
            }
        }
        assert forall|i: int| 0 <= i < sent.len() - 1 implies #[trigger] sent[i] is Ok by {
            if i > 0 {
                assert(sent[i] == rest[i - 1]);
            }
        }
        if rest.len() > 0 {
            assert(sent.last() == rest.last());
        }
    }
    assert(sent =~= rows.take(sent.len() as int));
}

/// The bytes of an array, as a vector.
fn bytes_of(bytes: &[u8; 32]) -> (copy: Vec<u8>)
    ensures
        copy@ == bytes@,
{
    let mut copy: Vec<u8> = Vec::new();
    let mut i: usize = 0;
    while i < 32
        invariant
            i <= 32,
            copy@ == bytes@.take(i as int),
        decreases 32 - i,
    {
        copy.push(bytes[i]);
        i = i + 1;
        proof {
            assert(copy@ =~= bytes@.take(i as int));
        }
    }
    proof {
        assert(bytes@.take(32) =~= bytes@);
    }
    copy
}

/// Adds a condition that ends in a number.
fn push_number(query: &mut Query, head: &str, number: i64)
    requires
        query_open(*old(query)),
    ensures
        query_open(*final(query)),
        query_text(*final(query)) == query_text(*old(query)) + head@.push('?'),
        query_args(*final(query)) == query_args(*old(query)) + seq![SqlValue::Int(number)],
{
    query_push(query, head);
    query_bind_int(query, number);
    proof {
        assert(query_text(*query) =~= query_text(*old(query)) + head@.push('?'));
        assert(query_args(*query) =~= query_args(*old(query)) + seq![SqlValue::Int(number)]);
    }
}

/// Adds a condition on a time, where there is one.
fn push_time(query: &mut Query, head: &str, time: Option<u64>)
    requires
        query_open(*old(query)),
    ensures
        query_open(*final(query)),
        query_text(*final(query)) == query_text(*old(query)) + time_text(head@, time),
        query_args(*final(query)) == query_args(*old(query)) + time_values(time),
{
    if let Some(secs) = time {
        push_number(query, head, secs as i64);
    }
    proof {
        assert(query_text(*query) =~= query_text(*old(query)) + time_text(head@, time));
        assert(query_args(*query) =~= query_args(*old(query)) + time_values(time));
    }
}

/// Adds a list condition, unless the list is empty.
fn push_list(query: &mut Query, head: &str, items: Vec<SqlArg>)
    requires
        query_open(*old(query)),
    ensures
        query_open(*final(query)),
        query_text(*final(query)) == query_text(*old(query)) + list_text(head@, Some(items@.len())),
        query_args(*final(query)) == query_args(*old(query)) + arg_values(items@),
{
    if items.len() > 0 {
        query_push(query, head);
        query.push_bind_list(items, ",");
        query_push(query, ")");
    }
    proof {
        assert(query_text(*query) =~= query_text(*old(query)) + list_text(head@, Some(items@.len())));
        assert(query_args(*query) =~= query_args(*old(query)) + arg_values(items@));
    }
}

/// Adds a condition on the key, where there is a list of keys.
fn push_keys(query: &mut Query, head: &str, keys: &Option<Vec<PublicKey>>)
    requires
        query_open(*old(query)),
    ensures
        query_open(*final(query)),
        query_text(*final(query)) == query_text(*old(query)) + list_text(
            head@,
            list_len(key_list(*keys)),
        ),
        query_args(*final(query)) == query_args(*old(query)) + blob_values(key_list(*keys)),
{
    if let Some(list) = keys {
        let mut args: Vec<SqlArg> = Vec::new();
        let mut i: usize = 0;
        while i < list.len()
            invariant
                i <= list.len(),
                args@.len() == i,
                forall|k: int| 0 <= k < i ==> #[trigger] args@[k]@ == SqlValue::Blob(list@[k]@),
            decreases list.len() - i,
        {
            args.push(SqlArg::Blob(bytes_of(&list[i].bytes)));
            i = i + 1;
        }
        proof {
            assert(arg_values(args@) =~= blob_values(key_list(*keys)));
        }
        push_list(query, head, args);
    }
    proof {
        if keys is None {
            assert(query_text(*query) =~= query_text(*old(query)) + Seq::<char>::empty());
            assert(query_args(*query) =~= query_args(*old(query)) + Seq::<SqlValue>::empty());
        }
    }
}

/// Adds a condition on the identifier, where there is a list of identifiers.
fn push_ids(query: &mut Query, head: &str, ids: &Option<Vec<EventId>>)
    requires
        query_open(*old(query)),
    ensures
        query_open(*final(query)),
        query_text(*final(query)) == query_text(*old(query)) + list_text(
            head@,
            list_len(id_list(*ids)),
        ),
        query_args(*final(query)) == query_args(*old(query)) + blob_values(id_list(*ids)),
{
    if let Some(list) = ids {
        let mut args: Vec<SqlArg> = Vec::new();
        let mut i: usize = 0;
        while i < list.len()
            invariant
                i <= list.len(),
                args@.len() == i,
                forall|k: int| 0 <= k < i ==> #[trigger] args@[k]@ == SqlValue::Blob(list@[k]@),
            decreases list.len() - i,
        {
            args.push(SqlArg::Blob(bytes_of(&list[i].bytes)));
            i = i + 1;
        }
        proof {
            assert(arg_values(args@) =~= blob_values(id_list(*ids)));
        }
        push_list(query, head, args);
    }
    proof {
        if ids is None {
            assert(query_text(*query) =~= query_text(*old(query)) + Seq::<char>::empty());
            assert(query_args(*query) =~= query_args(*old(query)) + Seq::<SqlValue>::empty());
        }
    }
}

/// Adds a condition on the kind, where there is a list of kinds.
fn push_kinds(query: &mut Query, head: &str, kinds: &Option<Vec<u16>>)
    requires
        query_open(*old(query)),
    ensures
        query_open(*final(query)),
        query_text(*final(query)) == query_text(*old(query)) + list_text(
            head@,
            list_len(kind_list(*kinds)),
        ),
        query_args(*final(query)) == query_args(*old(query)) + kind_values(kind_list(*kinds)),
{
    if let Some(list) = kinds {
        let mut args: Vec<SqlArg> = Vec::new();
        let mut i: usize = 0;
        while i < list.len()
            invariant
                i <= list.len(),
                args@.len() == i,
                forall|k: int| 0 <= k < i ==> #[trigger] args@[k]@ == SqlValue::Int(list@[k] as i64),
            decreases list.len() - i,
        {
            args.push(SqlArg::Int(list[i] as i64));
            i = i + 1;
        }
        proof {
            assert(arg_values(args@) =~= kind_values(kind_list(*kinds)));
        }
        push_list(query, head, args);
    }
    proof {
        if kinds is None {
            assert(query_text(*query) =~= query_text(*old(query)) + Seq::<char>::empty());
            assert(query_args(*query) =~= query_args(*old(query)) + Seq::<SqlValue>::empty());
        }
    }
}

/// An event that was read from JSON comes back as it was: it is stored as one
/// value, its JSON, and a row that holds that text is read as the same event.
pub proof fn stored_events_are_read_back(event: EventView)
    requires
        event_of_json(event.json) == Ok::<EventView, Seq<char>>(event),
    ensures
        save_values(event).len() == 1,
        save_values(event)[0] == SqlValue::Text(event.json),
        found(
            Ok(event.json),
            |json: Seq<char>| event_of_json(json),
        ) == Ok::<EventView, SearchErrorView>(event),
{
}

/// Every event is stored as one value, its JSON, whatever it is: two events
/// are stored alike exactly when their JSON is the same.
pub proof fn events_are_stored_as_their_json(one: EventView, other: EventView)
    ensures
        save_values(one) == seq![SqlValue::Text(one.json)],
        save_values(one) == save_values(other) <==> one.json == other.json,
{
    if save_values(one) == save_values(other) {
        assert(save_values(one)[0] == save_values(other)[0]);
    }
}

/// A row is an event exactly when the database gave it and its JSON can be
/// read; otherwise it is an error that says which of the two failed.
pub proof fn rows_are_events_or_say_why(
    row: Result<Seq<char>, Seq<char>>,
    read: spec_fn(Seq<char>) -> Result<EventView, Seq<char>>,
)
    ensures
        found(row, read) is Ok <==> row is Ok && read(row->Ok_0) is Ok,
        found(row, read) is Ok ==> found(row, read)->Ok_0 == read(row->Ok_0)->Ok_0,
        row is Err ==> found(row, read) == Err::<EventView, SearchErrorView>(
            SearchErrorView::Database(row->Err_0),
        ),
        row is Ok && read(row->Ok_0) is Err ==> found(row, read) == Err::<
            EventView,
            SearchErrorView,
        >(
            SearchErrorView::ColumnDecode {
                index: "event.json"@,
                source: read(row->Ok_0)->Err_0,
            },
        ),
{
}

/// The models of rows, of what they stand for and of statements hold all of
/// it.
pub proof fn rows_are_modelled_whole(
    row: Result<String, String>,
    event: Result<Event, SearchError>,
    error: String,
    index: &'static str,
    statements: Seq<&'static str>,
)
    ensures
        row is Ok ==> row_view(row) == Ok::<Seq<char>, Seq<char>>(row->Ok_0@),
        row is Err ==> row_view(row) == Err::<Seq<char>, Seq<char>>(row->Err_0@),
        event is Ok ==> found_view(event) == Ok::<EventView, SearchErrorView>(event->Ok_0@),
        event is Err ==> found_view(event) == Err::<EventView, SearchErrorView>(event->Err_0@),
        SearchError::Database(error)@ == SearchErrorView::Database(error@),
        (SearchError::ColumnDecode { index, source: error })@ == (SearchErrorView::ColumnDecode {
            index: index@,
            source: error@,
        }),
        str_texts(statements).len() == statements.len(),
        forall|i: int|
            0 <= i < statements.len() ==> #[trigger] str_texts(statements)[i] == statements[i]@,
{
}

/// Each question is answered by its own statement, about the author or about
/// the event.
pub proof fn each_question_has_its_statement(event: EventView)
    ensures
        question_text(Question::UserAllowed) == SELECT_USER_ALLOWED@,
        question_text(Question::ReferredEvent) == SELECT_REFERRED_EVENT@,
        question_text(Question::ReferredPubkey) == SELECT_REFERRED_PUBKEY@,
        question_values(event, Question::UserAllowed) == seq![
            SqlValue::Text(hex_text(event.pubkey)),
        ],
        question_values(event, Question::ReferredEvent) == seq![SqlValue::Text(hex_text(event.id))],
        question_values(event, Question::ReferredPubkey) == seq![
            SqlValue::Text(hex_text(event.pubkey)),
            SqlValue::Blob(event.pubkey),
        ],
{
}

/// How many placeholders stand in a text.
pub open spec fn marks(text: Seq<char>) -> nat
    decreases text.len(),
{
    if text.len() == 0 {
        0
    } else {
        marks(text.drop_last()) + if text.last() == '?' { 1nat } else { 0nat }
    }
}

proof fn marks_of_sum(a: Seq<char>, b: Seq<char>)
    ensures
        marks(a + b) == marks(a) + marks(b),
    decreases b.len(),
{
    if b.len() == 0 {
        assert(a + b =~= a);
    } else {
        assert((a + b).drop_last() =~= a + b.drop_last());
        marks_of_sum(a, b.drop_last());
    }
}

proof fn marks_of_plain(text: Seq<char>)
    requires
        forall|i: int| 0 <= i < text.len() ==> text[i] != '?',
    ensures
        marks(text) == 0,
    decreases text.len(),
{
    if text.len() > 0 {
        marks_of_plain(text.drop_last());
    }
}

proof fn marks_of_placeholders(count: nat, separator: Seq<char>)
    requires
        forall|i: int| 0 <= i < separator.len() ==> separator[i] != '?',
    ensures
        marks(placeholders(count, separator)) == count,
    decreases count,
{
    if count == 1 {
        reveal_with_fuel(marks, 2);
        assert(seq!['?'].drop_last() =~= Seq::<char>::empty());
    } else if count > 1 {
        let before = placeholders((count - 1) as nat, separator);
        marks_of_placeholders((count - 1) as nat, separator);
        marks_of_sum(before, separator);
        marks_of_plain(separator);
        assert(placeholders(count, separator).drop_last() =~= before + separator);
    }
}

proof fn marks_of_list(head: Seq<char>, list: Option<nat>)
    requires
        forall|i: int| 0 <= i < head.len() ==> head[i] != '?',
    ensures
        marks(list_text(head, list)) == match list {
            Some(count) => count,
            None => 0,
        },
{
    reveal_strlit(")");
    reveal_strlit(",");
    if let Some(count) = list {
        if count > 0 {
            marks_of_plain(head);
            marks_of_plain(")"@);
            marks_of_placeholders(count, ","@);
            marks_of_sum(head, placeholders(count, ","@));
            marks_of_sum(head + placeholders(count, ","@), ")"@);
        }
    }
}

proof fn marks_of_time(head: Seq<char>, time: Option<u64>)
    requires
        forall|i: int| 0 <= i < head.len() ==> head[i] != '?',
    ensures
        marks(time_text(head, time)) == time_values(time).len(),
{
    if time is Some {
        marks_of_plain(head);
        assert(head.push('?').drop_last() =~= head);
    }
}

proof fn marks_of_tag(count: nat)
    ensures
        marks(tag_text(count)) == 1 + count,
{
    reveal_strlit(" AND unhex(id) IN (SELECT event_id FROM tag WHERE name = ");
    reveal_strlit(" AND ");
    reveal_strlit("value");
    reveal_strlit(" IN (");
    reveal_strlit(", ");
    reveal_strlit(")");
    reveal_strlit("FALSE");
    let plain = " AND unhex(id) IN (SELECT event_id FROM tag WHERE name = "@;
    let head = plain.push('?');
    let inner = in_clause("value"@, count);
    marks_of_plain(plain);
    assert(head.drop_last() =~= plain);
    marks_of_plain(" AND "@);
    marks_of_plain(")"@);
    if count == 0 {
        marks_of_plain("FALSE"@);
    } else {
        let open = "value"@ + " IN ("@;
        marks_of_plain(open);
        marks_of_placeholders(count, ", "@);
        marks_of_sum(open, placeholders(count, ", "@));
        marks_of_sum(open + placeholders(count, ", "@), ")"@);
    }
    marks_of_sum(head, " AND "@);
    marks_of_sum(head + " AND "@, inner);
    marks_of_sum(head + " AND "@ + inner, ")"@);
}

proof fn marks_of_tags(tags: Seq<TagFilterView>)
    ensures
        marks(tags_text(tags)) == tags_values(tags).len(),
    decreases tags.len(),
{
    if tags.len() > 0 {
        marks_of_tags(tags.drop_last());
        marks_of_tag(tags.last().values.len());
        marks_of_sum(tags_text(tags.drop_last()), tag_text(tags.last().values.len()));
    }
}

/// Every placeholder of a search has its value, and every value its
/// placeholder.
pub proof fn search_binds_every_placeholder(filters: Seq<FilterView>)
    ensures
        marks(search_text(filters)) == search_args(filters).len(),
{
    let start = "SELECT json FROM event WHERE true"@;
    reveal_strlit("SELECT json FROM event WHERE true");
    reveal_strlit(" AND unhex(pubkey) IN (");
    reveal_strlit(" AND created_at < ");
    reveal_strlit(" AND created_at >= ");
    reveal_strlit(" AND unhex(id) IN (");
    reveal_strlit(" AND kind IN (");
    reveal_strlit(" LIMIT ");
    marks_of_plain(start);
    if filters.len() > 0 {
        let filter = filters[0];
        let authors = list_text(" AND unhex(pubkey) IN ("@, list_len(filter.authors));
        let until = time_text(" AND created_at < "@, filter.until);
        let since = time_text(" AND created_at >= "@, filter.since);
        let ids = list_text(" AND unhex(id) IN ("@, list_len(filter.ids));
        let kinds = list_text(" AND kind IN ("@, list_len(filter.kinds));
        let limit = " LIMIT "@.push('?');
        marks_of_list(" AND unhex(pubkey) IN ("@, list_len(filter.authors));
        marks_of_time(" AND created_at < "@, filter.until);
        marks_of_time(" AND created_at >= "@, filter.since);
        marks_of_list(" AND unhex(id) IN ("@, list_len(filter.ids));
        marks_of_list(" AND kind IN ("@, list_len(filter.kinds));
        marks_of_plain(" LIMIT "@);
        assert(limit.drop_last() =~= " LIMIT "@);
        marks_of_sum(start, authors);
        marks_of_sum(start + authors, until);
        marks_of_sum(start + authors + until, since);
        marks_of_sum(start + authors + until + since, ids);
        marks_of_sum(start + authors + until + since + ids, kinds);
        let tags = tags_text(filter.tags);
        marks_of_tags(filter.tags);
        marks_of_sum(start + authors + until + since + ids + kinds, tags);
        marks_of_sum(start + authors + until + since + ids + kinds + tags, limit);
    }
}

/// Stretches in a row behind another are that one and one tail.
proof fn one_tail<T>(
    x: Seq<T>,
    a: Seq<T>,
    b: Seq<T>,
    c: Seq<T>,
    d: Seq<T>,
    e: Seq<T>,
    f: Seq<T>,
)
    ensures
        x + a + b == x + (a + b),
        x + a + b + c == x + (a + b + c),
        x + a + b + c + d == x + (a + b + c + d),
        x + a + b + c + d + e == x + (a + b + c + d + e),
        x + a + b + c + d + e + f == x + (a + b + c + d + e + f),
{
    assert(x + a + b =~= x + (a + b));
    assert(x + (a + b) + c =~= x + (a + b + c));
    assert(x + (a + b + c) + d =~= x + (a + b + c + d));
    assert(x + (a + b + c + d) + e =~= x + (a + b + c + d + e));
    assert(x + (a + b + c + d + e) + f =~= x + (a + b + c + d + e + f));
}

/// Placeholders are counted one by one.
pub proof fn placeholders_are_counted_one_by_one(a: Seq<char>, b: Seq<char>, c: char)
    ensures
        marks(Seq::<char>::empty()) == 0,
        marks(seq!['?']) == 1,
        c != '?' ==> marks(seq![c]) == 0,
        marks(a + b) == marks(a) + marks(b),
{
    reveal_with_fuel(marks, 2);
    assert(seq!['?'].drop_last() =~= Seq::<char>::empty());
    assert(seq![c].drop_last() =~= Seq::<char>::empty());
    marks_of_sum(a, b);
}

/// What comes before the condition on the start, and its values.
proof fn head_of_since(filter: FilterView) -> (head: (Seq<char>, Seq<SqlValue>))
    ensures
        head.0 == "SELECT json FROM event WHERE true"@ + list_text(
            " AND unhex(pubkey) IN ("@,
            list_len(filter.authors),
        ) + time_text(" AND created_at < "@, filter.until),
        head.1 == blob_values(filter.authors) + time_values(filter.until),
        marks(head.0) == head.1.len(),
{
    reveal_strlit("SELECT json FROM event WHERE true");
    reveal_strlit(" AND unhex(pubkey) IN (");
    reveal_strlit(" AND created_at < ");
    let start = "SELECT json FROM event WHERE true"@;
    let authors = list_text(" AND unhex(pubkey) IN ("@, list_len(filter.authors));
    let until = time_text(" AND created_at < "@, filter.until);
    marks_of_plain(start);
    marks_of_list(" AND unhex(pubkey) IN ("@, list_len(filter.authors));
    marks_of_time(" AND created_at < "@, filter.until);
    marks_of_sum(start, authors);
    marks_of_sum(start + authors, until);
    (start + authors + until, blob_values(filter.authors) + time_values(filter.until))
}

/// What comes before the conditions on lists behind the times, and its values.
proof fn head_of_ids(filter: FilterView) -> (head: (Seq<char>, Seq<SqlValue>))
    ensures
        head.0 == "SELECT json FROM event WHERE true"@ + list_text(
            " AND unhex(pubkey) IN ("@,
            list_len(filter.authors),
        ) + time_text(" AND created_at < "@, filter.until) + time_text(
            " AND created_at >= "@,
            filter.since,
        ),
        head.1 == blob_values(filter.authors) + time_values(filter.until) + time_values(filter.since),
        marks(head.0) == head.1.len(),
{
    reveal_strlit(" AND created_at >= ");
    let (head, values) = head_of_since(filter);
    let since = time_text(" AND created_at >= "@, filter.since);
    marks_of_time(" AND created_at >= "@, filter.since);
    marks_of_sum(head, since);
    (head + since, values + time_values(filter.since))
}

/// What comes before the condition on the kind, and its values.
proof fn head_of_kinds(filter: FilterView) -> (head: (Seq<char>, Seq<SqlValue>))
    ensures
        head.0 == "SELECT json FROM event WHERE true"@ + list_text(
            " AND unhex(pubkey) IN ("@,
            list_len(filter.authors),
        ) + time_text(" AND created_at < "@, filter.until) + time_text(
            " AND created_at >= "@,
            filter.since,
        ) + list_text(" AND unhex(id) IN ("@, list_len(filter.ids)),
        head.1 == blob_values(filter.authors) + time_values(filter.until) + time_values(filter.since)
            + blob_values(filter.ids),
        marks(head.0) == head.1.len(),
{
    reveal_strlit(" AND unhex(id) IN (");
    let (head, values) = head_of_ids(filter);
    let ids = list_text(" AND unhex(id) IN ("@, list_len(filter.ids));
    marks_of_list(" AND unhex(id) IN ("@, list_len(filter.ids));
    marks_of_sum(head, ids);
    (head + ids, values + blob_values(filter.ids))
}

/// What comes before the condition on the author.
proof fn head_of_authors() -> (head: (Seq<char>, Seq<SqlValue>))
    ensures
        head.0 == "SELECT json FROM event WHERE true"@,
        head.1 == Seq::<SqlValue>::empty(),
        marks(head.0) == 0,
{
    reveal_strlit("SELECT json FROM event WHERE true");
    marks_of_plain("SELECT json FROM event WHERE true"@);
    ("SELECT json FROM event WHERE true"@, Seq::empty())
}

/// What comes before the condition on the end, and its values.
proof fn head_of_until(filter: FilterView) -> (head: (Seq<char>, Seq<SqlValue>))
    ensures
        head.0 == "SELECT json FROM event WHERE true"@ + list_text(
            " AND unhex(pubkey) IN ("@,
            list_len(filter.authors),
        ),
        head.1 == blob_values(filter.authors),
        marks(head.0) == head.1.len(),
{
    let plain = FilterView { until: None, ..filter };
    let (head, values) = head_of_since(plain);
    assert(head =~= "SELECT json FROM event WHERE true"@ + list_text(
        " AND unhex(pubkey) IN ("@,
        list_len(filter.authors),
    ));
    assert(values =~= blob_values(filter.authors));
    (head, values)
}

/// A search from a time on asks for that time, whatever else it asks for: it is
/// the search without it, with the condition put in and the time bound to its
/// placeholder.
#[verifier::rlimit(30)]
pub proof fn since_is_always_asked_for(filter: FilterView, others: Seq<FilterView>, since: u64) -> (at: (int, int))
    ensures
        ({
            let open = seq![FilterView { since: None, ..filter }] + others;
            let bound = seq![FilterView { since: Some(since), ..filter }] + others;
            let text = search_text(open);
            let args = search_args(open);
            &&& 0 <= at.0 <= text.len()
            &&& 0 <= at.1 <= args.len()
            &&& marks(text.take(at.0)) == at.1
            &&& search_text(bound) == text.take(at.0) + " AND created_at >= ?"@ + text.skip(at.0)
            &&& search_args(bound) == args.take(at.1) + seq![SqlValue::Int(since as i64)] + args.skip(at.1)
        }),
{
    let open = seq![FilterView { since: None, ..filter }] + others;
    let bound = seq![FilterView { since: Some(since), ..filter }] + others;
    assert(open[0] == FilterView { since: None, ..filter });
    assert(bound[0] == FilterView { since: Some(since), ..filter });
    let (head, values) = head_of_since(filter);
    let text = search_text(open);
    let args = search_args(open);
    assert(" AND created_at >= "@.push('?') == " AND created_at >= ?"@) by {
        reveal_strlit(" AND created_at >= ?");
        reveal_strlit(" AND created_at >= ");
        assert(" AND created_at >= "@.push('?') =~= " AND created_at >= ?"@);
    }
    let tail = list_text(" AND unhex(id) IN ("@, list_len(filter.ids)) + list_text(" AND kind IN ("@, list_len(filter.kinds)) + tags_text(filter.tags) + " LIMIT "@.push('?');
    let more = blob_values(filter.ids) + kind_values(filter.kinds) + tags_values(filter.tags) + seq![SqlValue::Int(limit_of(filter))];
    one_tail(head, list_text(" AND unhex(id) IN ("@, list_len(filter.ids)), list_text(" AND kind IN ("@, list_len(filter.kinds)), tags_text(filter.tags), " LIMIT "@.push('?'), Seq::empty(), Seq::empty());
    one_tail(head + " AND created_at >= ?"@, list_text(" AND unhex(id) IN ("@, list_len(filter.ids)), list_text(" AND kind IN ("@, list_len(filter.kinds)), tags_text(filter.tags), " LIMIT "@.push('?'), Seq::empty(), Seq::empty());
    one_tail(values, blob_values(filter.ids), kind_values(filter.kinds), tags_values(filter.tags), seq![SqlValue::Int(limit_of(filter))], Seq::empty(), Seq::empty());
    one_tail(values + seq![SqlValue::Int(since as i64)], blob_values(filter.ids), kind_values(filter.kinds), tags_values(filter.tags), seq![SqlValue::Int(limit_of(filter))], Seq::empty(), Seq::empty());
    assert(head + Seq::<char>::empty() =~= head);
    assert(values + Seq::<SqlValue>::empty() =~= values);
    assert(text == head + tail);
    assert(args == values + more);
    assert(search_text(bound) == head + " AND created_at >= ?"@ + tail);
    assert(search_args(bound) == values + seq![SqlValue::Int(since as i64)] + more);
    assert(text.take(head.len() as int) =~= head);
    assert(text.skip(head.len() as int) =~= tail);
    assert(args.take(values.len() as int) =~= values);
    assert(args.skip(values.len() as int) =~= more);
    (head.len() as int, values.len() as int)
}

/// A search up to a time asks for that time, whatever else it asks for: it is
/// the search without it, with the condition put in and the time bound to its
/// placeholder.
#[verifier::rlimit(30)]
pub proof fn until_is_always_asked_for(filter: FilterView, others: Seq<FilterView>, until: u64) -> (at: (int, int))
    ensures
        ({
            let open = seq![FilterView { until: None, ..filter }] + others;
            let bound = seq![FilterView { until: Some(until), ..filter }] + others;
            let text = search_text(open);
            let args = search_args(open);
            &&& 0 <= at.0 <= text.len()
            &&& 0 <= at.1 <= args.len()
            &&& marks(text.take(at.0)) == at.1
            &&& search_text(bound) == text.take(at.0) + " AND created_at < ?"@ + text.skip(at.0)
            &&& search_args(bound) == args.take(at.1) + seq![SqlValue::Int(until as i64)] + args.skip(at.1)
        }),
{
    let open = seq![FilterView { until: None, ..filter }] + others;
    let bound = seq![FilterView { until: Some(until), ..filter }] + others;
    assert(open[0] == FilterView { until: None, ..filter });
    assert(bound[0] == FilterView { until: Some(until), ..filter });
    let (head, values) = head_of_until(filter);
    let text = search_text(open);
    let args = search_args(open);
    assert(" AND created_at < "@.push('?') == " AND created_at < ?"@) by {
        reveal_strlit(" AND created_at < ?");
        reveal_strlit(" AND created_at < ");
        assert(" AND created_at < "@.push('?') =~= " AND created_at < ?"@);
    }
    let tail = time_text(" AND created_at >= "@, filter.since) + list_text(" AND unhex(id) IN ("@, list_len(filter.ids)) + list_text(" AND kind IN ("@, list_len(filter.kinds)) + tags_text(filter.tags) + " LIMIT "@.push('?');
    let more = time_values(filter.since) + blob_values(filter.ids) + kind_values(filter.kinds) + tags_values(filter.tags) + seq![SqlValue::Int(limit_of(filter))];
    one_tail(head, time_text(" AND created_at >= "@, filter.since), list_text(" AND unhex(id) IN ("@, list_len(filter.ids)), list_text(" AND kind IN ("@, list_len(filter.kinds)), tags_text(filter.tags), " LIMIT "@.push('?'), Seq::empty());
    one_tail(head + " AND created_at < ?"@, time_text(" AND created_at >= "@, filter.since), list_text(" AND unhex(id) IN ("@, list_len(filter.ids)), list_text(" AND kind IN ("@, list_len(filter.kinds)), tags_text(filter.tags), " LIMIT "@.push('?'), Seq::empty());
    one_tail(values, time_values(filter.since), blob_values(filter.ids), kind_values(filter.kinds), tags_values(filter.tags), seq![SqlValue::Int(limit_of(filter))], Seq::empty());
    one_tail(values + seq![SqlValue::Int(until as i64)], time_values(filter.since), blob_values(filter.ids), kind_values(filter.kinds), tags_values(filter.tags), seq![SqlValue::Int(limit_of(filter))], Seq::empty());
    assert(head + Seq::<char>::empty() =~= head);
    assert(values + Seq::<SqlValue>::empty() =~= values);
    assert(text == head + tail);
    assert(args == values + more);
    assert(search_text(bound) == head + " AND created_at < ?"@ + tail);
    assert(search_args(bound) == values + seq![SqlValue::Int(until as i64)] + more);
    assert(text.take(head.len() as int) =~= head);
    assert(text.skip(head.len() as int) =~= tail);
    assert(args.take(values.len() as int) =~= values);
    assert(args.skip(values.len() as int) =~= more);
    (head.len() as int, values.len() as int)
}

/// A search by authors asks for them all, whatever else it asks for: it is the
/// search without them, with a list put in that has a placeholder for each and
/// each bound to its own.
#[verifier::rlimit(30)]
pub proof fn authors_are_always_asked_for(filter: FilterView, others: Seq<FilterView>, items: Seq<Seq<u8>>) -> (at: (int, int))
    requires
        items.len() > 0,
    ensures
        ({
            let open = seq![FilterView { authors: None, ..filter }] + others;
            let bound = seq![FilterView { authors: Some(items), ..filter }] + others;
            let text = search_text(open);
            let args = search_args(open);
            &&& 0 <= at.0 <= text.len()
            &&& 0 <= at.1 <= args.len()
            &&& marks(text.take(at.0)) == at.1
            &&& search_text(bound) == text.take(at.0) + (" AND unhex(pubkey) IN ("@ + placeholders(items.len(), ","@) + ")"@) + text.skip(at.0)
            &&& search_args(bound) == args.take(at.1) + Seq::new(items.len(), |i: int| SqlValue::Blob(items[i])) + args.skip(at.1)
        }),
{
    let open = seq![FilterView { authors: None, ..filter }] + others;
    let bound = seq![FilterView { authors: Some(items), ..filter }] + others;
    assert(open[0] == FilterView { authors: None, ..filter });
    assert(bound[0] == FilterView { authors: Some(items), ..filter });
    let (head, values) = head_of_authors();
    let text = search_text(open);
    let args = search_args(open);
    let bound_values = Seq::new(items.len(), |i: int| SqlValue::Blob(items[i]));
    assert(blob_values(Some(items)) =~= bound_values);
    let tail = time_text(" AND created_at < "@, filter.until) + time_text(" AND created_at >= "@, filter.since) + list_text(" AND unhex(id) IN ("@, list_len(filter.ids)) + list_text(" AND kind IN ("@, list_len(filter.kinds)) + tags_text(filter.tags) + " LIMIT "@.push('?');
    let more = time_values(filter.until) + time_values(filter.since) + blob_values(filter.ids) + kind_values(filter.kinds) + tags_values(filter.tags) + seq![SqlValue::Int(limit_of(filter))];
    one_tail(head, time_text(" AND created_at < "@, filter.until), time_text(" AND created_at >= "@, filter.since), list_text(" AND unhex(id) IN ("@, list_len(filter.ids)), list_text(" AND kind IN ("@, list_len(filter.kinds)), tags_text(filter.tags), " LIMIT "@.push('?'));
    one_tail(head + (" AND unhex(pubkey) IN ("@ + placeholders(items.len(), ","@) + ")"@), time_text(" AND created_at < "@, filter.until), time_text(" AND created_at >= "@, filter.since), list_text(" AND unhex(id) IN ("@, list_len(filter.ids)), list_text(" AND kind IN ("@, list_len(filter.kinds)), tags_text(filter.tags), " LIMIT "@.push('?'));
    one_tail(values, time_values(filter.until), time_values(filter.since), blob_values(filter.ids), kind_values(filter.kinds), tags_values(filter.tags), seq![SqlValue::Int(limit_of(filter))]);
    one_tail(values + Seq::new(items.len(), |i: int| SqlValue::Blob(items[i])), time_values(filter.until), time_values(filter.since), blob_values(filter.ids), kind_values(filter.kinds), tags_values(filter.tags), seq![SqlValue::Int(limit_of(filter))]);
    assert(head + Seq::<char>::empty() =~= head);
    assert(values + Seq::<SqlValue>::empty() =~= values);
    assert(text == head + tail);
    assert(args == values + more);
    assert(search_text(bound) == head + (" AND unhex(pubkey) IN ("@ + placeholders(items.len(), ","@) + ")"@) + tail);
    assert(search_args(bound) == values + Seq::new(items.len(), |i: int| SqlValue::Blob(items[i])) + more);
    assert(text.take(head.len() as int) =~= head);
    assert(text.skip(head.len() as int) =~= tail);
    assert(args.take(values.len() as int) =~= values);
    assert(args.skip(values.len() as int) =~= more);
    (head.len() as int, values.len() as int)
}

/// A search by identifiers asks for them all, whatever else it asks for: it is the
/// search without them, with a list put in that has a placeholder for each and
/// each bound to its own.
#[verifier::rlimit(30)]
pub proof fn ids_are_always_asked_for(filter: FilterView, others: Seq<FilterView>, items: Seq<Seq<u8>>) -> (at: (int, int))
    requires
        items.len() > 0,
    ensures
        ({
            let open = seq![FilterView { ids: None, ..filter }] + others;
            let bound = seq![FilterView { ids: Some(items), ..filter }] + others;
            let text = search_text(open);
            let args = search_args(open);
            &&& 0 <= at.0 <= text.len()
            &&& 0 <= at.1 <= args.len()
            &&& marks(text.take(at.0)) == at.1
            &&& search_text(bound) == text.take(at.0) + (" AND unhex(id) IN ("@ + placeholders(items.len(), ","@) + ")"@) + text.skip(at.0)
            &&& search_args(bound) == args.take(at.1) + Seq::new(items.len(), |i: int| SqlValue::Blob(items[i])) + args.skip(at.1)
        }),
{
    let open = seq![FilterView { ids: None, ..filter }] + others;
    let bound = seq![FilterView { ids: Some(items), ..filter }] + others;
    assert(open[0] == FilterView { ids: None, ..filter });
    assert(bound[0] == FilterView { ids: Some(items), ..filter });
    let (head, values) = head_of_ids(filter);
    let text = search_text(open);
    let args = search_args(open);
    let bound_values = Seq::new(items.len(), |i: int| SqlValue::Blob(items[i]));
    assert(blob_values(Some(items)) =~= bound_values);
    let tail = list_text(" AND kind IN ("@, list_len(filter.kinds)) + tags_text(filter.tags) + " LIMIT "@.push('?');
    let more = kind_values(filter.kinds) + tags_values(filter.tags) + seq![SqlValue::Int(limit_of(filter))];
    one_tail(head, list_text(" AND kind IN ("@, list_len(filter.kinds)), tags_text(filter.tags), " LIMIT "@.push('?'), Seq::empty(), Seq::empty(), Seq::empty());
    one_tail(head + (" AND unhex(id) IN ("@ + placeholders(items.len(), ","@) + ")"@), list_text(" AND kind IN ("@, list_len(filter.kinds)), tags_text(filter.tags), " LIMIT "@.push('?'), Seq::empty(), Seq::empty(), Seq::empty());
    one_tail(values, kind_values(filter.kinds), tags_values(filter.tags), seq![SqlValue::Int(limit_of(filter))], Seq::empty(), Seq::empty(), Seq::empty());
    one_tail(values + Seq::new(items.len(), |i: int| SqlValue::Blob(items[i])), kind_values(filter.kinds), tags_values(filter.tags), seq![SqlValue::Int(limit_of(filter))], Seq::empty(), Seq::empty(), Seq::empty());
    assert(head + Seq::<char>::empty() =~= head);
    assert(values + Seq::<SqlValue>::empty() =~= values);
    assert(text == head + tail);
    assert(args == values + more);
    assert(search_text(bound) == head + (" AND unhex(id) IN ("@ + placeholders(items.len(), ","@) + ")"@) + tail);
    assert(search_args(bound) == values + Seq::new(items.len(), |i: int| SqlValue::Blob(items[i])) + more);
    assert(text.take(head.len() as int) =~= head);
    assert(text.skip(head.len() as int) =~= tail);
    assert(args.take(values.len() as int) =~= values);
    assert(args.skip(values.len() as int) =~= more);
    (head.len() as int, values.len() as int)
}

/// A search by kinds asks for them all, whatever else it asks for: it is the
/// search without them, with a list put in that has a placeholder for each and
/// each bound to its own.
#[verifier::rlimit(30)]
pub proof fn kinds_are_always_asked_for(filter: FilterView, others: Seq<FilterView>, items: Seq<u16>) -> (at: (int, int))
    requires
        items.len() > 0,
    ensures
        ({
            let open = seq![FilterView { kinds: None, ..filter }] + others;
            let bound = seq![FilterView { kinds: Some(items), ..filter }] + others;
            let text = search_text(open);
            let args = search_args(open);
            &&& 0 <= at.0 <= text.len()
            &&& 0 <= at.1 <= args.len()
            &&& marks(text.take(at.0)) == at.1
            &&& search_text(bound) == text.take(at.0) + (" AND kind IN ("@ + placeholders(items.len(), ","@) + ")"@) + text.skip(at.0)
            &&& search_args(bound) == args.take(at.1) + Seq::new(items.len(), |i: int| SqlValue::Int(items[i] as i64)) + args.skip(at.1)
        }),
{
    let open = seq![FilterView { kinds: None, ..filter }] + others;
    let bound = seq![FilterView { kinds: Some(items), ..filter }] + others;
    assert(open[0] == FilterView { kinds: None, ..filter });
    assert(bound[0] == FilterView { kinds: Some(items), ..filter });
    let (head, values) = head_of_kinds(filter);
    let text = search_text(open);
    let args = search_args(open);
    let bound_values = Seq::new(items.len(), |i: int| SqlValue::Int(items[i] as i64));
    assert(kind_values(Some(items)) =~= bound_values);
    let tail = tags_text(filter.tags) + " LIMIT "@.push('?');
    let more = tags_values(filter.tags) + seq![SqlValue::Int(limit_of(filter))];
    one_tail(head, tags_text(filter.tags), " LIMIT "@.push('?'), Seq::empty(), Seq::empty(), Seq::empty(), Seq::empty());
    one_tail(head + (" AND kind IN ("@ + placeholders(items.len(), ","@) + ")"@), tags_text(filter.tags), " LIMIT "@.push('?'), Seq::empty(), Seq::empty(), Seq::empty(), Seq::empty());
    one_tail(values, tags_values(filter.tags), seq![SqlValue::Int(limit_of(filter))], Seq::empty(), Seq::empty(), Seq::empty(), Seq::empty());
    one_tail(values + Seq::new(items.len(), |i: int| SqlValue::Int(items[i] as i64)), tags_values(filter.tags), seq![SqlValue::Int(limit_of(filter))], Seq::empty(), Seq::empty(), Seq::empty(), Seq::empty());
    assert(head + Seq::<char>::empty() =~= head);
    assert(values + Seq::<SqlValue>::empty() =~= values);
    assert(text == head + tail);
    assert(args == values + more);
    assert(search_text(bound) == head + (" AND kind IN ("@ + placeholders(items.len(), ","@) + ")"@) + tail);
    assert(search_args(bound) == values + Seq::new(items.len(), |i: int| SqlValue::Int(items[i] as i64)) + more);
    assert(text.take(head.len() as int) =~= head);
    assert(text.skip(head.len() as int) =~= tail);
    assert(args.take(values.len() as int) =~= values);
    assert(args.skip(values.len() as int) =~= more);
    (head.len() as int, values.len() as int)
}

/// A list of authors that is there but empty asks for nothing, whatever else is asked
/// for.
pub proof fn no_authors_ask_for_nothing(filter: FilterView, others: Seq<FilterView>)
    ensures
        search_text(seq![FilterView { authors: Some(Seq::empty()), ..filter }] + others)
            == search_text(seq![FilterView { authors: None, ..filter }] + others),
        search_args(seq![FilterView { authors: Some(Seq::empty()), ..filter }] + others)
            == search_args(seq![FilterView { authors: None, ..filter }] + others),
{
    let open = seq![FilterView { authors: None, ..filter }] + others;
    let empty = seq![FilterView { authors: Some(Seq::empty()), ..filter }] + others;
    assert(open[0] == (FilterView { authors: None, ..filter }));
    assert(empty[0].authors == Some(Seq::<Seq<u8>>::empty()));
    assert(blob_values(empty[0].authors) =~= blob_values(open[0].authors));
}

/// A list of identifiers that is there but empty asks for nothing, whatever else is asked
/// for.
pub proof fn no_ids_ask_for_nothing(filter: FilterView, others: Seq<FilterView>)
    ensures
        search_text(seq![FilterView { ids: Some(Seq::empty()), ..filter }] + others)
            == search_text(seq![FilterView { ids: None, ..filter }] + others),
        search_args(seq![FilterView { ids: Some(Seq::empty()), ..filter }] + others)
            == search_args(seq![FilterView { ids: None, ..filter }] + others),
{
    let open = seq![FilterView { ids: None, ..filter }] + others;
    let empty = seq![FilterView { ids: Some(Seq::empty()), ..filter }] + others;
    assert(open[0] == (FilterView { ids: None, ..filter }));
    assert(empty[0].ids == Some(Seq::<Seq<u8>>::empty()));
    assert(blob_values(empty[0].ids) =~= blob_values(open[0].ids));
}

/// A list of kinds that is there but empty asks for nothing, whatever else is asked
/// for.
pub proof fn no_kinds_ask_for_nothing(filter: FilterView, others: Seq<FilterView>)
    ensures
        search_text(seq![FilterView { kinds: Some(Seq::empty()), ..filter }] + others)
            == search_text(seq![FilterView { kinds: None, ..filter }] + others),
        search_args(seq![FilterView { kinds: Some(Seq::empty()), ..filter }] + others)
            == search_args(seq![FilterView { kinds: None, ..filter }] + others),
{
    let open = seq![FilterView { kinds: None, ..filter }] + others;
    let empty = seq![FilterView { kinds: Some(Seq::empty()), ..filter }] + others;
    assert(open[0] == (FilterView { kinds: None, ..filter }));
    assert(empty[0].kinds == Some(Seq::<u16>::empty()));
    assert(kind_values(empty[0].kinds) =~= kind_values(open[0].kinds));
}

/// A search by tags asks for every one of them, whatever else it asks for: one
/// more tag is one more condition before the limit, with its name and its
/// values bound in order before the limit.
pub proof fn tags_are_always_asked_for(
    filter: FilterView,
    others: Seq<FilterView>,
    tag: TagFilterView,
)
    ensures
        ({
            let open = seq![filter] + others;
            let bound = seq![FilterView { tags: filter.tags.push(tag), ..filter }] + others;
            let text = search_text(open);
            let args = search_args(open);
            let condition = " AND unhex(id) IN (SELECT event_id FROM tag WHERE name = ? AND "@
                + in_clause("value"@, tag.values.len()) + ")"@;
            &&& text.len() >= 8
            &&& text.skip(text.len() - 8) == " LIMIT ?"@
            &&& search_text(bound) == text.take(text.len() - 8) + condition + " LIMIT ?"@
            &&& args.len() > 0
            &&& search_args(bound) == args.drop_last() + seq![SqlValue::Text(tag.name)] + Seq::new(
                tag.values.len(),
                |i: int| SqlValue::Text(tag.values[i]),
            ) + seq![args.last()]
        }),
{
    let open = seq![filter] + others;
    let bound = seq![FilterView { tags: filter.tags.push(tag), ..filter }] + others;
    assert(open[0] == filter);
    assert(bound[0].tags == filter.tags.push(tag));
    assert(filter.tags.push(tag).drop_last() =~= filter.tags);
    reveal_strlit(" LIMIT ?");
    reveal_strlit(" LIMIT ");
    reveal_strlit(" AND unhex(id) IN (SELECT event_id FROM tag WHERE name = ? AND ");
    reveal_strlit(" AND unhex(id) IN (SELECT event_id FROM tag WHERE name = ");
    reveal_strlit(" AND ");
    let text = search_text(open);
    let args = search_args(open);
    let condition = " AND unhex(id) IN (SELECT event_id FROM tag WHERE name = ? AND "@ + in_clause(
        "value"@,
        tag.values.len(),
    ) + ")"@;
    assert(" LIMIT "@.push('?') =~= " LIMIT ?"@);
    assert(" AND unhex(id) IN (SELECT event_id FROM tag WHERE name = "@.push('?') + " AND "@
        =~= " AND unhex(id) IN (SELECT event_id FROM tag WHERE name = ? AND "@);
    assert(tag_text(tag.values.len()) =~= condition);
    assert(text.skip(text.len() - 8) =~= " LIMIT ?"@);
    assert(search_text(bound) =~= text.take(text.len() - 8) + condition + " LIMIT ?"@);
    assert(text_values(tag.values) =~= Seq::new(
        tag.values.len(),
        |i: int| SqlValue::Text(tag.values[i]),
    ));
    assert(search_args(bound) =~= args.drop_last() + seq![SqlValue::Text(tag.name)] + text_values(
        tag.values,
    ) + seq![args.last()]);
}

/// A limit is only a limit: it changes the last value of a search and nothing
/// else. Without one it is a hundred.
pub proof fn a_limit_is_the_last_value(
    filter: FilterView,
    others: Seq<FilterView>,
    limit: usize,
)
    ensures
        ({
            let open = seq![FilterView { limit: None, ..filter }] + others;
            let bound = seq![FilterView { limit: Some(limit), ..filter }] + others;
            &&& search_text(bound) == search_text(open)
            &&& search_args(open).len() > 0
            &&& search_args(open).last() == SqlValue::Int(100)
            &&& search_args(bound) == search_args(open).drop_last().push(
                SqlValue::Int(limit as i64),
            )
        }),
{
    let open = seq![FilterView { limit: None, ..filter }] + others;
    let bound = seq![FilterView { limit: Some(limit), ..filter }] + others;
    assert(open[0] == (FilterView { limit: None, ..filter }));
    assert(bound[0] == (FilterView { limit: Some(limit), ..filter }));
    assert(search_args(bound) =~= search_args(open).drop_last().push(SqlValue::Int(limit as i64)));
}

/// Only the first filter counts. One that asks for nothing, and no filter at
/// all, give every event, the former up to a limit.
pub proof fn the_first_filter_counts(filter: FilterView, others: Seq<FilterView>)
    ensures
        search_text(Seq::<FilterView>::empty()) == "SELECT json FROM event WHERE true"@,
        search_args(Seq::<FilterView>::empty()) == Seq::<SqlValue>::empty(),
        search_text(seq![filter] + others) == search_text(seq![filter]),
        search_args(seq![filter] + others) == search_args(seq![filter]),
        ({
            let nothing = FilterView {
                ids: None,
                authors: None,
                kinds: None,
                since: None,
                until: None,
                limit: None,
                tags: Seq::empty(),
            };
            &&& search_text(seq![nothing]) == "SELECT json FROM event WHERE true LIMIT ?"@
            &&& search_args(seq![nothing]) == seq![SqlValue::Int(100)]
        }),
{
    assert((seq![filter] + others)[0] == filter);
    reveal_strlit("SELECT json FROM event WHERE true");
    reveal_strlit(" LIMIT ");
    reveal_strlit("SELECT json FROM event WHERE true LIMIT ?");
    let nothing = FilterView {
        ids: None,
        authors: None,
        kinds: None,
        since: None,
        until: None,
        limit: None,
        tags: Seq::empty(),
    };
    assert(search_text(seq![nothing]) =~= "SELECT json FROM event WHERE true LIMIT ?"@);
    assert(search_args(seq![nothing]) =~= seq![SqlValue::Int(100)]);
}

/// A search for one event is one condition.
proof fn one_event_is_one_condition(id: Seq<u8>)
    ensures
        filter_text(only(id)) == "SELECT json FROM event WHERE true AND unhex(id) IN (?) LIMIT ?"@,
        filter_args(only(id)) == seq![SqlValue::Blob(id), SqlValue::Int(100)],
{
    reveal_strlit("SELECT json FROM event WHERE true");
    reveal_strlit(" AND unhex(id) IN (");
    reveal_strlit(")");
    reveal_strlit(" LIMIT ");
    reveal_strlit("SELECT json FROM event WHERE true AND unhex(id) IN (?) LIMIT ?");
    assert(filter_text(only(id))
        =~= "SELECT json FROM event WHERE true AND unhex(id) IN (?) LIMIT ?"@);
    assert(filter_args(only(id)) =~= seq![SqlValue::Blob(id), SqlValue::Int(100)]);
}

} // verus!
