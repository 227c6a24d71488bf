use nostr::JsonUtil;
use sqlx::{ConnectOptions, Connection, Row};
use yastr::db::{SearchError, DB};
use yastr::event::{Event, EventId, PublicKey};
use yastr::message::{Filter, TagFilter};
use yastr::server::access::Question;
use yastr::sqlx_extras::SqlArg;

fn filter() -> Filter {
    Filter { ids: None, authors: None, kinds: None, since: None, until: None, limit: None, tags: vec![] }
}

fn tag(name: &str, values: &[&str]) -> TagFilter {
    TagFilter { name: name.to_string(), values: values.iter().map(|value| value.to_string()).collect() }
}

fn keys(n: u8) -> nostr::Keys {
    nostr::Keys::parse(&format!("{n:02x}").repeat(32)).unwrap()
}

fn key(n: u8) -> PublicKey {
    PublicKey { bytes: keys(n).public_key().to_bytes() }
}

fn note(author: u8, kind: u16, created_at: u64, tags: &[[&str; 2]]) -> Event {
    let event = nostr::EventBuilder::new(nostr::Kind::from(kind), "hello")
        .tags(tags.iter().map(|tag| nostr::Tag::parse(*tag).unwrap()))
        .custom_created_at(nostr::Timestamp::from(created_at))
        .sign_with_keys(&keys(author))
        .unwrap();
    Event::from_json(&event.as_json()).unwrap()
}

async fn open() -> sqlx::SqliteConnection {
    let mut conn = sqlx::sqlite::SqliteConnectOptions::new().in_memory(true).connect().await.unwrap();
    for statement in DB::init() {
        sqlx::query(statement).execute(&mut conn).await.unwrap();
    }
    conn
}

async fn save(conn: &mut sqlx::SqliteConnection, event: &Event) -> Result<(), sqlx::Error> {
    let statement = DB::save_event(event);
    let [SqlArg::Text(json)] = &statement.args[..] else { panic!("one text") };
    sqlx::query(statement.sql).bind(json.clone()).execute(conn).await.map(|_| ())
}

async fn ask(conn: &mut sqlx::SqliteConnection, statement: yastr::db::Statement) -> bool {
    let mut query = sqlx::query(statement.sql);
    for arg in statement.args {
        query = match arg {
            SqlArg::Blob(bytes) => query.bind(bytes),
            SqlArg::Int(number) => query.bind(number),
            SqlArg::Text(text) => query.bind(text),
        };
    }
    query.fetch_one(conn).await.unwrap().get::<bool, _>(0)
}

async fn search(conn: &mut sqlx::SqliteConnection, filters: &Vec<Filter>) -> Vec<Event> {
    let mut query = DB::search(filters);
    let (sql, args) = query.parts();
    let rows = sqlx::query_with(sql, args).fetch_all(conn).await.unwrap();
    rows.into_iter().map(|row| DB::search_row(Ok(row.get(0))).unwrap()).collect()
}

fn run<F: std::future::Future<Output = ()>>(test: F) {
    tokio::runtime::Builder::new_current_thread().enable_all().build().unwrap().block_on(test)
}

fn shown(filters: &Vec<Filter>) -> (String, String) {
    let mut query = DB::search(filters);
    let (sql, args) = query.parts();
    (sql.to_string(), format!("{args:?}"))
}

#[test]
fn a_search_without_filters_is_open() {
    let (sql, args) = shown(&vec![]);
    assert_eq!(sql, "SELECT json FROM event WHERE true");
    assert_eq!(args, "SqliteArguments { values: [] }");
}

#[test]
fn a_search_has_a_limit() {
    let (sql, args) = shown(&vec![filter()]);
    assert_eq!(sql, "SELECT json FROM event WHERE true LIMIT ?");
    assert_eq!(args, "SqliteArguments { values: [Int64(100)] }");
}

#[test]
fn empty_lists_leave_a_search_open() {
    let empty = Filter { ids: Some(vec![]), authors: Some(vec![]), kinds: Some(vec![]), ..filter() };
    assert_eq!(shown(&vec![empty]), shown(&vec![filter()]));
}

#[test]
fn every_condition_binds_its_values() {
    let full = Filter {
        ids: Some(vec![EventId { bytes: [3; 32] }]),
        authors: Some(vec![PublicKey { bytes: [1; 32] }, PublicKey { bytes: [2; 32] }]),
        kinds: Some(vec![0, 1, 65535]),
        since: Some(10),
        until: Some(20),
        limit: Some(5),
        tags: vec![tag("t", &["a", "b"]), tag("e", &[])],
    };
    let (sql, args) = shown(&vec![full, filter()]);
    assert_eq!(
        sql,
        "SELECT json FROM event WHERE true AND unhex(pubkey) IN (?,?) AND created_at < ? AND created_at >= ? AND unhex(id) IN (?) AND kind IN (?,?,?) AND unhex(id) IN (SELECT event_id FROM tag WHERE name = ? AND value IN (?, ?)) AND unhex(id) IN (SELECT event_id FROM tag WHERE name = ? AND FALSE) LIMIT ?"
    );
    let blob = |n: u8| format!("Blob({:?})", [n; 32]);
    assert_eq!(
        args,
        format!(
            "SqliteArguments {{ values: [{}, {}, Int64(20), Int64(10), {}, Int64(0), Int64(1), Int64(65535), Text(\"t\"), Text(\"a\"), Text(\"b\"), Text(\"e\"), Int64(5)] }}",
            blob(1),
            blob(2),
            blob(3)
        )
    );
}

#[test]
fn one_event_is_searched_for_by_its_id() {
    let id = EventId { bytes: [9; 32] };
    let mut query = DB::get_event(&id);
    let (sql, args) = query.parts();
    assert_eq!(sql, "SELECT json FROM event WHERE true AND unhex(id) IN (?) LIMIT ?");
    assert_eq!(format!("{args:?}"), format!("SqliteArguments {{ values: [Blob({:?}), Int64(100)] }}", [9; 32]));
}

#[test]
fn an_in_clause_lists_its_items() {
    let mut query = DB::search(&vec![]);
    query.is_in(" AND kind", vec![SqlArg::Int(1), SqlArg::Text("x".to_string()), SqlArg::Blob(vec![7])]);
    let (sql, args) = query.parts();
    assert_eq!(sql, "SELECT json FROM event WHERE true AND kind IN (?, ?, ?)");
    assert_eq!(format!("{args:?}"), "SqliteArguments { values: [Int64(1), Text(\"x\"), Blob([7])] }");
}

#[test]
fn an_in_clause_without_items_is_false() {
    let mut query = DB::search(&vec![]);
    query.is_in("kind", vec![]);
    let (sql, args) = query.parts();
    assert_eq!(sql, "SELECT json FROM event WHERE trueFALSE");
    assert_eq!(format!("{args:?}"), "SqliteArguments { values: [] }");
}

#[test]
fn rows_are_read_as_events() {
    let event = note(1, 1, 100, &[]);
    assert_eq!(DB::search_row(Ok(event.json.clone())), Ok(event));
}

#[test]
fn rows_that_cannot_be_read_are_errors() {
    let source = Event::from_json("{}").unwrap_err();
    assert_eq!(
        DB::search_row(Ok("{}".to_string())),
        Err(SearchError::ColumnDecode { index: "event.json", source })
    );
    assert_eq!(DB::search_row(Err("locked".to_string())), Err(SearchError::Database("locked".to_string())));
}

#[test]
fn a_search_ends_with_an_error_or_its_taker() {
    let row = DB::search_row(Ok(note(1, 1, 100, &[]).json));
    assert!(DB::search_goes_on(&row, true));
    assert!(!DB::search_goes_on(&row, false));
    assert!(!DB::search_goes_on(&Err(SearchError::Database("locked".to_string())), true));
}

#[test]
fn the_pool_is_small() {
    let settings = DB::connect();
    assert_eq!(settings.max_connections, 20);
    assert_eq!(settings.idle_timeout_secs, 60);
    assert_eq!(settings.acquire_timeout_secs, 5);
}

#[test]
fn stored_events_come_back() {
    run(async {
        let mut conn = open().await;
        let (a, b, c) = (note(1, 1, 100, &[]), note(2, 7, 200, &[]), note(1, 7, 300, &[]));
        for event in [&a, &b, &c] {
            save(&mut conn, event).await.unwrap();
        }
        assert_eq!(search(&mut conn, &vec![]).await.len(), 3);
        let by_id = Filter { ids: Some(vec![b.id]), ..filter() };
        assert_eq!(search(&mut conn, &vec![by_id]).await, vec![b.clone()]);
        let by_author = Filter { authors: Some(vec![key(1)]), ..filter() };
        assert_eq!(search(&mut conn, &vec![by_author]).await.len(), 2);
        let by_kind = Filter { kinds: Some(vec![7]), until: Some(300), ..filter() };
        assert_eq!(search(&mut conn, &vec![by_kind]).await, vec![b.clone()]);
        let by_time = Filter { since: Some(200), until: Some(300), ..filter() };
        assert_eq!(search(&mut conn, &vec![by_time]).await, vec![b]);
        let limited = Filter { limit: Some(1), ..filter() };
        assert_eq!(search(&mut conn, &vec![limited]).await.len(), 1);
        conn.close().await.unwrap();
    });
}

#[test]
fn a_duplicate_violates_uniqueness() {
    run(async {
        let mut conn = open().await;
        let event = note(1, 1, 100, &[]);
        save(&mut conn, &event).await.unwrap();
        let error = save(&mut conn, &event).await.unwrap_err();
        assert_eq!(error.as_database_error().unwrap().kind(), sqlx::error::ErrorKind::UniqueViolation);
    });
}

#[test]
fn users_and_those_they_follow_are_allowed() {
    run(async {
        let mut conn = open().await;
        assert!(!ask(&mut conn, DB::user_allowed(&key(1))).await);
        sqlx::query("INSERT INTO allow_users(pubkey, allowed_levels) VALUES (?, 1)")
            .bind(key(1).to_hex())
            .execute(&mut conn)
            .await
            .unwrap();
        assert!(ask(&mut conn, DB::user_allowed(&key(1))).await);
        assert!(!ask(&mut conn, DB::user_allowed(&key(2))).await);
        save(&mut conn, &note(1, 3, 100, &[["p", &key(2).to_hex()]])).await.unwrap();
        assert!(ask(&mut conn, DB::user_allowed(&key(2))).await);
        assert!(!ask(&mut conn, DB::user_allowed(&key(3))).await);
        save(&mut conn, &note(2, 3, 100, &[["p", &key(3).to_hex()]])).await.unwrap();
        assert!(!ask(&mut conn, DB::user_allowed(&key(3))).await);
    });
}

#[test]
fn references_are_known() {
    run(async {
        let mut conn = open().await;
        let referred = note(2, 1, 50, &[]);
        assert!(!ask(&mut conn, DB::referred_event(&referred.id)).await);
        assert!(!ask(&mut conn, DB::referred_pubkey(&key(3))).await);
        assert!(!ask(&mut conn, DB::referred_pubkey(&key(1))).await);
        let event = note(1, 1, 100, &[["e", &referred.id.to_hex()], ["p", &key(3).to_hex()]]);
        save(&mut conn, &event).await.unwrap();
        assert!(ask(&mut conn, DB::referred_event(&referred.id)).await);
        assert!(ask(&mut conn, DB::referred_pubkey(&key(3))).await);
        assert!(ask(&mut conn, DB::referred_pubkey(&key(1))).await);
        assert!(!ask(&mut conn, DB::referred_pubkey(&key(4))).await);
    });
}

#[test]
fn a_search_goes_by_tags() {
    run(async {
        let mut conn = open().await;
        let a = note(1, 1, 100, &[["t", "x"], ["r", "y"]]);
        let b = note(1, 1, 200, &[["t", "y"]]);
        let c = note(1, 1, 300, &[["T", "x"]]);
        for event in [&a, &b, &c] {
            save(&mut conn, event).await.unwrap();
        }
        let by = |tags: Vec<TagFilter>| vec![Filter { tags, ..filter() }];
        assert_eq!(search(&mut conn, &by(vec![tag("t", &["x"])])).await, vec![a.clone()]);
        assert_eq!(search(&mut conn, &by(vec![tag("T", &["x"])])).await, vec![c]);
        assert_eq!(search(&mut conn, &by(vec![tag("t", &["x", "y", "z"])])).await.len(), 2);
        assert_eq!(search(&mut conn, &by(vec![tag("t", &["x", "y"]), tag("r", &["y"])])).await, vec![a]);
        assert_eq!(search(&mut conn, &by(vec![tag("t", &["y"]), tag("r", &["y"])])).await, vec![]);
        assert_eq!(search(&mut conn, &by(vec![tag("t", &[])])).await, vec![]);
    });
}

#[test]
fn each_question_has_its_statement() {
    let event = note(1, 0, 100, &[]);
    assert_eq!(DB::ask(&event, Question::UserAllowed), DB::user_allowed(&event.pubkey));
    assert_eq!(DB::ask(&event, Question::ReferredEvent), DB::referred_event(&event.id));
    assert_eq!(DB::ask(&event, Question::ReferredPubkey), DB::referred_pubkey(&event.pubkey));
    let statement = DB::ask(&event, Question::ReferredPubkey);
    assert_eq!(
        statement.args,
        vec![SqlArg::Text(event.pubkey.to_hex()), SqlArg::Blob(event.pubkey.bytes.to_vec())]
    );
}
