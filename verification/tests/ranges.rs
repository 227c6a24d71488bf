use yastr::event::{Event, EventId, PublicKey};
use yastr::server::nip95::ranges::{Error, MultipartRange, MultipartRangeInit, ReadStep};

const PARTS: [(&str, &[u8]); 3] = [("YWJjZA==", b"abcd"), ("ZWZnaA==", b"efgh"), ("aWo=", b"ij")];

fn id(n: usize) -> EventId {
    EventId { bytes: [n as u8; 32] }
}

fn event(content: &str) -> Event {
    Event {
        id: id(0),
        pubkey: PublicKey { bytes: [0; 32] },
        kind: 1064,
        tags: vec![],
        content: content.to_string(),
        json: String::new(),
    }
}

fn range() -> MultipartRange {
    MultipartRange::new(MultipartRangeInit {
        event_ids: vec![id(0), id(1), id(2)],
        total_size: 10,
        block_size: 4,
    })
}

fn read_all(range: &mut MultipartRange, room: usize) -> Vec<u8> {
    let mut all = vec![];
    loop {
        assert!(range.is_readable());
        match range.poll_read(room) {
            ReadStep::End => return all,
            ReadStep::Load(id) => {
                assert!(range.is_readable());
                assert_eq!(range.poll_read(room), ReadStep::Wait);
                range.loaded(Ok(Some(event(PARTS[id.bytes[0] as usize].0)))).unwrap();
            }
            ReadStep::Wait => panic!("nothing is being loaded"),
            ReadStep::Bytes(bytes) => {
                assert!(!bytes.is_empty() && bytes.len() <= room);
                all.extend(bytes);
            }
        }
    }
}

#[test]
fn the_whole_file_can_be_read() {
    for room in 1..12 {
        assert_eq!(read_all(&mut range(), room), b"abcdefghij", "{room}");
    }
    assert_eq!(range().byte_size(), 10);
}

#[test]
fn the_file_can_be_read_from_anywhere() {
    for position in 0..=10 {
        for room in 1..6 {
            let mut range = range();
            range.start_seek(position as u64);
            assert_eq!(read_all(&mut range, room), b"abcdefghij"[position..], "{position} {room}");
        }
    }
}

#[test]
fn a_seek_drops_what_was_loaded() {
    let mut range = range();
    assert_eq!(range.poll_read(2), ReadStep::Load(id(0)));
    range.loaded(Ok(Some(event(PARTS[0].0)))).unwrap();
    assert_eq!(range.poll_read(2), ReadStep::Bytes(b"ab".to_vec()));
    range.start_seek(9);
    assert_eq!(range.poll_read(2), ReadStep::Load(id(2)));
    range.loaded(Ok(Some(event(PARTS[2].0)))).unwrap();
    assert_eq!(range.poll_read(2), ReadStep::Bytes(b"j".to_vec()));
    assert_eq!(range.poll_read(2), ReadStep::End);
}

#[test]
fn reading_behind_the_end_gives_nothing() {
    let mut range = range();
    range.start_seek(11);
    assert_eq!(range.poll_read(5), ReadStep::End);
}

#[test]
fn a_full_buffer_takes_nothing() {
    let mut range = range();
    assert_eq!(range.poll_read(0), ReadStep::Load(id(0)));
    range.loaded(Ok(Some(event(PARTS[0].0)))).unwrap();
    assert_eq!(range.poll_read(0), ReadStep::Bytes(vec![]));
    assert_eq!(range.poll_read(9), ReadStep::Bytes(b"abcd".to_vec()));
}

#[test]
fn a_missing_part_is_named() {
    let mut range = range();
    range.start_seek(5);
    assert_eq!(range.poll_read(1), ReadStep::Load(id(1)));
    let error = range.loaded(Ok(None)).unwrap_err();
    assert_eq!(error, Error::MissingEvent(id(1)));
    assert_eq!(error.message(), format!("missing event ID {}", "01".repeat(32)));
}

#[test]
fn other_errors_are_passed_on() {
    let mut range = range();
    assert_eq!(range.poll_read(1), ReadStep::Load(id(0)));
    let error = range.loaded(Err("disk full".to_string())).unwrap_err();
    assert_eq!(error, Error::Database("disk full".to_string()));
    assert_eq!(error.message(), "disk full");
    let error = range.loaded(Ok(Some(event("*")))).unwrap_err();
    assert_eq!(error.message(), "Error decoding base64 content: InvalidByte(0, 42)");
    assert_eq!(error, Error::Content(error.message()));
}

#[test]
fn some_files_cannot_be_read() {
    let init = MultipartRangeInit { event_ids: vec![id(0)], total_size: 10, block_size: 0 };
    assert!(!MultipartRange::new(init.clone()).is_readable());

    let mut short = MultipartRange::new(MultipartRangeInit { block_size: 4, ..init });
    assert!(short.is_readable());
    short.start_seek(4);
    assert!(!short.is_readable());
    short.start_seek(3);
    assert_eq!(short.poll_read(1), ReadStep::Load(id(0)));
    short.loaded(Ok(Some(event("YWI=")))).unwrap();
    assert!(!short.is_readable());
}

#[test]
fn a_position_where_a_block_starts_is_in_that_block() {
    for position in 0..10u64 {
        let mut range = range();
        range.start_seek(position);
        assert_eq!(range.poll_read(1), ReadStep::Load(id((position / 4) as usize)), "{position}");
    }
}
