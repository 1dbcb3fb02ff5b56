use leveldb::comparator::{Comparator, OrdComparator, Order};
use leveldb::database::engine::{Call, Handle};
use leveldb::database::Database;
use leveldb::error::ErrorKind;
use leveldb::iterator::DatabaseIterator;
use leveldb::options::Options;

const IT: Handle = Handle { address: 0x30 };

struct Descending;

impl Comparator for Descending {
    fn name(&self) -> String {
        "desc".to_string()
    }

    fn compare(&self, a: &[u8], b: &[u8]) -> Order {
        OrdComparator.compare(b, a)
    }
}

fn database() -> Database<OrdComparator> {
    Database::open_reply(Handle { address: 0x10 }, None, Options::new()).unwrap()
}

fn entry(key: &[u8], value: &[u8]) -> Option<(Vec<u8>, Vec<u8>)> {
    Some((key.to_vec(), value.to_vec()))
}

fn seek(key: &[u8]) -> Call<'static> {
    Call::IterSeek { iter: IT, key: key.to_vec() }
}

#[test]
fn a_new_cursor_stands_on_nothing() {
    let db = database();
    let cursor = DatabaseIterator::new(&db, IT);
    assert!(!cursor.valid());
    assert_eq!(cursor.key().unwrap_err().kind(), ErrorKind::InvalidCursorState);
    assert_eq!(cursor.value().unwrap_err().kind(), ErrorKind::InvalidCursorState);
}

#[test]
fn a_new_cursor_cannot_be_stepped() {
    let db = database();
    let mut cursor = DatabaseIterator::new(&db, IT);
    assert_eq!(cursor.next().unwrap_err().kind(), ErrorKind::InvalidCursorState);
    assert_eq!(cursor.prev().unwrap_err().kind(), ErrorKind::InvalidCursorState);
    assert!(!cursor.valid());
    assert_eq!(cursor.advance(), Some(Call::IterSeekToFirst { iter: IT }));
}

#[test]
fn seek_to_first_goes_to_the_first_key_of_all_without_a_lower_bound() {
    let db = database();
    let mut cursor = DatabaseIterator::new(&db, IT).to(b"m");
    assert_eq!(cursor.seek_to_first(), Call::IterSeekToFirst { iter: IT });
    assert!(!cursor.valid());
    assert_eq!(cursor.land(entry(b"a", b"1")), None);
    assert!(cursor.valid());
    assert_eq!(cursor.key().unwrap(), b"a");
    assert_eq!(cursor.value().unwrap(), b"1");
}

#[test]
fn seek_to_first_goes_to_the_lower_bound() {
    let db = database();
    let mut cursor = DatabaseIterator::new(&db, IT).from(b"c");
    assert_eq!(cursor.seek_to_first(), seek(b"c"));
    assert_eq!(cursor.land(entry(b"c", b"3")), None);
    assert_eq!(cursor.key().unwrap(), b"c");
}

#[test]
fn the_lower_bound_is_included_and_the_upper_bound_is_excluded() {
    let db = database();
    let mut cursor = DatabaseIterator::new(&db, IT).from(b"b").to(b"d");
    cursor.seek(b"b");
    cursor.land(entry(b"b", b"2"));
    assert!(cursor.valid());
    cursor.seek(b"c");
    cursor.land(entry(b"cz", b"3"));
    assert!(cursor.valid());
    cursor.seek(b"d");
    cursor.land(entry(b"d", b"4"));
    assert!(!cursor.valid());
}

#[test]
fn a_landing_outside_the_bounds_ends_the_walk() {
    let db = database();
    let mut cursor = DatabaseIterator::new(&db, IT).from(b"b").to(b"d");
    cursor.seek_to_first();
    cursor.land(entry(b"a", b"1"));
    assert!(!cursor.valid());
    assert_eq!(cursor.key().unwrap_err().kind(), ErrorKind::InvalidCursorState);
    cursor.seek_to_first();
    cursor.land(entry(b"e", b"5"));
    assert!(!cursor.valid());
    cursor.seek_to_first();
    cursor.land(None);
    assert!(!cursor.valid());
}

#[test]
fn an_empty_range_holds_no_key() {
    let db = database();
    let mut cursor = DatabaseIterator::new(&db, IT).from(b"c").to(b"c");
    assert_eq!(cursor.seek_to_first(), seek(b"c"));
    cursor.land(entry(b"c", b"3"));
    assert!(!cursor.valid());
    let mut cursor = DatabaseIterator::new(&db, IT).from(b"d").to(b"b");
    for key in [&b"a"[..], b"b", b"c", b"d", b"e"] {
        cursor.seek(key);
        cursor.land(entry(key, b""));
        assert!(!cursor.valid());
    }
}

#[test]
fn seek_below_the_lower_bound_goes_to_the_lower_bound() {
    let db = database();
    let mut cursor = DatabaseIterator::new(&db, IT).from(b"c");
    assert_eq!(cursor.seek(b"a"), seek(b"c"));
    assert_eq!(cursor.seek(b"c"), seek(b"c"));
    assert_eq!(cursor.seek(b"d"), seek(b"d"));
    let mut cursor = DatabaseIterator::new(&db, IT);
    assert_eq!(cursor.seek(b"a"), seek(b"a"));
    assert_eq!(cursor.seek(b""), seek(b""));
}

#[test]
fn next_and_prev_step_a_cursor_that_stands_on_an_entry() {
    let db = database();
    let mut cursor = DatabaseIterator::new(&db, IT);
    cursor.seek_to_first();
    cursor.land(entry(b"a", b"1"));
    assert_eq!(cursor.next().unwrap(), Call::IterNext { iter: IT });
    assert!(!cursor.valid());
    assert_eq!(cursor.land(entry(b"b", b"2")), None);
    assert_eq!(cursor.key().unwrap(), b"b");
    assert_eq!(cursor.value().unwrap(), b"2");
    assert_eq!(cursor.prev().unwrap(), Call::IterPrev { iter: IT });
    assert_eq!(cursor.land(entry(b"a", b"1")), None);
    assert_eq!(cursor.key().unwrap(), b"a");
}

#[test]
fn stepping_past_the_end_is_final_until_the_cursor_is_sought_again() {
    let db = database();
    let mut cursor = DatabaseIterator::new(&db, IT);
    cursor.seek_to_first();
    cursor.land(entry(b"a", b"1"));
    cursor.next().unwrap();
    cursor.land(None);
    assert!(!cursor.valid());
    assert_eq!(cursor.next().unwrap_err().kind(), ErrorKind::InvalidCursorState);
    assert_eq!(cursor.prev().unwrap_err().kind(), ErrorKind::InvalidCursorState);
    assert_eq!(cursor.key().unwrap_err().kind(), ErrorKind::InvalidCursorState);
    assert_eq!(cursor.value().unwrap_err().kind(), ErrorKind::InvalidCursorState);
    assert_eq!(cursor.advance(), None);
    assert!(!cursor.valid());
    assert_eq!(cursor.seek_to_first(), Call::IterSeekToFirst { iter: IT });
    cursor.land(entry(b"a", b"1"));
    assert!(cursor.valid());
}

#[test]
fn entry_copies_what_the_cursor_stands_on() {
    let db = database();
    let mut cursor = DatabaseIterator::new(&db, IT);
    assert_eq!(cursor.entry().unwrap_err().kind(), ErrorKind::InvalidCursorState);
    cursor.seek_to_first();
    cursor.land(entry(b"a", b"1"));
    let copy = cursor.entry().unwrap();
    cursor.next().unwrap();
    cursor.land(entry(b"b", b"2"));
    assert_eq!(copy, (b"a".to_vec(), b"1".to_vec()));
    assert_eq!(cursor.entry().unwrap(), (b"b".to_vec(), b"2".to_vec()));
    cursor.next().unwrap();
    cursor.land(None);
    assert_eq!(cursor.entry().unwrap_err().kind(), ErrorKind::InvalidCursorState);
}

#[test]
fn a_cursor_that_waits_for_a_landing_is_not_read_and_not_stepped() {
    let db = database();
    let mut cursor = DatabaseIterator::new(&db, IT);
    cursor.seek_to_first();
    cursor.land(entry(b"a", b"1"));
    cursor.next().unwrap();
    assert_eq!(cursor.key().unwrap_err().kind(), ErrorKind::InvalidCursorState);
    assert_eq!(cursor.next().unwrap_err().kind(), ErrorKind::InvalidCursorState);
    assert_eq!(cursor.advance(), None);
    cursor.land(entry(b"b", b"2"));
    assert_eq!(cursor.key().unwrap(), b"b");
}

#[test]
fn a_landing_that_was_not_asked_for_changes_nothing() {
    let db = database();
    let mut cursor = DatabaseIterator::new(&db, IT);
    assert_eq!(cursor.land(entry(b"x", b"9")), None);
    assert!(!cursor.valid());
    assert_eq!(cursor.advance(), Some(Call::IterSeekToFirst { iter: IT }));
    cursor.land(entry(b"a", b"1"));
    assert_eq!(cursor.land(entry(b"x", b"9")), None);
    assert_eq!(cursor.key().unwrap(), b"a");
    assert_eq!(cursor.land(None), None);
    assert_eq!(cursor.key().unwrap(), b"a");
}

#[test]
fn advance_starts_at_the_lower_bound_and_then_steps() {
    let db = database();
    let mut cursor = DatabaseIterator::new(&db, IT).from(b"b");
    assert_eq!(cursor.advance(), Some(seek(b"b")));
    cursor.land(entry(b"b", b"2"));
    assert_eq!(cursor.advance(), Some(Call::IterNext { iter: IT }));
    cursor.land(entry(b"c", b"3"));
    assert_eq!(cursor.key().unwrap(), b"c");
    assert_eq!(cursor.advance(), Some(Call::IterNext { iter: IT }));
    cursor.land(None);
    assert_eq!(cursor.advance(), None);
}

#[test]
fn seek_to_last_without_an_upper_bound_goes_to_the_last_key_of_all() {
    let db = database();
    let mut cursor = DatabaseIterator::new(&db, IT).from(b"b");
    assert_eq!(cursor.seek_to_last(), Call::IterSeekToLast { iter: IT });
    assert_eq!(cursor.land(entry(b"z", b"26")), None);
    assert_eq!(cursor.key().unwrap(), b"z");
    cursor.seek_to_last();
    cursor.land(entry(b"a", b"1"));
    assert!(!cursor.valid());
}

#[test]
fn seek_to_last_steps_back_from_the_key_at_the_upper_bound() {
    let db = database();
    let mut cursor = DatabaseIterator::new(&db, IT).to(b"m");
    assert_eq!(cursor.seek_to_last(), seek(b"m"));
    assert!(!cursor.valid());
    assert_eq!(cursor.land(entry(b"m", b"13")), Some(Call::IterPrev { iter: IT }));
    assert!(!cursor.valid());
    assert_eq!(cursor.land(entry(b"k", b"11")), None);
    assert_eq!(cursor.key().unwrap(), b"k");
    assert_eq!(cursor.value().unwrap(), b"11");
}

#[test]
fn seek_to_last_goes_to_the_last_key_of_all_where_none_is_at_or_past_the_upper_bound() {
    let db = database();
    let mut cursor = DatabaseIterator::new(&db, IT).to(b"m");
    assert_eq!(cursor.seek_to_last(), seek(b"m"));
    assert_eq!(cursor.land(None), Some(Call::IterSeekToLast { iter: IT }));
    assert_eq!(cursor.land(entry(b"c", b"3")), None);
    assert_eq!(cursor.key().unwrap(), b"c");
}

#[test]
fn seek_to_last_is_invalid_where_no_key_lies_in_the_range() {
    let db = database();
    let mut cursor = DatabaseIterator::new(&db, IT).from(b"f").to(b"m");
    cursor.seek_to_last();
    assert_eq!(cursor.land(entry(b"x", b"24")), Some(Call::IterPrev { iter: IT }));
    assert_eq!(cursor.land(entry(b"c", b"3")), None);
    assert!(!cursor.valid());
    cursor.seek_to_last();
    assert_eq!(cursor.land(entry(b"x", b"24")), Some(Call::IterPrev { iter: IT }));
    assert_eq!(cursor.land(None), None);
    assert!(!cursor.valid());
}

#[test]
fn a_bound_makes_the_cursor_count_as_never_moved() {
    let db = database();
    let mut cursor = DatabaseIterator::new(&db, IT);
    cursor.seek_to_first();
    cursor.land(entry(b"a", b"1"));
    assert!(cursor.valid());
    let mut cursor = cursor.from(b"b");
    assert!(!cursor.valid());
    assert_eq!(cursor.advance(), Some(seek(b"b")));
    cursor.land(entry(b"b", b"2"));
    let mut cursor = cursor.to(b"c");
    assert!(!cursor.valid());
    assert_eq!(cursor.advance(), Some(seek(b"b")));
}

#[test]
fn the_bounds_follow_the_comparator_of_the_database() {
    let native = Handle { address: 0x77 };
    let (result, _) = Database::open_with_comparator_reply(
        Handle { address: 0x10 },
        None,
        Options::new(),
        Descending,
        native,
    );
    let db = result.unwrap();
    let mut cursor = DatabaseIterator::new(&db, IT).from(b"d").to(b"b");
    assert_eq!(cursor.seek(b"e"), seek(b"d"));
    cursor.land(entry(b"d", b"4"));
    assert!(cursor.valid());
    cursor.next().unwrap();
    cursor.land(entry(b"c", b"3"));
    assert!(cursor.valid());
    cursor.next().unwrap();
    cursor.land(entry(b"b", b"2"));
    assert!(!cursor.valid());
    assert_eq!(cursor.seek(b"c"), seek(b"c"));
    cursor.land(entry(b"e", b"5"));
    assert!(!cursor.valid());
}
