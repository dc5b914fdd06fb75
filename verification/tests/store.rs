use bookshelf::envelope::DbResponse;
use bookshelf::model::Book;
use bookshelf::model::Chapter;
use bookshelf::store::Store;
use bookshelf::store::add_book;
use bookshelf::store::add_chapter;
use bookshelf::store::delete_book;
use bookshelf::store::get_all_books;
use bookshelf::store::get_chapter;
use bookshelf::store::get_first_chapter;
use bookshelf::store::init_db;
use bookshelf::store::init_db_in_memory;
use bookshelf::store::update_chapter;
use bookshelf::store::update_toc;

fn fresh_store() -> Store {
    init_db_in_memory().expect("in-memory store")
}

fn added_book(store: &mut Store, title: &str, author: &str, description: &str, toc: &str) -> Book {
    let resp = add_book(
        store,
        title.to_string(),
        author.to_string(),
        description.to_string(),
        toc.to_string(),
    );
    assert!(resp.success);
    assert!(resp.error.is_none());
    resp.data.expect("book payload")
}

fn added_chapter(store: &mut Store, book_id: i64, label: &str, href: &str, content: &str) -> i64 {
    let resp = add_chapter(store, book_id, label.to_string(), href.to_string(), content.to_string());
    assert!(resp.success);
    resp.data.expect("chapter id")
}

fn listed_books(store: &Store) -> Vec<Book> {
    let resp = get_all_books(store);
    assert!(resp.success);
    resp.data.expect("book list")
}

#[test]
fn scenario_first_book_and_chapter() {
    let mut store = fresh_store();

    let book = added_book(&mut store, "T", "A", "D", "");
    assert_eq!(book.id, 1);
    assert_eq!(book.title, "T");
    assert_eq!(book.author, "A");
    assert_eq!(book.description, "D");
    assert_eq!(book.toc, "");

    let chapter_id = added_chapter(&mut store, 1, "Ch1", "c1.html", "body");
    assert_eq!(chapter_id, 1);

    let first = get_first_chapter(&store, 1);
    assert!(first.success);
    let first_rows = first.data.expect("first chapter");
    assert_eq!(first_rows.len(), 1);
    assert_eq!(first_rows[0].id, 1);
    assert_eq!(first_rows[0].book_id, 1);
    assert_eq!(first_rows[0].label, "Ch1");
    assert_eq!(first_rows[0].href, "c1.html");
    assert_eq!(first_rows[0].content, "body");

    let updated = update_toc(&mut store, 1, "<toc/>".to_string());
    assert!(updated.success);
    assert_eq!(updated.data, Some(1));

    let books = listed_books(&store);
    assert_eq!(books.len(), 1);
    assert_eq!(books[0].toc, "<toc/>");
}

#[test]
fn missing_book_lookup_is_empty_success() {
    let store = fresh_store();
    let resp = get_chapter(&store, 99, "1".to_string());
    assert!(resp.success);
    assert!(resp.error.is_none());
    assert_eq!(resp.data.expect("rows").len(), 0);
}

#[test]
fn added_books_listed_once_with_fresh_ids() {
    let mut store = fresh_store();
    let first = added_book(&mut store, "One", "A1", "D1", "t1");
    let second = added_book(&mut store, "Two", "A2", "D2", "t2");

    assert!(first.id > 0);
    assert!(second.id > first.id);

    let books = listed_books(&store);
    assert_eq!(books.len(), 2);
    assert_eq!(books[0].id, first.id);
    assert_eq!(books[0].title, "One");
    assert_eq!(books[1].id, second.id);
    assert_eq!(books[1].author, "A2");
    assert_eq!(books[1].description, "D2");
    assert_eq!(books[1].toc, "t2");
}

#[test]
fn deleted_book_never_listed() {
    let mut store = fresh_store();
    let kept = added_book(&mut store, "Kept", "A", "D", "");
    let gone = added_book(&mut store, "Gone", "A", "D", "");

    let deleted = delete_book(&mut store, gone.id);
    assert!(deleted.success);
    assert_eq!(deleted.data, Some(1));

    let books = listed_books(&store);
    assert_eq!(books.len(), 1);
    assert_eq!(books[0].id, kept.id);
    assert_eq!(books[0].title, "Kept");

    // The soft-deleted book's chapters stay addressable.
    let ch = added_chapter(&mut store, gone.id, "L", "h", "c");
    let rows = get_chapter(&store, gone.id, ch.to_string());
    assert!(rows.success);
    assert_eq!(rows.data.expect("rows").len(), 1);
}

#[test]
fn deleting_absent_book_matches_no_row() {
    let mut store = fresh_store();
    let resp = delete_book(&mut store, 42);
    assert!(resp.success);
    assert_eq!(resp.data, Some(0));
}

#[test]
fn first_chapter_is_first_inserted() {
    let mut store = fresh_store();
    let book = added_book(&mut store, "B", "A", "D", "");
    let c1 = added_chapter(&mut store, book.id, "zeta", "z.html", "late alphabet, first in");
    let c2 = added_chapter(&mut store, book.id, "alpha", "a.html", "early alphabet, second in");
    let c3 = added_chapter(&mut store, book.id, "mid", "m.html", "third in");
    assert!(c1 < c2 && c2 < c3);

    let first = get_first_chapter(&store, book.id);
    assert!(first.success);
    let rows = first.data.expect("rows");
    assert_eq!(rows.len(), 1);
    assert_eq!(rows[0].id, c1);
    assert_eq!(rows[0].label, "zeta");
}

#[test]
fn first_chapter_of_bookless_id_is_empty() {
    let store = fresh_store();
    let resp = get_first_chapter(&store, 7);
    assert!(resp.success);
    assert_eq!(resp.data.expect("rows").len(), 0);
}

#[test]
fn update_chapter_is_idempotent() {
    let mut store = fresh_store();
    let book = added_book(&mut store, "B", "A", "D", "");
    let ch = added_chapter(&mut store, book.id, "old", "h.html", "old body");

    let once = update_chapter(&mut store, ch, "new".to_string(), "new body".to_string());
    assert!(once.success);
    assert_eq!(once.data, Some(1));
    let after_once = get_chapter(&store, book.id, ch.to_string());
    let rows_once = after_once.data.expect("rows");

    let twice = update_chapter(&mut store, ch, "new".to_string(), "new body".to_string());
    assert!(twice.success);
    assert_eq!(twice.data, Some(1));
    let after_twice = get_chapter(&store, book.id, ch.to_string());
    let rows_twice = after_twice.data.expect("rows");

    assert_eq!(rows_once.len(), 1);
    assert_eq!(rows_twice.len(), 1);
    assert_eq!(rows_once[0].label, "new");
    assert_eq!(rows_once[0].content, "new body");
    assert_eq!(rows_twice[0].label, rows_once[0].label);
    assert_eq!(rows_twice[0].content, rows_once[0].content);
    assert_eq!(rows_twice[0].href, "h.html");
}

#[test]
fn updating_absent_chapter_matches_no_row() {
    let mut store = fresh_store();
    let resp = update_chapter(&mut store, 8, "l".to_string(), "c".to_string());
    assert!(resp.success);
    assert_eq!(resp.data, Some(0));
}

#[test]
fn updating_toc_of_absent_book_matches_no_row() {
    let mut store = fresh_store();
    let resp = update_toc(&mut store, 3, "<toc/>".to_string());
    assert!(resp.success);
    assert_eq!(resp.data, Some(0));
}

#[test]
fn sequential_chapter_ids_distinct_and_none_lost() {
    let mut store = fresh_store();
    let book = added_book(&mut store, "B", "A", "D", "");
    let mut ids: Vec<i64> = Vec::new();
    for n in 0..10 {
        let id = added_chapter(&mut store, book.id, &format!("ch{n}"), "h", "c");
        assert!(!ids.contains(&id), "id {id} handed out twice");
        ids.push(id);
    }
    for id in &ids {
        let resp = get_chapter(&store, book.id, id.to_string());
        assert!(resp.success);
        assert_eq!(resp.data.expect("rows").len(), 1, "chapter {id} lost");
    }
}

#[test]
fn chapter_id_text_that_no_id_bears_selects_nothing() {
    let mut store = fresh_store();
    let book = added_book(&mut store, "B", "A", "D", "");
    let ch = added_chapter(&mut store, book.id, "L", "h", "c");
    assert_eq!(ch, 1);

    for text in ["abc", "", "1x", "-1", " 1", "99999999999999999999999999"] {
        let resp = get_chapter(&store, book.id, text.to_string());
        assert!(resp.success, "lookup with {text:?} should succeed");
        assert_eq!(resp.data.expect("rows").len(), 0, "lookup with {text:?} should be empty");
    }

    // Leading zeros still read as the same id.
    let padded = get_chapter(&store, book.id, "001".to_string());
    assert!(padded.success);
    assert_eq!(padded.data.expect("rows").len(), 1);
}

#[test]
fn envelope_carries_exactly_one_side() {
    let ok: DbResponse<i64> = DbResponse::success(7);
    assert!(ok.success);
    assert_eq!(ok.data, Some(7));
    assert!(ok.error.is_none());

    let bad: DbResponse<i64> = DbResponse::error("constraint failed".to_string());
    assert!(!bad.success);
    assert!(bad.data.is_none());
    assert_eq!(bad.error, Some("constraint failed".to_string()));
}

#[test]
fn init_db_reports_unusable_path() {
    let r = init_db("/no-such-directory-for-bookshelf/books.db");
    match r {
        Ok(_) => panic!("opening under a missing directory must fail"),
        Err(message) => assert!(!message.is_empty()),
    }
}

#[test]
fn chapters_scoped_to_their_book() {
    let mut store = fresh_store();
    let first = added_book(&mut store, "B1", "A", "D", "");
    let second = added_book(&mut store, "B2", "A", "D", "");
    let ch = added_chapter(&mut store, first.id, "L", "h", "c");

    let wrong_book = get_chapter(&store, second.id, ch.to_string());
    assert!(wrong_book.success);
    assert_eq!(wrong_book.data.expect("rows").len(), 0);

    let right_book = get_chapter(&store, first.id, ch.to_string());
    assert!(right_book.success);
    let rows = right_book.data.expect("rows");
    assert_eq!(rows.len(), 1);
    let Chapter { id, book_id, .. } = &rows[0];
    assert_eq!(*id, ch);
    assert_eq!(*book_id, first.id);
}
