//! The store and its two repositories.
//!
//! A `Store` owns the single connection; mutual exclusion is the caller's
//! concern — exclusive access is what `&mut Store` says, and a process that
//! shares one store across tasks puts it behind a lock and passes each
//! operation the exclusive borrow it needs. Every operation here is one
//! atomic statement: it returns the uniform envelope, with engine failures
//! mapped to the envelope's error field, and a failed statement leaves the
//! rows exactly as they were.

use vstd::prelude::*;
use crate::clock::get_current_time_string;
use crate::envelope::DbResponse;
use crate::model::Book;
use crate::model::BookRow;
use crate::model::Chapter;
use crate::model::ChapterRow;
use crate::model::active_rows;
use crate::model::book_deleted;
use crate::model::book_ids;
use crate::model::book_row_count;
use crate::model::books_match_rows;
use crate::model::chapter_ids;
use crate::model::chapter_matches_row;
use crate::model::chapter_row_count;
use crate::model::chapter_updated;
use crate::model::chapters_match_rows;
use crate::model::chapters_of;
use crate::model::chapters_with_ids;
use crate::model::id_below;
use crate::model::ids_in_range;
use crate::model::ids_increasing;
use crate::model::lemma_book_ids_push;
use crate::model::lemma_chapter_ids_push;
use crate::model::lemma_chapter_update_keeps_ids;
use crate::model::lemma_delete_keeps_ids;
use crate::model::lemma_push_in_range;
use crate::model::lemma_push_increasing;
use crate::model::lemma_toc_update_keeps_ids;
use crate::model::toc_updated;
use crate::sqlite;
use crate::text::all_digits;
use crate::text::dec_val;
use crate::text::is_dec_string;
use crate::text::parse_dec_i64;

verus! {

/// The single shared connection to the embedded database, as a value:
/// whoever holds the store exclusively may run one operation on it.
pub struct Store {
    conn: rusqlite::Connection,
}

impl Store {
    /// The book rows this store holds, in ascending id order.
    pub closed spec fn books(&self) -> Seq<BookRow> {
        sqlite::book_rows(self.conn)
    }

    /// The chapter rows this store holds, in ascending id order.
    pub closed spec fn chapters(&self) -> Seq<ChapterRow> {
        sqlite::chapter_rows(self.conn)
    }

    /// The largest book id ever assigned; 0 while none was.
    pub closed spec fn book_seq(&self) -> int {
        sqlite::book_seq(self.conn)
    }

    /// The largest chapter id ever assigned; 0 while none was.
    pub closed spec fn chapter_seq(&self) -> int {
        sqlite::chapter_seq(self.conn)
    }

    /// Both id columns hold positive ids the id type can carry, strictly
    /// ascending: each was assigned on insertion, above every id before
    /// it, and ids are never reused.
    pub open spec fn wf(&self) -> bool {
        &&& ids_increasing(book_ids(self.books()))
        &&& ids_in_range(book_ids(self.books()))
        &&& ids_increasing(chapter_ids(self.chapters()))
        &&& ids_in_range(chapter_ids(self.chapters()))
    }
}

/// The rows a chapter lookup with id text `id_text` addresses: those
/// matching the composite key when the text reads as a base-ten id, and
/// none otherwise — text no chapter id can bear selects nothing.
pub open spec fn chapter_selection(rows: Seq<ChapterRow>, book_id: int, id_text: Seq<char>) -> Seq<ChapterRow> {
    if id_text.len() > 0 && all_digits(id_text) && dec_val(id_text) <= i64::MAX {
        chapters_with_ids(rows, book_id, dec_val(id_text))
    } else {
        Seq::<ChapterRow>::empty()
    }
}

/// Opens (or creates) the database file at `path` — the directory holding
/// it must already exist — switches the journal to write-ahead logging and
/// idempotently creates the two tables. Every failure here is fatal: the
/// engine's message is returned and no store is handed out, so a connection
/// whose journal mode could not be set is never used. An existing file
/// keeps all its rows, and the store it backs is well-formed: the schema's
/// primary keys make the ids unique and ascending. Runs once per process,
/// before any repository call.
pub fn init_db(path: &str) -> (r: Result<Store, String>)
    ensures
        r matches Ok(s) ==> s.wf(),
{
    let mut conn = match sqlite::open_db_file(path) {
        Ok(c) => c,
        Err(e) => {
            return Err(sqlite::error_message(&e));
        },
    };
    match sqlite::enable_wal(&mut conn) {
        Ok(_) => {},
        Err(e) => {
            return Err(sqlite::error_message(&e));
        },
    }
    match sqlite::create_tables(&mut conn) {
        Ok(_) => {},
        Err(e) => {
            return Err(sqlite::error_message(&e));
        },
    }
    Ok(Store { conn })
}

/// A store backed by a fresh private in-memory database with the same
/// schema: it starts with no rows at all, and no id was ever assigned, so
/// the first insertion into either table receives id 1. Write-ahead
/// logging concerns a file and is not set up here.
pub fn init_db_in_memory() -> (r: Result<Store, String>)
    ensures
        r matches Ok(s) ==> {
            &&& s.books().len() == 0
            &&& s.chapters().len() == 0
            &&& s.book_seq() == 0
            &&& s.chapter_seq() == 0
            &&& s.wf()
        },
{
    let mut conn = match sqlite::open_db_in_memory() {
        Ok(c) => c,
        Err(e) => {
            return Err(sqlite::error_message(&e));
        },
    };
    match sqlite::create_tables(&mut conn) {
        Ok(_) => {},
        Err(e) => {
            return Err(sqlite::error_message(&e));
        },
    }
    Ok(Store { conn })
}

/// Inserts a new book with the supplied fields, not deleted, created and
/// updated stamps both set to the current time. On success the row is
/// appended under the next autoincrement id — one above the largest ever
/// assigned, so above every id the table held — and the record echoes the
/// caller-visible fields; on an engine failure nothing changes and the
/// envelope carries the message.
pub fn add_book(store: &mut Store, title: String, author: String, description: String, toc: String) -> (r: DbResponse<Book>)
    ensures
        r.wf(),
        final(store).chapters() == old(store).chapters(),
        final(store).chapter_seq() == old(store).chapter_seq(),
        old(store).wf() ==> final(store).wf(),
        r.success ==> (r.data matches Some(b) && {
            &&& 0 < b.id
            &&& b.id as int == old(store).book_seq() + 1
            &&& final(store).book_seq() == b.id as int
            &&& id_below(book_ids(old(store).books()), b.id as int)
            &&& b.title@ == title@
            &&& b.author@ == author@
            &&& b.description@ == description@
            &&& b.toc@ == toc@
            &&& ({
                let stamp = final(store).books().last().6;
                &&& is_dec_string(stamp)
                &&& final(store).books() == old(store).books().push(
                    (b.id as int, title@, author@, description@, toc@, false, stamp, stamp),
                )
            })
        }),
        !r.success ==> final(store).books() == old(store).books()
            && final(store).book_seq() == old(store).book_seq(),
{
    let now = get_current_time_string();
    let res = sqlite::insert_book(
        &mut store.conn,
        title.as_str(),
        author.as_str(),
        description.as_str(),
        toc.as_str(),
        now.as_str(),
    );
    match res {
        Ok(id) => {
            proof {
                let row = (id as int, title@, author@, description@, toc@, false, now@, now@);
                assert(store.books().last() == row);
                lemma_book_ids_push(old(store).books(), row);
                if old(store).wf() {
                    lemma_push_increasing(book_ids(old(store).books()), id as int);
                    lemma_push_in_range(book_ids(old(store).books()), id as int);
                }
            }
            DbResponse::success(Book { id, title, author, description, toc })
        },
        Err(e) => DbResponse::error(sqlite::error_message(&e)),
    }
}

/// Lists the books not soft-deleted, in insertion (ascending id) order.
/// An empty library is a success with an empty list, never an error.
pub fn get_all_books(store: &Store) -> (r: DbResponse<Vec<Book>>)
    ensures
        r.wf(),
        r.success ==> (r.data matches Some(v) && books_match_rows(v@, active_rows(store.books()))),
{
    match sqlite::select_active_books(&store.conn) {
        Ok(v) => DbResponse::success(v),
        Err(e) => DbResponse::error(sqlite::error_message(&e)),
    }
}

/// Inserts a chapter under `book_id` — which is not checked against the
/// book table — with both stamps set to the current time, and returns the
/// assigned id: the next autoincrement id, one above the largest ever
/// assigned, so above every chapter id the table held.
pub fn add_chapter(store: &mut Store, book_id: i64, label: String, href: String, content: String) -> (r: DbResponse<i64>)
    ensures
        r.wf(),
        final(store).books() == old(store).books(),
        final(store).book_seq() == old(store).book_seq(),
        old(store).wf() ==> final(store).wf(),
        r.success ==> (r.data matches Some(id) && {
            &&& 0 < id
            &&& id as int == old(store).chapter_seq() + 1
            &&& final(store).chapter_seq() == id as int
            &&& id_below(chapter_ids(old(store).chapters()), id as int)
            &&& ({
                let stamp = final(store).chapters().last().5;
                &&& is_dec_string(stamp)
                &&& final(store).chapters() == old(store).chapters().push(
                    (id as int, book_id as int, label@, href@, content@, stamp, stamp),
                )
            })
        }),
        !r.success ==> final(store).chapters() == old(store).chapters()
            && final(store).chapter_seq() == old(store).chapter_seq(),
{
    let now = get_current_time_string();
    let res = sqlite::insert_chapter(
        &mut store.conn,
        book_id,
        label.as_str(),
        href.as_str(),
        content.as_str(),
        now.as_str(),
    );
    match res {
        Ok(id) => {
            proof {
                let row = (id as int, book_id as int, label@, href@, content@, now@, now@);
                assert(store.chapters().last() == row);
                lemma_chapter_ids_push(old(store).chapters(), row);
                if old(store).wf() {
                    lemma_push_increasing(chapter_ids(old(store).chapters()), id as int);
                    lemma_push_in_range(chapter_ids(old(store).chapters()), id as int);
                }
            }
            DbResponse::success(id)
        },
        Err(e) => DbResponse::error(sqlite::error_message(&e)),
    }
}

/// Looks a chapter up by its book and its id written as text. The result
/// holds the matching rows — at most one in a well-formed store — and is
/// empty, still a success, when nothing matches; in particular any id text
/// that no stored id can bear selects nothing.
pub fn get_chapter(store: &Store, book_id: i64, id: String) -> (r: DbResponse<Vec<Chapter>>)
    ensures
        r.wf(),
        r.success ==> (r.data matches Some(v) && chapters_match_rows(
            v@,
            chapter_selection(store.chapters(), book_id as int, id@),
        )),
{
    match parse_dec_i64(id.as_str()) {
        Some(chapter_id) => match sqlite::select_chapter(&store.conn, book_id, chapter_id) {
            Ok(v) => DbResponse::success(v),
            Err(e) => DbResponse::error(sqlite::error_message(&e)),
        },
        None => DbResponse::success(Vec::new()),
    }
}

/// The chapter of `book_id` with the smallest id — the one created first —
/// or an empty result when the book has no chapters.
pub fn get_first_chapter(store: &Store, book_id: i64) -> (r: DbResponse<Vec<Chapter>>)
    ensures
        r.wf(),
        r.success ==> (r.data matches Some(v) && {
            &&& chapters_of(store.chapters(), book_id as int).len() == 0 ==> v@.len() == 0
            &&& chapters_of(store.chapters(), book_id as int).len() > 0 ==> v@.len() == 1
                && chapter_matches_row(v@[0], chapters_of(store.chapters(), book_id as int)[0])
        }),
{
    match sqlite::select_first_chapter(&store.conn, book_id) {
        Ok(v) => DbResponse::success(v),
        Err(e) => DbResponse::error(sqlite::error_message(&e)),
    }
}

/// Replaces the table of contents of book `id` and refreshes its update
/// stamp to the current time; the creation stamp and every other field
/// stand. The envelope reports how many rows matched: one for a stored id,
/// zero for an absent one — absence is not an error.
pub fn update_toc(store: &mut Store, id: i64, toc: String) -> (r: DbResponse<i64>)
    ensures
        r.wf(),
        final(store).chapters() == old(store).chapters(),
        final(store).book_seq() == old(store).book_seq(),
        final(store).chapter_seq() == old(store).chapter_seq(),
        old(store).wf() ==> final(store).wf(),
        r.success ==> (r.data matches Some(n) && {
            &&& n as int == book_row_count(old(store).books(), id as int)
            &&& exists|stamp: Seq<char>|
                is_dec_string(stamp) && final(store).books() == #[trigger] toc_updated(
                    old(store).books(),
                    id as int,
                    toc@,
                    stamp,
                )
        }),
        !r.success ==> final(store).books() == old(store).books(),
{
    let now = get_current_time_string();
    match sqlite::update_book_toc(&mut store.conn, id, toc.as_str(), now.as_str()) {
        Ok(n) => {
            proof {
                lemma_toc_update_keeps_ids(old(store).books(), id as int, toc@, now@);
            }
            DbResponse::success(n as i64)
        },
        Err(e) => DbResponse::error(sqlite::error_message(&e)),
    }
}

/// Soft-deletes book `id`: the row keeps its fields and its chapters, gets
/// a fresh update stamp, and leaves every active listing. The envelope
/// reports how many rows matched, with the same zero-on-absence reading as
/// `update_toc`.
pub fn delete_book(store: &mut Store, id: i64) -> (r: DbResponse<i64>)
    ensures
        r.wf(),
        final(store).chapters() == old(store).chapters(),
        final(store).book_seq() == old(store).book_seq(),
        final(store).chapter_seq() == old(store).chapter_seq(),
        old(store).wf() ==> final(store).wf(),
        r.success ==> (r.data matches Some(n) && {
            &&& n as int == book_row_count(old(store).books(), id as int)
            &&& exists|stamp: Seq<char>|
                is_dec_string(stamp) && final(store).books() == #[trigger] book_deleted(
                    old(store).books(),
                    id as int,
                    stamp,
                )
        }),
        !r.success ==> final(store).books() == old(store).books(),
{
    let now = get_current_time_string();
    match sqlite::mark_book_deleted(&mut store.conn, id, now.as_str()) {
        Ok(n) => {
            proof {
                lemma_delete_keeps_ids(old(store).books(), id as int, now@);
            }
            DbResponse::success(n as i64)
        },
        Err(e) => DbResponse::error(sqlite::error_message(&e)),
    }
}

/// Replaces the label and content of chapter `id` and refreshes its update
/// stamp to the current time; the creation stamp, the href, the owning book
/// and every other row stand. The envelope reports how many rows matched,
/// with the same zero-on-absence reading as `update_toc`.
pub fn update_chapter(store: &mut Store, id: i64, label: String, content: String) -> (r: DbResponse<i64>)
    ensures
        r.wf(),
        final(store).books() == old(store).books(),
        final(store).book_seq() == old(store).book_seq(),
        final(store).chapter_seq() == old(store).chapter_seq(),
        old(store).wf() ==> final(store).wf(),
        r.success ==> (r.data matches Some(n) && {
            &&& n as int == chapter_row_count(old(store).chapters(), id as int)
            &&& exists|stamp: Seq<char>|
                is_dec_string(stamp) && final(store).chapters() == #[trigger] chapter_updated(
                    old(store).chapters(),
                    id as int,
                    label@,
                    content@,
                    stamp,
                )
        }),
        !r.success ==> final(store).chapters() == old(store).chapters(),
{
    let now = get_current_time_string();
    match sqlite::update_chapter_row(&mut store.conn, id, label.as_str(), content.as_str(), now.as_str()) {
        Ok(n) => {
            proof {
                lemma_chapter_update_keeps_ids(old(store).chapters(), id as int, label@, content@, now@);
            }
            DbResponse::success(n as i64)
        },
        Err(e) => DbResponse::error(sqlite::error_message(&e)),
    }
}

} // verus!
