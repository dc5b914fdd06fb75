//! The trusted boundary around the embedded database.
//!
//! Every SQL statement the library issues lives here, in exactly one wrapper
//! whose contract states what the statement does to the two tables. The
//! tables' contents are given names (`book_rows`, `chapter_rows`): sequences
//! of plain rows in ascending `id` order, which is also insertion order —
//! both `id` columns are `INTEGER PRIMARY KEY AUTOINCREMENT` rowid aliases,
//! so ids are unique positive 64-bit integers, and an inserted row takes an
//! id strictly above every id the table has ever held and never reused. The
//! autoincrement counters themselves are named too (`book_seq`,
//! `chapter_seq`), so that a contract can say which id an insertion assigns.
//!
//! These contracts read the database as this library shapes it: two tables
//! of the schema `create_tables` issues, with rowid-aliased primary keys, no
//! triggers, and no other writer on the connection. A file bearing a foreign
//! schema — an `ee_book` or `ee_chapter` of other columns, or a stored
//! trigger that writes to either table — is outside what the wrappers
//! promise; nothing here can check a file against that assumption.

use vstd::prelude::*;
use crate::model::Book;
use crate::model::BookRow;
use crate::model::Chapter;
use crate::model::ChapterRow;
use crate::model::book_ids;
use crate::model::book_row_count;
use crate::model::book_deleted;
use crate::model::books_match_rows;
use crate::model::active_rows;
use crate::model::chapter_ids;
use crate::model::chapter_row_count;
use crate::model::chapter_updated;
use crate::model::chapters_match_rows;
use crate::model::chapters_of;
use crate::model::chapters_with_ids;
use crate::model::id_below;
use crate::model::ids_in_range;
use crate::model::ids_increasing;
use crate::model::toc_updated;

verus! {

#[verifier::external_type_specification]
#[verifier::external_body]
pub struct ExConnection(rusqlite::Connection);

#[verifier::external_type_specification]
#[verifier::external_body]
pub struct ExSqliteError(rusqlite::Error);

/// The rows of the `ee_book` table held by this connection, in ascending
/// `id` order: (id, title, author, description, toc, is_deleted,
/// created_at, updated_at). Empty while the table does not exist.
pub uninterp spec fn book_rows(c: rusqlite::Connection) -> Seq<BookRow>;

/// The rows of the `ee_chapter` table held by this connection, in ascending
/// `id` order: (id, book_id, label, href, content, created_at, updated_at).
/// Empty while the table does not exist.
pub uninterp spec fn chapter_rows(c: rusqlite::Connection) -> Seq<ChapterRow>;

/// The autoincrement counter of `ee_book`: the largest id the table has
/// ever held — what the engine records in `sqlite_sequence` — and 0 while
/// it has never held a row.
pub uninterp spec fn book_seq(c: rusqlite::Connection) -> int;

/// The autoincrement counter of `ee_chapter`, read as `book_seq` is.
pub uninterp spec fn chapter_seq(c: rusqlite::Connection) -> int;

/// Relies on `rusqlite::Connection::open`: opens, or creates, the database
/// file at `path`. An existing file keeps whatever rows it holds; all that
/// is assumed of them is what the schema enforces — the id columns are
/// rowid-aliased primary keys, so the ids are unique positive 64-bit
/// integers, strictly ascending under the names' reading.
#[verifier::external_body]
pub(crate) fn open_db_file(path: &str) -> (r: Result<rusqlite::Connection, rusqlite::Error>)
    ensures
        r matches Ok(c) ==> {
            &&& ids_increasing(book_ids(book_rows(c)))
            &&& ids_in_range(book_ids(book_rows(c)))
            &&& ids_increasing(chapter_ids(chapter_rows(c)))
            &&& ids_in_range(chapter_ids(chapter_rows(c)))
        },
{
    rusqlite::Connection::open(path)
}

/// Relies on `rusqlite::Connection::open_in_memory`: a fresh in-memory
/// database holds no tables, hence no rows, and no id was ever assigned.
#[verifier::external_body]
pub(crate) fn open_db_in_memory() -> (r: Result<rusqlite::Connection, rusqlite::Error>)
    ensures
        r matches Ok(c) ==> {
            &&& book_rows(c) == Seq::<BookRow>::empty()
            &&& chapter_rows(c) == Seq::<ChapterRow>::empty()
            &&& book_seq(c) == 0
            &&& chapter_seq(c) == 0
        },
{
    rusqlite::Connection::open_in_memory()
}

/// Relies on `rusqlite::Connection::pragma_update`: switching the journal
/// mode tunes durability and concurrency but touches no table row and no
/// counter.
#[verifier::external_body]
pub(crate) fn enable_wal(conn: &mut rusqlite::Connection) -> (r: Result<(), rusqlite::Error>)
    ensures
        book_rows(*final(conn)) == book_rows(*old(conn)),
        chapter_rows(*final(conn)) == chapter_rows(*old(conn)),
        book_seq(*final(conn)) == book_seq(*old(conn)),
        chapter_seq(*final(conn)) == chapter_seq(*old(conn)),
{
    conn.pragma_update(None, "journal_mode", "WAL")
}

/// Relies on `rusqlite::Connection::execute_batch` with two
/// `CREATE TABLE IF NOT EXISTS` statements: creating an absent table leaves
/// it empty, and an existing table is left exactly as it stands, so the
/// named rows and counters are unchanged either way.
#[verifier::external_body]
pub(crate) fn create_tables(conn: &mut rusqlite::Connection) -> (r: Result<(), rusqlite::Error>)
    ensures
        book_rows(*final(conn)) == book_rows(*old(conn)),
        chapter_rows(*final(conn)) == chapter_rows(*old(conn)),
        book_seq(*final(conn)) == book_seq(*old(conn)),
        chapter_seq(*final(conn)) == chapter_seq(*old(conn)),
{
    conn.execute_batch(
        "CREATE TABLE IF NOT EXISTS ee_book (id INTEGER PRIMARY KEY AUTOINCREMENT, \
         title TEXT, author TEXT, description TEXT, toc TEXT, isDel INTEGER, \
         createTime TEXT, updateTime TEXT); \
         CREATE TABLE IF NOT EXISTS ee_chapter (id INTEGER PRIMARY KEY AUTOINCREMENT, \
         bookId INTEGER, label TEXT, href TEXT, content TEXT, \
         createTime TEXT, updateTime TEXT);",
    )
}

/// Relies on `rusqlite::Connection::execute` with `INSERT INTO ee_book`, and
/// on `Connection::last_insert_rowid` for the id the engine assigned: on
/// success exactly one row is appended, not deleted, both stamps set to
/// `now`, under the autoincrement id — one above the largest id the table
/// ever held, hence strictly above every current id; a failed single
/// statement changes nothing.
#[verifier::external_body]
pub(crate) fn insert_book(
    conn: &mut rusqlite::Connection,
    title: &str,
    author: &str,
    description: &str,
    toc: &str,
    now: &str,
) -> (r: Result<i64, rusqlite::Error>)
    ensures
        r matches Ok(id) ==> {
            &&& 0 < id
            &&& id as int == book_seq(*old(conn)) + 1
            &&& book_seq(*final(conn)) == id as int
            &&& id_below(book_ids(book_rows(*old(conn))), id as int)
            &&& book_rows(*final(conn)) == book_rows(*old(conn)).push(
                (id as int, title@, author@, description@, toc@, false, now@, now@),
            )
            &&& chapter_rows(*final(conn)) == chapter_rows(*old(conn))
            &&& chapter_seq(*final(conn)) == chapter_seq(*old(conn))
        },
        r is Err ==> {
            &&& book_rows(*final(conn)) == book_rows(*old(conn))
            &&& chapter_rows(*final(conn)) == chapter_rows(*old(conn))
            &&& book_seq(*final(conn)) == book_seq(*old(conn))
            &&& chapter_seq(*final(conn)) == chapter_seq(*old(conn))
        },
{
    let res = conn.execute(
        "INSERT INTO ee_book (title, author, description, toc, isDel, createTime, updateTime) \
         VALUES (?, ?, ?, ?, 0, ?, ?)",
        (title, author, description, toc, now, now),
    );
    match res {
        Ok(_) => Ok(conn.last_insert_rowid()),
        Err(e) => Err(e),
    }
}

/// Relies on `rusqlite::Connection::execute` with `INSERT INTO ee_chapter`,
/// and on `Connection::last_insert_rowid`: as for a book row — one row
/// appended under its book, both stamps set to `now`, under the
/// autoincrement id one above the largest the table ever held; a failed
/// single statement changes nothing.
#[verifier::external_body]
pub(crate) fn insert_chapter(
    conn: &mut rusqlite::Connection,
    book_id: i64,
    label: &str,
    href: &str,
    content: &str,
    now: &str,
) -> (r: Result<i64, rusqlite::Error>)
    ensures
        r matches Ok(id) ==> {
            &&& 0 < id
            &&& id as int == chapter_seq(*old(conn)) + 1
            &&& chapter_seq(*final(conn)) == id as int
            &&& id_below(chapter_ids(chapter_rows(*old(conn))), id as int)
            &&& chapter_rows(*final(conn)) == chapter_rows(*old(conn)).push(
                (id as int, book_id as int, label@, href@, content@, now@, now@),
            )
            &&& book_rows(*final(conn)) == book_rows(*old(conn))
            &&& book_seq(*final(conn)) == book_seq(*old(conn))
        },
        r is Err ==> {
            &&& book_rows(*final(conn)) == book_rows(*old(conn))
            &&& chapter_rows(*final(conn)) == chapter_rows(*old(conn))
            &&& book_seq(*final(conn)) == book_seq(*old(conn))
            &&& chapter_seq(*final(conn)) == chapter_seq(*old(conn))
        },
{
    let res = conn.execute(
        "INSERT INTO ee_chapter (bookId, label, href, content, createTime, updateTime) \
         VALUES (?, ?, ?, ?, ?, ?)",
        (book_id, label, href, content, now, now),
    );
    match res {
        Ok(_) => Ok(conn.last_insert_rowid()),
        Err(e) => Err(e),
    }
}

/// Relies on `rusqlite::Connection::prepare` and `Statement::query_map` with
/// `SELECT ... FROM ee_book WHERE isDel = 0 ORDER BY id ASC`: the result
/// lists, in id order, exactly the rows whose delete flag is clear.
#[verifier::external_body]
pub(crate) fn select_active_books(conn: &rusqlite::Connection) -> (r: Result<
    Vec<Book>,
    rusqlite::Error,
>)
    ensures
        r matches Ok(v) ==> books_match_rows(v@, active_rows(book_rows(*conn))),
{
    let mut stmt = conn.prepare(
        "SELECT id, title, author, description, toc FROM ee_book WHERE isDel = 0 ORDER BY id ASC",
    )?;
    let rows = stmt.query_map([], |row| {
        Ok(Book {
            id: row.get(0)?,
            title: row.get(1)?,
            author: row.get(2)?,
            description: row.get(3)?,
            toc: row.get(4)?,
        })
    })?;
    rows.collect()
}

/// Relies on `rusqlite::Connection::prepare` and `Statement::query_map` with
/// `SELECT ... FROM ee_chapter WHERE bookId = ? AND id = ? ORDER BY id ASC`:
/// the result lists exactly the rows matching the composite key — at most
/// one, since `id` is the primary key, though the contract does not lean on
/// that.
#[verifier::external_body]
pub(crate) fn select_chapter(conn: &rusqlite::Connection, book_id: i64, id: i64) -> (r: Result<
    Vec<Chapter>,
    rusqlite::Error,
>)
    ensures
        r matches Ok(v) ==> chapters_match_rows(
            v@,
            chapters_with_ids(chapter_rows(*conn), book_id as int, id as int),
        ),
{
    let mut stmt = conn.prepare(
        "SELECT id, bookId, label, href, content FROM ee_chapter \
         WHERE bookId = ? AND id = ? ORDER BY id ASC",
    )?;
    let rows = stmt.query_map((book_id, id), |row| {
        Ok(Chapter {
            id: row.get(0)?,
            book_id: row.get(1)?,
            label: row.get(2)?,
            href: row.get(3)?,
            content: row.get(4)?,
        })
    })?;
    rows.collect()
}

/// Relies on `rusqlite::Connection::prepare` and `Statement::query_map` with
/// `SELECT ... FROM ee_chapter WHERE bookId = ? ORDER BY id ASC LIMIT 1`:
/// of the book's chapters, the one with the smallest id — the first element
/// of the book's rows in id order — or nothing when the book has none.
#[verifier::external_body]
pub(crate) fn select_first_chapter(conn: &rusqlite::Connection, book_id: i64) -> (r: Result<
    Vec<Chapter>,
    rusqlite::Error,
>)
    ensures
        r matches Ok(v) ==> ({
            let cands = chapters_of(chapter_rows(*conn), book_id as int);
            &&& cands.len() == 0 ==> v@.len() == 0
            &&& cands.len() > 0 ==> chapters_match_rows(v@, cands.subrange(0, 1))
        }),
{
    let mut stmt = conn.prepare(
        "SELECT id, bookId, label, href, content FROM ee_chapter \
         WHERE bookId = ? ORDER BY id ASC LIMIT 1",
    )?;
    let rows = stmt.query_map((book_id,), |row| {
        Ok(Chapter {
            id: row.get(0)?,
            book_id: row.get(1)?,
            label: row.get(2)?,
            href: row.get(3)?,
            content: row.get(4)?,
        })
    })?;
    rows.collect()
}

/// Relies on `rusqlite::Connection::execute` with `UPDATE ee_book SET toc`:
/// every row matching the id — in a well-formed table at most one — takes
/// the new table of contents and `now` as its update stamp, other rows and
/// the order stand; the count is of matched rows, from `sqlite3_changes`, a
/// 32-bit counter. A failed single statement changes nothing, and no UPDATE
/// touches a counter.
#[verifier::external_body]
pub(crate) fn update_book_toc(
    conn: &mut rusqlite::Connection,
    id: i64,
    toc: &str,
    now: &str,
) -> (r: Result<usize, rusqlite::Error>)
    ensures
        r matches Ok(n) ==> {
            &&& book_rows(*final(conn)) == toc_updated(book_rows(*old(conn)), id as int, toc@, now@)
            &&& n as int == book_row_count(book_rows(*old(conn)), id as int)
            &&& n <= 0x7fff_ffff
            &&& chapter_rows(*final(conn)) == chapter_rows(*old(conn))
        },
        r is Err ==> book_rows(*final(conn)) == book_rows(*old(conn))
            && chapter_rows(*final(conn)) == chapter_rows(*old(conn)),
        book_seq(*final(conn)) == book_seq(*old(conn)),
        chapter_seq(*final(conn)) == chapter_seq(*old(conn)),
{
    conn.execute("UPDATE ee_book SET toc = ?, updateTime = ? WHERE id = ?", (toc, now, id))
}

/// Relies on `rusqlite::Connection::execute` with `UPDATE ee_book SET isDel = 1`:
/// every row matching the id gets its delete flag set and `now` as its
/// update stamp; the row, and the book's chapters, stay on disk. The count
/// and the frame are as in `update_book_toc`.
#[verifier::external_body]
pub(crate) fn mark_book_deleted(conn: &mut rusqlite::Connection, id: i64, now: &str) -> (r: Result<
    usize,
    rusqlite::Error,
>)
    ensures
        r matches Ok(n) ==> {
            &&& book_rows(*final(conn)) == book_deleted(book_rows(*old(conn)), id as int, now@)
            &&& n as int == book_row_count(book_rows(*old(conn)), id as int)
            &&& n <= 0x7fff_ffff
            &&& chapter_rows(*final(conn)) == chapter_rows(*old(conn))
        },
        r is Err ==> book_rows(*final(conn)) == book_rows(*old(conn))
            && chapter_rows(*final(conn)) == chapter_rows(*old(conn)),
        book_seq(*final(conn)) == book_seq(*old(conn)),
        chapter_seq(*final(conn)) == chapter_seq(*old(conn)),
{
    conn.execute("UPDATE ee_book SET isDel = 1, updateTime = ? WHERE id = ?", (now, id))
}

/// Relies on `rusqlite::Connection::execute` with `UPDATE ee_chapter`: every
/// row matching the id takes the new label and content and `now` as its
/// update stamp, other rows and the order stand; the count and the frame
/// are as in `update_book_toc`.
#[verifier::external_body]
pub(crate) fn update_chapter_row(
    conn: &mut rusqlite::Connection,
    id: i64,
    label: &str,
    content: &str,
    now: &str,
) -> (r: Result<usize, rusqlite::Error>)
    ensures
        r matches Ok(n) ==> {
            &&& chapter_rows(*final(conn)) == chapter_updated(
                chapter_rows(*old(conn)),
                id as int,
                label@,
                content@,
                now@,
            )
            &&& n as int == chapter_row_count(chapter_rows(*old(conn)), id as int)
            &&& n <= 0x7fff_ffff
            &&& book_rows(*final(conn)) == book_rows(*old(conn))
        },
        r is Err ==> book_rows(*final(conn)) == book_rows(*old(conn))
            && chapter_rows(*final(conn)) == chapter_rows(*old(conn)),
        book_seq(*final(conn)) == book_seq(*old(conn)),
        chapter_seq(*final(conn)) == chapter_seq(*old(conn)),
{
    conn.execute(
        "UPDATE ee_chapter SET content = ?, label = ?, updateTime = ? WHERE id = ?",
        (content, label, now, id),
    )
}

/// Relies on the `Display` impl of `rusqlite::Error` to describe a failed
/// statement for the envelope's error field.
#[verifier::external_body]
pub(crate) fn error_message(e: &rusqlite::Error) -> (r: String) {
    e.to_string()
}

} // verus!
