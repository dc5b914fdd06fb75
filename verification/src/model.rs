//! The mathematical model of the persisted state, and the records handed to
//! callers.
//!
//! Each table is modelled as a sequence of plain rows in ascending `id`
//! order. A book row carries the five fields the surface reads, the
//! soft-delete flag and the two timestamp columns; a chapter row carries
//! the five fields the surface reads and the two timestamp columns. The
//! timestamps are epoch-seconds numerals: set to the current time on
//! insertion, and the update stamp refreshed by every mutation.

use vstd::prelude::*;

verus! {

/// One persisted book row:
/// (id, title, author, description, toc, is_deleted, created_at, updated_at).
pub type BookRow = (int, Seq<char>, Seq<char>, Seq<char>, Seq<char>, bool, Seq<char>, Seq<char>);

/// One persisted chapter row:
/// (id, book_id, label, href, content, created_at, updated_at).
pub type ChapterRow = (int, int, Seq<char>, Seq<char>, Seq<char>, Seq<char>, Seq<char>);

/// A book record returned to callers: an independent copy of a row's
/// caller-visible fields, with no back-reference to the store.
#[derive(Debug)]
pub struct Book {
    pub id: i64,
    pub title: String,
    pub author: String,
    pub description: String,
    pub toc: String,
}

/// A chapter record returned to callers.
#[derive(Debug)]
pub struct Chapter {
    pub id: i64,
    pub book_id: i64,
    pub label: String,
    pub href: String,
    pub content: String,
}

/// The record `b` carries exactly the caller-visible fields of row `r`.
pub open spec fn book_matches_row(b: Book, r: BookRow) -> bool {
    &&& b.id as int == r.0
    &&& b.title@ == r.1
    &&& b.author@ == r.2
    &&& b.description@ == r.3
    &&& b.toc@ == r.4
}

/// The record `c` carries exactly the caller-visible fields of row `r`.
pub open spec fn chapter_matches_row(c: Chapter, r: ChapterRow) -> bool {
    &&& c.id as int == r.0
    &&& c.book_id as int == r.1
    &&& c.label@ == r.2
    &&& c.href@ == r.3
    &&& c.content@ == r.4
}

/// The records in `v` are, one for one and in order, the rows in `rows`.
pub open spec fn books_match_rows(v: Seq<Book>, rows: Seq<BookRow>) -> bool {
    &&& v.len() == rows.len()
    &&& forall|i: int| 0 <= i < rows.len() ==> book_matches_row(#[trigger] v[i], rows[i])
}

/// The records in `v` are, one for one and in order, the rows in `rows`.
pub open spec fn chapters_match_rows(v: Seq<Chapter>, rows: Seq<ChapterRow>) -> bool {
    &&& v.len() == rows.len()
    &&& forall|i: int| 0 <= i < rows.len() ==> chapter_matches_row(#[trigger] v[i], rows[i])
}

/// The book rows that a default listing shows: those not soft-deleted,
/// in stored order.
pub open spec fn active_rows(rows: Seq<BookRow>) -> Seq<BookRow> {
    rows.filter(|r: BookRow| !r.5)
}

/// The chapter rows that belong to one book, in stored (ascending id) order.
pub open spec fn chapters_of(rows: Seq<ChapterRow>, book_id: int) -> Seq<ChapterRow> {
    rows.filter(|r: ChapterRow| r.1 == book_id)
}

/// The chapter rows selected by the composite (book, chapter id) key.
pub open spec fn chapters_with_ids(rows: Seq<ChapterRow>, book_id: int, id: int) -> Seq<ChapterRow> {
    rows.filter(|r: ChapterRow| r.1 == book_id && r.0 == id)
}

/// The ids of a table of book rows, in stored order.
pub open spec fn book_ids(rows: Seq<BookRow>) -> Seq<int> {
    rows.map_values(|r: BookRow| r.0)
}

/// The ids of a table of chapter rows, in stored order.
pub open spec fn chapter_ids(rows: Seq<ChapterRow>) -> Seq<int> {
    rows.map_values(|r: ChapterRow| r.0)
}

/// The ids are strictly ascending, hence pairwise distinct.
pub open spec fn ids_increasing(ids: Seq<int>) -> bool {
    forall|i: int, j: int| 0 <= i < j < ids.len() ==> ids[i] < ids[j]
}

/// Every id is positive and fits the id type the surface uses.
pub open spec fn ids_in_range(ids: Seq<int>) -> bool {
    forall|i: int| 0 <= i < ids.len() ==> 0 < #[trigger] ids[i] <= i64::MAX
}

/// Every id in `ids` lies strictly below `id`: the mark of a freshly
/// assigned primary key, never reused even after deletion.
pub open spec fn id_below(ids: Seq<int>, id: int) -> bool {
    forall|i: int| 0 <= i < ids.len() ==> ids[i] < id
}

/// How many rows an update addressed to book `id` matches.
pub open spec fn book_row_count(rows: Seq<BookRow>, id: int) -> int {
    rows.filter(|r: BookRow| r.0 == id).len() as int
}

/// How many rows an update addressed to chapter `id` matches.
pub open spec fn chapter_row_count(rows: Seq<ChapterRow>, id: int) -> int {
    rows.filter(|r: ChapterRow| r.0 == id).len() as int
}

/// Row `r` with its table of contents replaced by `toc` and its update
/// stamp refreshed to `stamp`.
pub open spec fn with_toc(r: BookRow, toc: Seq<char>, stamp: Seq<char>) -> BookRow {
    (r.0, r.1, r.2, r.3, toc, r.5, r.6, stamp)
}

/// Every book row matching `id` gets `toc` as its table of contents and
/// `stamp` as its update stamp; all other rows, and the order, are
/// untouched.
pub open spec fn toc_updated(rows: Seq<BookRow>, id: int, toc: Seq<char>, stamp: Seq<char>) -> Seq<BookRow> {
    rows.map_values(|r: BookRow| if r.0 == id { with_toc(r, toc, stamp) } else { r })
}

/// Row `r` with its soft-delete flag set and its update stamp refreshed.
pub open spec fn with_deleted(r: BookRow, stamp: Seq<char>) -> BookRow {
    (r.0, r.1, r.2, r.3, r.4, true, r.6, stamp)
}

/// Every book row matching `id` gets its soft-delete flag set and `stamp`
/// as its update stamp; the row and its chapters stay on disk.
pub open spec fn book_deleted(rows: Seq<BookRow>, id: int, stamp: Seq<char>) -> Seq<BookRow> {
    rows.map_values(|r: BookRow| if r.0 == id { with_deleted(r, stamp) } else { r })
}

/// Row `r` with its label and content replaced and its update stamp
/// refreshed; its creation stamp stands.
pub open spec fn with_contents(r: ChapterRow, label: Seq<char>, content: Seq<char>, stamp: Seq<char>) -> ChapterRow {
    (r.0, r.1, label, r.3, content, r.5, stamp)
}

/// Every chapter row matching `id` gets the new label, content and update
/// stamp; all other rows, and the order, are untouched.
pub open spec fn chapter_updated(rows: Seq<ChapterRow>, id: int, label: Seq<char>, content: Seq<char>, stamp: Seq<char>) -> Seq<ChapterRow> {
    rows.map_values(|r: ChapterRow| if r.0 == id { with_contents(r, label, content, stamp) } else { r })
}

/// Appending a book row appends its id.
pub proof fn lemma_book_ids_push(rows: Seq<BookRow>, r: BookRow)
    ensures
        book_ids(rows.push(r)) == book_ids(rows).push(r.0),
{
    assert(book_ids(rows.push(r)) =~= book_ids(rows).push(r.0));
}

/// Appending a chapter row appends its id.
pub proof fn lemma_chapter_ids_push(rows: Seq<ChapterRow>, r: ChapterRow)
    ensures
        chapter_ids(rows.push(r)) == chapter_ids(rows).push(r.0),
{
    assert(chapter_ids(rows.push(r)) =~= chapter_ids(rows).push(r.0));
}

/// An id above every id of an ascending sequence extends it ascending.
pub proof fn lemma_push_increasing(ids: Seq<int>, id: int)
    requires
        ids_increasing(ids),
        id_below(ids, id),
    ensures
        ids_increasing(ids.push(id)),
{
    let ids1 = ids.push(id);
    assert forall|i: int, j: int| 0 <= i < j < ids1.len() implies ids1[i] < ids1[j] by {
        if j < ids.len() {
            assert(ids[i] < ids[j]);
        } else {
            assert(ids1[j] == id);
            assert(ids[i] < id);
        }
    }
}

/// An id the surface can hold extends an in-range sequence in range.
pub proof fn lemma_push_in_range(ids: Seq<int>, id: int)
    requires
        ids_in_range(ids),
        0 < id <= i64::MAX,
    ensures
        ids_in_range(ids.push(id)),
{
    let ids1 = ids.push(id);
    assert forall|i: int| 0 <= i < ids1.len() implies 0 < #[trigger] ids1[i] <= i64::MAX by {
        if i < ids.len() {
            assert(0 < ids[i] <= i64::MAX);
        }
    }
}

/// Updating a book's table of contents touches no id.
pub proof fn lemma_toc_update_keeps_ids(rows: Seq<BookRow>, id: int, toc: Seq<char>, stamp: Seq<char>)
    ensures
        book_ids(toc_updated(rows, id, toc, stamp)) == book_ids(rows),
{
    assert(book_ids(toc_updated(rows, id, toc, stamp)) =~= book_ids(rows));
}

/// Soft-deleting a book touches no id.
pub proof fn lemma_delete_keeps_ids(rows: Seq<BookRow>, id: int, stamp: Seq<char>)
    ensures
        book_ids(book_deleted(rows, id, stamp)) == book_ids(rows),
{
    assert(book_ids(book_deleted(rows, id, stamp)) =~= book_ids(rows));
}

/// Updating a chapter's label and content touches no id.
pub proof fn lemma_chapter_update_keeps_ids(rows: Seq<ChapterRow>, id: int, label: Seq<char>, content: Seq<char>, stamp: Seq<char>)
    ensures
        chapter_ids(chapter_updated(rows, id, label, content, stamp)) == chapter_ids(rows),
{
    assert(chapter_ids(chapter_updated(rows, id, label, content, stamp)) =~= chapter_ids(rows));
}

} // verus!
