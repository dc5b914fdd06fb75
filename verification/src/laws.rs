//! The properties the surface promises as a whole, stated over the model
//! and proved once and for all: they relate several operations, so they
//! stand here rather than in any one contract.

use vstd::prelude::*;
use crate::model::BookRow;
use crate::model::ChapterRow;
use crate::model::active_rows;
use crate::model::book_ids;
use crate::model::chapter_ids;
use crate::model::chapter_updated;
use crate::model::chapters_of;
use crate::model::id_below;
use crate::model::ids_increasing;

verus! {

/// A sequence all of whose elements pass the test filters to itself.
proof fn lemma_filter_all_true<A>(s: Seq<A>, pred: spec_fn(A) -> bool)
    requires
        forall|i: int| 0 <= i < s.len() ==> pred(#[trigger] s[i]),
    ensures
        s.filter(pred) == s,
    decreases s.len(),
{
    reveal(Seq::filter);
    if s.len() > 0 {
        lemma_filter_all_true(s.drop_last(), pred);
        assert(s.drop_last().push(s.last()) =~= s);
    }
}

/// Every element of a filtered sequence is an element of the original.
proof fn lemma_filter_element_of<A>(s: Seq<A>, pred: spec_fn(A) -> bool, i: int)
    requires
        0 <= i < s.filter(pred).len(),
    ensures
        s.contains(s.filter(pred)[i]),
    decreases s.len(),
{
    reveal(Seq::filter);
    if s.len() > 0 {
        let sub = s.drop_last().filter(pred);
        if i < sub.len() {
            lemma_filter_element_of(s.drop_last(), pred, i);
            let k = choose|k: int| 0 <= k < s.drop_last().len() && s.drop_last()[k] == sub[i];
            assert(s[k] == s.filter(pred)[i]);
        } else {
            assert(s.filter(pred)[i] == s.last());
        }
    }
}

/// Law: a book just added — not soft-deleted, its id above every id the
/// table held — stands in the active listing, and every listed row bearing
/// its id is that very row: the listing shows it exactly once, with the
/// supplied fields.
pub proof fn lemma_added_book_listed_once(rows: Seq<BookRow>, r: BookRow)
    requires
        id_below(book_ids(rows), r.0),
        !r.5,
    ensures
        active_rows(rows.push(r)) == active_rows(rows).push(r),
        active_rows(rows.push(r)).contains(r),
        forall|i: int| 0 <= i < active_rows(rows.push(r)).len()
            && (#[trigger] active_rows(rows.push(r))[i]).0 == r.0
            ==> active_rows(rows.push(r))[i] == r,
{
    let pred = |x: BookRow| !x.5;
    let one = seq![r];
    assert(rows.push(r) =~= rows + one);
    Seq::filter_distributes_over_add(rows, one, pred);
    lemma_filter_all_true(one, pred);
    assert(active_rows(rows.push(r)) =~= active_rows(rows).push(r));
    let act = active_rows(rows.push(r));
    assert(act[act.len() - 1] == r);
    assert(act.contains(r));
    assert forall|i: int| 0 <= i < act.len() && (#[trigger] act[i]).0 == r.0 implies act[i] == r by {
        if i < act.len() - 1 {
            lemma_filter_element_of(rows, pred, i);
            let k = choose|k: int| 0 <= k < rows.len() && rows[k] == act[i];
            assert(book_ids(rows)[k] == act[i].0);
        }
    }
}

/// Law: soft-delete semantics — no row of the active listing has its
/// delete flag set, whatever its other fields hold.
pub proof fn lemma_active_books_not_deleted(rows: Seq<BookRow>)
    ensures
        forall|i: int| 0 <= i < active_rows(rows).len() ==> !(#[trigger] active_rows(rows)[i]).5,
{
    let pred = |x: BookRow| !x.5;
    assert forall|i: int| 0 <= i < active_rows(rows).len() implies !(#[trigger] active_rows(
        rows,
    )[i]).5 by {
        rows.lemma_filter_pred(pred, i);
    }
}

/// Law: a soft-deleted row never appears in the active listing.
pub proof fn lemma_deleted_book_not_listed(rows: Seq<BookRow>, k: int)
    requires
        0 <= k < rows.len(),
        rows[k].5,
    ensures
        !active_rows(rows).contains(rows[k]),
{
    lemma_active_books_not_deleted(rows);
    if active_rows(rows).contains(rows[k]) {
        let i = choose|i: int| 0 <= i < active_rows(rows).len() && active_rows(rows)[i] == rows[k];
        assert(!active_rows(rows)[i].5);
    }
}

/// Appending one chapter row extends the book's chapters by that row when
/// it belongs to the book, and leaves them unchanged when it does not.
proof fn lemma_chapters_of_push(rows: Seq<ChapterRow>, r: ChapterRow, book_id: int)
    ensures
        r.1 == book_id ==> chapters_of(rows.push(r), book_id) == chapters_of(rows, book_id).push(r),
        r.1 != book_id ==> chapters_of(rows.push(r), book_id) == chapters_of(rows, book_id),
{
    reveal(Seq::filter);
    assert(rows.push(r).drop_last() =~= rows);
    assert(rows.push(r).last() == r);
}

/// A book none of whose rows are present has no chapters.
proof fn lemma_chapters_of_none(rows: Seq<ChapterRow>, book_id: int)
    requires
        forall|i: int| 0 <= i < rows.len() ==> (#[trigger] rows[i]).1 != book_id,
    ensures
        chapters_of(rows, book_id) == Seq::<ChapterRow>::empty(),
    decreases rows.len(),
{
    reveal(Seq::filter);
    if rows.len() > 0 {
        lemma_chapters_of_none(rows.drop_last(), book_id);
    }
}

/// A run of rows all belonging to the book filters to itself.
proof fn lemma_chapters_of_all(rows: Seq<ChapterRow>, book_id: int)
    requires
        forall|i: int| 0 <= i < rows.len() ==> (#[trigger] rows[i]).1 == book_id,
    ensures
        chapters_of(rows, book_id) == rows,
    decreases rows.len(),
{
    reveal(Seq::filter);
    if rows.len() > 0 {
        lemma_chapters_of_all(rows.drop_last(), book_id);
        assert(rows.drop_last().push(rows.last()) =~= rows);
    }
}

/// A book's chapters within appended tables are the appended chapter runs.
proof fn lemma_chapters_of_split(rows: Seq<ChapterRow>, more: Seq<ChapterRow>, book_id: int)
    ensures
        chapters_of(rows + more, book_id) == chapters_of(rows, book_id) + chapters_of(
            more,
            book_id,
        ),
    decreases more.len(),
{
    reveal(Seq::filter);
    if more.len() == 0 {
        assert(rows + more =~= rows);
        assert(chapters_of(rows, book_id) + chapters_of(more, book_id) =~= chapters_of(
            rows,
            book_id,
        ));
    } else {
        let rest = more.drop_last();
        let last = more.last();
        lemma_chapters_of_split(rows, rest, book_id);
        assert(rows + more =~= (rows + rest).push(last));
        lemma_chapters_of_push(rows + rest, last, book_id);
        lemma_chapters_of_push(rest, last, book_id);
        assert(rest.push(last) =~= more);
        if last.1 == book_id {
            assert(chapters_of(rows, book_id) + chapters_of(rest, book_id).push(last)
                =~= (chapters_of(rows, book_id) + chapters_of(rest, book_id)).push(last));
        }
    }
}

/// Law: when all of a book's chapters were appended in one run — the book
/// had none before — the book's chapters are exactly the appended ones in
/// order, so the first chapter is the one appended first; and with
/// ascending ids, the first appended also bears the smallest id.
pub proof fn lemma_first_chapter_is_first_added(rows: Seq<ChapterRow>, added: Seq<ChapterRow>, book_id: int)
    requires
        forall|i: int| 0 <= i < rows.len() ==> (#[trigger] rows[i]).1 != book_id,
        forall|i: int| 0 <= i < added.len() ==> (#[trigger] added[i]).1 == book_id,
    ensures
        chapters_of(rows + added, book_id) == added,
{
    lemma_chapters_of_split(rows, added, book_id);
    lemma_chapters_of_none(rows, book_id);
    lemma_chapters_of_all(added, book_id);
    assert(chapters_of(rows, book_id) + chapters_of(added, book_id) =~= added);
}

/// Law: updating a chapter's label and content is idempotent — applying
/// the update twice with the same arguments leaves exactly the rows of
/// applying it once at the second time; only the update stamp may differ
/// between the two runs, and it is the later stamp either way.
pub proof fn lemma_update_chapter_idempotent(rows: Seq<ChapterRow>, id: int, label: Seq<char>, content: Seq<char>, stamp1: Seq<char>, stamp2: Seq<char>)
    ensures
        chapter_updated(chapter_updated(rows, id, label, content, stamp1), id, label, content, stamp2)
            == chapter_updated(rows, id, label, content, stamp2),
{
    let once = chapter_updated(rows, id, label, content, stamp2);
    let twice = chapter_updated(chapter_updated(rows, id, label, content, stamp1), id, label, content, stamp2);
    assert(twice =~= once);
}

/// Law: strictly ascending ids are pairwise distinct — every insertion
/// hands out an id no other row bears, and since insertions only ever
/// append, none of a run of inserted rows is lost.
pub proof fn lemma_increasing_ids_distinct(ids: Seq<int>)
    requires
        ids_increasing(ids),
    ensures
        forall|i: int, j: int| 0 <= i < ids.len() && 0 <= j < ids.len() && i != j
            ==> ids[i] != ids[j],
{
    assert forall|i: int, j: int|
        0 <= i < ids.len() && 0 <= j < ids.len() && i != j implies ids[i] != ids[j] by {
        if i < j {
            assert(ids[i] < ids[j]);
        } else {
            assert(ids[j] < ids[i]);
        }
    }
}

/// Law: in a well-formed chapter table no two rows bear the same id — each
/// insertion under the connection guard received an id no other row has,
/// so a run of insertions yields as many rows as insertions.
pub proof fn lemma_chapter_ids_unique(rows: Seq<ChapterRow>)
    requires
        ids_increasing(chapter_ids(rows)),
    ensures
        forall|i: int, j: int| 0 <= i < rows.len() && 0 <= j < rows.len() && i != j
            ==> (#[trigger] rows[i]).0 != (#[trigger] rows[j]).0,
{
    lemma_increasing_ids_distinct(chapter_ids(rows));
    assert forall|i: int, j: int|
        0 <= i < rows.len() && 0 <= j < rows.len() && i != j implies (#[trigger] rows[i]).0 != (
    #[trigger] rows[j]).0 by {
        assert(chapter_ids(rows)[i] == rows[i].0);
        assert(chapter_ids(rows)[j] == rows[j].0);
    }
}

} // verus!
