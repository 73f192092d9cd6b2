//! The record store as the library sees it.
//!
//! The store keeps two tables: the live table of scheduled notifications and
//! the archive of retired ones. The library does not run the store. It reads
//! rows that the session fetched, and it answers with the operations that the
//! session has to carry out, in order. What each operation does to the two
//! tables is stated here, over a model of the store, so that what a command
//! leaves behind can be stated too.

use vstd::prelude::*;
use crate::notification::{NotificationRow, NotificationView};

verus! {

impl View for NotificationRow {
    type V = NotificationView;

    open spec fn view(&self) -> NotificationView {
        NotificationView {
            id: self.id as u16,
            description: self.description@,
            work_time: self.work_time as u16,
            break_time: self.break_time as u16,
            created_at: self.created_at@,
            work_expired_at: self.work_expired_at@,
            break_expired_at: self.break_expired_at@,
        }
    }
}

/// One request to the record store.
#[derive(Debug)]
pub enum StoreOp {
    /// Add the row to the live table.
    Insert(NotificationRow),
    /// Copy the live rows of this identifier to the archive.
    Archive(u16),
    /// Remove the live rows of this identifier.
    Delete(u16),
    /// Copy every live row to the archive.
    ArchiveAll,
    /// Remove every live row.
    DeleteAll,
    /// Remove every archived row.
    ClearArchive,
}

/// The two tables of the store, oldest row first.
pub struct StoreModel {
    pub live: Seq<NotificationView>,
    pub archive: Seq<NotificationView>,
}

/// The rows that carry the identifier, in their order.
pub open spec fn rows_with(rows: Seq<NotificationView>, id: u16) -> Seq<NotificationView>
    decreases rows.len(),
{
    if rows.len() == 0 {
        rows
    } else if rows.last().id == id {
        rows_with(rows.drop_last(), id).push(rows.last())
    } else {
        rows_with(rows.drop_last(), id)
    }
}

/// The rows that do not carry the identifier, in their order.
pub open spec fn rows_without(rows: Seq<NotificationView>, id: u16) -> Seq<NotificationView>
    decreases rows.len(),
{
    if rows.len() == 0 {
        rows
    } else if rows.last().id == id {
        rows_without(rows.drop_last(), id)
    } else {
        rows_without(rows.drop_last(), id).push(rows.last())
    }
}

/// Some row carries the identifier.
pub open spec fn holds(rows: Seq<NotificationView>, id: u16) -> bool {
    exists|i: int| 0 <= i < rows.len() && (#[trigger] rows[i]).id == id
}

/// No two rows carry the same identifier.
pub open spec fn unique_ids(rows: Seq<NotificationView>) -> bool {
    forall|i: int, j: int|
        0 <= i < rows.len() && 0 <= j < rows.len() && i != j ==> (#[trigger] rows[i]).id != (
        #[trigger] rows[j]).id
}

/// No row expires later than `row`: rows are ranked by the end of their
/// break phase and, where that is equal, by the end of their work phase.
pub open spec fn expires_last(rows: Seq<NotificationView>, row: NotificationView) -> bool {
    forall|i: int|
        0 <= i < rows.len() ==> {
            let other = #[trigger] rows[i];
            other.break_expired_at < row.break_expired_at || (other.break_expired_at
                == row.break_expired_at && other.work_expired_at <= row.work_expired_at)
        }
}

/// `found` is what reading the row that expires last may answer: nothing
/// for an empty table, else one of the rows after which none expires.
pub open spec fn reads_latest(rows: Seq<NotificationView>, found: Option<NotificationView>) -> bool {
    match found {
        None => rows.len() == 0,
        Some(row) => rows.contains(row) && expires_last(rows, row),
    }
}

/// The store after one operation.
pub open spec fn apply(store: StoreModel, op: StoreOp) -> StoreModel {
    match op {
        StoreOp::Insert(row) => StoreModel { live: store.live.push(row@), archive: store.archive },
        StoreOp::Archive(id) => StoreModel {
            live: store.live,
            archive: store.archive + rows_with(store.live, id),
        },
        StoreOp::Delete(id) => StoreModel {
            live: rows_without(store.live, id),
            archive: store.archive,
        },
        StoreOp::ArchiveAll => StoreModel {
            live: store.live,
            archive: store.archive + store.live,
        },
        StoreOp::DeleteAll => StoreModel { live: Seq::empty(), archive: store.archive },
        StoreOp::ClearArchive => StoreModel { live: store.live, archive: Seq::empty() },
    }
}

/// The store after a run of operations, carried out first to last.
pub open spec fn apply_all(store: StoreModel, ops: Seq<StoreOp>) -> StoreModel
    decreases ops.len(),
{
    if ops.len() == 0 {
        store
    } else {
        apply(apply_all(store, ops.drop_last()), ops.last())
    }
}

/// The operations that retire one notification: archive first, then delete,
/// so that a failure between the two never loses the row.
pub open spec fn retire_ops(id: u16) -> Seq<StoreOp> {
    seq![StoreOp::Archive(id), StoreOp::Delete(id)]
}

/// The operations that retire every notification: archive all, then delete all.
pub open spec fn retire_all_ops() -> Seq<StoreOp> {
    seq![StoreOp::ArchiveAll, StoreOp::DeleteAll]
}

/// Every row carries the identifier or does not: the two selections share
/// out the rows.
pub proof fn lemma_selections_share_rows(rows: Seq<NotificationView>, id: u16)
    ensures
        rows_with(rows, id).len() + rows_without(rows, id).len() == rows.len(),
        !holds(rows_without(rows, id), id),
        forall|i: int|
            0 <= i < rows_with(rows, id).len() ==> (#[trigger] rows_with(rows, id)[i]).id == id,
    decreases rows.len(),
{
    if rows.len() > 0 {
        lemma_selections_share_rows(rows.drop_last(), id);
    }
}

/// Where no row carries the identifier, selecting by it gives nothing and
/// removing by it removes nothing.
pub proof fn lemma_absent_id_selects_nothing(rows: Seq<NotificationView>, id: u16)
    requires
        !holds(rows, id),
    ensures
        rows_with(rows, id) == Seq::<NotificationView>::empty(),
        rows_without(rows, id) == rows,
    decreases rows.len(),
{
    if rows.len() > 0 {
        let front = rows.drop_last();
        assert(rows.last() == rows[rows.len() - 1]);
        assert forall|i: int| 0 <= i < front.len() implies (#[trigger] front[i]).id != id by {
            assert(front[i] == rows[i]);
        }
        lemma_absent_id_selects_nothing(front, id);
        assert(rows_without(rows, id) =~= rows);
    } else {
        assert(rows_with(rows, id) =~= Seq::<NotificationView>::empty());
    }
}

/// Where identifiers are unique and one row carries the identifier,
/// selecting by it gives that one row.
pub proof fn lemma_unique_id_selects_one(rows: Seq<NotificationView>, id: u16)
    requires
        unique_ids(rows),
        holds(rows, id),
    ensures
        rows_with(rows, id).len() == 1,
        rows.contains(rows_with(rows, id)[0]),
        rows_without(rows, id).len() == rows.len() - 1,
    decreases rows.len(),
{
    let front = rows.drop_last();
    let last = rows.last();
    assert(last == rows[rows.len() - 1]);
    assert forall|i: int| 0 <= i < front.len() implies #[trigger] front[i] == rows[i] by {}
    if last.id == id {
        assert(!holds(front, id)) by {
            if holds(front, id) {
                let i = choose|i: int| 0 <= i < front.len() && (#[trigger] front[i]).id == id;
                assert(rows[i].id == rows[rows.len() - 1].id);
            }
        }
        lemma_absent_id_selects_nothing(front, id);
        assert(rows_with(rows, id) =~= seq![last]);
    } else {
        let i = choose|i: int| 0 <= i < rows.len() && (#[trigger] rows[i]).id == id;
        assert(front[i].id == id);
        assert(unique_ids(front)) by {
            assert forall|a: int, b: int|
                0 <= a < front.len() && 0 <= b < front.len() && a != b implies (
            #[trigger] front[a]).id != (#[trigger] front[b]).id by {
                assert(rows[a].id != rows[b].id);
            }
        }
        lemma_unique_id_selects_one(front, id);
        let picked = rows_with(front, id)[0];
        let at = choose|k: int| 0 <= k < front.len() && front[k] == picked;
        assert(rows[at] == picked);
    }
    lemma_selections_share_rows(rows, id);
}

/// Retiring a notification that the live table holds once moves exactly one
/// row: the live table loses it and no other, the archive gains it at its end.
pub proof fn lemma_retire_moves_one_row(store: StoreModel, id: u16)
    requires
        unique_ids(store.live),
        holds(store.live, id),
    ensures
        ({
            let after = apply_all(store, retire_ops(id));
            &&& after.live.len() == store.live.len() - 1
            &&& after.archive.len() == store.archive.len() + 1
            &&& after.live == rows_without(store.live, id)
            &&& !holds(after.live, id)
            &&& after.archive == store.archive.push(rows_with(store.live, id)[0])
            &&& after.archive.last().id == id
            &&& store.live.contains(after.archive.last())
        }),
{
    let ops = retire_ops(id);
    lemma_unique_id_selects_one(store.live, id);
    lemma_selections_share_rows(store.live, id);
    assert(ops.drop_last() =~= seq![StoreOp::Archive(id)]);
    assert(ops.drop_last().drop_last() =~= Seq::<StoreOp>::empty());
    reveal_with_fuel(apply_all, 3);
    let after = apply_all(store, ops);
    assert(after.archive =~= store.archive.push(rows_with(store.live, id)[0]));
}

/// Retiring a notification that the live table does not hold changes neither
/// table.
pub proof fn lemma_retire_absent_changes_nothing(store: StoreModel, id: u16)
    requires
        !holds(store.live, id),
    ensures
        apply_all(store, retire_ops(id)) == store,
{
    let ops = retire_ops(id);
    lemma_absent_id_selects_nothing(store.live, id);
    assert(ops.drop_last() =~= seq![StoreOp::Archive(id)]);
    assert(ops.drop_last().drop_last() =~= Seq::<StoreOp>::empty());
    reveal_with_fuel(apply_all, 3);
    let after = apply_all(store, ops);
    assert(after.archive =~= store.archive);
}

/// Retiring everything empties the live table and appends all its rows to
/// the archive, in their order.
pub proof fn lemma_retire_all_moves_every_row(store: StoreModel)
    ensures
        ({
            let after = apply_all(store, retire_all_ops());
            &&& after.live == Seq::<NotificationView>::empty()
            &&& after.archive == store.archive + store.live
            &&& after.archive.len() == store.archive.len() + store.live.len()
        }),
{
    let ops = retire_all_ops();
    assert(ops.drop_last() =~= seq![StoreOp::ArchiveAll]);
    assert(ops.drop_last().drop_last() =~= Seq::<StoreOp>::empty());
    reveal_with_fuel(apply_all, 3);
}

} // verus!
