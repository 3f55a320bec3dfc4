//! Episodic memory: an append-only log of operations and the index derived
//! from it.
//!
//! The log is the source of truth. The index is what replaying the log
//! gives: an `Add` puts a record in under its id, in place of any record
//! with that id, and a `Forget` takes the record with its id out. Reading
//! and writing the log and the full-text search itself are the caller's
//! work; this module holds the records, the replay, the compaction and the
//! search expression.

use crate::outside::{current_time, fresh_id};
use crate::text::{split_terms, whitespace_terms};
use vstd::prelude::*;
use vstd::string::StringExecFns;

verus! {

/// One remembered interaction. The identifier is the 128-bit value of a
/// UUID, the timestamp an RFC 3339 text.
#[derive(Debug, PartialEq, Eq)]
pub struct MemoryRecord {
    pub id: u128,
    pub content: String,
    pub summary: String,
    pub timestamp: String,
}

/// Model of a [`MemoryRecord`].
pub struct MemoryRecordView {
    pub id: u128,
    pub content: Seq<char>,
    pub summary: Seq<char>,
    pub timestamp: Seq<char>,
}

impl DeepView for MemoryRecord {
    type V = MemoryRecordView;

    open spec fn deep_view(&self) -> MemoryRecordView {
        MemoryRecordView {
            id: self.id,
            content: self.content@,
            summary: self.summary@,
            timestamp: self.timestamp@,
        }
    }
}

impl View for MemoryRecord {
    type V = MemoryRecordView;

    open spec fn view(&self) -> MemoryRecordView {
        self.deep_view()
    }
}

impl Clone for MemoryRecord {
    fn clone(&self) -> (res: Self)
        ensures
            res@ == self@,
    {
        MemoryRecord {
            id: self.id,
            content: self.content.clone(),
            summary: self.summary.clone(),
            timestamp: self.timestamp.clone(),
        }
    }
}

/// One entry of the log.
#[derive(Debug, PartialEq, Eq)]
pub enum MemoryOp {
    Add { id: u128, content: String, summary: String, timestamp: String },
    Forget { id: u128 },
}

/// Model of a [`MemoryOp`].
pub enum MemoryOpView {
    Add(MemoryRecordView),
    Forget(u128),
}

impl DeepView for MemoryOp {
    type V = MemoryOpView;

    open spec fn deep_view(&self) -> MemoryOpView {
        match self {
            MemoryOp::Add { id, content, summary, timestamp } => MemoryOpView::Add(
                MemoryRecordView {
                    id: *id,
                    content: content@,
                    summary: summary@,
                    timestamp: timestamp@,
                },
            ),
            MemoryOp::Forget { id } => MemoryOpView::Forget(*id),
        }
    }
}

impl View for MemoryOp {
    type V = MemoryOpView;

    open spec fn view(&self) -> MemoryOpView {
        self.deep_view()
    }
}

impl Clone for MemoryOp {
    fn clone(&self) -> (res: Self)
        ensures
            res@ == self@,
    {
        match self {
            MemoryOp::Add { id, content, summary, timestamp } => MemoryOp::Add {
                id: *id,
                content: content.clone(),
                summary: summary.clone(),
                timestamp: timestamp.clone(),
            },
            MemoryOp::Forget { id } => MemoryOp::Forget { id: *id },
        }
    }
}

/// The id an operation speaks of.
pub open spec fn op_id(op: MemoryOpView) -> u128 {
    match op {
        MemoryOpView::Add(record) => record.id,
        MemoryOpView::Forget(id) => id,
    }
}

impl MemoryOp {
    /// The id the operation speaks of.
    pub fn id(&self) -> (res: u128)
        ensures
            res == op_id(self@),
    {
        match self {
            MemoryOp::Add { id, .. } => *id,
            MemoryOp::Forget { id } => *id,
        }
    }
}

/// The rows without those that have the id `id`, in their order.
pub open spec fn without(rows: Seq<MemoryRecordView>, id: u128) -> Seq<MemoryRecordView>
    decreases rows.len(),
{
    if rows.len() == 0 {
        Seq::empty()
    } else if rows.last().id == id {
        without(rows.drop_last(), id)
    } else {
        without(rows.drop_last(), id).push(rows.last())
    }
}

/// The index after one operation: an `Add` takes out the row with its id
/// and puts its record last, a `Forget` takes out the row with its id.
pub open spec fn apply_op(rows: Seq<MemoryRecordView>, op: MemoryOpView) -> Seq<MemoryRecordView> {
    match op {
        MemoryOpView::Add(record) => without(rows, record.id).push(record),
        MemoryOpView::Forget(id) => without(rows, id),
    }
}

/// The index after the operations of a log are applied to `rows` in log order.
pub open spec fn replay_onto(rows: Seq<MemoryRecordView>, log: Seq<MemoryOpView>) -> Seq<
    MemoryRecordView,
>
    decreases log.len(),
{
    if log.len() == 0 {
        rows
    } else {
        apply_op(replay_onto(rows, log.drop_last()), log.last())
    }
}

/// The index that a log stands for: the log replayed onto the empty index.
pub open spec fn replay(log: Seq<MemoryOpView>) -> Seq<MemoryRecordView> {
    replay_onto(Seq::empty(), log)
}

/// The log that compaction writes for an index: one `Add` per row, in row order.
pub open spec fn compaction(rows: Seq<MemoryRecordView>) -> Seq<MemoryOpView> {
    Seq::new(rows.len(), |i: int| MemoryOpView::Add(rows[i]))
}

/// Whether no two rows share an id.
pub open spec fn unique_ids(rows: Seq<MemoryRecordView>) -> bool {
    forall|i: int, j: int| 0 <= i < j < rows.len() ==> (#[trigger] rows[i]).id != (#[trigger] rows[j]).id
}

/// Whether a row with the id `id` is among `rows`.
pub open spec fn has_id(rows: Seq<MemoryRecordView>, id: u128) -> bool {
    exists|i: int| 0 <= i < rows.len() && (#[trigger] rows[i]).id == id
}

/// Whether `row` is among `rows`.
pub open spec fn has_row(rows: Seq<MemoryRecordView>, row: MemoryRecordView) -> bool {
    exists|i: int| 0 <= i < rows.len() && #[trigger] rows[i] == row
}

/// Whether some operation of `log` speaks of the id `id`.
pub open spec fn mentions(log: Seq<MemoryOpView>, id: u128) -> bool {
    exists|i: int| 0 <= i < log.len() && op_id(#[trigger] log[i]) == id
}

/// `rows` without every row whose id some operation of `log` speaks of.
pub open spec fn untouched(rows: Seq<MemoryRecordView>, log: Seq<MemoryOpView>) -> Seq<
    MemoryRecordView,
>
    decreases log.len(),
{
    if log.len() == 0 {
        rows
    } else {
        without(untouched(rows, log.drop_last()), op_id(log.last()))
    }
}

/// The first row with the id `id`.
pub open spec fn row_with_id(rows: Seq<MemoryRecordView>, id: u128) -> Option<MemoryRecordView>
    decreases rows.len(),
{
    if rows.len() == 0 {
        None
    } else {
        match row_with_id(rows.drop_last(), id) {
            Some(row) => Some(row),
            None => if rows.last().id == id {
                Some(rows.last())
            } else {
                None
            },
        }
    }
}

/// The rows that a list of ids finds, in the order of the ids; an id
/// without a row finds nothing.
pub open spec fn found_rows(rows: Seq<MemoryRecordView>, ids: Seq<u128>) -> Seq<MemoryRecordView>
    decreases ids.len(),
{
    if ids.len() == 0 {
        Seq::empty()
    } else {
        match row_with_id(rows, ids.last()) {
            Some(row) => found_rows(rows, ids.drop_last()).push(row),
            None => found_rows(rows, ids.drop_last()),
        }
    }
}

/// The first `limit` rows of `rows`.
pub open spec fn at_most(rows: Seq<MemoryRecordView>, limit: nat) -> Seq<MemoryRecordView> {
    if rows.len() <= limit {
        rows
    } else {
        rows.take(limit as int)
    }
}

/// Content and summary of each row, in order.
pub open spec fn excerpts(rows: Seq<MemoryRecordView>) -> Seq<(Seq<char>, Seq<char>)> {
    Seq::new(rows.len(), |i: int| (rows[i].content, rows[i].summary))
}

/// What a search returns when the full-text index found the ids `matches`,
/// best first: content and summary of the rows that the index still holds
/// under those ids, in that order, cut to `limit`.
pub open spec fn search_results(rows: Seq<MemoryRecordView>, matches: Seq<u128>, limit: nat) -> Seq<
    (Seq<char>, Seq<char>),
> {
    excerpts(at_most(found_rows(rows, matches), limit))
}

/// The first row with an id is a row with that id, and there is one exactly
/// when the id is among the rows.
pub proof fn lemma_row_with_id(rows: Seq<MemoryRecordView>, id: u128)
    ensures
        match row_with_id(rows, id) {
            Some(row) => row.id == id && has_row(rows, row),
            None => !has_id(rows, id),
        },
    decreases rows.len(),
{
    if rows.len() > 0 {
        let rest = rows.drop_last();
        lemma_row_with_id(rest, id);
        match row_with_id(rest, id) {
            Some(row) => {
                let i = choose|i: int| 0 <= i < rest.len() && #[trigger] rest[i] == row;
                assert(rows[i] == row);
            },
            None => {
                if rows.last().id == id {
                    assert(rows[rows.len() - 1] == rows.last());
                } else if has_id(rows, id) {
                    let i = choose|i: int| 0 <= i < rows.len() && (#[trigger] rows[i]).id == id;
                    assert(rest[i].id == id);
                }
            },
        }
    }
}

/// A row found among the first rows is the row found among all of them.
pub proof fn lemma_row_found_early(rows: Seq<MemoryRecordView>, id: u128, k: int)
    requires
        0 <= k <= rows.len(),
        row_with_id(rows.take(k), id) is Some,
    ensures
        row_with_id(rows, id) == row_with_id(rows.take(k), id),
    decreases rows.len() - k,
{
    if k < rows.len() {
        assert(rows.take(k + 1).drop_last() =~= rows.take(k));
        lemma_row_found_early(rows, id, k + 1);
    } else {
        assert(rows.take(k) =~= rows);
    }
}

/// Every row that a list of ids finds is a row of the index under one of
/// those ids.
pub proof fn lemma_found_rows(rows: Seq<MemoryRecordView>, ids: Seq<u128>)
    ensures
        found_rows(rows, ids).len() <= ids.len(),
        forall|k: int|
            0 <= k < found_rows(rows, ids).len() ==> has_row(rows, #[trigger] found_rows(rows, ids)[k]),
    decreases ids.len(),
{
    if ids.len() > 0 {
        lemma_found_rows(rows, ids.drop_last());
        lemma_row_with_id(rows, ids.last());
    }
}

/// Taking out an id leaves rows that were there, none of them with that id,
/// keeps every other row, and keeps the ids distinct.
pub proof fn lemma_without(rows: Seq<MemoryRecordView>, id: u128)
    ensures
        without(rows, id).len() <= rows.len(),
        !has_id(without(rows, id), id),
        forall|k: int|
            0 <= k < without(rows, id).len() ==> has_row(rows, #[trigger] without(rows, id)[k]),
        forall|i: int|
            0 <= i < rows.len() && (#[trigger] rows[i]).id != id ==> has_row(
                without(rows, id),
                rows[i],
            ),
        unique_ids(rows) ==> unique_ids(without(rows, id)),
        !has_id(rows, id) ==> without(rows, id) == rows,
    decreases rows.len(),
{
    let out = without(rows, id);
    if rows.len() > 0 {
        let rest = rows.drop_last();
        let prev = without(rest, id);
        lemma_without(rest, id);
        assert forall|k: int| 0 <= k < out.len() implies has_row(rows, #[trigger] out[k]) by {
            if k < prev.len() {
                assert(has_row(rest, prev[k]));
                let i = choose|i: int| 0 <= i < rest.len() && #[trigger] rest[i] == prev[k];
                assert(rows[i] == out[k]);
            } else {
                assert(rows[rows.len() - 1] == out[k]);
            }
        }
        assert forall|i: int| 0 <= i < rows.len() && (#[trigger] rows[i]).id != id implies has_row(
            out,
            rows[i],
        ) by {
            if i < rest.len() {
                assert(rest[i] == rows[i]);
                assert(has_row(prev, rest[i]));
                let k = choose|k: int| 0 <= k < prev.len() && #[trigger] prev[k] == rest[i];
                assert(out[k] == rows[i]);
            } else {
                assert(out[out.len() - 1] == rows[i]);
            }
        }
        if has_id(out, id) {
            let k = choose|k: int| 0 <= k < out.len() && (#[trigger] out[k]).id == id;
            if k < prev.len() {
                assert(prev[k].id == id);
            }
        }
        if unique_ids(rows) {
            assert forall|i: int, j: int| 0 <= i < j < rest.len() implies (#[trigger] rest[i]).id
                != (#[trigger] rest[j]).id by {
                assert(rows[i].id != rows[j].id);
            }
            assert forall|a: int, b: int| 0 <= a < b < out.len() implies (#[trigger] out[a]).id
                != (#[trigger] out[b]).id by {
                if b < prev.len() {
                    assert(prev[a].id != prev[b].id);
                } else {
                    assert(has_row(rest, prev[a]));
                    let i = choose|i: int| 0 <= i < rest.len() && #[trigger] rest[i] == prev[a];
                    assert(rows[i].id != rows[rows.len() - 1].id);
                }
            }
        }
        if !has_id(rows, id) {
            assert(rows[rows.len() - 1].id != id);
            if has_id(rest, id) {
                let i = choose|i: int| 0 <= i < rest.len() && (#[trigger] rest[i]).id == id;
                assert(rows[i].id == id);
            }
            assert(out =~= rows);
        }
    }
}

/// Taking an id out of two runs of rows in a row is taking it out of each.
pub proof fn lemma_without_concat(a: Seq<MemoryRecordView>, b: Seq<MemoryRecordView>, id: u128)
    ensures
        without(a + b, id) == without(a, id) + without(b, id),
    decreases b.len(),
{
    if b.len() == 0 {
        assert(a + b =~= a);
        assert(without(a, id) + without(b, id) =~= without(a, id));
    } else {
        assert((a + b).drop_last() =~= a + b.drop_last());
        lemma_without_concat(a, b.drop_last(), id);
        assert(without(a + b, id) =~= without(a, id) + without(b, id));
    }
}

/// An operation keeps the ids of an index distinct.
pub proof fn lemma_apply_keeps_unique(rows: Seq<MemoryRecordView>, op: MemoryOpView)
    requires
        unique_ids(rows),
    ensures
        unique_ids(apply_op(rows, op)),
{
    lemma_without(rows, op_id(op));
    if let MemoryOpView::Add(record) = op {
        let kept = without(rows, record.id);
        let out = kept.push(record);
        assert forall|i: int, j: int| 0 <= i < j < out.len() implies (#[trigger] out[i]).id
            != (#[trigger] out[j]).id by {
            if j < kept.len() {
                assert(kept[i].id != kept[j].id);
            } else {
                assert(kept[i].id != record.id);
            }
        }
    }
}

/// Replaying a log keeps the ids of an index distinct; the index that a log
/// stands for never holds an id twice.
pub proof fn lemma_replay_unique(rows: Seq<MemoryRecordView>, log: Seq<MemoryOpView>)
    requires
        unique_ids(rows),
    ensures
        unique_ids(replay_onto(rows, log)),
    decreases log.len(),
{
    if log.len() > 0 {
        lemma_replay_unique(rows, log.drop_last());
        lemma_apply_keeps_unique(replay_onto(rows, log.drop_last()), log.last());
    }
}

/// Every row of the index that a log stands for has an id the log speaks of.
pub proof fn lemma_replay_rows_mentioned(log: Seq<MemoryOpView>)
    ensures
        forall|k: int| 0 <= k < replay(log).len() ==> mentions(log, (#[trigger] replay(log)[k]).id),
    decreases log.len(),
{
    if log.len() > 0 {
        let rest = log.drop_last();
        let before = replay(rest);
        let id = op_id(log.last());
        lemma_replay_rows_mentioned(rest);
        lemma_without(before, id);
        assert forall|k: int| 0 <= k < replay(log).len() implies mentions(
            log,
            (#[trigger] replay(log)[k]).id,
        ) by {
            let kept = without(before, id);
            if k < kept.len() {
                assert(has_row(before, kept[k]));
                let i = choose|i: int| 0 <= i < before.len() && #[trigger] before[i] == kept[k];
                assert(mentions(rest, before[i].id));
                let w = choose|w: int| 0 <= w < rest.len() && op_id(#[trigger] rest[w]) == before[i].id;
                assert(op_id(log[w]) == before[i].id);
            } else {
                assert(op_id(log[log.len() - 1]) == replay(log)[k].id);
            }
        }
    }
}

/// No row that a log leaves untouched has an id the log speaks of.
pub proof fn lemma_untouched_rows(rows: Seq<MemoryRecordView>, log: Seq<MemoryOpView>)
    ensures
        forall|k: int|
            0 <= k < untouched(rows, log).len() ==> has_row(rows, #[trigger] untouched(rows, log)[k])
                && !mentions(log, untouched(rows, log)[k].id),
    decreases log.len(),
{
    if log.len() > 0 {
        let rest = log.drop_last();
        let before = untouched(rows, rest);
        let id = op_id(log.last());
        lemma_untouched_rows(rows, rest);
        lemma_without(before, id);
        let out = untouched(rows, log);
        assert forall|k: int| 0 <= k < out.len() implies has_row(rows, #[trigger] out[k])
            && !mentions(log, out[k].id) by {
            assert(has_row(before, out[k]));
            let i = choose|i: int| 0 <= i < before.len() && #[trigger] before[i] == out[k];
            assert(has_row(rows, before[i]) && !mentions(rest, before[i].id));
            if mentions(log, out[k].id) {
                let w = choose|w: int| 0 <= w < log.len() && op_id(#[trigger] log[w]) == out[k].id;
                if w < rest.len() {
                    assert(op_id(rest[w]) == out[k].id);
                } else {
                    assert(has_id(without(before, id), id));
                }
            }
        }
    }
}

/// Replaying a log onto an index gives the rows the log leaves untouched,
/// followed by the index that the log stands for.
pub proof fn lemma_replay_onto(rows: Seq<MemoryRecordView>, log: Seq<MemoryOpView>)
    ensures
        replay_onto(rows, log) == untouched(rows, log) + replay(log),
    decreases log.len(),
{
    if log.len() == 0 {
        assert(rows + Seq::<MemoryRecordView>::empty() =~= rows);
    } else {
        let rest = log.drop_last();
        let id = op_id(log.last());
        lemma_replay_onto(rows, rest);
        lemma_without_concat(untouched(rows, rest), replay(rest), id);
        assert(replay_onto(rows, log) =~= untouched(rows, log) + replay(log));
    }
}

/// Replay is idempotent: replaying a log onto the index that the same log
/// stands for gives that index again, row for row.
pub proof fn lemma_replay_idempotent(log: Seq<MemoryOpView>)
    ensures
        replay_onto(replay(log), log) == replay(log),
{
    let index = replay(log);
    lemma_replay_onto(index, log);
    lemma_untouched_rows(index, log);
    lemma_replay_rows_mentioned(log);
    let left = untouched(index, log);
    if left.len() > 0 {
        assert(has_row(index, left[0]) && !mentions(log, left[0].id));
        let i = choose|i: int| 0 <= i < index.len() && #[trigger] index[i] == left[0];
        assert(mentions(log, index[i].id));
    }
    assert(left + index =~= index);
}

/// Compaction loses nothing: replaying the compacted log of an index with
/// distinct ids gives that index again, row for row.
pub proof fn lemma_compaction_replays(rows: Seq<MemoryRecordView>)
    requires
        unique_ids(rows),
    ensures
        replay(compaction(rows)) == rows,
    decreases rows.len(),
{
    if rows.len() == 0 {
        assert(compaction(rows) =~= Seq::empty());
        assert(rows =~= Seq::empty());
    } else {
        let rest = rows.drop_last();
        assert(compaction(rows).drop_last() =~= compaction(rest));
        assert(compaction(rows).last() == MemoryOpView::Add(rows.last()));
        assert forall|i: int, j: int| 0 <= i < j < rest.len() implies (#[trigger] rest[i]).id
            != (#[trigger] rest[j]).id by {
            assert(rows[i].id != rows[j].id);
        }
        lemma_compaction_replays(rest);
        if has_id(rest, rows.last().id) {
            let i = choose|i: int| 0 <= i < rest.len() && (#[trigger] rest[i]).id == rows.last().id;
            assert(rows[i].id != rows[rows.len() - 1].id);
        }
        lemma_without(rest, rows.last().id);
        assert(rest.push(rows.last()) =~= rows);
    }
}

/// The index that a log stands for survives compaction: replaying the
/// compacted log of the replayed index gives the same index.
pub proof fn lemma_compact_after_replay(log: Seq<MemoryOpView>)
    ensures
        replay(compaction(replay(log))) == replay(log),
{
    lemma_replay_unique(Seq::empty(), log);
    lemma_compaction_replays(replay(log));
}

/// After an `Add` the index holds the record, last and under its id only;
/// after a `Forget` it holds no row with the id. Rows with other ids stay.
pub proof fn lemma_add_then_forget(rows: Seq<MemoryRecordView>, record: MemoryRecordView)
    ensures
        has_row(apply_op(rows, MemoryOpView::Add(record)), record),
        apply_op(rows, MemoryOpView::Add(record)).last() == record,
        !has_id(
            apply_op(apply_op(rows, MemoryOpView::Add(record)), MemoryOpView::Forget(record.id)),
            record.id,
        ),
        !has_row(
            apply_op(apply_op(rows, MemoryOpView::Add(record)), MemoryOpView::Forget(record.id)),
            record,
        ),
{
    let added = apply_op(rows, MemoryOpView::Add(record));
    assert(added[added.len() - 1] == record);
    lemma_without(added, record.id);
    let gone = without(added, record.id);
    if has_row(gone, record) {
        let k = choose|k: int| 0 <= k < gone.len() && #[trigger] gone[k] == record;
        assert(gone[k].id == record.id);
    }
}

/// A search never returns more than its limit, and everything it returns
/// is content and summary of a row that the index holds.
pub proof fn lemma_search_within_index(rows: Seq<MemoryRecordView>, matches: Seq<u128>, limit: nat)
    ensures
        search_results(rows, matches, limit).len() <= limit,
        forall|k: int|
            0 <= k < search_results(rows, matches, limit).len() ==> exists|i: int|
                0 <= i < rows.len() && #[trigger] search_results(rows, matches, limit)[k] == (
                    (#[trigger] rows[i]).content,
                    rows[i].summary,
                ),
{
    let found = found_rows(rows, matches);
    let cut = at_most(found, limit);
    lemma_found_rows(rows, matches);
    assert forall|k: int| 0 <= k < search_results(rows, matches, limit).len() implies exists|i: int|
        0 <= i < rows.len() && #[trigger] search_results(rows, matches, limit)[k] == (
            (#[trigger] rows[i]).content,
            rows[i].summary,
        ) by {
        assert(cut[k] == found[k]);
        assert(has_row(rows, found[k]));
        let i = choose|i: int| 0 <= i < rows.len() && #[trigger] rows[i] == found[k];
        assert(search_results(rows, matches, limit)[k] == (rows[i].content, rows[i].summary));
    }
}

/// Round trip: right after an interaction is added, a search for which the
/// full-text index finds its id returns its content and summary.
pub proof fn lemma_search_finds_added(
    rows: Seq<MemoryRecordView>,
    record: MemoryRecordView,
    limit: nat,
)
    requires
        limit >= 1,
    ensures
        search_results(apply_op(rows, MemoryOpView::Add(record)), seq![record.id], limit) == seq![
            (record.content, record.summary),
        ],
{
    let added = apply_op(rows, MemoryOpView::Add(record));
    let kept = without(rows, record.id);
    lemma_without(rows, record.id);
    lemma_row_with_id(kept, record.id);
    assert(added.drop_last() =~= kept);
    assert(row_with_id(added, record.id) == Some(record));
    let ids = seq![record.id];
    assert(ids.drop_last() =~= Seq::<u128>::empty());
    reveal_with_fuel(found_rows, 2);
    assert(found_rows(added, ids) =~= seq![record]);
    assert(search_results(added, ids, limit) =~= seq![(record.content, record.summary)]);
}

/// Round trip: after an interaction is forgotten, no search returns a row
/// with its id, whatever the full-text index finds.
pub proof fn lemma_search_excludes_forgotten(
    rows: Seq<MemoryRecordView>,
    id: u128,
    matches: Seq<u128>,
    limit: nat,
)
    ensures
        forall|k: int|
            0 <= k < at_most(
                found_rows(apply_op(rows, MemoryOpView::Forget(id)), matches),
                limit,
            ).len() ==> (#[trigger] at_most(
                found_rows(apply_op(rows, MemoryOpView::Forget(id)), matches),
                limit,
            )[k]).id != id,
{
    let after = apply_op(rows, MemoryOpView::Forget(id));
    let found = found_rows(after, matches);
    lemma_without(rows, id);
    lemma_found_rows(after, matches);
    assert forall|k: int| 0 <= k < at_most(found, limit).len() implies (#[trigger] at_most(
        found,
        limit,
    )[k]).id != id by {
        assert(at_most(found, limit)[k] == found[k]);
        assert(has_row(after, found[k]));
        let i = choose|i: int| 0 <= i < after.len() && #[trigger] after[i] == found[k];
        assert(after[i].id != id);
    }
}

/// A term without its double quotes.
pub open spec fn unquoted(term: Seq<char>) -> Seq<char>
    decreases term.len(),
{
    if term.len() == 0 {
        Seq::empty()
    } else if term.last() == '"' {
        unquoted(term.drop_last())
    } else {
        unquoted(term.drop_last()).push(term.last())
    }
}

/// A term as a phrase of the search expression: its double quotes taken
/// out, then wrapped in double quotes.
pub open spec fn phrase(term: Seq<char>) -> Seq<char> {
    seq!['"'] + unquoted(term) + seq!['"']
}

/// The search expression for a list of terms: their phrases, separated by
/// single spaces, so that a record has to match every term.
pub open spec fn match_expression(terms: Seq<Seq<char>>) -> Seq<char>
    decreases terms.len(),
{
    if terms.len() == 0 {
        Seq::empty()
    } else if terms.len() == 1 {
        phrase(terms[0])
    } else {
        match_expression(terms.drop_last()) + seq![' '] + phrase(terms.last())
    }
}

/// A term without its double quotes.
pub fn strip_quotes(term: &str) -> (res: String)
    ensures
        res@ == unquoted(term@),
{
    let n = term.unicode_len();
    let mut out = String::new();
    let mut i: usize = 0;
    assert(term@.take(0) =~= Seq::empty());
    while i < n
        invariant
            i <= n,
            n == term@.len(),
            out@ == unquoted(term@.take(i as int)),
        decreases n - i,
    {
        let ghost prefix = term@.take(i as int + 1);
        assert(prefix.drop_last() =~= term@.take(i as int));
        assert(prefix.last() == term@[i as int]);
        if term.get_char(i) != '"' {
            let ghost before = out@;
            out.append(term.substring_char(i, i + 1));
            assert(term@.subrange(i as int, i + 1) =~= seq![term@[i as int]]);
            assert(out@ =~= before.push(term@[i as int]));
        }
        i += 1;
    }
    assert(term@.take(i as int) =~= term@);
    out
}

/// The search expression for a list of terms.
pub fn quote_terms(terms: &Vec<String>) -> (res: String)
    ensures
        res@ == match_expression(terms.deep_view()),
{
    let ghost all = terms.deep_view();
    let mut out = String::new();
    let mut i: usize = 0;
    assert(all.take(0) =~= Seq::empty());
    proof {
        reveal_strlit("\"");
        reveal_strlit(" ");
    }
    assert("\""@ =~= seq!['"']);
    assert(" "@ =~= seq![' ']);
    while i < terms.len()
        invariant
            i <= terms.len(),
            all == terms.deep_view(),
            out@ == match_expression(all.take(i as int)),
            "\""@ == seq!['"'],
            " "@ == seq![' '],
        decreases terms.len() - i,
    {
        let ghost prefix = all.take(i as int + 1);
        assert(prefix.drop_last() =~= all.take(i as int));
        assert(prefix.last() == terms[i as int]@);
        assert(prefix[0] == all[0]);
        let ghost before = out@;
        let bare = strip_quotes(terms[i].as_str());
        if i > 0 {
            out.append(" ");
        }
        out.append("\"");
        out.append(bare.as_str());
        out.append("\"");
        assert(out@ =~= match_expression(prefix)) by {
            if i == 0 {
                assert(before =~= Seq::empty());
                assert(prefix.len() == 1);
            } else {
                assert(prefix.len() > 1);
            }
        }
        i += 1;
    }
    assert(all.take(i as int) =~= all);
    out
}

/// The full-text search expression for a query: each whitespace-separated
/// term of the query as a quoted phrase, all of which a record has to match.
pub fn search_expression(query: &str) -> (res: String)
    ensures
        res@ == match_expression(whitespace_terms(query@)),
{
    let terms = split_terms(query);
    quote_terms(&terms)
}

/// The memory of one agent: the rows of its index, in the order in which
/// they were last written.
#[derive(Debug, PartialEq, Eq)]
pub struct MemoryManager {
    pub records: Vec<MemoryRecord>,
}

impl DeepView for MemoryManager {
    type V = Seq<MemoryRecordView>;

    open spec fn deep_view(&self) -> Seq<MemoryRecordView> {
        self.records.deep_view()
    }
}

impl View for MemoryManager {
    type V = Seq<MemoryRecordView>;

    open spec fn view(&self) -> Seq<MemoryRecordView> {
        self.records.deep_view()
    }
}

impl MemoryManager {
    /// An empty index brought up to date with `log`: the index that the log
    /// stands for.
    pub fn new(log: &Vec<MemoryOp>) -> (res: Self)
        ensures
            res@ == replay(log.deep_view()),
    {
        let mut manager = MemoryManager { records: Vec::new() };
        assert(manager@ =~= Seq::empty());
        manager.sync_index(log);
        manager
    }

    /// Takes the rows with the id `id` out of the index.
    fn remove_id(&mut self, id: u128)
        ensures
            final(self)@ == without(old(self)@, id),
    {
        let ghost before = self@;
        let mut kept: Vec<MemoryRecord> = Vec::new();
        let mut i: usize = 0;
        assert(before.take(0) =~= Seq::empty());
        assert(kept.deep_view() =~= Seq::empty());
        while i < self.records.len()
            invariant
                i <= self.records.len(),
                before == self@,
                kept.deep_view() == without(before.take(i as int), id),
            decreases self.records.len() - i,
        {
            let record = &self.records[i];
            let ghost prefix = before.take(i as int + 1);
            assert(prefix.drop_last() =~= before.take(i as int));
            assert(prefix.last() == record@);
            if record.id != id {
                let ghost kept_before = kept.deep_view();
                kept.push(record.clone());
                assert(kept.deep_view() =~= kept_before.push(record@));
            }
            i += 1;
        }
        assert(before.take(i as int) =~= before);
        self.records = kept;
    }

    /// Applies one operation of the log to the index.
    pub fn apply(&mut self, op: &MemoryOp)
        ensures
            final(self)@ == apply_op(old(self)@, op@),
    {
        match op {
            MemoryOp::Add { id, content, summary, timestamp } => {
                self.remove_id(*id);
                let ghost kept = self@;
                let record = MemoryRecord {
                    id: *id,
                    content: content.clone(),
                    summary: summary.clone(),
                    timestamp: timestamp.clone(),
                };
                self.records.push(record);
                assert(self@ =~= kept.push(record@));
            },
            MemoryOp::Forget { id } => {
                self.remove_id(*id);
            },
        }
    }

    /// Replays a log onto the index, operation by operation in log order.
    pub fn sync_index(&mut self, log: &Vec<MemoryOp>)
        ensures
            final(self)@ == replay_onto(old(self)@, log.deep_view()),
    {
        let ghost all = log.deep_view();
        let mut i: usize = 0;
        assert(all.take(0) =~= Seq::empty());
        while i < log.len()
            invariant
                i <= log.len(),
                all == log.deep_view(),
                self@ == replay_onto(old(self)@, all.take(i as int)),
            decreases log.len() - i,
        {
            let ghost prefix = all.take(i as int + 1);
            assert(prefix.drop_last() =~= all.take(i as int));
            assert(prefix.last() == log[i as int]@);
            self.apply(&log[i]);
            i += 1;
        }
        assert(all.take(i as int) =~= all);
    }

    /// The operation that remembers an interaction, under a fresh random id
    /// and stamped with the current time. The index is not changed.
    pub fn prepare_add(content: &str, summary: &str) -> (op: MemoryOp)
        ensures
            op@ matches MemoryOpView::Add(record) && record.content == content@ && record.summary
                == summary@,
    {
        MemoryOp::Add {
            id: fresh_id(),
            content: content.to_owned(),
            summary: summary.to_owned(),
            timestamp: current_time(),
        }
    }

    /// Remembers an interaction and returns the operation to append to the
    /// log: an `Add` with the content and the summary given, which the index
    /// has had applied.
    pub fn add_memory(&mut self, content: &str, summary: &str) -> (op: MemoryOp)
        ensures
            op@ matches MemoryOpView::Add(record) && record.content == content@ && record.summary
                == summary@,
            final(self)@ == apply_op(old(self)@, op@),
    {
        let op = Self::prepare_add(content, summary);
        self.apply(&op);
        op
    }

    /// Forgets the interaction with the id `id` and returns the operation to
    /// append to the log.
    pub fn forget_memory(&mut self, id: u128) -> (op: MemoryOp)
        ensures
            op@ == MemoryOpView::Forget(id),
            final(self)@ == apply_op(old(self)@, op@),
    {
        let op = MemoryOp::Forget { id };
        self.apply(&op);
        op
    }

    /// The first row with the id `id`.
    pub fn get(&self, id: u128) -> (res: Option<&MemoryRecord>)
        ensures
            res.deep_view() == row_with_id(self@, id),
    {
        let ghost rows = self@;
        let mut i: usize = 0;
        assert(rows.take(0) =~= Seq::empty());
        while i < self.records.len()
            invariant
                i <= self.records.len(),
                rows == self@,
                row_with_id(rows.take(i as int), id) is None,
            decreases self.records.len() - i,
        {
            let ghost prefix = rows.take(i as int + 1);
            assert(prefix.drop_last() =~= rows.take(i as int));
            assert(prefix.last() == self.records[i as int]@);
            if self.records[i].id == id {
                proof {
                    lemma_row_found_early(rows, id, i as int + 1);
                }
                return Some(&self.records[i]);
            }
            i += 1;
        }
        assert(rows.take(i as int) =~= rows);
        None
    }

    /// The rows that a list of ids finds, in the order of the ids.
    pub fn find(&self, ids: &Vec<u128>) -> (res: Vec<MemoryRecord>)
        ensures
            res.deep_view() == found_rows(self@, ids@),
    {
        let mut out: Vec<MemoryRecord> = Vec::new();
        let mut i: usize = 0;
        assert(ids@.take(0) =~= Seq::empty());
        assert(out.deep_view() =~= Seq::empty());
        while i < ids.len()
            invariant
                i <= ids.len(),
                out.deep_view() == found_rows(self@, ids@.take(i as int)),
            decreases ids.len() - i,
        {
            let ghost prefix = ids@.take(i as int + 1);
            assert(prefix.drop_last() =~= ids@.take(i as int));
            assert(prefix.last() == ids[i as int]);
            match self.get(ids[i]) {
                Some(record) => {
                    let ghost before = out.deep_view();
                    out.push(record.clone());
                    assert(out.deep_view() =~= before.push(record@));
                },
                None => {},
            }
            i += 1;
        }
        assert(ids@.take(i as int) =~= ids@);
        out
    }

    /// The result of a search for which the full-text index found the ids
    /// `matches`, best first: content and summary of the rows that the
    /// index holds under those ids, in that order, never more than `limit`.
    /// An id that was forgotten since finds nothing.
    pub fn search(&self, matches: &Vec<u128>, limit: usize) -> (res: Vec<(String, String)>)
        ensures
            res.deep_view() == search_results(self@, matches@, limit as nat),
    {
        let mut found = self.find(matches);
        let ghost all = found.deep_view();
        if found.len() > limit {
            found.truncate(limit);
            assert(found.deep_view() =~= all.take(limit as int));
        }
        assert(found.deep_view().len() == found.len());
        let mut out: Vec<(String, String)> = Vec::new();
        let mut i: usize = 0;
        while i < found.len()
            invariant
                i <= found.len(),
                out.len() == i,
                forall|k: int|
                    0 <= k < i ==> out[k].deep_view() == (found[k]@.content, found[k]@.summary),
            decreases found.len() - i,
        {
            out.push((found[i].content.clone(), found[i].summary.clone()));
            i += 1;
        }
        assert(out.deep_view() =~= excerpts(found.deep_view())) by {
            assert forall|k: int| 0 <= k < out.len() implies out.deep_view()[k] == excerpts(
                found.deep_view(),
            )[k] by {
                assert(found.deep_view()[k] == found[k]@);
            }
        }
        out
    }

    /// The log that stands for the index as it is: one `Add` per row, in row
    /// order, with nothing of what was forgotten or overwritten.
    pub fn compact(&self) -> (res: Vec<MemoryOp>)
        ensures
            res.deep_view() == compaction(self@),
    {
        let mut out: Vec<MemoryOp> = Vec::new();
        let mut i: usize = 0;
        while i < self.records.len()
            invariant
                i <= self.records.len(),
                out.len() == i,
                forall|k: int| 0 <= k < i ==> out[k]@ == MemoryOpView::Add(self@[k]),
            decreases self.records.len() - i,
        {
            let record = &self.records[i];
            assert(self@[i as int] == record@);
            out.push(
                MemoryOp::Add {
                    id: record.id,
                    content: record.content.clone(),
                    summary: record.summary.clone(),
                    timestamp: record.timestamp.clone(),
                },
            );
            i += 1;
        }
        assert(out.deep_view() =~= compaction(self@));
        out
    }
}

} // verus!
