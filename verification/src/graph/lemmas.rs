//! What holds of every layout.

use vstd::prelude::*;

use crate::git::model::CommitView;
use crate::graph::lanes::{
    commit_lane, first_parent, layout, layout_row, lemma_first_from, queue_parent, queue_parents,
    row_of, table_after, table_after_commit, table_at_row, trimmed, RowView, Slots,
};

verus! {

/// Whether a row is well formed: its lane is one of its `total_lanes`
/// columns, and `active` has one entry per column.
pub open spec fn row_wf(row: RowView) -> bool {
    &&& 0 <= row.lane < row.total_lanes
    &&& row.active.len() == row.total_lanes
}

/// Every row that a commit can get is well formed, and shows the commit's
/// own lane as active.
pub proof fn lemma_row_wf(table: Slots, oid: Seq<char>, parents: Seq<Seq<char>>)
    ensures
        row_wf(row_of(table, oid, parents)),
        row_of(table, oid, parents).active[row_of(table, oid, parents).lane],
        row_of(table, oid, parents).is_merge <==> parents.len() > 1,
{
    lemma_first_from(table, Some(oid), 0);
    lemma_first_from(table, None, 0);
}

/// Every row of a layout is well formed, whatever the commits are, and a row
/// is marked as a merge exactly when its commit has more than one parent.
pub proof fn lemma_layout_rows_wf(commits: Seq<CommitView>)
    ensures
        layout(commits).len() == commits.len(),
        forall|k: int| 0 <= k < commits.len() ==> row_wf(#[trigger] layout(commits)[k]),
        forall|k: int|
            0 <= k < commits.len() ==> (#[trigger] layout(commits)[k]).is_merge == (
            commits[k].parents.len() > 1),
{
    assert forall|k: int| 0 <= k < commits.len() implies row_wf(#[trigger] layout(commits)[k])
        && layout(commits)[k].is_merge == (commits[k].parents.len() > 1) by {
        lemma_row_wf(table_after(commits, k), commits[k].oid, commits[k].parents);
    }
}

/// Whether `commits` is a strictly linear history: every commit but the last
/// has exactly one parent, the commit that follows it, and the last commit
/// is a root without parents.
pub open spec fn is_linear_history(commits: Seq<CommitView>) -> bool {
    &&& commits.len() > 0
    &&& forall|k: int|
        0 <= k < commits.len() - 1 ==> (#[trigger] commits[k]).parents.len() == 1
            && commits[k].parents[0] == commits[k + 1].oid
    &&& commits.last().parents.len() == 0
}

/// In a linear history the table before commit `k` holds one lane, which
/// expects that commit; before the first commit it is empty.
proof fn lemma_linear_table(commits: Seq<CommitView>, k: int)
    requires
        is_linear_history(commits),
        0 <= k < commits.len(),
    ensures
        k == 0 ==> table_after(commits, k) =~= Seq::<Option<Seq<char>>>::empty(),
        k > 0 ==> table_after(commits, k) =~= seq![Some(commits[k].oid)],
    decreases k,
{
    if k > 0 {
        lemma_linear_table(commits, k - 1);
        let before = table_after(commits, k - 1);
        let c = commits[k - 1];
        let next: Slots = seq![Some(commits[k].oid)];
        lemma_first_from(before, Some(c.oid), 0);
        lemma_first_from(before, None, 0);
        let seen = table_at_row(before, c.oid);
        let lane = commit_lane(before, c.oid);
        assert(lane == 0);
        assert(seen.len() == 1);
        assert(c.parents[0] == commits[k].oid);
        let inherited = seen.update(lane, Some(c.parents[0]));
        assert(inherited =~= next);
        assert(queue_parents(inherited, c.parents, 1) == inherited);
        assert(trimmed(next) == next);
        assert(table_after(commits, k) == table_after_commit(before, c.oid, c.parents));
    }
}

/// A strictly linear history is drawn in a single column: every row is on
/// lane 0 of one lane, and none is a merge.
pub proof fn lemma_linear_history_single_lane(commits: Seq<CommitView>)
    requires
        is_linear_history(commits),
    ensures
        forall|k: int|
            0 <= k < commits.len() ==> {
                &&& (#[trigger] layout(commits)[k]).lane == 0
                &&& !layout(commits)[k].is_merge
                &&& layout(commits)[k].total_lanes == 1
                &&& layout(commits)[k].active == seq![true]
            },
{
    assert forall|k: int| 0 <= k < commits.len() implies {
        &&& (#[trigger] layout(commits)[k]).lane == 0
        &&& !layout(commits)[k].is_merge
        &&& layout(commits)[k].total_lanes == 1
        &&& layout(commits)[k].active == seq![true]
    } by {
        lemma_linear_table(commits, k);
        let table = table_after(commits, k);
        lemma_first_from(table, Some(commits[k].oid), 0);
        lemma_first_from(table, None, 0);
        assert(commits[k].parents.len() <= 1) by {
            if k < commits.len() - 1 {
                assert(commits[k].parents.len() == 1);
            }
        }
        assert(layout(commits)[k] == layout_row(commits, k));
        assert(layout_row(commits, k).active =~= seq![true]);
    }
}

/// Whether two histories agree on every commit's id and parents.
pub open spec fn same_ids(a: Seq<CommitView>, b: Seq<CommitView>) -> bool {
    &&& a.len() == b.len()
    &&& forall|k: int|
        0 <= k < a.len() ==> (#[trigger] a[k]).oid == b[k].oid && a[k].parents == b[k].parents
}

/// Histories that agree on ids and parents leave the same table behind.
proof fn lemma_same_table(a: Seq<CommitView>, b: Seq<CommitView>, k: int)
    requires
        same_ids(a, b),
        0 <= k <= a.len(),
    ensures
        table_after(a, k) == table_after(b, k),
    decreases k,
{
    if k > 0 {
        lemma_same_table(a, b, k - 1);
        assert(a[k - 1].oid == b[k - 1].oid && a[k - 1].parents == b[k - 1].parents);
    }
}

/// The layout is a function of the commits' ids and parents and of nothing
/// else: histories that agree on them get the same rows. Laying out one
/// history twice therefore gives the same rows both times.
pub proof fn lemma_layout_deterministic(a: Seq<CommitView>, b: Seq<CommitView>)
    requires
        same_ids(a, b),
    ensures
        layout(a) == layout(b),
{
    assert forall|k: int| 0 <= k < a.len() implies layout_row(a, k) == layout_row(b, k) by {
        lemma_same_table(a, b, k);
        assert(a[k].oid == b[k].oid && a[k].parents == b[k].parents);
    }
    assert(layout(a) =~= layout(b));
}

/// Whether every occupied slot of `before` is a slot of `after` with the
/// same content: no pending lane has moved or gone.
pub open spec fn keeps_occupied(before: Slots, after: Slots) -> bool {
    forall|i: int|
        0 <= i < before.len() && (#[trigger] before[i]) is Some ==> i < after.len() && after[i]
            == before[i]
}

/// Queueing a merge parent leaves the occupied slots where they are.
proof fn lemma_queue_parent_keeps(table: Slots, parent: Seq<char>)
    ensures
        keeps_occupied(table, queue_parent(table, parent)),
        table.len() <= queue_parent(table, parent).len(),
{
    lemma_first_from(table, Some(parent), 0);
    lemma_first_from(table, None, 0);
}

/// Queueing merge parents leaves the occupied slots where they are.
proof fn lemma_queue_parents_keeps(table: Slots, parents: Seq<Seq<char>>, upto: int)
    ensures
        keeps_occupied(table, queue_parents(table, parents, upto)),
        table.len() <= queue_parents(table, parents, upto).len(),
    decreases upto,
{
    if upto > 1 {
        lemma_queue_parents_keeps(table, parents, upto - 1);
        lemma_queue_parent_keeps(queue_parents(table, parents, upto - 1), parents[upto - 1]);
    }
}

/// Trimming drops unoccupied slots only, and leaves no unoccupied slot at
/// the end.
proof fn lemma_trimmed(table: Slots)
    ensures
        keeps_occupied(table, trimmed(table)),
        trimmed(table).len() <= table.len(),
        trimmed(table).len() > 0 ==> trimmed(table).last() is Some,
    decreases table.len(),
{
    if table.len() > 0 && table.last() is None {
        let shorter = table.drop_last();
        lemma_trimmed(shorter);
        assert forall|i: int| 0 <= i < table.len() && (#[trigger] table[i]) is Some implies i
            < trimmed(table).len() && trimmed(table)[i] == table[i] by {
            assert(shorter[i] == table[i]);
        }
    }
}

/// Lanes keep their columns: a commit leaves every slot that was occupied
/// when its row was drawn, its own lane excepted, at the same index with the
/// same content. And the table that it leaves behind does not end in an
/// unoccupied slot.
pub proof fn lemma_pending_lanes_stay(table: Slots, oid: Seq<char>, parents: Seq<Seq<char>>)
    ensures
        forall|i: int|
            0 <= i < table_at_row(table, oid).len() && i != commit_lane(table, oid) && (
            #[trigger] table_at_row(table, oid)[i]) is Some ==> i < table_after_commit(
                table,
                oid,
                parents,
            ).len() && table_after_commit(table, oid, parents)[i] == table_at_row(table, oid)[i],
        table_after_commit(table, oid, parents).len() > 0 ==> table_after_commit(
            table,
            oid,
            parents,
        ).last() is Some,
{
    let seen = table_at_row(table, oid);
    let lane = commit_lane(table, oid);
    let inherited = seen.update(lane, first_parent(parents));
    let queued = queue_parents(inherited, parents, parents.len() as int);
    lemma_first_from(table, Some(oid), 0);
    lemma_first_from(table, None, 0);
    lemma_queue_parents_keeps(inherited, parents, parents.len() as int);
    lemma_trimmed(queued);
    assert forall|i: int|
        0 <= i < seen.len() && i != lane && (#[trigger] seen[i]) is Some implies i < trimmed(
        queued,
    ).len() && trimmed(queued)[i] == seen[i] by {
        assert(inherited[i] == seen[i]);
        assert(queued[i] == inherited[i]);
    }
}

/// The table between two commits never ends in an unoccupied slot.
pub proof fn lemma_table_is_trimmed(commits: Seq<CommitView>, k: int)
    ensures
        table_after(commits, k).len() > 0 ==> table_after(commits, k).last() is Some,
    decreases k,
{
    if k > 0 {
        lemma_pending_lanes_stay(
            table_after(commits, k - 1),
            commits[k - 1].oid,
            commits[k - 1].parents,
        );
    }
}

} // verus!
