//! Lane allocation: one pass over the commits, with a table of the lanes
//! that wait for a commit.

use vstd::prelude::*;

use crate::git::model::{commits_view, strings_view, Commit, CommitView};

verus! {

/// A lane table: slot `i` is either unoccupied (`None`) or expects the commit
/// whose id it holds.
pub type Slots = Seq<Option<Seq<char>>>;

/// Per-commit layout information produced by the lane algorithm.
#[derive(Debug, Clone)]
pub struct GraphNode {
    /// Which lane (column) this commit sits on.
    pub lane: usize,
    /// True when this commit has more than one parent (merge commit).
    pub is_merge: bool,
    /// Total number of lanes for this row (determines column count).
    pub total_lanes: usize,
    /// Which lanes are occupied when this row is drawn, by lane index.
    pub active: Vec<bool>,
}

/// The mathematical content of a [`GraphNode`].
pub struct RowView {
    pub lane: int,
    pub is_merge: bool,
    pub total_lanes: int,
    pub active: Seq<bool>,
}

impl View for GraphNode {
    type V = RowView;

    open spec fn view(&self) -> RowView {
        RowView {
            lane: self.lane as int,
            is_merge: self.is_merge,
            total_lanes: self.total_lanes as int,
            active: self.active@,
        }
    }
}

/// The views of the rows of `v`, in order.
pub open spec fn rows_view(v: Seq<GraphNode>) -> Seq<RowView> {
    Seq::new(v.len(), |i: int| v[i]@)
}

/// The slot that an optional id stands for.
pub open spec fn slot_view(slot: Option<String>) -> Option<Seq<char>> {
    match slot {
        Some(s) => Some(s@),
        None => None,
    }
}

/// The lane table that a vector of optional ids stands for.
pub open spec fn slots_view(v: Seq<Option<String>>) -> Slots {
    Seq::new(v.len(), |i: int| slot_view(v[i]))
}

/// The lowest index at or after `from` whose slot equals `slot`, or the
/// table's length when there is none.
pub open spec fn first_from(table: Slots, slot: Option<Seq<char>>, from: int) -> int
    decreases table.len() - from,
{
    if from >= table.len() {
        table.len() as int
    } else if table[from] == slot {
        from
    } else {
        first_from(table, slot, from + 1)
    }
}

/// The lowest index whose slot equals `slot`, or the table's length.
pub open spec fn first_index(table: Slots, slot: Option<Seq<char>>) -> int {
    first_from(table, slot, 0)
}

/// `first_from` finds a slot equal to `slot`, and none before it from `from` on.
pub proof fn lemma_first_from(table: Slots, slot: Option<Seq<char>>, from: int)
    requires
        0 <= from <= table.len(),
    ensures
        from <= first_from(table, slot, from) <= table.len(),
        first_from(table, slot, from) < table.len() ==> table[first_from(table, slot, from)]
            == slot,
        forall|j: int| from <= j < first_from(table, slot, from) ==> table[j] != slot,
    decreases table.len() - from,
{
    if from < table.len() && table[from] != slot {
        lemma_first_from(table, slot, from + 1);
    }
}

/// The lane that a fresh allocation takes: the lowest unoccupied slot, or a
/// new slot behind the last one.
pub open spec fn free_lane(table: Slots) -> int {
    first_index(table, None)
}

/// The table after making sure that `free_lane(table)` is a slot of it.
pub open spec fn with_free_lane(table: Slots) -> Slots {
    if free_lane(table) < table.len() {
        table
    } else {
        table.push(None)
    }
}

/// The lane of a commit with id `oid`: the lowest slot that expects it, or a
/// fresh allocation when no slot does.
pub open spec fn commit_lane(table: Slots, oid: Seq<char>) -> int {
    if first_index(table, Some(oid)) < table.len() {
        first_index(table, Some(oid))
    } else {
        free_lane(table)
    }
}

/// The table as the commit's row sees it: grown by one slot where the commit
/// needed a new lane.
pub open spec fn table_at_row(table: Slots, oid: Seq<char>) -> Slots {
    if first_index(table, Some(oid)) < table.len() {
        table
    } else {
        with_free_lane(table)
    }
}

/// Which slots a row shows as active: the commit's own lane and every
/// occupied slot.
pub open spec fn active_lanes(table: Slots, lane: int) -> Seq<bool> {
    Seq::new(table.len(), |i: int| i == lane || table[i] is Some)
}

/// The row emitted for a commit that meets the table `table`.
pub open spec fn row_of(table: Slots, oid: Seq<char>, parents: Seq<Seq<char>>) -> RowView {
    let seen = table_at_row(table, oid);
    let lane = commit_lane(table, oid);
    RowView {
        lane,
        is_merge: parents.len() > 1,
        total_lanes: seen.len() as int,
        active: active_lanes(seen, lane),
    }
}

/// What the commit's own slot holds after its row: its first parent, or
/// nothing for a root.
pub open spec fn first_parent(parents: Seq<Seq<char>>) -> Option<Seq<char>> {
    if parents.len() > 0 {
        Some(parents[0])
    } else {
        None
    }
}

/// The table after queueing one merge parent: unchanged where a slot already
/// expects it, else with a fresh lane that expects it.
pub open spec fn queue_parent(table: Slots, parent: Seq<char>) -> Slots {
    if first_index(table, Some(parent)) < table.len() {
        table
    } else {
        with_free_lane(table).update(free_lane(table), Some(parent))
    }
}

/// The table after queueing the first `upto` parents, the first parent
/// excepted, in order.
pub open spec fn queue_parents(table: Slots, parents: Seq<Seq<char>>, upto: int) -> Slots
    decreases upto,
{
    if upto <= 1 {
        table
    } else {
        queue_parent(queue_parents(table, parents, upto - 1), parents[upto - 1])
    }
}

/// The table without its trailing unoccupied slots.
pub open spec fn trimmed(table: Slots) -> Slots
    decreases table.len(),
{
    if table.len() > 0 && table.last() is None {
        trimmed(table.drop_last())
    } else {
        table
    }
}

/// The table that a commit leaves behind for the next one.
pub open spec fn table_after_commit(table: Slots, oid: Seq<char>, parents: Seq<Seq<char>>)
    -> Slots {
    let seen = table_at_row(table, oid);
    let lane = commit_lane(table, oid);
    let inherited = seen.update(lane, first_parent(parents));
    trimmed(queue_parents(inherited, parents, parents.len() as int))
}

/// The table that the first `k` commits leave behind; empty before the first.
pub open spec fn table_after(commits: Seq<CommitView>, k: int) -> Slots
    decreases k,
{
    if k <= 0 {
        Seq::empty()
    } else {
        table_after_commit(
            table_after(commits, k - 1),
            commits[k - 1].oid,
            commits[k - 1].parents,
        )
    }
}

/// The row of commit `k` of `commits`.
pub open spec fn layout_row(commits: Seq<CommitView>, k: int) -> RowView {
    row_of(table_after(commits, k), commits[k].oid, commits[k].parents)
}

/// The layout of a commit sequence: one row per commit, in order.
pub open spec fn layout(commits: Seq<CommitView>) -> Seq<RowView> {
    Seq::new(commits.len(), |k: int| layout_row(commits, k))
}

/// The slot that an optional borrowed id stands for.
pub open spec fn wanted_slot(slot: Option<&String>) -> Option<Seq<char>> {
    match slot {
        Some(s) => Some(s@),
        None => None,
    }
}

/// The lowest index of `lanes` whose slot equals `slot` by content, or the
/// length of `lanes`.
fn find_slot(lanes: &Vec<Option<String>>, slot: Option<&String>) -> (i: usize)
    ensures
        i == first_index(slots_view(lanes@), wanted_slot(slot)),
        i <= lanes.len(),
{
    let ghost table = slots_view(lanes@);
    let ghost want = wanted_slot(slot);
    let mut i: usize = 0;
    while i < lanes.len()
        invariant
            i <= lanes.len(),
            table == slots_view(lanes@),
            want == wanted_slot(slot),
            first_index(table, want) == first_from(table, want, i as int),
        decreases lanes.len() - i,
    {
        let hit = match (&lanes[i], slot) {
            (Some(a), Some(b)) => *a == *b,
            (None, None) => true,
            _ => false,
        };
        if hit {
            return i;
        }
        i += 1;
    }
    i
}

/// Find the first unused slot in `lanes`, or push a new slot.
pub fn allocate_lane(lanes: &mut Vec<Option<String>>) -> (lane: usize)
    ensures
        lane == free_lane(slots_view(old(lanes)@)),
        slots_view(final(lanes)@) == with_free_lane(slots_view(old(lanes)@)),
        lane < final(lanes).len(),
        slots_view(final(lanes)@)[lane as int] is None,
{
    let pos = find_slot(lanes, None);
    proof {
        lemma_first_from(slots_view(lanes@), None, 0);
    }
    if pos < lanes.len() {
        pos
    } else {
        lanes.push(None);
        pos
    }
}

/// The activity snapshot of `lanes` for a commit on `lane`.
fn snapshot(lanes: &Vec<Option<String>>, lane: usize) -> (active: Vec<bool>)
    ensures
        active@ == active_lanes(slots_view(lanes@), lane as int),
{
    let mut active: Vec<bool> = Vec::new();
    let mut i: usize = 0;
    while i < lanes.len()
        invariant
            i <= lanes.len(),
            active.len() == i,
            forall|j: int|
                0 <= j < i ==> active[j] == (j == lane || slots_view(lanes@)[j] is Some),
        decreases lanes.len() - i,
    {
        let on = i == lane || lanes[i].is_some();
        active.push(on);
        i += 1;
    }
    active
}

/// Remove the trailing unoccupied slots of `lanes`.
fn trim_lanes(lanes: &mut Vec<Option<String>>)
    ensures
        slots_view(final(lanes)@) == trimmed(slots_view(old(lanes)@)),
{
    while lanes.len() > 0 && lanes[lanes.len() - 1].is_none()
        invariant
            trimmed(slots_view(lanes@)) == trimmed(slots_view(old(lanes)@)),
        decreases lanes.len(),
    {
        let ghost before = slots_view(lanes@);
        lanes.pop();
        assert(slots_view(lanes@) =~= before.drop_last());
    }
}

/// Queue the merge parents of a commit: every parent but the first gets a
/// lane of its own unless one already expects it.
fn queue_merge_parents(lanes: &mut Vec<Option<String>>, parents: &Vec<String>)
    ensures
        slots_view(final(lanes)@) == queue_parents(
            slots_view(old(lanes)@),
            strings_view(parents@),
            parents.len() as int,
        ),
{
    let ghost start = slots_view(lanes@);
    let ghost ids = strings_view(parents@);
    let mut p: usize = 1;
    while p < parents.len()
        invariant
            1 <= p,
            p <= parents.len() || p == 1,
            ids == strings_view(parents@),
            slots_view(lanes@) == queue_parents(start, ids, p as int),
        decreases parents.len() - p,
    {
        let parent = &parents[p];
        let at = find_slot(lanes, Some(parent));
        if at >= lanes.len() {
            let lane = allocate_lane(lanes);
            lanes.set(lane, Some(parent.clone()));
        }
        p += 1;
    }
}

/// Compute the lane layout of a commit sequence given in topological order
/// (no commit before one that names it as a parent): one row per commit.
///
/// The table of lanes starts empty. Each commit takes the lowest lane that
/// expects it, or else the lowest free lane; its row records the table as it
/// stands then; its lane passes to its first parent, every further parent
/// that no lane expects yet gets the lowest free lane, and unoccupied lanes
/// at the end of the table are dropped.
pub fn compute_layout(commits: &[Commit]) -> (nodes: Vec<GraphNode>)
    ensures
        rows_view(nodes@) == layout(commits_view(commits@)),
        nodes.len() == commits.len(),
        forall|k: int|
            0 <= k < nodes.len() ==> nodes[k].lane < nodes[k].total_lanes
                && nodes[k].active.len() == nodes[k].total_lanes,
        forall|k: int|
            0 <= k < nodes.len() ==> nodes[k].is_merge == (commits[k].parents.len() > 1),
{
    let mut lanes: Vec<Option<String>> = Vec::new();
    let mut result: Vec<GraphNode> = Vec::new();
    let ghost cv = commits_view(commits@);
    let mut k: usize = 0;
    while k < commits.len()
        invariant
            k <= commits.len(),
            cv == commits_view(commits@),
            slots_view(lanes@) == table_after(cv, k as int),
            result.len() == k,
            forall|j: int| 0 <= j < k ==> result[j]@ == layout_row(cv, j),
            forall|j: int|
                0 <= j < k ==> result[j].lane < result[j].total_lanes && result[j].active.len()
                    == result[j].total_lanes,
            forall|j: int| 0 <= j < k ==> result[j].is_merge == (commits[j].parents.len() > 1),
        decreases commits.len() - k,
    {
        let commit = &commits[k];
        let ghost table = slots_view(lanes@);
        let ghost ids = strings_view(commit.parents@);

        // Find the lane that expects this commit, or allocate one.
        let found = find_slot(&lanes, Some(&commit.oid));
        proof {
            lemma_first_from(table, Some(commit.oid@), 0);
        }
        let commit_lane = if found < lanes.len() {
            found
        } else {
            allocate_lane(&mut lanes)
        };

        // Record the row before the table changes: it shows what comes in
        // from the rows above.
        let total = lanes.len();
        let active = snapshot(&lanes, commit_lane);
        let is_merge = commit.parents.len() > 1;

        // The commit's lane passes to its first parent; a root ends it.
        let ghost seen = slots_view(lanes@);
        let first = if commit.parents.len() > 0 {
            Some(commit.parents[0].clone())
        } else {
            None
        };
        lanes.set(commit_lane, first);
        assert(slots_view(lanes@) =~= seen.update(commit_lane as int, first_parent(ids)));

        queue_merge_parents(&mut lanes, &commit.parents);
        trim_lanes(&mut lanes);

        result.push(GraphNode { lane: commit_lane, is_merge, total_lanes: total, active });
        k += 1;
    }
    result
}

} // verus!
