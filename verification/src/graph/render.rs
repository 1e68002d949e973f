//! The glyphs of a row.

use vstd::prelude::*;

use crate::graph::lanes::{GraphNode, RowView};
use crate::util::text::push_char;

verus! {

/// The glyph of an ordinary commit.
pub const NODE: char = '●';

/// The glyph of a merge commit.
pub const MERGE_NODE: char = '◎';

/// The glyph of an active lane that passes a row by.
pub const CONNECTOR: char = '│';

/// The glyph of an inactive lane, and the separator between columns.
pub const BLANK: char = ' ';

/// The number of columns a row is drawn with: its lanes, widened where the
/// row's own lane lies beyond them.
pub open spec fn columns(row: RowView) -> int {
    if row.total_lanes >= row.lane + 1 {
        row.total_lanes
    } else {
        row.lane + 1
    }
}

/// The glyph in column `i` of a row: the commit itself on its lane, a
/// connector on any other active lane, a blank elsewhere.
pub open spec fn glyph(row: RowView, i: int) -> char {
    if i == row.lane {
        if row.is_merge {
            MERGE_NODE
        } else {
            NODE
        }
    } else if 0 <= i < row.active.len() && row.active[i] {
        CONNECTOR
    } else {
        BLANK
    }
}

/// The graph prefix of a row: the glyphs of its columns from left to right,
/// with one blank between neighbours.
pub open spec fn prefix_of(row: RowView) -> Seq<char> {
    Seq::new(
        (2 * columns(row) - 1) as nat,
        |k: int|
            if k % 2 == 1 {
                BLANK
            } else {
                glyph(row, k / 2)
            },
    )
}

/// Number of character cells a row of `total_lanes` lanes occupies: one cell
/// per lane and one separating cell between neighbours. A row without lanes
/// still takes one cell.
pub open spec fn spec_prefix_width(total_lanes: int) -> int {
    if total_lanes == 0 {
        1
    } else {
        2 * total_lanes - 1
    }
}

/// Build the graph prefix string for a commit row.
///
/// Each lane occupies one character column. Lanes are separated by a single
/// space. The commit's lane shows `●` (or `◎` for merge commits). Other
/// active lanes show `│`. Inactive lanes show ` `.
pub fn graph_prefix(node: &GraphNode) -> (s: String)
    requires
        2 * columns(node@) - 1 <= usize::MAX,
    ensures
        s@ == prefix_of(node@),
{
    let cols = if node.total_lanes >= node.lane + 1 {
        node.total_lanes
    } else {
        node.lane + 1
    };
    let mut s = String::new();
    let mut i: usize = 0;
    while i < cols
        invariant
            i <= cols,
            cols == columns(node@),
            1 <= cols,
            s@.len() == (if i == 0 {
                0
            } else {
                2 * i - 1
            }),
            forall|k: int| 0 <= k < s@.len() ==> s@[k] == prefix_of(node@)[k],
        decreases cols - i,
    {
        if i > 0 {
            push_char(&mut s, BLANK);
        }
        if i == node.lane {
            if node.is_merge {
                push_char(&mut s, MERGE_NODE);
            } else {
                push_char(&mut s, NODE);
            }
        } else if i < node.active.len() && node.active[i] {
            push_char(&mut s, CONNECTOR);
        } else {
            push_char(&mut s, BLANK);
        }
        i += 1;
    }
    s
}

/// Width (in terminal columns) of the graph prefix for `total_lanes` lanes.
pub fn prefix_width(total_lanes: usize) -> (w: usize)
    requires
        spec_prefix_width(total_lanes as int) <= usize::MAX,
    ensures
        w == spec_prefix_width(total_lanes as int),
{
    if total_lanes == 0 {
        1
    } else {
        (total_lanes - 1) + total_lanes
    }
}

/// The prefix of a row is exactly as long as the width of its lanes, for
/// every row whose lane is one of its lanes (or lane 0 of a row without
/// lanes).
pub proof fn lemma_prefix_width_matches(row: RowView)
    requires
        0 <= row.total_lanes,
        0 <= row.lane,
        row.lane < row.total_lanes || (row.total_lanes == 0 && row.lane == 0),
    ensures
        prefix_of(row).len() == spec_prefix_width(row.total_lanes),
{
}

} // verus!
