use gitviz::git::model::Commit;
use gitviz::graph::lanes::{compute_layout, GraphNode};
use gitviz::graph::render::{graph_prefix, prefix_width};

fn make_commit(oid: &str, parents: &[&str]) -> Commit {
    Commit {
        oid: oid.to_string(),
        parents: parents.iter().map(|s| s.to_string()).collect(),
        author: "Test".to_string(),
        author_email: "t@t.com".to_string(),
        timestamp: 0,
        subject: "test".to_string(),
    }
}

fn node(lane: usize, total: usize, active: Vec<bool>, merge: bool) -> GraphNode {
    GraphNode {
        lane,
        is_merge: merge,
        total_lanes: total,
        active,
    }
}

#[test]
fn test_linear_history() {
    let commits = vec![
        make_commit("c", &["b"]),
        make_commit("b", &["a"]),
        make_commit("a", &[]),
    ];
    let nodes = compute_layout(&commits);
    // All commits should be on lane 0 for linear history
    assert!(nodes.iter().all(|n| n.lane == 0));
    assert!(nodes.iter().all(|n| !n.is_merge));
}

#[test]
fn test_merge_commit() {
    // merge: M has parents A and B; B was on a side branch
    let commits = vec![
        make_commit("M", &["A", "B"]),
        make_commit("A", &["root"]),
        make_commit("B", &["root"]),
        make_commit("root", &[]),
    ];
    let nodes = compute_layout(&commits);
    assert!(nodes[0].is_merge); // M is a merge commit
    assert!(!nodes[1].is_merge);
}

#[test]
fn test_single_lane() {
    let n = node(0, 1, vec![true], false);
    assert_eq!(graph_prefix(&n), "●");
}

#[test]
fn test_second_lane() {
    let n = node(1, 2, vec![true, true], false);
    assert_eq!(graph_prefix(&n), "│ ●");
}

#[test]
fn test_merge_node() {
    let n = node(0, 2, vec![true, true], true);
    assert_eq!(graph_prefix(&n), "◎ │");
}

#[test]
fn test_inactive_lanes() {
    // Lane 0 active, lane 1 inactive, lane 2 is commit
    let n = node(2, 3, vec![true, false, true], false);
    assert_eq!(graph_prefix(&n), "│   ●");
}

#[test]
fn prefix_width_closed_form() {
    assert_eq!(prefix_width(0), 1);
    assert_eq!(prefix_width(1), 1);
    assert_eq!(prefix_width(2), 3);
    assert_eq!(prefix_width(5), 9);
}

#[test]
fn rows_are_well_formed_on_a_branchy_history() {
    let commits = vec![
        make_commit("m2", &["m1", "f2", "g1"]),
        make_commit("f2", &["f1"]),
        make_commit("g1", &["base"]),
        make_commit("m1", &["base", "f1"]),
        make_commit("f1", &["base"]),
        make_commit("base", &[]),
        make_commit("stray", &["gone"]),
    ];
    let nodes = compute_layout(&commits);
    assert_eq!(nodes.len(), commits.len());
    for (n, c) in nodes.iter().zip(commits.iter()) {
        assert!(n.lane < n.total_lanes);
        assert_eq!(n.active.len(), n.total_lanes);
        assert!(n.active[n.lane]);
        assert_eq!(n.is_merge, c.parents.len() > 1);
    }
}

#[test]
fn lane_reuse_on_three_linear_commits() {
    let commits = vec![
        make_commit("C", &["B"]),
        make_commit("B", &["A"]),
        make_commit("A", &[]),
    ];
    let nodes = compute_layout(&commits);
    let lanes: Vec<usize> = nodes.iter().map(|n| n.lane).collect();
    let merges: Vec<bool> = nodes.iter().map(|n| n.is_merge).collect();
    assert_eq!(lanes, vec![0, 0, 0]);
    assert_eq!(merges, vec![false, false, false]);
    for n in &nodes {
        assert_eq!(n.total_lanes, 1);
        assert_eq!(n.active, vec![true]);
    }
}

#[test]
fn merge_fan_in_rows() {
    let commits = vec![
        make_commit("M", &["A", "B"]),
        make_commit("A", &["root"]),
        make_commit("B", &["root"]),
        make_commit("root", &[]),
        make_commit("later", &[]),
    ];
    let nodes = compute_layout(&commits);
    // M opens the table on lane 0.
    assert!(nodes[0].is_merge);
    assert_eq!(nodes[0].lane, 0);
    assert_eq!(nodes[0].total_lanes, 1);
    assert_eq!(nodes[0].active, vec![true]);
    // A and B sit on two distinct lanes.
    assert_eq!(nodes[1].lane, 0);
    assert_eq!(nodes[1].total_lanes, 2);
    assert_eq!(nodes[1].active, vec![true, true]);
    assert_eq!(nodes[2].lane, 1);
    assert_eq!(nodes[2].total_lanes, 2);
    assert_eq!(nodes[2].active, vec![true, true]);
    assert_ne!(nodes[1].lane, nodes[2].lane);
    // Both lanes expect root; it takes the lower one.
    assert!(!nodes[3].is_merge);
    assert_eq!(nodes[3].lane, 0);
    assert_eq!(nodes[3].total_lanes, 2);
    assert_eq!(nodes[3].active, vec![true, true]);
    // The second lane still expects root, so the table keeps two slots and
    // the next tip takes the freed lane 0.
    assert_eq!(nodes[4].lane, 0);
    assert_eq!(nodes[4].total_lanes, 2);
    assert_eq!(nodes[4].active, vec![true, true]);
}

#[test]
fn freed_lane_is_reused_lowest_first() {
    let commits = vec![
        make_commit("a", &["x"]),
        make_commit("b", &["y"]),
        make_commit("c", &["z"]),
        make_commit("y", &[]),
        make_commit("d", &["w"]),
        make_commit("z", &[]),
        make_commit("e", &[]),
    ];
    let nodes = compute_layout(&commits);
    let lanes: Vec<usize> = nodes.iter().map(|n| n.lane).collect();
    // a, b, c open lanes 0, 1, 2; y ends lane 1; d reuses it; z ends lane 2,
    // which is trimmed; e has to open it again.
    assert_eq!(lanes, vec![0, 1, 2, 1, 1, 2, 2]);
    assert_eq!(nodes[3].active, vec![true, true, true]);
    assert_eq!(nodes[4].active, vec![true, true, true]);
    assert_eq!(nodes[5].total_lanes, 3);
    assert_eq!(nodes[6].total_lanes, 3);
    assert_eq!(nodes[6].active, vec![true, true, true]);
}

#[test]
fn merge_parent_already_expected_gets_no_new_lane() {
    let commits = vec![
        make_commit("t1", &["p"]),
        make_commit("t2", &["q", "p"]),
        make_commit("q", &[]),
        make_commit("p", &[]),
    ];
    let nodes = compute_layout(&commits);
    assert_eq!(nodes[1].lane, 1);
    assert!(nodes[1].is_merge);
    // q sits on t2's lane; p was already expected on lane 0.
    assert_eq!(nodes[2].lane, 1);
    assert_eq!(nodes[2].total_lanes, 2);
    assert_eq!(nodes[3].lane, 0);
    assert_eq!(nodes[3].total_lanes, 1);
}

#[test]
fn boundary_commit_leaves_a_lane_that_is_never_matched() {
    let commits = vec![
        make_commit("tip", &["outside"]),
        make_commit("other", &[]),
    ];
    let nodes = compute_layout(&commits);
    assert_eq!(nodes[0].lane, 0);
    assert_eq!(nodes[1].lane, 1);
    assert_eq!(nodes[1].total_lanes, 2);
    assert_eq!(nodes[1].active, vec![true, true]);
}

#[test]
fn layout_of_nothing_is_empty() {
    assert!(compute_layout(&[]).is_empty());
}

#[test]
fn layout_is_the_same_on_a_second_run() {
    let commits = vec![
        make_commit("M", &["A", "B"]),
        make_commit("A", &["root"]),
        make_commit("B", &["root"]),
        make_commit("root", &[]),
    ];
    let first = compute_layout(&commits);
    let second = compute_layout(&commits);
    assert_eq!(first.len(), second.len());
    for (a, b) in first.iter().zip(second.iter()) {
        assert_eq!(a.lane, b.lane);
        assert_eq!(a.is_merge, b.is_merge);
        assert_eq!(a.total_lanes, b.total_lanes);
        assert_eq!(a.active, b.active);
    }
}

#[test]
fn prefix_is_as_wide_as_its_lanes() {
    for total in 1..6usize {
        for lane in 0..total {
            let n = node(lane, total, vec![true; total], lane % 2 == 0);
            assert_eq!(graph_prefix(&n).chars().count(), prefix_width(total));
        }
    }
    let n = node(0, 0, vec![], false);
    assert_eq!(graph_prefix(&n).chars().count(), prefix_width(0));
}

#[test]
fn prefix_widens_for_a_lane_beyond_the_row() {
    let n = node(2, 1, vec![true], false);
    assert_eq!(graph_prefix(&n), "│   ●");
    let short = node(0, 3, vec![true], true);
    assert_eq!(graph_prefix(&short), "◎    ");
}
