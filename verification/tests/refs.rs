use gitviz::app::Mode;
use gitviz::git::model::{Commit, Refs};
use gitviz::git::{log_arguments, refs_from_outputs};
use gitviz::graph::lanes::GraphNode;
use gitviz::ui::{
    detail_lines, filter_bar_text, graph_list_item, graph_title, lane_to_color, panel_heights,
    LaneColor, Paint, Segment,
};

fn refs() -> Refs {
    Refs {
        head_oid: "aaa".to_string(),
        head_name: Some("refs/heads/main".to_string()),
        branches: vec![
            ("refs/heads/main".to_string(), "aaa".to_string()),
            ("refs/heads/topic".to_string(), "aaa".to_string()),
            ("refs/heads/old".to_string(), "bbb".to_string()),
            ("odd".to_string(), "bbb".to_string()),
        ],
        tags: vec![
            ("refs/tags/v1".to_string(), "bbb".to_string()),
            ("refs/tags/v2".to_string(), "aaa".to_string()),
        ],
    }
}

fn texts(line: &[Segment]) -> Vec<(String, Paint)> {
    line.iter().map(|s| (s.text.clone(), s.paint)).collect()
}

#[test]
fn labels_of_the_head_commit() {
    assert_eq!(
        refs().labels_for("aaa"),
        vec!["HEAD -> main", "topic", "tag: v2"]
    );
}

#[test]
fn labels_of_another_commit() {
    assert_eq!(refs().labels_for("bbb"), vec!["old", "odd", "tag: v1"]);
    assert!(refs().labels_for("ccc").is_empty());
    assert!(Refs::default().labels_for("ccc").is_empty());
}

#[test]
fn labels_of_a_detached_head() {
    let mut r = refs();
    r.head_name = None;
    assert_eq!(
        r.labels_for("aaa"),
        vec!["HEAD", "main", "topic", "tag: v2"]
    );
    r.head_name = Some("elsewhere".to_string());
    assert_eq!(
        r.labels_for("aaa"),
        vec!["HEAD -> elsewhere", "main", "topic", "tag: v2"]
    );
    // The branch of HEAD is listed where HEAD itself points elsewhere.
    r.head_name = Some("refs/heads/old".to_string());
    assert_eq!(r.labels_for("bbb"), vec!["old", "odd", "tag: v1"]);
}

#[test]
fn default_refs_are_empty() {
    let r = Refs::default();
    assert_eq!(r.head_oid, "");
    assert!(r.head_name.is_none());
    assert!(r.branches.is_empty());
    assert!(r.tags.is_empty());
}

#[test]
fn arguments_of_the_log_call() {
    let format = "--format=%H%x1f%P%x1f%an%x1f%ae%x1f%at%x1f%s%x1e";
    assert_eq!(
        log_arguments(200, true, None),
        vec!["log", "--topo-order", format, "--max-count=200", "--all"]
    );
    assert_eq!(
        log_arguments(0, false, None),
        vec!["log", "--topo-order", format, "--max-count=0", "HEAD"]
    );
    assert_eq!(
        log_arguments(15, true, Some("HEAD~500")),
        vec!["log", "--topo-order", format, "--max-count=15", "--all", "--not", "HEAD~500"]
    );
    assert_eq!(
        log_arguments(1, false, Some("v1")),
        vec!["log", "--topo-order", format, "--max-count=1", "--not", "v1", "HEAD"]
    );
}

#[test]
fn refs_from_the_outputs_of_git() {
    let r = refs_from_outputs(
        "aaa\n",
        Some("refs/heads/main\n"),
        "aaa refs/heads/main\nbbb refs/heads/old\n",
        "bbb refs/tags/v1\n",
    );
    assert_eq!(r.head_oid, "aaa");
    assert_eq!(r.head_name.as_deref(), Some("refs/heads/main"));
    assert_eq!(
        r.branches,
        vec![
            ("refs/heads/main".to_string(), "aaa".to_string()),
            ("refs/heads/old".to_string(), "bbb".to_string()),
        ]
    );
    assert_eq!(r.tags, vec![("refs/tags/v1".to_string(), "bbb".to_string())]);
    let detached = refs_from_outputs("", None, "", "");
    assert_eq!(detached.head_oid, "");
    assert!(detached.head_name.is_none());
    assert!(detached.branches.is_empty());
    assert!(refs_from_outputs("x", Some(" \n"), "", "").head_name.is_none());
}

#[test]
fn panel_heights_by_state() {
    let h = panel_heights(Mode::Normal, true);
    assert_eq!((h.graph_min, h.details, h.filter, h.help), (3, 9, 0, 1));
    let h = panel_heights(Mode::Filter, false);
    assert_eq!((h.graph_min, h.details, h.filter, h.help), (3, 3, 1, 1));
}

#[test]
fn lane_colours_take_turns() {
    let want = [
        LaneColor::Blue,
        LaneColor::Red,
        LaneColor::Green,
        LaneColor::Magenta,
        LaneColor::Cyan,
        LaneColor::LightBlue,
        LaneColor::LightRed,
    ];
    for lane in 0..21 {
        assert_eq!(lane_to_color(lane), want[lane % 7]);
    }
}

#[test]
fn titles_and_filter_bar() {
    assert_eq!(graph_title(12, 12), " Commits (12) ");
    assert_eq!(graph_title(3, 12), " Commits (3/12) ");
    assert_eq!(graph_title(0, 0), " Commits (0) ");
    assert_eq!(
        filter_bar_text(""),
        "Search: (type to filter by commit message)"
    );
    assert_eq!(filter_bar_text("fix"), "Search: fix_");
}

#[test]
fn a_row_of_the_graph_list() {
    let commit = Commit {
        oid: "aaa1234567".to_string(),
        parents: vec![],
        author: "Ann".to_string(),
        author_email: "ann@example.com".to_string(),
        timestamp: 0,
        subject: "Initial commit".to_string(),
    };
    let node = GraphNode {
        lane: 1,
        is_merge: false,
        total_lanes: 2,
        active: vec![true, true],
    };
    let mut r = refs();
    r.head_oid = "aaa1234567".to_string();
    r.tags.push(("refs/tags/v3".to_string(), "aaa1234567".to_string()));
    let line = graph_list_item(&commit, &node, &r);
    let plain = |s: &str| (s.to_string(), Paint::Plain);
    assert_eq!(
        texts(&line),
        vec![
            ("│ ●".to_string(), Paint::Lane(LaneColor::Red)),
            plain(" "),
            ("aaa1234".to_string(), Paint::Hash),
            plain(" "),
            ("[HEAD -> main]".to_string(), Paint::Label),
            plain(" "),
            ("[tag: v3]".to_string(), Paint::Label),
            plain(" "),
            plain("Initial commit"),
        ]
    );
}

#[test]
fn the_lines_of_the_details_panel() {
    let commit = Commit {
        oid: "aaa".to_string(),
        parents: vec![],
        author: "Ann".to_string(),
        author_email: "ann@example.com".to_string(),
        timestamp: 1_700_000_000,
        subject: "Initial commit".to_string(),
    };
    let heading = |s: &str| (s.to_string(), Paint::Heading);
    let plain = |s: &str| (s.to_string(), Paint::Plain);
    let lines = detail_lines(&commit, &refs(), 1_700_000_120);
    assert_eq!(lines.len(), 6);
    assert_eq!(
        texts(&lines[0]),
        vec![heading("Commit  "), ("aaa".to_string(), Paint::Strong)]
    );
    assert_eq!(
        texts(&lines[1]),
        vec![heading("Author  "), plain("Ann <ann@example.com>")]
    );
    assert_eq!(
        texts(&lines[2]),
        vec![
            heading("Date    "),
            plain("2023-11-14 22:13:20 UTC  (2 minutes ago)")
        ]
    );
    assert_eq!(
        texts(&lines[3]),
        vec![
            heading("Refs    "),
            ("HEAD -> main".to_string(), Paint::RefName),
            plain(", "),
            ("topic".to_string(), Paint::RefName),
            plain(", "),
            ("tag: v2".to_string(), Paint::RefName),
        ]
    );
    assert_eq!(texts(&lines[4]), vec![plain("")]);
    assert_eq!(
        texts(&lines[5]),
        vec![("    Initial commit".to_string(), Paint::Subject)]
    );
    let bare = detail_lines(&commit, &Refs::default(), 0);
    assert_eq!(texts(&bare[3]), vec![heading("Refs    "), plain("—")]);
    assert_eq!(
        texts(&bare[2]),
        vec![
            heading("Date    "),
            plain("2023-11-14 22:13:20 UTC  (in the future)")
        ]
    );
}
