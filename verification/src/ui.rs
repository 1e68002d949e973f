//! What the panels show: their heights, titles and lines of text, each piece
//! of text with the way it is to be drawn.

use vstd::prelude::*;

use crate::app::{App, Mode};
use crate::git::model::{labels_of, strings_view, Commit, CommitView, Refs, RefsView};
use crate::graph::lanes::{GraphNode, RowView};
use crate::graph::render::{columns, graph_prefix, prefix_of};
use crate::util::fmt::{
    can_shorten, format_iso, format_relative_at, iso_of, relative_of, short_hash, short_of,
};
use crate::util::number::{decimal, push_decimal};
use crate::util::text::push_chars;

verus! {

/// Height of the expanded details panel, in lines, border included.
pub const DETAILS_HEIGHT: u16 = 9;

/// Height of the collapsed details panel.
pub const COLLAPSED_HEIGHT: u16 = 3;

/// Least height of the graph list.
pub const GRAPH_MIN_HEIGHT: u16 = 3;

/// Height of the filter bar.
pub const FILTER_HEIGHT: u16 = 1;

/// Height of the help bar.
pub const HELP_HEIGHT: u16 = 1;

/// The help line at the bottom of the screen.
pub const HELP_TEXT: &'static str = " j/k:move  Enter:toggle details  /:filter  Esc:clear  q:quit ";

/// The heights of the panels from top to bottom: the graph list takes what
/// is left, but `graph_min` at least.
#[derive(Debug, Clone, Copy, PartialEq, Eq, Structural)]
pub struct PanelHeights {
    pub graph_min: u16,
    pub details: u16,
    pub filter: u16,
    pub help: u16,
}

/// The heights of the panels: the details panel by whether it is expanded,
/// the filter bar only while a filter is typed.
pub fn panel_heights(mode: Mode, details_expanded: bool) -> (heights: PanelHeights)
    ensures
        heights == (PanelHeights {
            graph_min: GRAPH_MIN_HEIGHT,
            details: if details_expanded {
                DETAILS_HEIGHT
            } else {
                COLLAPSED_HEIGHT
            },
            filter: if mode == Mode::Filter {
                FILTER_HEIGHT
            } else {
                0
            },
            help: HELP_HEIGHT,
        }),
{
    let filter = match mode {
        Mode::Filter => FILTER_HEIGHT,
        Mode::Normal => 0,
    };
    let details = if details_expanded {
        DETAILS_HEIGHT
    } else {
        COLLAPSED_HEIGHT
    };
    PanelHeights { graph_min: GRAPH_MIN_HEIGHT, details, filter, help: HELP_HEIGHT }
}

/// The colours that lanes are drawn in.
#[derive(Debug, Clone, Copy, PartialEq, Eq, Structural)]
pub enum LaneColor {
    Blue,
    Red,
    Green,
    Magenta,
    Cyan,
    LightBlue,
    LightRed,
}

/// The colour of a lane: the lanes take the seven colours in turn.
pub open spec fn color_of(lane: int) -> LaneColor {
    let turn = lane % 7;
    if turn == 0 {
        LaneColor::Blue
    } else if turn == 1 {
        LaneColor::Red
    } else if turn == 2 {
        LaneColor::Green
    } else if turn == 3 {
        LaneColor::Magenta
    } else if turn == 4 {
        LaneColor::Cyan
    } else if turn == 5 {
        LaneColor::LightBlue
    } else {
        LaneColor::LightRed
    }
}

/// Map a lane index to a colour for visual variety.
pub fn lane_to_color(lane: usize) -> (color: LaneColor)
    ensures
        color == color_of(lane as int),
{
    let turn = lane % 7;
    if turn == 0 {
        LaneColor::Blue
    } else if turn == 1 {
        LaneColor::Red
    } else if turn == 2 {
        LaneColor::Green
    } else if turn == 3 {
        LaneColor::Magenta
    } else if turn == 4 {
        LaneColor::Cyan
    } else if turn == 5 {
        LaneColor::LightBlue
    } else {
        LaneColor::LightRed
    }
}

/// The title of the graph list: the number of commits, preceded by the
/// number of those shown where a filter hides some.
pub open spec fn title_of(shown: nat, total: nat) -> Seq<char> {
    if shown == total {
        " Commits ("@ + decimal(total) + ") "@
    } else {
        " Commits ("@ + decimal(shown) + "/"@ + decimal(total) + ") "@
    }
}

/// The title of the graph list.
pub fn graph_title(shown: usize, total: usize) -> (title: String)
    ensures
        title@ == title_of(shown as nat, total as nat),
{
    let mut title = " Commits (".to_owned();
    if shown != total {
        let mut digits: Vec<char> = Vec::new();
        push_decimal(&mut digits, shown as u128);
        push_chars(&mut title, &digits);
        title.append("/");
    }
    let mut digits: Vec<char> = Vec::new();
    push_decimal(&mut digits, total as u128);
    push_chars(&mut title, &digits);
    title.append(") ");
    title
}

/// The text of the filter bar: a hint while the filter is empty, else the
/// filter with a cursor behind it.
pub open spec fn filter_bar_of(filter: Seq<char>) -> Seq<char> {
    if filter.len() == 0 {
        "Search: (type to filter by commit message)"@
    } else {
        "Search: "@ + filter + "_"@
    }
}

/// The text of the filter bar.
pub fn filter_bar_text(filter: &str) -> (text: String)
    ensures
        text@ == filter_bar_of(filter@),
{
    if filter.is_empty() {
        "Search: (type to filter by commit message)".to_owned()
    } else {
        let mut text = "Search: ".to_owned();
        text.append(filter);
        text.append("_");
        text
    }
}

/// The row of the list that is highlighted: the selection, unless no commit
/// is shown.
pub fn list_selection(app: &App) -> (row: Option<usize>)
    ensures
        row == (if app.filtered.len() > 0 {
            Some(app.selected)
        } else {
            None
        }),
{
    if app.filtered.len() > 0 {
        Some(app.selected)
    } else {
        None
    }
}

/// How a piece of text is drawn.
#[derive(Debug, Clone, Copy, PartialEq, Eq, Structural)]
pub enum Paint {
    /// Unstyled.
    Plain,
    /// The graph prefix, in the colour of the commit's lane.
    Lane(LaneColor),
    /// A short hash.
    Hash,
    /// A ref label in the graph list.
    Label,
    /// The heading of a line of the details panel.
    Heading,
    /// The full id in the details panel.
    Strong,
    /// A ref name in the details panel.
    RefName,
    /// The subject in the details panel.
    Subject,
}

/// A piece of text and how it is drawn.
#[derive(Debug, Clone)]
pub struct Segment {
    pub text: String,
    pub paint: Paint,
}

/// The mathematical content of a [`Segment`].
pub struct SegmentView {
    pub text: Seq<char>,
    pub paint: Paint,
}

impl View for Segment {
    type V = SegmentView;

    open spec fn view(&self) -> SegmentView {
        SegmentView { text: self.text@, paint: self.paint }
    }
}

/// The views of the segments of a line, in order.
pub open spec fn line_view(v: Seq<Segment>) -> Seq<SegmentView> {
    Seq::new(v.len(), |i: int| v[i]@)
}

/// The views of the lines of a panel, in order.
pub open spec fn lines_view(v: Seq<Vec<Segment>>) -> Seq<Seq<SegmentView>> {
    Seq::new(v.len(), |i: int| line_view(v[i]@))
}

/// A segment of the given text and paint.
pub open spec fn seg(text: Seq<char>, paint: Paint) -> SegmentView {
    SegmentView { text, paint }
}

/// The ref labels of a row of the graph list: each in square brackets and
/// followed by a blank.
pub open spec fn label_segments(labels: Seq<Seq<char>>) -> Seq<SegmentView> {
    Seq::new(
        2 * labels.len(),
        |k: int|
            if k % 2 == 0 {
                seg("["@ + labels[k / 2] + "]"@, Paint::Label)
            } else {
                seg(" "@, Paint::Plain)
            },
    )
}

/// A row of the graph list: the graph prefix in the colour of the commit's
/// lane, the short hash, the ref labels, and the subject.
pub open spec fn row_segments_of(commit: CommitView, row: RowView, refs: RefsView) -> Seq<
    SegmentView,
> {
    seq![
        seg(prefix_of(row), Paint::Lane(color_of(row.lane))),
        seg(" "@, Paint::Plain),
        seg(short_of(commit.oid), Paint::Hash),
        seg(" "@, Paint::Plain),
    ] + label_segments(labels_of(refs, commit.oid)) + seq![seg(commit.subject, Paint::Plain)]
}

/// A segment of the given text and paint.
fn segment(text: &str, paint: Paint) -> (s: Segment)
    ensures
        s@ == seg(text@, paint),
{
    Segment { text: text.to_owned(), paint }
}

/// Builds a row of the graph list.
pub fn graph_list_item(commit: &Commit, node: &GraphNode, refs: &Refs) -> (line: Vec<Segment>)
    requires
        2 * columns(node@) - 1 <= usize::MAX,
        can_shorten(commit.oid@),
    ensures
        line_view(line@) == row_segments_of(commit@, node@, refs@),
{
    let labels = refs.labels_for(commit.oid.as_str());
    let mut line: Vec<Segment> = Vec::new();
    line.push(Segment { text: graph_prefix(node), paint: Paint::Lane(lane_to_color(node.lane)) });
    line.push(segment(" ", Paint::Plain));
    line.push(segment(short_hash(commit.oid.as_str()), Paint::Hash));
    line.push(segment(" ", Paint::Plain));
    let ghost head = line_view(line@);
    let ghost names = strings_view(labels@);

    let mut i: usize = 0;
    while i < labels.len()
        invariant
            i <= labels.len(),
            names == strings_view(labels@),
            line.len() == 4 + 2 * i,
            line_view(line@) =~= head + label_segments(names).take(2 * i),
        decreases labels.len() - i,
    {
        let ghost before = line_view(line@);
        let mut text = "[".to_owned();
        text.append(labels[i].as_str());
        text.append("]");
        line.push(Segment { text, paint: Paint::Label });
        line.push(segment(" ", Paint::Plain));
        assert(line_view(line@) =~= before + seq![
            seg("["@ + names[i as int] + "]"@, Paint::Label),
            seg(" "@, Paint::Plain),
        ]);
        i += 1;
    }
    let ghost labelled = line_view(line@);
    line.push(segment(commit.subject.as_str(), Paint::Plain));
    assert(line_view(line@) =~= labelled + seq![seg(commit.subject@, Paint::Plain)]);
    line
}

/// The ref names of the details panel, with a comma and a blank between
/// neighbours.
pub open spec fn joined_names(labels: Seq<Seq<char>>) -> Seq<SegmentView> {
    Seq::new(
        if labels.len() > 0 {
            (2 * labels.len() - 1) as nat
        } else {
            0
        },
        |k: int|
            if k % 2 == 0 {
                seg(labels[k / 2], Paint::RefName)
            } else {
                seg(", "@, Paint::Plain)
            },
    )
}

/// The lines of the details panel for a commit, as seen at the time `now`:
/// its id, its author, its date (absolute and relative), its refs (a dash
/// where it has none), an empty line, and its subject.
pub open spec fn detail_lines_of(commit: CommitView, refs: RefsView, now: int) -> Seq<
    Seq<SegmentView>,
> {
    seq![
        seq![seg("Commit  "@, Paint::Heading), seg(commit.oid, Paint::Strong)],
        seq![
            seg("Author  "@, Paint::Heading),
            seg(commit.author + " <"@ + commit.author_email + ">"@, Paint::Plain),
        ],
        seq![
            seg("Date    "@, Paint::Heading),
            seg(
                iso_of(commit.timestamp) + "  ("@ + relative_of(now, commit.timestamp) + ")"@,
                Paint::Plain,
            ),
        ],
        seq![seg("Refs    "@, Paint::Heading)] + (if labels_of(refs, commit.oid).len() == 0 {
            seq![seg("—"@, Paint::Plain)]
        } else {
            joined_names(labels_of(refs, commit.oid))
        }),
        seq![seg(""@, Paint::Plain)],
        seq![seg("    "@ + commit.subject, Paint::Subject)],
    ]
}

/// The line of the details panel that lists the refs of a commit.
fn refs_line(labels: &Vec<String>) -> (line: Vec<Segment>)
    ensures
        line_view(line@) == seq![seg("Refs    "@, Paint::Heading)] + (if labels.len() == 0 {
            seq![seg("—"@, Paint::Plain)]
        } else {
            joined_names(strings_view(labels@))
        }),
{
    let mut line: Vec<Segment> = Vec::new();
    line.push(segment("Refs    ", Paint::Heading));
    let ghost head = line_view(line@);
    let ghost names = strings_view(labels@);
    if labels.len() == 0 {
        line.push(segment("—", Paint::Plain));
        return line;
    }
    line.push(segment(labels[0].as_str(), Paint::RefName));
    let mut i: usize = 1;
    while i < labels.len()
        invariant
            1 <= i <= labels.len(),
            names == strings_view(labels@),
            line.len() == 2 * i,
            line_view(line@) =~= head + joined_names(names).take(2 * i - 1),
        decreases labels.len() - i,
    {
        let ghost before = line_view(line@);
        line.push(segment(", ", Paint::Plain));
        line.push(segment(labels[i].as_str(), Paint::RefName));
        assert(line_view(line@) =~= before + seq![
            seg(", "@, Paint::Plain),
            seg(names[i as int], Paint::RefName),
        ]);
        i += 1;
    }
    line
}

/// A line of two segments.
fn pair(first: Segment, second: Segment) -> (line: Vec<Segment>)
    ensures
        line_view(line@) == seq![first@, second@],
{
    let mut line: Vec<Segment> = Vec::new();
    line.push(first);
    line.push(second);
    line
}

/// A line of one segment.
fn single(only: Segment) -> (line: Vec<Segment>)
    ensures
        line_view(line@) == seq![only@],
{
    let mut line: Vec<Segment> = Vec::new();
    line.push(only);
    line
}

/// Builds the lines of the details panel for a commit, as seen at the time
/// `now` in seconds since the epoch.
pub fn detail_lines(commit: &Commit, refs: &Refs, now: i64) -> (lines: Vec<Vec<Segment>>)
    ensures
        lines_view(lines@) == detail_lines_of(commit@, refs@, now as int),
{
    let mut author = String::new();
    author.append(commit.author.as_str());
    author.append(" <");
    author.append(commit.author_email.as_str());
    author.append(">");

    let mut date = format_iso(commit.timestamp);
    date.append("  (");
    date.append(format_relative_at(now, commit.timestamp).as_str());
    date.append(")");

    let mut subject = "    ".to_owned();
    subject.append(commit.subject.as_str());

    let labels = refs.labels_for(commit.oid.as_str());

    let mut lines: Vec<Vec<Segment>> = Vec::new();
    lines.push(
        pair(segment("Commit  ", Paint::Heading), segment(commit.oid.as_str(), Paint::Strong)),
    );
    lines.push(
        pair(segment("Author  ", Paint::Heading), Segment { text: author, paint: Paint::Plain }),
    );
    lines.push(
        pair(segment("Date    ", Paint::Heading), Segment { text: date, paint: Paint::Plain }),
    );
    lines.push(refs_line(&labels));
    lines.push(single(segment("", Paint::Plain)));
    lines.push(single(Segment { text: subject, paint: Paint::Subject }));
    lines
}

} // verus!
