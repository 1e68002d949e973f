//! The state of the viewer: what is loaded, which commits the filter shows,
//! and which of them is selected.

use vstd::prelude::*;

use crate::git::model::{commits_view, Commit, CommitView, Refs};
use crate::graph::lanes::GraphNode;
use crate::util::split::texts_view;
use crate::util::text::{chars_of, push_char};

verus! {

/// The input mode: moving through the list, or typing a filter.
#[derive(Debug, Clone, Copy, PartialEq, Eq, Structural)]
pub enum Mode {
    Normal,
    Filter,
}

/// The state of the viewer: the loaded history with its layout, and what the
/// user has selected and typed.
pub struct App {
    pub commits: Vec<Commit>,
    pub refs: Refs,
    pub graph: Vec<GraphNode>,
    /// Indices into `commits` that pass the current filter (all of them when
    /// there is no filter), in ascending order.
    pub filtered: Vec<usize>,
    /// Index within `filtered` that is currently selected.
    pub selected: usize,
    /// Current input mode.
    pub mode: Mode,
    /// Current filter string (substring match on the subject, ignoring case).
    pub filter: String,
    /// Whether the details panel is expanded (vs. collapsed).
    pub details_expanded: bool,
}

/// The lower-case form of a text, as the standard library's
/// `str::to_lowercase` gives it (by the Unicode rules for lower case).
pub uninterp spec fn lowercase_of(s: Seq<char>) -> Seq<char>;

/// The lower-case form of `s`.
///
/// Trusted: this is `str::to_lowercase` of the standard library; its result
/// depends on the characters of `s` alone and is named `lowercase_of`.
#[verifier::external_body]
fn to_lowercase(s: &str) -> (lower: String)
    ensures
        lower@ == lowercase_of(s@),
{
    s.to_lowercase()
}

/// Removes the last character of a string, if it has one, and returns it.
///
/// Trusted: this is `String::pop` of the standard library, which removes the
/// last character from the string and returns it, or returns `None` and
/// leaves the string as it is where it is empty.
#[verifier::external_body]
fn pop_char(s: &mut String) -> (last: Option<char>)
    ensures
        old(s)@.len() > 0 ==> last == Some(old(s)@.last()) && final(s)@ == old(s)@.drop_last(),
        old(s)@.len() == 0 ==> last is None && final(s)@ == old(s)@,
{
    s.pop()
}

/// Whether `needle` stands in `hay` at index `at`.
pub open spec fn occurs_at(hay: Seq<char>, needle: Seq<char>, at: int) -> bool {
    0 <= at && at + needle.len() <= hay.len() && hay.subrange(at, at + needle.len()) == needle
}

/// Whether `needle` stands somewhere in `hay`. The empty text stands in
/// every text.
pub open spec fn contains(hay: Seq<char>, needle: Seq<char>) -> bool {
    exists|at: int| occurs_at(hay, needle, at)
}

/// The indices below `upto` of the texts that contain `needle`, ascending.
pub open spec fn indices_containing(texts: Seq<Seq<char>>, needle: Seq<char>, upto: int) -> Seq<
    usize,
>
    decreases upto,
{
    if upto <= 0 {
        Seq::empty()
    } else if contains(texts[upto - 1], needle) {
        indices_containing(texts, needle, upto - 1).push((upto - 1) as usize)
    } else {
        indices_containing(texts, needle, upto - 1)
    }
}

/// The text that subjects are searched for: the filter in lower case.
pub open spec fn needle_of(filter: Seq<char>) -> Seq<char> {
    if filter.len() == 0 {
        Seq::empty()
    } else {
        lowercase_of(filter)
    }
}

/// The subjects of the commits in lower case, in order.
pub open spec fn lowered_subjects(commits: Seq<CommitView>) -> Seq<Seq<char>> {
    Seq::new(commits.len(), |i: int| lowercase_of(commits[i].subject))
}

/// The commits that a filter shows: the indices of those whose subject
/// contains the filter, both taken in lower case, in ascending order.
pub open spec fn visible_of(commits: Seq<CommitView>, filter: Seq<char>) -> Seq<usize> {
    indices_containing(lowered_subjects(commits), needle_of(filter), commits.len() as int)
}

/// The selection that is kept when `shown` commits are visible: the first
/// where there is none, the last where it lay beyond them.
pub open spec fn clamped(selected: usize, shown: int) -> usize {
    if shown <= 0 {
        0
    } else if selected >= shown {
        (shown - 1) as usize
    } else {
        selected
    }
}

/// Whether `needle` stands in `hay` at index `at`.
fn found_at(hay: &Vec<char>, needle: &Vec<char>, at: usize) -> (b: bool)
    requires
        at + needle.len() <= hay.len(),
    ensures
        b == occurs_at(hay@, needle@, at as int),
{
    let mut k: usize = 0;
    while k < needle.len()
        invariant
            k <= needle.len(),
            at + needle.len() <= hay.len(),
            forall|j: int| 0 <= j < k ==> hay[at + j] == needle[j],
        decreases needle.len() - k,
    {
        if hay[at + k] != needle[k] {
            return false;
        }
        k += 1;
    }
    assert(hay@.subrange(at as int, at + needle.len()) =~= needle@);
    true
}

/// Whether `needle` stands somewhere in `hay`.
pub fn contains_chars(hay: &Vec<char>, needle: &Vec<char>) -> (b: bool)
    ensures
        b == contains(hay@, needle@),
{
    if needle.len() > hay.len() {
        return false;
    }
    let last = hay.len() - needle.len();
    let mut at: usize = 0;
    loop
        invariant
            at <= last,
            last == hay.len() - needle.len(),
            forall|j: int| 0 <= j < at ==> !occurs_at(hay@, needle@, j),
        decreases last - at,
    {
        if found_at(hay, needle, at) {
            return true;
        }
        if at == last {
            return false;
        }
        at += 1;
    }
}

/// The indices of the texts that contain `needle`, ascending.
pub fn matching_indices(texts: &Vec<Vec<char>>, needle: &Vec<char>) -> (found: Vec<usize>)
    ensures
        found@ == indices_containing(texts_view(texts@), needle@, texts.len() as int),
{
    let mut found: Vec<usize> = Vec::new();
    let mut i: usize = 0;
    while i < texts.len()
        invariant
            i <= texts.len(),
            found@ == indices_containing(texts_view(texts@), needle@, i as int),
        decreases texts.len() - i,
    {
        if contains_chars(&texts[i], needle) {
            found.push(i);
        }
        i += 1;
    }
    found
}

/// Every text contains the empty text, so an empty needle selects all.
pub proof fn lemma_empty_needle_selects_all(texts: Seq<Seq<char>>, upto: int)
    requires
        0 <= upto <= texts.len(),
        upto <= usize::MAX,
    ensures
        indices_containing(texts, Seq::empty(), upto) == Seq::new(
            upto as nat,
            |i: int| i as usize,
        ),
    decreases upto,
{
    if upto > 0 {
        lemma_empty_needle_selects_all(texts, upto - 1);
        assert(texts[upto - 1].subrange(0, 0) =~= Seq::<char>::empty());
        assert(occurs_at(texts[upto - 1], Seq::empty(), 0));
    }
}

/// The indices that a selection yields are ascending and lie below `upto`.
pub proof fn lemma_indices_ascending(texts: Seq<Seq<char>>, needle: Seq<char>, upto: int)
    requires
        0 <= upto <= usize::MAX,
    ensures
        indices_containing(texts, needle, upto).len() <= upto,
        forall|k: int|
            0 <= k < indices_containing(texts, needle, upto).len() ==> (
            #[trigger] indices_containing(texts, needle, upto)[k]) < upto,
        forall|j: int, k: int|
            0 <= j < k < indices_containing(texts, needle, upto).len() ==> (
            #[trigger] indices_containing(texts, needle, upto)[j]) < (
            #[trigger] indices_containing(texts, needle, upto)[k]),
    decreases upto,
{
    if upto > 0 {
        lemma_indices_ascending(texts, needle, upto - 1);
    }
}

/// In a consistent state the visible commits are commits, in ascending
/// order, and the selection points at one of them unless none is visible.
pub proof fn lemma_wf_selection(app: App)
    requires
        app.wf(),
    ensures
        forall|k: int| 0 <= k < app.filtered.len() ==> (#[trigger] app.filtered[k]) < app.commits.len(),
        forall|j: int, k: int|
            0 <= j < k < app.filtered.len() ==> (#[trigger] app.filtered[j]) < (
            #[trigger] app.filtered[k]),
        app.filtered.len() > 0 ==> app.selected_index() is Some,
        app.filtered.len() == 0 ==> app.selected == 0 && app.selected_index() is None,
{
    lemma_indices_ascending(
        lowered_subjects(commits_view(app.commits@)),
        needle_of(app.filter@),
        app.commits.len() as int,
    );
}

impl App {
    /// Whether the state is consistent: `filtered` holds what the filter
    /// shows, and the selection lies within it.
    pub open spec fn wf(&self) -> bool {
        &&& self.filtered@ == visible_of(commits_view(self.commits@), self.filter@)
        &&& self.selected == clamped(self.selected, self.filtered.len() as int)
    }

    /// The state of a viewer that has just loaded a history: no filter, all
    /// commits shown, the first one selected, details expanded.
    pub fn new(commits: Vec<Commit>, refs: Refs, graph: Vec<GraphNode>) -> (app: Self)
        ensures
            app.commits == commits,
            app.refs == refs,
            app.graph == graph,
            app.filtered@ == Seq::new(commits.len() as nat, |i: int| i as usize),
            app.selected == 0,
            app.mode == Mode::Normal,
            app.filter@ == Seq::<char>::empty(),
            app.details_expanded,
            app.wf(),
    {
        let filtered = all_indices(commits.len());
        proof {
            lemma_empty_needle_selects_all(
                lowered_subjects(commits_view(commits@)),
                commits.len() as int,
            );
        }
        App {
            commits,
            refs,
            graph,
            filtered,
            selected: 0,
            mode: Mode::Normal,
            filter: String::new(),
            details_expanded: true,
        }
    }

    /// Select the next visible commit, if there is one.
    pub fn move_down(&mut self)
        ensures
            *final(self) == (App {
                selected: if old(self).selected + 1 < old(self).filtered.len() {
                    (old(self).selected + 1) as usize
                } else {
                    old(self).selected
                },
                ..*old(self)
            }),
            old(self).wf() ==> final(self).wf(),
    {
        if self.filtered.len() > 0 && self.selected < self.filtered.len() - 1 {
            self.selected += 1;
        }
    }

    /// Select the previous visible commit, if there is one.
    pub fn move_up(&mut self)
        ensures
            *final(self) == (App {
                selected: if old(self).selected > 0 {
                    (old(self).selected - 1) as usize
                } else {
                    0
                },
                ..*old(self)
            }),
            old(self).wf() ==> final(self).wf(),
    {
        if self.selected > 0 {
            self.selected -= 1;
        }
    }

    /// Select the first visible commit.
    pub fn move_to_top(&mut self)
        ensures
            *final(self) == (App { selected: 0, ..*old(self) }),
            old(self).wf() ==> final(self).wf(),
    {
        self.selected = 0;
    }

    /// Select the last visible commit, if any is visible.
    pub fn move_to_bottom(&mut self)
        ensures
            *final(self) == (App {
                selected: if old(self).filtered.len() > 0 {
                    (old(self).filtered.len() - 1) as usize
                } else {
                    old(self).selected
                },
                ..*old(self)
            }),
            old(self).wf() ==> final(self).wf(),
    {
        if self.filtered.len() > 0 {
            self.selected = self.filtered.len() - 1;
        }
    }

    /// Expand the details panel, or collapse it.
    pub fn toggle_details(&mut self)
        ensures
            *final(self) == (App {
                details_expanded: !old(self).details_expanded,
                ..*old(self)
            }),
            old(self).wf() ==> final(self).wf(),
    {
        self.details_expanded = !self.details_expanded;
    }

    /// Start typing a filter.
    pub fn enter_filter_mode(&mut self)
        ensures
            *final(self) == (App { mode: Mode::Filter, ..*old(self) }),
            old(self).wf() ==> final(self).wf(),
    {
        self.mode = Mode::Filter;
    }

    /// Whether `self` is `before` with the filter `filter` put in force: the
    /// commits it shows are visible, and the selection is clamped to them.
    pub open spec fn refiltered(&self, before: App, filter: Seq<char>) -> bool {
        &&& self.commits == before.commits
        &&& self.refs == before.refs
        &&& self.graph == before.graph
        &&& self.details_expanded == before.details_expanded
        &&& self.filter@ == filter
        &&& self.filtered@ == visible_of(commits_view(before.commits@), filter)
        &&& self.selected == clamped(before.selected, self.filtered.len() as int)
    }

    /// Leave filter mode and drop the filter: all commits are shown again.
    pub fn exit_filter_mode(&mut self)
        ensures
            final(self).refiltered(*old(self), Seq::empty()),
            final(self).mode == Mode::Normal,
            final(self).wf(),
    {
        self.mode = Mode::Normal;
        self.filter = String::new();
        self.recompute_filter();
    }

    /// Add a character to the end of the filter.
    pub fn filter_push(&mut self, c: char)
        ensures
            final(self).refiltered(*old(self), old(self).filter@.push(c)),
            final(self).mode == old(self).mode,
            final(self).wf(),
    {
        push_char(&mut self.filter, c);
        self.recompute_filter();
    }

    /// Remove the last character of the filter, if it has one.
    pub fn filter_pop(&mut self)
        ensures
            final(self).refiltered(
                *old(self),
                if old(self).filter@.len() > 0 {
                    old(self).filter@.drop_last()
                } else {
                    old(self).filter@
                },
            ),
            final(self).mode == old(self).mode,
            final(self).wf(),
    {
        pop_char(&mut self.filter);
        self.recompute_filter();
    }

    /// Put the filter in force: show the commits whose subject contains it,
    /// ignoring case, and keep the selection within them.
    pub fn recompute_filter(&mut self)
        ensures
            final(self).refiltered(*old(self), old(self).filter@),
            final(self).mode == old(self).mode,
            final(self).wf(),
    {
        let needle = if self.filter.as_str().is_empty() {
            Vec::new()
        } else {
            chars_of(to_lowercase(self.filter.as_str()).as_str())
        };
        if needle.len() == 0 {
            self.filtered = all_indices(self.commits.len());
            proof {
                lemma_empty_needle_selects_all(
                    lowered_subjects(commits_view(self.commits@)),
                    self.commits.len() as int,
                );
                assert(needle@ =~= Seq::<char>::empty());
            }
        } else {
            let subjects = self.lowered();
            self.filtered = matching_indices(&subjects, &needle);
        }
        // Clamp the selection.
        if self.filtered.len() == 0 {
            self.selected = 0;
        } else if self.selected >= self.filtered.len() {
            self.selected = self.filtered.len() - 1;
        }
    }

    /// The subjects of the commits in lower case.
    fn lowered(&self) -> (subjects: Vec<Vec<char>>)
        ensures
            texts_view(subjects@) == lowered_subjects(commits_view(self.commits@)),
            subjects.len() == self.commits.len(),
    {
        let mut subjects: Vec<Vec<char>> = Vec::new();
        let mut i: usize = 0;
        while i < self.commits.len()
            invariant
                i <= self.commits.len(),
                subjects.len() == i,
                forall|j: int|
                    0 <= j < i ==> subjects[j]@ == lowercase_of(self.commits[j].subject@),
            decreases self.commits.len() - i,
        {
            subjects.push(chars_of(to_lowercase(self.commits[i].subject.as_str()).as_str()));
            i += 1;
        }
        subjects
    }

    /// The index of the selected commit among all commits, if the selection
    /// points at one.
    pub open spec fn selected_index(&self) -> Option<int> {
        if self.selected < self.filtered.len() && self.filtered[self.selected as int]
            < self.commits.len() {
            Some(self.filtered[self.selected as int] as int)
        } else {
            None
        }
    }

    /// The currently selected commit, if any.
    pub fn selected_commit(&self) -> (commit: Option<&Commit>)
        ensures
            match commit {
                Some(c) => self.selected_index() is Some && *c == self.commits[
                    self.selected_index()->0],
                None => self.selected_index() is None,
            },
    {
        if self.selected < self.filtered.len() {
            let i = self.filtered[self.selected];
            if i < self.commits.len() {
                return Some(&self.commits[i]);
            }
        }
        None
    }
}

/// The indices below `n`, ascending.
fn all_indices(n: usize) -> (v: Vec<usize>)
    ensures
        v@ == Seq::new(n as nat, |i: int| i as usize),
{
    let mut v: Vec<usize> = Vec::new();
    let mut i: usize = 0;
    while i < n
        invariant
            i <= n,
            v.len() == i,
            forall|j: int| 0 <= j < i ==> v[j] == j,
        decreases n - i,
    {
        v.push(i);
        i += 1;
    }
    v
}

} // verus!
