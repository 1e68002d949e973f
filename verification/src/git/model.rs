//! Commits and refs.

use vstd::prelude::*;

use crate::util::text::{chars_of, push_chars, strip_prefix_chars, without_prefix};

verus! {

/// The characters of each string of `v`, in order.
pub open spec fn strings_view(v: Seq<String>) -> Seq<Seq<char>> {
    Seq::new(v.len(), |i: int| v[i]@)
}

/// One commit as read from the history: its object id, the ids of its
/// parents (first parent first), who wrote it, when, and its subject line.
#[derive(Debug, Clone)]
pub struct Commit {
    pub oid: String,
    pub parents: Vec<String>,
    pub author: String,
    pub author_email: String,
    pub timestamp: i64,
    pub subject: String,
}

/// The mathematical content of a [`Commit`].
pub struct CommitView {
    pub oid: Seq<char>,
    pub parents: Seq<Seq<char>>,
    pub author: Seq<char>,
    pub author_email: Seq<char>,
    pub timestamp: int,
    pub subject: Seq<char>,
}

impl View for Commit {
    type V = CommitView;

    open spec fn view(&self) -> CommitView {
        CommitView {
            oid: self.oid@,
            parents: strings_view(self.parents@),
            author: self.author@,
            author_email: self.author_email@,
            timestamp: self.timestamp as int,
            subject: self.subject@,
        }
    }
}

/// The views of the commits of `v`, in order.
pub open spec fn commits_view(v: Seq<Commit>) -> Seq<CommitView> {
    Seq::new(v.len(), |i: int| v[i]@)
}

/// The refs of a repository: where `HEAD` points, and the branches and tags
/// as pairs of a ref's full name and the id it points to.
#[derive(Debug, Clone)]
pub struct Refs {
    pub head_oid: String,
    /// `refs/heads/main`, or nothing for a detached `HEAD`.
    pub head_name: Option<String>,
    pub branches: Vec<(String, String)>,
    pub tags: Vec<(String, String)>,
}

/// The mathematical content of [`Refs`].
pub struct RefsView {
    pub head_oid: Seq<char>,
    pub head_name: Option<Seq<char>>,
    pub branches: Seq<(Seq<char>, Seq<char>)>,
    pub tags: Seq<(Seq<char>, Seq<char>)>,
}

/// The views of pairs of a ref's name and id, in order.
pub open spec fn named_ids_view(v: Seq<(String, String)>) -> Seq<(Seq<char>, Seq<char>)> {
    Seq::new(v.len(), |i: int| (v[i].0@, v[i].1@))
}

impl View for Refs {
    type V = RefsView;

    open spec fn view(&self) -> RefsView {
        RefsView {
            head_oid: self.head_oid@,
            head_name: match self.head_name {
                Some(name) => Some(name@),
                None => None,
            },
            branches: named_ids_view(self.branches@),
            tags: named_ids_view(self.tags@),
        }
    }
}

/// No refs at all: an empty `HEAD` id, no branch, no tag.
pub open spec fn no_refs() -> RefsView {
    RefsView { head_oid: Seq::empty(), head_name: None, branches: Seq::empty(), tags: Seq::empty() }
}

impl Default for Refs {
    fn default() -> (r: Self)
        ensures
            r@ == no_refs(),
    {
        let r = Refs {
            head_oid: String::new(),
            head_name: None,
            branches: Vec::new(),
            tags: Vec::new(),
        };
        assert(r@.tags =~= Seq::<(Seq<char>, Seq<char>)>::empty());
        r
    }
}

/// The label for `HEAD` on the commit `oid`: `HEAD -> ` and the short name
/// of the branch it is on, or `HEAD` alone where it is detached; none where
/// `HEAD` points elsewhere.
pub open spec fn head_label(refs: RefsView, oid: Seq<char>) -> Option<Seq<char>> {
    if refs.head_oid != oid {
        None
    } else {
        match refs.head_name {
            Some(name) => Some("HEAD -> "@ + without_prefix(name, "refs/heads/"@)),
            None => Some("HEAD"@),
        }
    }
}

/// The label of a branch on the commit `oid`: its short name, unless it
/// points elsewhere or is the branch that the label for `HEAD` names.
pub open spec fn branch_label(refs: RefsView, oid: Seq<char>, branch: (Seq<char>, Seq<char>))
    -> Option<Seq<char>> {
    if branch.1 == oid && !(refs.head_name == Some(branch.0) && refs.head_oid == oid) {
        Some(without_prefix(branch.0, "refs/heads/"@))
    } else {
        None
    }
}

/// The label of a tag on the commit `oid`: `tag: ` and its short name; none
/// where it points elsewhere.
pub open spec fn tag_label(oid: Seq<char>, tag: (Seq<char>, Seq<char>)) -> Option<Seq<char>> {
    if tag.1 == oid {
        Some("tag: "@ + without_prefix(tag.0, "refs/tags/"@))
    } else {
        None
    }
}

/// The labels that are there, in order.
pub open spec fn present(labels: Seq<Option<Seq<char>>>) -> Seq<Seq<char>>
    decreases labels.len(),
{
    if labels.len() == 0 {
        Seq::empty()
    } else {
        match labels.last() {
            Some(label) => present(labels.drop_last()).push(label),
            None => present(labels.drop_last()),
        }
    }
}

/// The labels of the commit `oid`: the one for `HEAD`, then those of the
/// branches, then those of the tags, each group in the order of the refs.
pub open spec fn labels_of(refs: RefsView, oid: Seq<char>) -> Seq<Seq<char>> {
    present(seq![head_label(refs, oid)]) + present(
        Seq::new(refs.branches.len(), |i: int| branch_label(refs, oid, refs.branches[i])),
    ) + present(Seq::new(refs.tags.len(), |i: int| tag_label(oid, refs.tags[i])))
}

/// The short form of a ref's name: the name without `prefix`.
fn short_name(name: &String, prefix: &str) -> (short: Vec<char>)
    ensures
        short@ == without_prefix(name@, prefix@),
{
    strip_prefix_chars(&chars_of(name.as_str()), &chars_of(prefix))
}

impl Refs {
    /// Returns the short labels for a given id, listing `HEAD`, branch names
    /// and tags.
    pub fn labels_for(&self, oid: &str) -> (labels: Vec<String>)
        ensures
            strings_view(labels@) == labels_of(self@, oid@),
    {
        let oid = oid.to_owned();
        let mut labels: Vec<String> = Vec::new();
        let at_head = self.head_oid == oid;
        assert(present(seq![head_label(self@, oid@)].drop_last()) =~= Seq::<Seq<char>>::empty());

        if at_head {
            match &self.head_name {
                Some(name) => {
                    // "refs/heads/main" becomes "HEAD -> main".
                    let mut label = "HEAD -> ".to_owned();
                    push_chars(&mut label, &short_name(name, "refs/heads/"));
                    labels.push(label);
                },
                None => {
                    labels.push("HEAD".to_owned());
                },
            }
        }
        let ghost head = strings_view(labels@);

        let ghost branches = Seq::new(
            self@.branches.len(),
            |i: int| branch_label(self@, oid@, self@.branches[i]),
        );
        let mut i: usize = 0;
        while i < self.branches.len()
            invariant
                i <= self.branches.len(),
                at_head == (self.head_oid@ == oid@),
                branches == Seq::new(
                    self@.branches.len(),
                    |i: int| branch_label(self@, oid@, self@.branches[i]),
                ),
                strings_view(labels@) =~= head + present(branches.take(i as int)),
            decreases self.branches.len() - i,
        {
            let ghost before = strings_view(labels@);
            assert(branches.take(i + 1).drop_last() =~= branches.take(i as int));
            let (refname, ref_oid) = &self.branches[i];
            if *ref_oid == oid {
                // The branch that the label for HEAD names is not listed again.
                let named_by_head = match &self.head_name {
                    Some(name) => *name == *refname,
                    None => false,
                };
                if !named_by_head || !at_head {
                    labels.push(string_of_short(refname, "refs/heads/"));
                    assert(strings_view(labels@) =~= before.push(
                        without_prefix(refname@, "refs/heads/"@),
                    ));
                }
            }
            i += 1;
        }
        assert(branches.take(self.branches.len() as int) =~= branches);
        let ghost upper = strings_view(labels@);

        let ghost tags = Seq::new(self@.tags.len(), |i: int| tag_label(oid@, self@.tags[i]));
        let mut i: usize = 0;
        while i < self.tags.len()
            invariant
                i <= self.tags.len(),
                tags == Seq::new(self@.tags.len(), |i: int| tag_label(oid@, self@.tags[i])),
                strings_view(labels@) =~= upper + present(tags.take(i as int)),
            decreases self.tags.len() - i,
        {
            let ghost before = strings_view(labels@);
            assert(tags.take(i + 1).drop_last() =~= tags.take(i as int));
            let (refname, ref_oid) = &self.tags[i];
            if *ref_oid == oid {
                let mut label = "tag: ".to_owned();
                push_chars(&mut label, &short_name(refname, "refs/tags/"));
                labels.push(label);
                assert(strings_view(labels@) =~= before.push(
                    "tag: "@ + without_prefix(refname@, "refs/tags/"@),
                ));
            }
            i += 1;
        }
        assert(tags.take(self.tags.len() as int) =~= tags);
        labels
    }
}

/// The short form of a ref's name as a string.
fn string_of_short(name: &String, prefix: &str) -> (short: String)
    ensures
        short@ == without_prefix(name@, prefix@),
{
    let mut short = String::new();
    push_chars(&mut short, &short_name(name, prefix));
    short
}

} // verus!
