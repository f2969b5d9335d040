//! Paths of the runtime's artifacts, as a root and the segments joined to it.

use vstd::prelude::*;

verus! {

/// A path as a mathematical value.
#[verifier::ext_equal]
pub struct PathModel {
    pub root: Seq<char>,
    pub segments: Seq<Seq<char>>,
}

impl PathModel {
    /// The path with one more segment joined to it.
    pub open spec fn join(self, segment: Seq<char>) -> PathModel {
        PathModel { segments: self.segments.push(segment), ..self }
    }
}

/// A path: the segments are joined to the root one after the other.
#[derive(Debug)]
pub struct RuntimePath {
    /// What the first segment is joined to.
    pub root: String,
    /// What is joined to the root, in order.
    pub segments: Vec<String>,
}

/// The characters of each string.
pub open spec fn strings_view(strings: Seq<String>) -> Seq<Seq<char>> {
    strings.map_values(|s: String| s@)
}

/// A copy of a list of strings.
pub fn copy_strings(strings: &Vec<String>) -> (out: Vec<String>)
    ensures
        strings_view(out@) == strings_view(strings@),
{
    let mut out: Vec<String> = Vec::new();
    let mut i: usize = 0;
    while i < strings.len()
        invariant
            i == out.len(),
            i <= strings.len(),
            forall|j: int| 0 <= j < i ==> (#[trigger] out@[j])@ == strings@[j]@,
        decreases strings.len() - i,
    {
        out.push(strings[i].clone());
        i = i + 1;
    }
    assert(strings_view(out@) =~= strings_view(strings@));
    out
}

impl RuntimePath {
    /// The path as a mathematical value.
    pub open spec fn model(self) -> PathModel {
        PathModel { root: self.root@, segments: strings_view(self.segments@) }
    }

    /// The path that is `root` alone.
    pub fn from_root(root: &str) -> (path: RuntimePath)
        ensures
            path.model() == (PathModel { root: root@, segments: Seq::empty() }),
    {
        let path = RuntimePath { root: root.to_owned(), segments: Vec::new() };
        assert(path.model().segments =~= Seq::empty());
        path
    }

    /// A copy of the path.
    pub fn copy(&self) -> (path: RuntimePath)
        ensures
            path.model() == self.model(),
    {
        let segments = copy_strings(&self.segments);
        RuntimePath { root: self.root.clone(), segments }
    }

    /// The path with one more segment joined to it.
    pub fn join(&self, segment: &str) -> (path: RuntimePath)
        ensures
            path.model() == self.model().join(segment@),
    {
        let mut path = self.copy();
        path.segments.push(segment.to_owned());
        assert(path.model().segments =~= self.model().segments.push(segment@));
        path
    }
}

impl Clone for RuntimePath {
    fn clone(&self) -> (path: Self)
        ensures
            path.model() == self.model(),
    {
        self.copy()
    }
}

/// The models of a list of paths.
pub open spec fn paths_view(paths: Seq<RuntimePath>) -> Seq<PathModel> {
    paths.map_values(|p: RuntimePath| p.model())
}

/// A path stands for its root and its segments, in their order, and a list of paths for each.
pub proof fn paths_stand_for_their_segments(path: RuntimePath, paths: Seq<RuntimePath>, i: int)
    ensures
        path.model().root == path.root@,
        path.model().segments.len() == path.segments@.len(),
        0 <= i < path.segments@.len() ==> path.model().segments[i] == path.segments@[i]@,
        paths_view(paths).len() == paths.len(),
        0 <= i < paths.len() ==> paths_view(paths)[i] == paths[i].model(),
{
}

} // verus!
