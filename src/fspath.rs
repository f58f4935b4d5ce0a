use vstd::prelude::*;

verus! {

/// A filesystem path held as its components, the root (`/`, or a drive
/// prefix) being the first component of an absolute path.
#[derive(Debug)]
pub struct FsPath {
    pub parts: Vec<String>,
}

/// The characters of each component.
pub open spec fn parts_view(parts: Seq<String>) -> Seq<Seq<char>> {
    Seq::new(parts.len(), |i: int| parts[i]@)
}

impl View for FsPath {
    type V = Seq<Seq<char>>;

    open spec fn view(&self) -> Seq<Seq<char>> {
        parts_view(self.parts@)
    }
}

/// The path `p` extended by one component.
pub open spec fn spec_join(p: Seq<Seq<char>>, name: Seq<char>) -> Seq<Seq<char>> {
    p.push(name)
}

/// The directory that holds `p`: `p` without its last component. A path of
/// one component (the root) or none has no parent.
pub open spec fn spec_parent(p: Seq<Seq<char>>) -> Option<Seq<Seq<char>>> {
    if p.len() <= 1 {
        None
    } else {
        Some(p.drop_last())
    }
}

impl FsPath {
    pub fn new(parts: Vec<String>) -> (r: FsPath)
        ensures
            r.parts@ == parts@,
    {
        FsPath { parts }
    }

    /// The path `self/name`.
    pub fn join(&self, name: &str) -> (r: FsPath)
        ensures
            r@ == spec_join(self@, name@),
    {
        let mut parts: Vec<String> = Vec::new();
        let mut i: usize = 0;
        while i < self.parts.len()
            invariant
                i <= self.parts.len(),
                parts@.len() == i,
                forall|k: int| 0 <= k < i ==> #[trigger] parts@[k]@ == self.parts@[k]@,
            decreases self.parts.len() - i,
        {
            let c = self.parts[i].clone();
            parts.push(c);
            i += 1;
        }
        parts.push(name.to_owned());
        let r = FsPath { parts };
        assert(r@ =~= spec_join(self@, name@));
        r
    }

    /// The directory that holds this path, if any.
    pub fn parent(&self) -> (r: Option<FsPath>)
        ensures
            r matches Some(q) ==> spec_parent(self@) == Some(q@),
            r is None ==> spec_parent(self@) is None,
    {
        if self.parts.len() <= 1 {
            return None;
        }
        let n: usize = self.parts.len() - 1;
        let mut parts: Vec<String> = Vec::new();
        let mut i: usize = 0;
        while i < n
            invariant
                n == self.parts.len() - 1,
                i <= n,
                parts@.len() == i,
                forall|k: int| 0 <= k < i ==> #[trigger] parts@[k]@ == self.parts@[k]@,
            decreases n - i,
        {
            let c = self.parts[i].clone();
            parts.push(c);
            i += 1;
        }
        let r = FsPath { parts };
        assert(r@ =~= self@.drop_last());
        Some(r)
    }

    /// A copy of this path.
    pub fn duplicate(&self) -> (r: FsPath)
        ensures
            r@ == self@,
    {
        let mut parts: Vec<String> = Vec::new();
        let mut i: usize = 0;
        while i < self.parts.len()
            invariant
                i <= self.parts.len(),
                parts@.len() == i,
                forall|k: int| 0 <= k < i ==> #[trigger] parts@[k]@ == self.parts@[k]@,
            decreases self.parts.len() - i,
        {
            parts.push(self.parts[i].clone());
            i += 1;
        }
        let r = FsPath { parts };
        assert(r@ =~= self@);
        r
    }

    /// Whether two paths have the same components.
    pub fn same_as(&self, other: &FsPath) -> (r: bool)
        ensures
            r == (self@ == other@),
    {
        if self.parts.len() != other.parts.len() {
            assert(self@.len() != other@.len());
            return false;
        }
        let mut i: usize = 0;
        while i < self.parts.len()
            invariant
                self.parts.len() == other.parts.len(),
                i <= self.parts.len(),
                forall|k: int| 0 <= k < i ==> self@[k] == other@[k],
            decreases self.parts.len() - i,
        {
            if self.parts[i] != other.parts[i] {
                assert(self@[i as int] != other@[i as int]);
                return false;
            }
            i += 1;
        }
        assert(self@ =~= other@);
        true
    }
}

/// One path found on disk, and whether it is a directory.
pub struct FsEntry {
    pub path: FsPath,
    pub is_dir: bool,
}

/// What is known of the filesystem: the paths that were found to exist.
/// A path that no entry names is taken not to exist.
pub struct FsSnapshot {
    pub entries: Vec<FsEntry>,
}

impl View for FsSnapshot {
    type V = Seq<(Seq<Seq<char>>, bool)>;

    open spec fn view(&self) -> Seq<(Seq<Seq<char>>, bool)> {
        Seq::new(self.entries@.len(), |i: int| (self.entries@[i].path@, self.entries@[i].is_dir))
    }
}

/// `p` exists in the snapshot `fs`.
pub open spec fn fs_exists(fs: Seq<(Seq<Seq<char>>, bool)>, p: Seq<Seq<char>>) -> bool {
    exists|i: int| 0 <= i < fs.len() && (#[trigger] fs[i]).0 == p
}

/// `p` exists in the snapshot `fs` and is a directory.
pub open spec fn fs_is_dir(fs: Seq<(Seq<Seq<char>>, bool)>, p: Seq<Seq<char>>) -> bool {
    exists|i: int| 0 <= i < fs.len() && (#[trigger] fs[i]).0 == p && fs[i].1
}

impl FsSnapshot {
    pub fn new() -> (r: FsSnapshot)
        ensures
            r@.len() == 0,
    {
        FsSnapshot { entries: Vec::new() }
    }

    /// Records that `path` exists, as a directory or not.
    pub fn add(&mut self, path: FsPath, is_dir: bool)
        ensures
            final(self)@ == old(self)@.push((path@, is_dir)),
    {
        self.entries.push(FsEntry { path, is_dir });
        assert(final(self)@ =~= old(self)@.push((path@, is_dir)));
    }

    /// Whether `p` exists.
    pub fn contains(&self, p: &FsPath) -> (r: bool)
        ensures
            r == fs_exists(self@, p@),
    {
        let mut i: usize = 0;
        while i < self.entries.len()
            invariant
                i <= self.entries.len(),
                forall|k: int| 0 <= k < i ==> self@[k].0 != p@,
            decreases self.entries.len() - i,
        {
            if self.entries[i].path.same_as(p) {
                assert(self@[i as int].0 == p@);
                return true;
            }
            i += 1;
        }
        false
    }

    /// Whether `p` exists and is a directory.
    pub fn is_dir(&self, p: &FsPath) -> (r: bool)
        ensures
            r == fs_is_dir(self@, p@),
    {
        let mut i: usize = 0;
        while i < self.entries.len()
            invariant
                i <= self.entries.len(),
                forall|k: int| 0 <= k < i ==> !(self@[k].0 == p@ && self@[k].1),
            decreases self.entries.len() - i,
        {
            if self.entries[i].is_dir && self.entries[i].path.same_as(p) {
                assert(self@[i as int].0 == p@ && self@[i as int].1);
                return true;
            }
            i += 1;
        }
        false
    }
}

} // verus!
