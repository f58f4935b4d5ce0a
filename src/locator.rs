use vstd::prelude::*;

use crate::fspath::{fs_exists, fs_is_dir, spec_join, spec_parent, FsPath, FsSnapshot};

verus! {

/// The directory, beside the executable or in the project, that holds the
/// backend's runtime.
pub const RESOURCES_DIR: &'static str = "resources";

/// The subdirectory of the resource directory that holds the interpreter.
pub const PYTHON_DIR: &'static str = "python";

/// The subdirectory of the resource directory that holds the entry script; it
/// is also the backend's working directory.
pub const BACKEND_DIR: &'static str = "backend";

/// The directory that marks the root of the project tree.
pub const PROJECT_MARKER_DIR: &'static str = "src-tauri";

/// What the host tells of where it runs. Each part is absent where the host
/// could not determine it.
pub struct HostPaths {
    /// The running executable's own path.
    pub exe: Option<FsPath>,
    /// The platform's resource directory for this application.
    pub resource_dir: Option<FsPath>,
    /// The current working directory.
    pub cwd: Option<FsPath>,
}

pub open spec fn opt_view(o: Option<FsPath>) -> Option<Seq<Seq<char>>> {
    match o {
        Some(p) => Some(p@),
        None => None,
    }
}

/// A resource directory is valid when it exists and holds both the interpreter
/// and the backend subdirectories.
pub open spec fn valid_root(fs: Seq<(Seq<Seq<char>>, bool)>, r: Seq<Seq<char>>) -> bool {
    fs_exists(fs, r) && fs_exists(fs, spec_join(r, PYTHON_DIR@)) && fs_exists(
        fs,
        spec_join(r, BACKEND_DIR@),
    )
}

pub open spec fn valid_candidate(
    fs: Seq<(Seq<Seq<char>>, bool)>,
    c: Option<Seq<Seq<char>>>,
) -> bool {
    c matches Some(r) && valid_root(fs, r)
}

/// The nearest of the first `k` ancestors of `dir` (`dir` itself counted,
/// walking up to the root) that holds the project marker directory.
pub open spec fn marker_ancestor(
    fs: Seq<(Seq<Seq<char>>, bool)>,
    dir: Seq<Seq<char>>,
    k: nat,
) -> Option<Seq<Seq<char>>>
    decreases k,
{
    if k == 0 {
        None
    } else if fs_is_dir(fs, spec_join(dir.take(k as int), PROJECT_MARKER_DIR@)) {
        Some(dir.take(k as int))
    } else {
        marker_ancestor(fs, dir, (k - 1) as nat)
    }
}

/// First strategy: `resources` in the directory that holds the executable.
pub open spec fn exe_candidate(h: &HostPaths) -> Option<Seq<Seq<char>>> {
    match h.exe {
        Some(e) => match spec_parent(e@) {
            Some(d) => Some(spec_join(d, RESOURCES_DIR@)),
            None => None,
        },
        None => None,
    }
}

/// Second strategy: the platform's resource directory.
pub open spec fn platform_candidate(h: &HostPaths) -> Option<Seq<Seq<char>>> {
    opt_view(h.resource_dir)
}

/// Third strategy: `resources` in the nearest ancestor of the working
/// directory that holds the project marker; absent where none does.
pub open spec fn marker_candidate(
    h: &HostPaths,
    fs: Seq<(Seq<Seq<char>>, bool)>,
) -> Option<Seq<Seq<char>>> {
    match h.cwd {
        Some(c) => match marker_ancestor(fs, c@, c@.len()) {
            Some(a) => Some(spec_join(a, RESOURCES_DIR@)),
            None => None,
        },
        None => None,
    }
}

/// Fourth strategy: `resources` in the working directory.
pub open spec fn cwd_candidate(h: &HostPaths) -> Option<Seq<Seq<char>>> {
    match h.cwd {
        Some(c) => Some(spec_join(c@, RESOURCES_DIR@)),
        None => None,
    }
}

/// The candidate of strategy `n`, counted from 0 in order of priority.
pub open spec fn candidate(
    h: &HostPaths,
    fs: Seq<(Seq<Seq<char>>, bool)>,
    n: int,
) -> Option<Seq<Seq<char>>> {
    if n == 0 {
        exe_candidate(h)
    } else if n == 1 {
        platform_candidate(h)
    } else if n == 2 {
        marker_candidate(h, fs)
    } else {
        cwd_candidate(h)
    }
}

/// The last candidate that could be computed, valid or not.
pub open spec fn last_candidate(
    h: &HostPaths,
    fs: Seq<(Seq<Seq<char>>, bool)>,
) -> Option<Seq<Seq<char>>> {
    if candidate(h, fs, 3) is Some {
        candidate(h, fs, 3)
    } else if candidate(h, fs, 2) is Some {
        candidate(h, fs, 2)
    } else if candidate(h, fs, 1) is Some {
        candidate(h, fs, 1)
    } else {
        candidate(h, fs, 0)
    }
}

/// The resource directory: the first valid candidate in order of priority,
/// else the last candidate computed.
pub open spec fn spec_locate(
    h: &HostPaths,
    fs: Seq<(Seq<Seq<char>>, bool)>,
) -> Option<Seq<Seq<char>>> {
    if valid_candidate(fs, candidate(h, fs, 0)) {
        candidate(h, fs, 0)
    } else if valid_candidate(fs, candidate(h, fs, 1)) {
        candidate(h, fs, 1)
    } else if valid_candidate(fs, candidate(h, fs, 2)) {
        candidate(h, fs, 2)
    } else if valid_candidate(fs, candidate(h, fs, 3)) {
        candidate(h, fs, 3)
    } else {
        last_candidate(h, fs)
    }
}

/// Whether `path` is a usable resource directory: it exists and holds both
/// the `python` and the `backend` subdirectories.
pub fn is_valid_resource_dir(path: &FsPath, fs: &FsSnapshot) -> (r: bool)
    ensures
        r == valid_root(fs@, path@),
{
    fs.contains(path) && fs.contains(&path.join(PYTHON_DIR)) && fs.contains(
        &path.join(BACKEND_DIR),
    )
}

fn exe_resources(h: &HostPaths) -> (r: Option<FsPath>)
    ensures
        opt_view(r) == exe_candidate(h),
{
    match &h.exe {
        Some(e) => match e.parent() {
            Some(d) => Some(d.join(RESOURCES_DIR)),
            None => None,
        },
        None => None,
    }
}

/// Walks up from `dir` to the first directory that holds the project marker.
fn find_marker_ancestor(dir: &FsPath, fs: &FsSnapshot) -> (r: Option<FsPath>)
    ensures
        opt_view(r) == marker_ancestor(fs@, dir@, dir@.len()),
{
    let mut search = dir.duplicate();
    let ghost mut k: nat = dir@.len();
    loop
        invariant
            k <= dir@.len(),
            search@ == dir@.take(k as int),
            k >= 1 ==> marker_ancestor(fs@, dir@, dir@.len()) == marker_ancestor(fs@, dir@, k),
            k == 0 ==> marker_ancestor(fs@, dir@, dir@.len()) is None,
        decreases k,
    {
        proof {
            if k == dir@.len() {
                assert(dir@.take(k as int) =~= dir@);
            }
        }
        let marker = search.join(PROJECT_MARKER_DIR);
        if search.parts.len() > 0 && fs.is_dir(&marker) {
            assert(search@.len() == k);
            assert(marker_ancestor(fs@, dir@, k) == Some(dir@.take(k as int)));
            return Some(search);
        }
        match search.parent() {
            Some(up) => {
                proof {
                    assert(up@ =~= dir@.take(k - 1));
                    k = (k - 1) as nat;
                }
                search = up;
            },
            None => {
                proof {
                    if k == 1 {
                        assert(marker_ancestor(fs@, dir@, 0) is None);
                        assert(marker_ancestor(fs@, dir@, 1) is None);
                    }
                }
                return None;
            },
        }
    }
}

fn marker_resources(h: &HostPaths, fs: &FsSnapshot) -> (r: Option<FsPath>)
    ensures
        opt_view(r) == marker_candidate(h, fs@),
{
    match &h.cwd {
        Some(c) => match find_marker_ancestor(c, fs) {
            Some(a) => Some(a.join(RESOURCES_DIR)),
            None => None,
        },
        None => None,
    }
}

fn cwd_resources(h: &HostPaths) -> (r: Option<FsPath>)
    ensures
        opt_view(r) == cwd_candidate(h),
{
    match &h.cwd {
        Some(c) => Some(c.join(RESOURCES_DIR)),
        None => None,
    }
}

fn platform_resources(h: &HostPaths) -> (r: Option<FsPath>)
    ensures
        opt_view(r) == platform_candidate(h),
{
    match &h.resource_dir {
        Some(p) => Some(p.duplicate()),
        None => None,
    }
}

fn valid_opt(c: &Option<FsPath>, fs: &FsSnapshot) -> (r: bool)
    ensures
        r == valid_candidate(fs@, opt_view(*c)),
{
    match c {
        Some(p) => is_valid_resource_dir(p, fs),
        None => false,
    }
}

/// Locates the resource directory: tries, in order, `resources` beside the
/// executable, the platform's resource directory, `resources` in the nearest
/// ancestor of the working directory that holds the project marker, and
/// `resources` in the working directory, and returns the first of them that
/// is valid. Where none is, it returns the last of them that could be
/// computed, so that starting the backend fails on it visibly; `None` only
/// where none could be.
pub fn get_resource_dir(h: &HostPaths, fs: &FsSnapshot) -> (r: Option<FsPath>)
    ensures
        opt_view(r) == spec_locate(h, fs@),
{
    let c0 = exe_resources(h);
    if valid_opt(&c0, fs) {
        return c0;
    }
    let c1 = platform_resources(h);
    if valid_opt(&c1, fs) {
        return c1;
    }
    let c2 = marker_resources(h, fs);
    if valid_opt(&c2, fs) {
        return c2;
    }
    let c3 = cwd_resources(h);
    if valid_opt(&c3, fs) {
        return c3;
    }
    if c3.is_some() {
        c3
    } else if c2.is_some() {
        c2
    } else if c1.is_some() {
        c1
    } else {
        c0
    }
}

/// For each of the four strategies: where its candidate is the only valid one,
/// the locator returns exactly that candidate.
pub proof fn lemma_sole_valid_candidate_is_located(
    h: &HostPaths,
    fs: Seq<(Seq<Seq<char>>, bool)>,
    n: int,
)
    requires
        0 <= n < 4,
        valid_candidate(fs, candidate(h, fs, n)),
        forall|m: int| 0 <= m < 4 && m != n ==> !valid_candidate(fs, #[trigger] candidate(h, fs, m)),
    ensures
        spec_locate(h, fs) == candidate(h, fs, n),
{
    assert(n != 0 ==> !valid_candidate(fs, candidate(h, fs, 0)));
    assert(n != 1 ==> !valid_candidate(fs, candidate(h, fs, 1)));
    assert(n != 2 ==> !valid_candidate(fs, candidate(h, fs, 2)));
    assert(n != 3 ==> !valid_candidate(fs, candidate(h, fs, 3)));
}

} // verus!
