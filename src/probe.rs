use vstd::prelude::*;

use crate::fspath::{fs_exists, fs_is_dir, spec_join, FsPath};
use crate::launch::{
    backend_path, interpreter_file, interpreter_path, launch_ready, script_path, Platform,
    ENTRY_SCRIPT,
};
use crate::locator::{
    candidate, cwd_candidate, exe_candidate, marker_ancestor, marker_candidate,
    platform_candidate, spec_locate, valid_candidate, HostPaths, BACKEND_DIR, PROJECT_MARKER_DIR,
    PYTHON_DIR, RESOURCES_DIR,
};

verus! {

pub open spec fn paths_view(v: Seq<FsPath>) -> Seq<Seq<Seq<char>>> {
    Seq::new(v.len(), |i: int| v[i]@)
}

/// The paths to look up for one candidate resource directory `r`: `r`
/// itself, its `python` and `backend` subdirectories, the interpreter and the
/// entry script.
pub open spec fn root_probes(r: Seq<Seq<char>>, platform: Platform) -> Seq<Seq<Seq<char>>> {
    seq![
        r,
        spec_join(r, PYTHON_DIR@),
        spec_join(r, BACKEND_DIR@),
        interpreter_path(r, platform),
        script_path(r),
    ]
}

pub open spec fn opt_root_probes(c: Option<Seq<Seq<char>>>, platform: Platform) -> Seq<
    Seq<Seq<char>>,
> {
    match c {
        Some(r) => root_probes(r, platform),
        None => seq![],
    }
}

/// For the first `k` ancestors of `dir`, from the root down: the project
/// marker in it, then the probes of its `resources` directory.
pub open spec fn ancestor_probes(dir: Seq<Seq<char>>, k: nat, platform: Platform) -> Seq<
    Seq<Seq<char>>,
>
    decreases k,
{
    if k == 0 {
        seq![]
    } else {
        ancestor_probes(dir, (k - 1) as nat, platform) + seq![
            spec_join(dir.take(k as int), PROJECT_MARKER_DIR@),
        ] + root_probes(spec_join(dir.take(k as int), RESOURCES_DIR@), platform)
    }
}

/// Every path whose existence locating the resource directory and preparing
/// the launch may read.
pub open spec fn probe_list(h: &HostPaths, platform: Platform) -> Seq<Seq<Seq<char>>> {
    opt_root_probes(exe_candidate(h), platform) + opt_root_probes(platform_candidate(h), platform)
        + match h.cwd {
        Some(c) => ancestor_probes(c@, c@.len(), platform),
        None => seq![],
    } + opt_root_probes(cwd_candidate(h), platform)
}

fn push_root_probes(out: &mut Vec<FsPath>, r: &FsPath, platform: Platform)
    ensures
        paths_view(final(out)@) == paths_view(old(out)@) + root_probes(r@, platform),
{
    let python = r.join(PYTHON_DIR);
    let backend = r.join(BACKEND_DIR);
    let program = python.join(interpreter_file(platform));
    let script = backend.join(ENTRY_SCRIPT);
    out.push(r.duplicate());
    out.push(python);
    out.push(backend);
    out.push(program);
    out.push(script);
    assert(paths_view(final(out)@) =~= paths_view(old(out)@) + root_probes(r@, platform));
}

/// The paths whose existence the host looks up, on disk, to build the
/// snapshot from which the resource directory is located and the launch
/// prepared.
pub fn probe_targets(h: &HostPaths, platform: Platform) -> (r: Vec<FsPath>)
    ensures
        paths_view(r@) == probe_list(h, platform),
{
    let mut out: Vec<FsPath> = Vec::new();
    if let Some(e) = &h.exe {
        if let Some(d) = e.parent() {
            push_root_probes(&mut out, &d.join(RESOURCES_DIR), platform);
        }
    }
    assert(paths_view(out@) =~= opt_root_probes(exe_candidate(h), platform));
    let ghost base = paths_view(out@);
    if let Some(p) = &h.resource_dir {
        push_root_probes(&mut out, p, platform);
    }
    assert(paths_view(out@) =~= base + opt_root_probes(platform_candidate(h), platform));
    let ghost base2 = paths_view(out@);
    if let Some(c) = &h.cwd {
        let mut prefix = FsPath { parts: Vec::new() };
        let mut k: usize = 0;
        assert(paths_view(out@) =~= base2 + ancestor_probes(c@, 0, platform));
        while k < c.parts.len()
            invariant
                k <= c.parts.len(),
                prefix@ == c@.take(k as int),
                paths_view(out@) == base2 + ancestor_probes(c@, k as nat, platform),
            decreases c.parts.len() - k,
        {
            prefix = prefix.join(c.parts[k].as_str());
            assert(prefix@ =~= c@.take(k + 1));
            let ghost before = paths_view(out@);
            let marker = prefix.join(PROJECT_MARKER_DIR);
            out.push(marker);
            assert(paths_view(out@) =~= before + seq![spec_join(prefix@, PROJECT_MARKER_DIR@)]);
            let ghost mid = paths_view(out@);
            let res = prefix.join(RESOURCES_DIR);
            push_root_probes(&mut out, &res, platform);
            assert(paths_view(out@) == mid + root_probes(spec_join(prefix@, RESOURCES_DIR@), platform));
            k += 1;
            assert(ancestor_probes(c@, k as nat, platform) == ancestor_probes(c@, (k - 1) as nat, platform) + seq![
                spec_join(c@.take(k as int), PROJECT_MARKER_DIR@),
            ] + root_probes(spec_join(c@.take(k as int), RESOURCES_DIR@), platform));
            assert(paths_view(out@) =~= base2 + ancestor_probes(c@, k as nat, platform));
        }
        assert(c@.len() == c.parts.len());
        let ghost base3 = paths_view(out@);
        push_root_probes(&mut out, &c.join(RESOURCES_DIR), platform);
        assert(paths_view(out@) =~= base3 + opt_root_probes(cwd_candidate(h), platform));
    } else {
        assert(paths_view(out@) =~= base2 + Seq::<Seq<Seq<char>>>::empty()
            + opt_root_probes(cwd_candidate(h), platform));
    }
    out
}

/// The two snapshots tell the same of `p`.
pub open spec fn agree_on(
    fs1: Seq<(Seq<Seq<char>>, bool)>,
    fs2: Seq<(Seq<Seq<char>>, bool)>,
    p: Seq<Seq<char>>,
) -> bool {
    fs_exists(fs1, p) == fs_exists(fs2, p) && fs_is_dir(fs1, p) == fs_is_dir(fs2, p)
}

proof fn lemma_contains_left<T>(a: Seq<T>, b: Seq<T>, x: T)
    requires
        a.contains(x),
    ensures
        (a + b).contains(x),
{
    let i = choose|i: int| 0 <= i < a.len() && a[i] == x;
    assert((a + b)[i] == x);
}

proof fn lemma_contains_right<T>(a: Seq<T>, b: Seq<T>, x: T)
    requires
        b.contains(x),
    ensures
        (a + b).contains(x),
{
    let i = choose|i: int| 0 <= i < b.len() && b[i] == x;
    assert((a + b)[a.len() + i] == x);
}

proof fn lemma_root_probes_contain(r: Seq<Seq<char>>, platform: Platform)
    ensures
        root_probes(r, platform).contains(r),
        root_probes(r, platform).contains(spec_join(r, PYTHON_DIR@)),
        root_probes(r, platform).contains(spec_join(r, BACKEND_DIR@)),
        root_probes(r, platform).contains(interpreter_path(r, platform)),
        root_probes(r, platform).contains(script_path(r)),
{
    let s = root_probes(r, platform);
    assert(s[0] == r);
    assert(s[1] == spec_join(r, PYTHON_DIR@));
    assert(s[2] == spec_join(r, BACKEND_DIR@));
    assert(s[3] == interpreter_path(r, platform));
    assert(s[4] == script_path(r));
}

/// Every path of `sub` is in `list`.
pub open spec fn all_in(sub: Seq<Seq<Seq<char>>>, list: Seq<Seq<Seq<char>>>) -> bool {
    forall|p: Seq<Seq<char>>| sub.contains(p) ==> #[trigger] list.contains(p)
}

proof fn lemma_all_in_left(a: Seq<Seq<Seq<char>>>, b: Seq<Seq<Seq<char>>>)
    ensures
        all_in(a, a + b),
{
    assert forall|p: Seq<Seq<char>>| a.contains(p) implies #[trigger] (a + b).contains(p) by {
        lemma_contains_left(a, b, p);
    }
}

proof fn lemma_all_in_right(a: Seq<Seq<Seq<char>>>, b: Seq<Seq<Seq<char>>>)
    ensures
        all_in(b, a + b),
{
    assert forall|p: Seq<Seq<char>>| b.contains(p) implies #[trigger] (a + b).contains(p) by {
        lemma_contains_right(a, b, p);
    }
}

/// The probes of the `j`-th ancestor are among those of the first `k`.
proof fn lemma_ancestor_probes_contain(dir: Seq<Seq<char>>, j: nat, k: nat, platform: Platform)
    requires
        1 <= j <= k,
    ensures
        ancestor_probes(dir, k, platform).contains(
            spec_join(dir.take(j as int), PROJECT_MARKER_DIR@),
        ),
        all_in(
            root_probes(spec_join(dir.take(j as int), RESOURCES_DIR@), platform),
            ancestor_probes(dir, k, platform),
        ),
    decreases k,
{
    let prev = ancestor_probes(dir, (k - 1) as nat, platform);
    let marker = seq![spec_join(dir.take(k as int), PROJECT_MARKER_DIR@)];
    let roots = root_probes(spec_join(dir.take(k as int), RESOURCES_DIR@), platform);
    assert(ancestor_probes(dir, k, platform) == prev + marker + roots);
    lemma_all_in_left(prev + marker, roots);
    lemma_all_in_right(prev + marker, roots);
    lemma_all_in_left(prev, marker);
    lemma_all_in_right(prev, marker);
    if j < k {
        lemma_ancestor_probes_contain(dir, j, (k - 1) as nat, platform);
    } else {
        assert(marker[0] == spec_join(dir.take(j as int), PROJECT_MARKER_DIR@));
        assert(marker.contains(spec_join(dir.take(j as int), PROJECT_MARKER_DIR@)));
    }
}

/// The marker walk over the first `k` ancestors reads only probed paths.
proof fn lemma_marker_walk_agrees(
    fs1: Seq<(Seq<Seq<char>>, bool)>,
    fs2: Seq<(Seq<Seq<char>>, bool)>,
    dir: Seq<Seq<char>>,
    k: nat,
    platform: Platform,
)
    requires
        k <= dir.len(),
        forall|p: Seq<Seq<char>>|
            ancestor_probes(dir, dir.len(), platform).contains(p) ==> #[trigger] agree_on(
                fs1,
                fs2,
                p,
            ),
    ensures
        marker_ancestor(fs1, dir, k) == marker_ancestor(fs2, dir, k),
    decreases k,
{
    if k > 0 {
        lemma_ancestor_probes_contain(dir, k, dir.len(), platform);
        assert(agree_on(fs1, fs2, spec_join(dir.take(k as int), PROJECT_MARKER_DIR@)));
        lemma_marker_walk_agrees(fs1, fs2, dir, (k - 1) as nat, platform);
    }
}

/// The probes of every candidate resource directory are in the probe list.
proof fn lemma_candidates_probed(
    h: &HostPaths,
    fs: Seq<(Seq<Seq<char>>, bool)>,
    n: int,
    platform: Platform,
)
    requires
        0 <= n < 4,
        candidate(h, fs, n) is Some,
    ensures
        all_in(root_probes(candidate(h, fs, n)->0, platform), probe_list(h, platform)),
{
    let a = opt_root_probes(exe_candidate(h), platform);
    let b = opt_root_probes(platform_candidate(h), platform);
    let c = match h.cwd {
        Some(c) => ancestor_probes(c@, c@.len(), platform),
        None => seq![],
    };
    let d = opt_root_probes(cwd_candidate(h), platform);
    let list = probe_list(h, platform);
    assert(list == a + b + c + d);
    lemma_all_in_left(a + b + c, d);
    lemma_all_in_right(a + b + c, d);
    lemma_all_in_left(a + b, c);
    lemma_all_in_right(a + b, c);
    lemma_all_in_left(a, b);
    lemma_all_in_right(a, b);
    if n == 0 {
        assert(all_in(a, list));
    } else if n == 1 {
        assert(all_in(b, list));
    } else if n == 3 {
        assert(all_in(d, list));
    } else {
        let cwd = h.cwd->0;
        let len = cwd@.len();
        lemma_marker_ancestor_is_prefix(fs, cwd@, len);
        let j = choose|j: nat| 1 <= j <= len && marker_ancestor(fs, cwd@, len)->0 == cwd@.take(j as int);
        lemma_ancestor_probes_contain(cwd@, j, len, platform);
        assert(all_in(c, list));
    }
}

proof fn lemma_marker_ancestor_is_prefix(fs: Seq<(Seq<Seq<char>>, bool)>, dir: Seq<Seq<char>>, k: nat)
    requires
        marker_ancestor(fs, dir, k) is Some,
    ensures
        exists|j: nat| 1 <= j <= k && marker_ancestor(fs, dir, k)->0 == dir.take(j as int),
    decreases k,
{
    if !fs_is_dir(fs, spec_join(dir.take(k as int), PROJECT_MARKER_DIR@)) {
        lemma_marker_ancestor_is_prefix(fs, dir, (k - 1) as nat);
        let j = choose|j: nat| 1 <= j <= k - 1 && marker_ancestor(fs, dir, (k - 1) as nat)->0 == dir.take(j as int);
        assert(1 <= j <= k);
    } else {
        assert(marker_ancestor(fs, dir, k)->0 == dir.take(k as int));
    }
}

/// Two snapshots that tell the same of every path in the probe list locate
/// the same resource directory and agree on whether the backend can be
/// launched from it: a snapshot of the probe targets is enough to start.
pub proof fn lemma_probes_suffice(
    h: &HostPaths,
    platform: Platform,
    fs1: Seq<(Seq<Seq<char>>, bool)>,
    fs2: Seq<(Seq<Seq<char>>, bool)>,
)
    requires
        forall|p: Seq<Seq<char>>| probe_list(h, platform).contains(p) ==> #[trigger] agree_on(fs1, fs2, p),
    ensures
        spec_locate(h, fs1) == spec_locate(h, fs2),
        spec_locate(h, fs1) matches Some(root) ==> launch_ready(root, platform, fs1)
            == launch_ready(root, platform, fs2),
{
    let list = probe_list(h, platform);
    if let Some(cwd) = h.cwd {
        let a = opt_root_probes(exe_candidate(h), platform);
        let b = opt_root_probes(platform_candidate(h), platform);
        let c = ancestor_probes(cwd@, cwd@.len(), platform);
        let d = opt_root_probes(cwd_candidate(h), platform);
        assert(list == a + b + c + d);
        lemma_all_in_left(a + b + c, d);
        lemma_all_in_right(a + b, c);
        lemma_all_in_left(a + b, c);
        assert(all_in(c, list));
        lemma_marker_walk_agrees(fs1, fs2, cwd@, cwd@.len(), platform);
    }
    assert(marker_candidate(h, fs1) == marker_candidate(h, fs2));
    assert forall|n: int| 0 <= n < 4 implies #[trigger] candidate(h, fs1, n) == candidate(h, fs2, n)
        && (candidate(h, fs1, n) matches Some(r) ==> (valid_candidate(fs1, candidate(h, fs1, n))
        == valid_candidate(fs2, candidate(h, fs2, n)) && launch_ready(r, platform, fs1)
        == launch_ready(r, platform, fs2))) by {
        if candidate(h, fs1, n) is Some {
            let r = candidate(h, fs1, n)->0;
            lemma_candidates_probed(h, fs1, n, platform);
            lemma_root_probes_contain(r, platform);
            assert(agree_on(fs1, fs2, r));
            assert(agree_on(fs1, fs2, spec_join(r, PYTHON_DIR@)));
            assert(agree_on(fs1, fs2, spec_join(r, BACKEND_DIR@)));
            assert(agree_on(fs1, fs2, interpreter_path(r, platform)));
            assert(agree_on(fs1, fs2, script_path(r)));
            assert(backend_path(r) == spec_join(r, BACKEND_DIR@));
        }
    }
    assert(candidate(h, fs1, 0) == candidate(h, fs2, 0));
    assert(candidate(h, fs1, 1) == candidate(h, fs2, 1));
    assert(candidate(h, fs1, 2) == candidate(h, fs2, 2));
    assert(candidate(h, fs1, 3) == candidate(h, fs2, 3));
}

} // verus!
