use vstd::prelude::*;
use vstd::string::StrSliceExecFns;

verus! {

/// The position of the last `.` among the first `k` characters of `name`,
/// or -1 where there is none.
pub open spec fn last_dot(name: Seq<char>, k: int) -> int
    decreases k,
{
    if k <= 0 {
        -1
    } else if name[k - 1] == '.' {
        k - 1
    } else {
        last_dot(name, k - 1)
    }
}

/// The extension of a file name: what follows its last `.`, where that dot
/// is not the name's first character. The name `..` has none.
pub open spec fn file_extension(name: Seq<char>) -> Option<Seq<char>> {
    if name == seq!['.', '.'] {
        None
    } else if last_dot(name, name.len() as int) > 0 {
        Some(name.subrange(last_dot(name, name.len() as int) + 1, name.len() as int))
    } else {
        None
    }
}

proof fn lemma_last_dot_bounds(name: Seq<char>, k: int)
    requires
        0 <= k <= name.len(),
    ensures
        -1 <= last_dot(name, k) < k,
        last_dot(name, k) >= 0 ==> name[last_dot(name, k)] == '.',
        forall|j: int| last_dot(name, k) < j < k ==> name[j] != '.',
    decreases k,
{
    if k > 0 && name[k - 1] != '.' {
        lemma_last_dot_bounds(name, k - 1);
    }
}

/// Whether the file named `file_name` has the extension `ext` (`txt` for
/// `notes.txt`); a hidden file such as `.txt` has no extension.
pub fn has_extension(file_name: &str, ext: &str) -> (r: bool)
    ensures
        r == (file_extension(file_name@) == Some(ext@)),
{
    let n = file_name.unicode_len();
    proof {
        lemma_last_dot_bounds(file_name@, n as int);
    }
    if n == 2 && file_name.get_char(0) == '.' && file_name.get_char(1) == '.' {
        assert(file_name@ =~= seq!['.', '.']);
        return false;
    }
    let mut i: usize = n;
    while i > 0 && file_name.get_char(i - 1) != '.'
        invariant
            n == file_name@.len(),
            i <= n,
            last_dot(file_name@, n as int) == last_dot(file_name@, i as int),
        decreases i,
    {
        i -= 1;
    }
    if i <= 1 {
        return false;
    }
    let start = i;
    let m = ext.unicode_len();
    let ghost tail = file_name@.subrange(start as int, n as int);
    assert(last_dot(file_name@, n as int) == start - 1);
    assert(file_extension(file_name@) == Some(tail));
    if n - start != m {
        assert(tail.len() != ext@.len());
        return false;
    }
    let mut k: usize = 0;
    while k < m
        invariant
            n == file_name@.len(),
            m == ext@.len(),
            start + m == n,
            tail == file_name@.subrange(start as int, n as int),
            file_extension(file_name@) == Some(tail),
            k <= m,
            forall|j: int| 0 <= j < k ==> file_name@[start + j] == ext@[j],
        decreases m - k,
    {
        if file_name.get_char(start + k) != ext.get_char(k) {
            assert(tail[k as int] != ext@[k as int]);
            return false;
        }
        k += 1;
    }
    assert(tail =~= ext@);
    true
}

} // verus!
