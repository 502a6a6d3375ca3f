//! Path arithmetic on plain text: base names and the destination that a
//! rename-in-place resolves to.
//!
//! Paths are character sequences whose components are separated by `/`.
//! Trailing separators do not count towards a path's last component, and a
//! path consisting only of separators (a filesystem root) or of nothing at
//! all has no parent.

use crate::errors::FsError;
use vstd::prelude::*;

verus! {

/// The length of `p` once trailing separators are dropped.
pub open spec fn trimmed_len(p: Seq<char>) -> int
    decreases p.len(),
{
    if p.len() == 0 {
        0
    } else if p[p.len() - 1] == '/' {
        trimmed_len(p.drop_last())
    } else {
        p.len() as int
    }
}

/// The largest index below `n` holding a separator, or -1 if there is none.
pub open spec fn last_sep(p: Seq<char>, n: int) -> int
    decreases n,
{
    if n <= 0 {
        -1
    } else if p[n - 1] == '/' {
        n - 1
    } else {
        last_sep(p, n - 1)
    }
}

/// Whether `p` has a parent directory: it must name at least one component,
/// so a root path (only separators) and the empty path are excluded.
pub open spec fn has_parent(p: Seq<char>) -> bool {
    trimmed_len(p) > 0
}

/// The base name of `p`: its last component, or empty if `p` has none.
pub open spec fn base_name(p: Seq<char>) -> Seq<char> {
    p.subrange(last_sep(p, trimmed_len(p)) + 1, trimmed_len(p))
}

/// The path that renaming `p` to `name` resolves to: `name` placed in `p`'s
/// parent directory. Meaningful only when `has_parent(p)` holds.
pub open spec fn rename_dest(p: Seq<char>, name: Seq<char>) -> Seq<char> {
    if last_sep(p, trimmed_len(p)) < 0 {
        name
    } else {
        p.subrange(0, last_sep(p, trimmed_len(p)) + 1) + name
    }
}

proof fn lemma_trimmed_len_bounds(p: Seq<char>)
    ensures
        0 <= trimmed_len(p) <= p.len(),
        trimmed_len(p) > 0 ==> p[trimmed_len(p) - 1] != '/',
    decreases p.len(),
{
    if p.len() > 0 && p[p.len() - 1] == '/' {
        lemma_trimmed_len_bounds(p.drop_last());
    }
}

proof fn lemma_last_sep_bounds(p: Seq<char>, n: int)
    requires
        0 <= n <= p.len(),
    ensures
        -1 <= last_sep(p, n) < n,
        last_sep(p, n) >= 0 ==> p[last_sep(p, n)] == '/',
        forall|i: int| last_sep(p, n) < i < n ==> p[i] != '/',
    decreases n,
{
    if n > 0 && p[n - 1] != '/' {
        lemma_last_sep_bounds(p, n - 1);
    }
}

/// Computes `trimmed_len(p@)` for a path given as text.
fn trimmed_len_exec(p: &str) -> (n: usize)
    ensures
        n == trimmed_len(p@),
{
    let mut n: usize = p.unicode_len();
    proof {
        assert(p@.subrange(0, n as int) =~= p@);
    }
    while n > 0 && p.get_char(n - 1) == '/'
        invariant
            n <= p@.len(),
            trimmed_len(p@) == trimmed_len(p@.subrange(0, n as int)),
        decreases n,
    {
        proof {
            assert(p@.subrange(0, n as int).drop_last() =~= p@.subrange(0, n as int - 1));
        }
        n = n - 1;
    }
    proof {
        if n > 0 {
            assert(trimmed_len(p@.subrange(0, n as int)) == n);
        }
    }
    n
}

/// Computes `last_sep(p@, n)` for a path given as text.
fn last_sep_exec(p: &str, n: usize) -> (k: Option<usize>)
    requires
        n <= p@.len(),
    ensures
        match k {
            Some(i) => i == last_sep(p@, n as int),
            None => last_sep(p@, n as int) == -1,
        },
{
    let mut m: usize = n;
    while m > 0
        invariant
            m <= n <= p@.len(),
            last_sep(p@, n as int) == last_sep(p@, m as int),
        decreases m,
    {
        if p.get_char(m - 1) == '/' {
            return Some(m - 1);
        }
        m = m - 1;
    }
    None
}

/// The base name of a path: its last component once trailing separators are
/// dropped, or empty text when the path has no component at all.
pub fn file_name_of(path: &str) -> (name: String)
    ensures
        name@ == base_name(path@),
{
    let n = trimmed_len_exec(path);
    proof {
        lemma_trimmed_len_bounds(path@);
        lemma_last_sep_bounds(path@, n as int);
    }
    let start: usize = match last_sep_exec(path, n) {
        Some(k) => k + 1,
        None => 0,
    };
    let component = path.substring_char(start, n);
    String::from_str(component)
}

/// The destination of renaming `path` to `new_name`: `new_name` joined onto
/// `path`'s parent directory. Fails with `InvalidPath` exactly when `path`
/// has no parent, e.g. on a filesystem root.
pub fn rename_destination(path: &str, new_name: &str) -> (r: Result<String, FsError>)
    ensures
        has_parent(path@) ==> (r matches Ok(d) && d@ == rename_dest(path@, new_name@)),
        !has_parent(path@) ==> (r matches Err(e) && e is InvalidPath),
{
    let n = trimmed_len_exec(path);
    proof {
        lemma_trimmed_len_bounds(path@);
    }
    if n == 0 {
        return Err(FsError::InvalidPath);
    }
    proof {
        lemma_last_sep_bounds(path@, n as int);
    }
    match last_sep_exec(path, n) {
        Some(k) => {
            let prefix = path.substring_char(0, k + 1);
            Ok(String::from_str(prefix).concat(new_name))
        },
        None => Ok(String::from_str(new_name)),
    }
}

} // verus!
