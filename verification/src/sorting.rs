//! The verified sort behind directory listings.

use crate::entries::FileInfo;
use crate::order::entry_le;
use crate::order::entry_le_exec;
use crate::order::lemma_entry_le_total;
use crate::order::lemma_entry_le_trans;
use crate::order::name_le;
use vstd::prelude::*;

verus! {

/// Whether a sequence of entries is in listing order.
pub open spec fn entries_sorted(s: Seq<FileInfo>) -> bool {
    forall|i: int, j: int| 0 <= i < j < s.len() ==> entry_le(s[i], s[j])
}

/// Sorts entries into listing order: directories before files, names of
/// entries of equal type compared case-insensitively, ascending. The result
/// holds exactly the entries given, rearranged.
#[verifier::loop_isolation(false)]
pub fn sort_entries(entries: Vec<FileInfo>) -> (r: Vec<FileInfo>)
    ensures
        entries_sorted(r@),
        r@.to_multiset() == entries@.to_multiset(),
        r@.len() == entries@.len(),
{
    broadcast use vstd::seq_lib::group_to_multiset_ensures;
    broadcast use vstd::seq_lib::to_multiset_insert;
    broadcast use vstd::seq_lib::to_multiset_remove;

    let mut input = entries;
    let mut out: Vec<FileInfo> = Vec::new();
    proof {
        assert(out@.to_multiset().add(input@.to_multiset()) =~= entries@.to_multiset());
    }
    while input.len() > 0
        invariant
            entries_sorted(out@),
            out@.to_multiset().add(input@.to_multiset()) == entries@.to_multiset(),
            out@.len() + input@.len() == entries@.len(),
        decreases input@.len(),
    {
        let ghost input_before = input@;
        let e = input.remove(0);
        let mut pos: usize = 0;
        while pos < out.len() && entry_le_exec(&out[pos], &e)
            invariant
                pos <= out@.len(),
                forall|k: int| 0 <= k < pos ==> entry_le(out@[k], e),
            decreases out@.len() - pos,
        {
            pos = pos + 1;
        }
        proof {
            assert(pos == out@.len() || !entry_le(out@[pos as int], e));
            assert forall|k: int| pos <= k < out@.len() implies entry_le(e, out@[k]) by {
                lemma_entry_le_total(out@[pos as int], e);
                if k > pos {
                    lemma_entry_le_trans(e, out@[pos as int], out@[k]);
                }
            }
        }
        let ghost out_before = out@;
        out.insert(pos, e);
        proof {
            assert(entries_sorted(out@)) by {
                assert forall|i: int, j: int|
                    0 <= i < j < out@.len() implies entry_le(out@[i], out@[j]) by {
                    if i < pos && j == pos {
                        assert(out@[i] == out_before[i]);
                    } else if i == pos && j > pos {
                        assert(out@[j] == out_before[j - 1]);
                    } else if i < pos && j > pos {
                        assert(out@[i] == out_before[i]);
                        assert(out@[j] == out_before[j - 1]);
                    } else if i > pos && j > pos {
                        assert(out@[i] == out_before[i - 1]);
                        assert(out@[j] == out_before[j - 1]);
                    }
                }
            }
            assert(input_before[0] == e);
            assert(input_before.contains(e));
            assert(out@.to_multiset().add(input@.to_multiset()) =~= entries@.to_multiset());
        }
    }
    proof {
        assert(input@.to_multiset().len() == 0);
        assert(out@.to_multiset().add(input@.to_multiset()) =~= out@.to_multiset());
    }
    out
}

/// In a sorted listing every directory entry precedes every file entry: a
/// directory never appears after a file.
pub proof fn lemma_directories_precede_files(s: Seq<FileInfo>)
    requires
        entries_sorted(s),
    ensures
        forall|i: int, j: int| 0 <= i < j < s.len() && s[j].is_dir ==> s[i].is_dir,
{
    assert forall|i: int, j: int|
        0 <= i < j < s.len() && s[j].is_dir implies s[i].is_dir by {
        assert(entry_le(s[i], s[j]));
    }
}

/// In a sorted listing, entries of equal type carry names whose case-folded
/// forms are in non-decreasing lexicographic order.
pub proof fn lemma_names_nondecreasing(s: Seq<FileInfo>)
    requires
        entries_sorted(s),
    ensures
        forall|i: int, j: int|
            0 <= i < j < s.len() && s[i].is_dir == s[j].is_dir ==> name_le(
                s[i].name@,
                s[j].name@,
            ),
{
    assert forall|i: int, j: int|
        0 <= i < j < s.len() && s[i].is_dir == s[j].is_dir implies name_le(
        s[i].name@,
        s[j].name@,
    ) by {
        assert(entry_le(s[i], s[j]));
    }
}

} // verus!
