//! Locating the clipboard helper: the search-path variable is split on the
//! colon separator, and the helper is present when some listed directory
//! holds an entry of its name.

use vstd::prelude::*;
use crate::template::strs;
use crate::scratch::join_path;

verus! {

/// The segments of `s` between colons, in order; an empty input yields one
/// empty segment, and empty segments between adjacent colons are kept.
pub open spec fn split_colon_spec(s: Seq<char>) -> Seq<Seq<char>>
    decreases s.len(),
{
    if s.len() == 0 {
        seq![Seq::<char>::empty()]
    } else {
        let init = split_colon_spec(s.drop_last());
        if s.last() == ':' {
            init + seq![Seq::<char>::empty()]
        } else {
            init.update(init.len() - 1, init.last().push(s.last()))
        }
    }
}

/// Splitting always yields at least one segment.
pub proof fn lemma_split_colon_len(s: Seq<char>)
    ensures
        split_colon_spec(s).len() >= 1,
    decreases s.len(),
{
    if s.len() > 0 {
        lemma_split_colon_len(s.drop_last());
    }
}

/// Splits the search-path value on the colon separator.
#[verifier::loop_isolation(false)]
pub fn split_search_path(val: &str) -> (r: Vec<String>)
    ensures
        strs(r@) == split_colon_spec(val@),
{
    let n = val.unicode_len();
    let mut out: Vec<String> = Vec::new();
    let mut start: usize = 0;
    let mut i: usize = 0;
    proof {
        assert(val@.subrange(0, 0) =~= Seq::<char>::empty());
        assert(val@.take(0) =~= Seq::<char>::empty());
        assert(strs(out@).push(val@.subrange(0, 0)) =~= split_colon_spec(val@.take(0)));
    }
    while i < n
        invariant
            start <= i <= n,
            strs(out@).push(val@.subrange(start as int, i as int)) == split_colon_spec(
                val@.take(i as int),
            ),
        decreases n - i,
    {
        let c = val.get_char(i);
        proof {
            lemma_split_colon_len(val@.take(i as int));
            assert(val@.take(i + 1).drop_last() =~= val@.take(i as int));
            assert(val@.take(i + 1).last() == val@[i as int]);
        }
        if c == ':' {
            let seg = val.substring_char(start, i).to_owned();
            out.push(seg);
            start = i + 1;
            proof {
                assert(strs(out@) =~= split_colon_spec(val@.take(i as int)));
                assert(val@.subrange(start as int, i + 1) =~= Seq::<char>::empty());
                assert(strs(out@).push(val@.subrange(start as int, i + 1)) =~= split_colon_spec(
                    val@.take(i as int),
                ) + seq![Seq::<char>::empty()]);
                assert(split_colon_spec(val@.take(i + 1)) == split_colon_spec(val@.take(i as int))
                    + seq![Seq::<char>::empty()]);
            }
        } else {
            proof {
                let pre = split_colon_spec(val@.take(i as int));
                assert(split_colon_spec(val@.take(i + 1)) == pre.update(
                    pre.len() - 1,
                    pre.last().push(val@[i as int]),
                ));
                assert(pre.last() == val@.subrange(start as int, i as int));
                assert(val@.subrange(start as int, i + 1) =~= val@.subrange(
                    start as int,
                    i as int,
                ).push(val@[i as int]));
                assert(strs(out@).push(val@.subrange(start as int, i + 1)) =~= pre.update(
                    pre.len() - 1,
                    pre.last().push(val@[i as int]),
                ));
            }
        }
        i += 1;
    }
    let seg = val.substring_char(start, n).to_owned();
    out.push(seg);
    proof {
        assert(val@.take(n as int) =~= val@);
        assert(strs(out@) =~= split_colon_spec(val@));
    }
    out
}

/// The candidate path of the helper `prog` inside each directory of the
/// search-path value, in order.
#[verifier::loop_isolation(false)]
pub fn candidate_paths(val: &str, prog: &str) -> (r: Vec<String>)
    ensures
        r@.len() == split_colon_spec(val@).len(),
        forall|i: int|
            0 <= i < r@.len() ==> r@[i]@ == split_colon_spec(val@)[i] + seq!['/'] + prog@,
{
    let dirs = split_search_path(val);
    let mut out: Vec<String> = Vec::new();
    let mut i: usize = 0;
    let n = dirs.len();
    while i < n
        invariant
            i <= n,
            out@.len() == i,
            forall|j: int|
                0 <= j < i ==> out@[j]@ == split_colon_spec(val@)[j] + seq!['/'] + prog@,
        decreases n - i,
    {
        let cand = join_path(dirs[i].as_str(), prog);
        proof {
            assert(strs(dirs@)[i as int] == dirs@[i as int]@);
        }
        out.push(cand);
        i += 1;
    }
    out
}

/// Whether any flag in the list is set.
#[verifier::loop_isolation(false)]
pub fn any_true(flags: &Vec<bool>) -> (r: bool)
    ensures
        r == exists|i: int| 0 <= i < flags@.len() && flags@[i],
{
    let mut i: usize = 0;
    let n = flags.len();
    while i < n
        invariant
            i <= n,
            forall|j: int| 0 <= j < i ==> !flags@[j],
        decreases n - i,
    {
        if flags[i] {
            return true;
        }
        i += 1;
    }
    false
}

} // verus!
