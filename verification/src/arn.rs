use vstd::prelude::*;

verus! {

use vstd::string::StrSliceExecFns;

/// The positions, in increasing order, of every colon in `s`.
pub open spec fn colon_positions(s: Seq<char>) -> Seq<int>
    decreases s.len(),
{
    if s.len() == 0 {
        Seq::empty()
    } else {
        let rest = colon_positions(s.drop_last());
        if s.last() == ':' {
            rest.push(s.len() - 1)
        } else {
            rest
        }
    }
}

/// Every recorded colon position lies inside the string, and the positions
/// are strictly increasing.
pub proof fn lemma_colon_positions_bounds(s: Seq<char>)
    ensures
        forall|j: int|
            0 <= j < colon_positions(s).len() ==> 0 <= #[trigger] colon_positions(s)[j] < s.len(),
        forall|j: int, k: int|
            0 <= j < k < colon_positions(s).len()
                ==> #[trigger] colon_positions(s)[j] < #[trigger] colon_positions(s)[k],
    decreases s.len(),
{
    if s.len() == 0 {
    } else {
        let pre = s.drop_last();
        let ps = colon_positions(s);
        let pp = colon_positions(pre);
        lemma_colon_positions_bounds(pre);
        if s.last() == ':' {
            assert(ps == pp.push(s.len() - 1));
            assert forall|j: int| 0 <= j < ps.len() implies 0 <= #[trigger] ps[j] < s.len() by {
                if j < ps.len() - 1 {
                    assert(ps[j] == pp[j]);
                }
            }
            assert forall|j: int, k: int| 0 <= j < k < ps.len() implies ps[j] < ps[k] by {
                assert(ps[j] == pp[j]);
                if k < ps.len() - 1 {
                    assert(ps[k] == pp[k]);
                } else {
                    assert(ps[k] == s.len() - 1);
                }
            }
        } else {
            assert(ps == pp);
        }
    }
}

/// The region segment of a colon-delimited ARN: the characters between the
/// third colon and the fourth colon (or the end of the string), absent when
/// the string holds fewer than three colons.
pub open spec fn region_of_arn(s: Seq<char>) -> Option<Seq<char>> {
    let ps = colon_positions(s);
    if ps.len() >= 4 {
        Some(s.subrange(ps[2] + 1, ps[3]))
    } else if ps.len() == 3 {
        Some(s.subrange(ps[2] + 1, s.len() as int))
    } else {
        None
    }
}

/// Extracts the region component of an ARN, the fourth colon-delimited
/// segment, returning nothing when the string holds too few segments.
pub fn extract_region_from_arn(arn: &str) -> (r: Option<String>)
    ensures
        region_of_arn(arn@) matches Some(v) ==> r matches Some(region) && region@ == v,
        region_of_arn(arn@) is None ==> r is None,
{
    let len: usize = arn.unicode_len();
    let mut i: usize = 0;
    let mut count: usize = 0;
    let mut start: usize = 0;
    let mut end: usize = len;
    while i < len
        invariant
            len == arn@.len(),
            i <= len,
            count == colon_positions(arn@.take(i as int)).len(),
            count <= i,
            count >= 3 ==> start == colon_positions(arn@.take(i as int))[2] + 1 && start <= i,
            count >= 4 ==> end == colon_positions(arn@.take(i as int))[3] && start <= end,
            count < 4 ==> end == len,
            end <= len,
        decreases len - i,
    {
        let c = arn.get_char(i);
        proof {
            assert(arn@.take((i + 1) as int).drop_last() =~= arn@.take(i as int));
            assert(arn@.take((i + 1) as int).last() == arn@[i as int]);
        }
        if c == ':' {
            count = count + 1;
            if count == 3 {
                start = i + 1;
            }
            if count == 4 {
                end = i;
            }
        }
        i = i + 1;
    }
    proof {
        assert(arn@.take(len as int) =~= arn@);
        lemma_colon_positions_bounds(arn@);
    }
    if count >= 3 {
        let region = arn.substring_char(start, end);
        Some(region.to_owned())
    } else {
        None
    }
}

} // verus!
