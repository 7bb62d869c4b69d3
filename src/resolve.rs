//! Short-id resolution: mapping a user-supplied id prefix to the one full card
//! id it denotes.

use vstd::prelude::*;

use crate::error::BlazeError;

verus! {

/// Length, in characters, of a canonical full card id (a hyphenated UUID).
pub const FULL_ID_LEN: usize = 36;

/// `p` is a prefix of `s`.
pub open spec fn is_prefix_of(p: Seq<char>, s: Seq<char>) -> bool {
    p.len() <= s.len() && s.subrange(0, p.len() as int) == p
}

/// The test "starts with `p`" on ids.
pub open spec fn has_prefix(p: Seq<char>) -> spec_fn(String) -> bool {
    |id: String| is_prefix_of(p, id@)
}

/// The candidate ids that start with `p`, in their original order.
pub open spec fn ids_with_prefix(p: Seq<char>, ids: Seq<String>) -> Seq<String> {
    ids.filter(has_prefix(p))
}

/// Whether `p` is a prefix of `s`.
pub fn starts_with(s: &str, p: &str) -> (r: bool)
    ensures
        r == is_prefix_of(p@, s@),
{
    let n = s.unicode_len();
    let m = p.unicode_len();
    if m > n {
        return false;
    }
    let mut i: usize = 0;
    while i < m
        invariant
            m == p@.len(),
            n == s@.len(),
            m <= n,
            i <= m,
            forall|j: int| 0 <= j < i ==> s@[j] == p@[j],
        decreases m - i,
    {
        if s.get_char(i) != p.get_char(i) {
            assert(s@.subrange(0, m as int)[i as int] != p@[i as int]);
            return false;
        }
        i = i + 1;
    }
    assert(s@.subrange(0, m as int) =~= p@);
    true
}

/// Resolves a possibly shortened card id against the ids that exist.
///
/// An input at least `FULL_ID_LEN` characters long is taken as a full id and
/// returned unchanged, without looking at `candidates`. A shorter input is a
/// prefix: the one candidate starting with it is returned; none gives
/// `NotFound` with the prefix, several give `Ambiguous` with the prefix and
/// the number of matches.
pub fn resolve_card_id(input: &str, candidates: &Vec<String>) -> (r: Result<String, BlazeError>)
    ensures
        input@.len() >= FULL_ID_LEN ==> (r matches Ok(id) && id@ == input@),
        input@.len() < FULL_ID_LEN ==> {
            let found = ids_with_prefix(input@, candidates@);
            &&& (found.len() == 0 <==> (r matches Err(BlazeError::NotFound(p)) && p@ == input@))
            &&& (found.len() == 1 <==> (r matches Ok(id) && id == found[0]))
            &&& (found.len() >= 2 <==> (r matches Err(BlazeError::Ambiguous { prefix, count })
                && prefix@ == input@ && count == found.len()))
        },
{
    let len = input.unicode_len();
    if len >= FULL_ID_LEN {
        return Ok(String::from_str(input));
    }
    let ghost pred = has_prefix(input@);
    let mut count: usize = 0;
    let mut first: Option<usize> = None;
    let mut i: usize = 0;
    while i < candidates.len()
        invariant
            i <= candidates@.len(),
            pred == has_prefix(input@),
            count == candidates@.subrange(0, i as int).filter(pred).len(),
            count <= i,
            count == 0 <==> first is None,
            first matches Some(k) ==> k < i && candidates@.subrange(0, i as int).filter(pred)[0]
                == candidates@[k as int],
        decreases candidates@.len() - i,
    {
        let ghost prev = candidates@.subrange(0, i as int);
        assert(candidates@.subrange(0, i + 1) =~= prev.push(candidates@[i as int]));
        proof {
            prev.lemma_filter_push(candidates@[i as int], pred);
        }
        let is_match = starts_with(candidates[i].as_str(), input);
        assert(pred(candidates@[i as int]) == is_match);
        if is_match {
            if first.is_none() {
                first = Some(i);
            } else {
                assert(prev.filter(pred).push(candidates@[i as int])[0] == prev.filter(pred)[0]);
            }
            count = count + 1;
        }
        i = i + 1;
    }
    assert(candidates@.subrange(0, candidates@.len() as int) =~= candidates@);
    if count == 0 {
        Err(BlazeError::NotFound(String::from_str(input)))
    } else if count == 1 {
        let k = first.unwrap();
        Ok(candidates[k].clone())
    } else {
        Err(BlazeError::Ambiguous { prefix: String::from_str(input), count })
    }
}

/// The matches of a prefix are exactly the candidates that start with it: there
/// are none precisely when no candidate starts with the prefix, and every
/// match, the single one included, is a candidate that starts with it.
pub proof fn prefix_matches_are_candidates(p: Seq<char>, ids: Seq<String>)
    ensures
        ids_with_prefix(p, ids).len() == 0 <==> forall|i: int|
            0 <= i < ids.len() ==> !is_prefix_of(p, #[trigger] ids[i]@),
        forall|k: int|
            0 <= k < ids_with_prefix(p, ids).len() ==> ids.contains(
                #[trigger] ids_with_prefix(p, ids)[k],
            ) && is_prefix_of(p, ids_with_prefix(p, ids)[k]@),
{
    broadcast use vstd::seq_lib::group_filter_ensures;

    let pred = has_prefix(p);
    let found = ids_with_prefix(p, ids);
    assert forall|i: int| 0 <= i < ids.len() && is_prefix_of(p, #[trigger] ids[i]@) implies found.len()
        > 0 by {
        assert(pred(ids[i]));
        ids.lemma_filter_contains(pred, i);
        assert(found.contains(ids[i]));
    }
    assert forall|k: int| 0 <= k < found.len() implies ids.contains(#[trigger] found[k])
        && is_prefix_of(p, found[k]@) by {
        assert(found.contains(found[k]));
        ids.lemma_filter_contains_rev(pred, found[k]);
        assert(pred(found[k]));
    }
    if found.len() > 0 {
        assert(ids.contains(found[0]));
        let i = choose|i: int| 0 <= i < ids.len() && ids[i] == found[0];
        assert(is_prefix_of(p, ids[i]@));
    }
}

} // verus!
