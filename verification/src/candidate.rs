//! The completion engine: filtering candidates against the typed prefix.
//!
//! Given the raw candidate strings for the current context and the literal
//! prefix already typed, the engine keeps the candidates that strictly
//! extend the prefix, strips the prefix so only the suffix to insert
//! remains, and qualifies the situation with a three-valued state.

use vstd::prelude::*;
use vstd::seq_lib::*;
use crate::strutil::str_eq;
use crate::strutil::str_starts_with;
use vstd::string::StrSliceExecFns;
use vstd::string::StringExecFns;

verus! {

/// How the typed prefix relates to the candidate set: no completions, some
/// completions to offer, or the input exactly equals one option
/// (independent of any remaining suffix candidates).
#[derive(Clone, Copy, Debug, PartialEq, Eq, Structural)]
pub enum CandidateState {
    Absent,
    Has,
    Match,
}

/// A candidate that strictly extends the prefix: it begins with the prefix
/// and has at least one more character.
pub open spec fn strict_extension(c: Seq<char>, prefix: Seq<char>) -> bool {
    c.len() > prefix.len() && c.take(prefix.len() as int) == prefix
}

/// Does some candidate equal the prefix exactly?
pub open spec fn has_exact_match(cands: Seq<Seq<char>>, prefix: Seq<char>) -> bool {
    exists|i: int| 0 <= i < cands.len() && cands[i] == prefix
}

/// The suffixes left to insert: every candidate that strictly extends the
/// prefix, in order, with the prefix stripped.
pub open spec fn filtered_suffixes(cands: Seq<Seq<char>>, prefix: Seq<char>) -> Seq<
    Seq<char>,
>
    decreases cands.len(),
{
    if cands.len() == 0 {
        Seq::empty()
    } else {
        let rest = filtered_suffixes(cands.drop_last(), prefix);
        if strict_extension(cands.last(), prefix) {
            rest.push(cands.last().skip(prefix.len() as int))
        } else {
            rest
        }
    }
}

/// The three-valued candidate state for a prefix against a candidate set.
pub open spec fn candidate_state_of(cands: Seq<Seq<char>>, prefix: Seq<char>)
    -> CandidateState {
    if has_exact_match(cands, prefix) {
        CandidateState::Match
    } else if filtered_suffixes(cands, prefix).len() > 0 {
        CandidateState::Has
    } else {
        CandidateState::Absent
    }
}

/// Filter the raw candidates against the typed prefix: keep those that
/// strictly extend it, strip the prefix from each, and report the
/// resulting state.
pub fn filter_candidates(cands: &Vec<String>, prefix: &String) -> (r: (
    Vec<String>,
    CandidateState,
))
    ensures
        r.0.deep_view() == filtered_suffixes(cands.deep_view(), prefix@),
        r.1 == candidate_state_of(cands.deep_view(), prefix@),
{
    let ghost dv = cands.deep_view();
    let plen = prefix.as_str().unicode_len();
    let mut out: Vec<String> = Vec::new();
    let mut exact = false;
    let mut i: usize = 0;
    proof {
        assert(dv.take(0) =~= Seq::<Seq<char>>::empty());
        assert(out.deep_view() =~= filtered_suffixes(dv.take(0), prefix@));
    }
    while i < cands.len()
        invariant
            0 <= i <= cands.len(),
            dv == cands.deep_view(),
            dv.len() == cands.len(),
            plen == prefix@.len(),
            out.deep_view() == filtered_suffixes(dv.take(i as int), prefix@),
            exact == has_exact_match(dv.take(i as int), prefix@),
        decreases cands.len() - i,
    {
        let ghost prev_out = out.deep_view();
        proof {
            assert(dv.take(i + 1).drop_last() =~= dv.take(i as int));
            assert(dv.take(i + 1).last() == dv[i as int]);
            assert(dv[i as int] == cands@[i as int]@);
        }
        if str_eq(cands[i].as_str(), prefix.as_str()) {
            exact = true;
        }
        proof {
            if dv[i as int] == prefix@ {
                assert(dv.take(i + 1)[i as int] == prefix@);
                assert(has_exact_match(dv.take(i + 1), prefix@));
            } else {
                if has_exact_match(dv.take(i as int), prefix@) {
                    let k = choose|k: int|
                        0 <= k < dv.take(i as int).len() && dv.take(i as int)[k] == prefix@;
                    assert(dv.take(i + 1)[k] == prefix@);
                }
                if has_exact_match(dv.take(i + 1), prefix@) {
                    let k = choose|k: int|
                        0 <= k < dv.take(i + 1).len() && #[trigger] dv.take(i + 1)[k]
                            == prefix@;
                    assert(dv.take(i as int)[k] == prefix@);
                }
            }
        }
        let clen = cands[i].as_str().unicode_len();
        if clen > plen && str_starts_with(cands[i].as_str(), prefix.as_str()) {
            proof {
                assert(strict_extension(dv[i as int], prefix@));
                assert(filtered_suffixes(dv.take(i + 1), prefix@) == filtered_suffixes(
                    dv.take(i as int),
                    prefix@,
                ).push(dv[i as int].skip(plen as int)));
            }
            let suffix = String::from_str(cands[i].as_str().substring_char(plen, clen));
            out.push(suffix);
            proof {
                assert(suffix@ =~= dv[i as int].skip(plen as int));
                assert(out.deep_view() =~= prev_out.push(dv[i as int].skip(plen as int)));
            }
        } else {
            proof {
                assert(!strict_extension(dv[i as int], prefix@));
                assert(filtered_suffixes(dv.take(i + 1), prefix@) == filtered_suffixes(
                    dv.take(i as int),
                    prefix@,
                ));
            }
        }
        i += 1;
    }
    proof {
        assert(dv.take(cands.len() as int) =~= dv);
    }
    let state = if exact {
        CandidateState::Match
    } else if out.len() > 0 {
        CandidateState::Has
    } else {
        proof {
            assert(out.deep_view().len() == 0);
        }
        CandidateState::Absent
    };
    (out, state)
}

} // verus!
