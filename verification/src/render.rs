//! Width-aware rendering helpers: the completion preview.
//!
//! After the rendered buffer, the remaining terminal width may show a
//! bracketed preview of the joined candidate list.  When the full list
//! does not fit, it is truncated and given a two-dot ellipsis marker; when
//! not even a one-character preview with its marker fits, it is omitted.

use vstd::prelude::*;
use crate::strutil::push_char;
use vstd::string::StrSliceExecFns;
use vstd::string::StringExecFns;

verus! {

/// The candidate list joined with `", "` between entries.
pub open spec fn joined_with_commas(cands: Seq<Seq<char>>) -> Seq<char>
    decreases cands.len(),
{
    if cands.len() == 0 {
        Seq::empty()
    } else if cands.len() == 1 {
        cands[0]
    } else {
        joined_with_commas(cands.drop_last()) + seq![',', ' '] + cands.last()
    }
}

/// The preview of a candidate list, fitted to the columns remaining on a
/// terminal of `width` columns after `column` columns of prompt and
/// buffer.  The joined list is shown whole when it fits; otherwise it is
/// cut and ends in a two-dot ellipsis marker, and when the remaining
/// width cannot show even one candidate character with the marker, the
/// preview is omitted entirely.  A nonempty preview is wrapped in
/// brackets.
pub open spec fn preview_spec(cands: Seq<Seq<char>>, width: int, column: int) -> Seq<
    char,
> {
    let joined = joined_with_commas(cands);
    let rest = if width >= column {
        width - column
    } else {
        0
    };
    let shown = if joined.len() <= rest {
        joined
    } else if rest >= 4 {
        joined.take(rest - 3) + seq!['.', '.']
    } else {
        Seq::empty()
    };
    if shown.len() > 0 {
        seq!['['] + shown + seq![']']
    } else {
        Seq::empty()
    }
}

/// Join the candidates with `", "`.
pub fn join_candidates(cands: &Vec<String>) -> (r: String)
    ensures
        r@ == joined_with_commas(cands.deep_view()),
{
    let ghost dv = cands.deep_view();
    let mut joined = String::new();
    let mut i: usize = 0;
    proof {
        reveal_strlit(", ");
        assert(", "@ =~= seq![',', ' ']);
        assert(joined@ =~= joined_with_commas(dv.take(0)));
    }
    while i < cands.len()
        invariant
            0 <= i <= cands.len(),
            dv == cands.deep_view(),
            dv.len() == cands.len(),
            ", "@ == seq![',', ' '],
            joined@ == joined_with_commas(dv.take(i as int)),
        decreases cands.len() - i,
    {
        if i > 0 {
            joined.append(", ");
        }
        joined.append(cands[i].as_str());
        proof {
            assert(dv.take(i + 1).drop_last() =~= dv.take(i as int));
            assert(dv.take(i + 1).last() == dv[i as int]);
            assert(dv[i as int] == cands@[i as int]@);
            if i == 0 {
                assert(joined_with_commas(dv.take(1)) == dv.take(1)[0]);
                assert(joined@ =~= joined_with_commas(dv.take(1)));
            } else {
                assert(joined@ =~= joined_with_commas(dv.take(i as int)) + seq![',', ' ']
                    + dv[i as int]);
            }
        }
        i += 1;
    }
    proof {
        assert(dv.take(cands.len() as int) =~= dv);
    }
    joined
}

/// Fit the candidate preview to the remaining terminal width.
pub fn candidate_preview(cands: &Vec<String>, width: usize, column: usize) -> (r: String)
    ensures
        r@ == preview_spec(cands.deep_view(), width as int, column as int),
{
    let joined = join_candidates(cands);
    let rest: usize = if width >= column {
        width - column
    } else {
        0
    };
    let jlen = joined.as_str().unicode_len();
    let shown: String = if jlen <= rest {
        joined
    } else if rest >= 4 {
        let mut cut = String::from_str(joined.as_str().substring_char(0, rest - 3));
        push_char(&mut cut, '.');
        push_char(&mut cut, '.');
        proof {
            assert(cut@ =~= joined@.take(rest - 3) + seq!['.', '.']);
        }
        cut
    } else {
        String::new()
    };
    if shown.as_str().unicode_len() > 0 {
        let mut out = String::new();
        push_char(&mut out, '[');
        out.append(shown.as_str());
        push_char(&mut out, ']');
        proof {
            assert(out@ =~= seq!['['] + shown@ + seq![']']);
        }
        out
    } else {
        String::new()
    }
}

} // verus!
