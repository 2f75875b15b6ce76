//! The token buffer: an ordered sequence of atomic text units ("tokens").
//!
//! A token is one or more characters that the engine never splits or merges
//! itself; only a preprocessor hook may re-tokenize.  The buffer's logical
//! text is the concatenation of all tokens, and a cursor position is
//! translated to and from a *column*: the number of characters strictly
//! before the cursor.  Columns are what survive a wholesale buffer rewrite.

use vstd::prelude::*;
use vstd::seq_lib::*;
use vstd::string::StrSliceExecFns;
use vstd::string::StringExecFns;

verus! {

/// The logical text of a token sequence: all tokens' characters in order.
pub open spec fn text_of(toks: Seq<Seq<char>>) -> Seq<char> {
    toks.flatten()
}

/// The column of a cursor position: how many characters stand strictly
/// before it.
pub open spec fn column_of_spec(toks: Seq<Seq<char>>, cursor: int) -> nat {
    text_of(toks.take(cursor)).len()
}

/// Where a column lands in a token sequence: the count of tokens consumed
/// while the accumulated character length is still short of `col`.  A token
/// that ends exactly at `col` is consumed, so the cursor lands just after
/// the token containing or ending at the column, and never consumes a token
/// that starts at the column.
pub open spec fn remap_spec(toks: Seq<Seq<char>>, col: int) -> int
    decreases toks.len(),
{
    if col <= 0 || toks.len() == 0 {
        0
    } else {
        1 + remap_spec(toks.drop_first(), col - toks[0].len())
    }
}

/// Concatenate all tokens of a buffer into one string.
pub fn concat_tokens(buf: &Vec<String>) -> (r: String)
    ensures
        r@ == text_of(buf.deep_view()),
{
    let ghost dv = buf.deep_view();
    let mut r = String::new();
    let mut i: usize = 0;
    while i < buf.len()
        invariant
            i <= buf.len(),
            dv == buf.deep_view(),
            dv.len() == buf.len(),
            r@ == text_of(dv.take(i as int)),
        decreases buf.len() - i,
    {
        r.append(buf[i].as_str());
        proof {
            assert(dv.take(i + 1) =~= dv.take(i as int).push(dv[i as int]));
            dv.take(i as int).lemma_flatten_push(dv[i as int]);
            assert(dv[i as int] == buf@[i as int]@);
        }
        i += 1;
    }
    proof {
        assert(dv.take(buf.len() as int) =~= dv);
    }
    r
}

/// The column of `cursor` in `buf`: the character length of everything
/// strictly before the cursor.
pub fn column_of(buf: &Vec<String>, cursor: usize) -> (r: usize)
    requires
        cursor <= buf.len(),
    ensures
        r == column_of_spec(buf.deep_view(), cursor as int),
{
    let ghost dv = buf.deep_view();
    let mut text = String::new();
    let mut i: usize = 0;
    while i < cursor
        invariant
            i <= cursor <= buf.len(),
            dv == buf.deep_view(),
            dv.len() == buf.len(),
            text@ == text_of(dv.take(i as int)),
        decreases cursor - i,
    {
        text.append(buf[i].as_str());
        proof {
            assert(dv.take(i + 1) =~= dv.take(i as int).push(dv[i as int]));
            dv.take(i as int).lemma_flatten_push(dv[i as int]);
            assert(dv[i as int] == buf@[i as int]@);
        }
        i += 1;
    }
    text.as_str().unicode_len()
}

/// Re-derive a cursor from a column after a buffer rewrite: walk the new
/// tokens, consuming while the accumulated length is still short of `col`.
pub fn remap_cursor(buf: &Vec<String>, col: usize) -> (r: usize)
    ensures
        r == remap_spec(buf.deep_view(), col as int),
        r <= buf.len(),
{
    let ghost dv = buf.deep_view();
    proof {
        assert(dv.skip(0) =~= dv);
    }
    let mut i: usize = 0;
    let mut c: i128 = col as i128;
    while c > 0 && i < buf.len()
        invariant
            i <= buf.len(),
            dv == buf.deep_view(),
            dv.len() == buf.len(),
            c <= col,
            c >= -(usize::MAX as i128),
            remap_spec(dv, col as int) == i + remap_spec(dv.skip(i as int), c as int),
        decreases buf.len() - i,
    {
        let len = buf[i].as_str().unicode_len();
        proof {
            let rest = dv.skip(i as int);
            assert(rest[0] == dv[i as int]);
            assert(rest.drop_first() =~= dv.skip(i + 1));
            assert(dv[i as int] == buf@[i as int]@);
            assert(remap_spec(rest, c as int) == 1 + remap_spec(
                dv.skip(i + 1),
                c - len,
            ));
        }
        c = c - len as i128;
        i += 1;
    }
    proof {
        if c <= 0 {
            assert(remap_spec(dv.skip(i as int), c as int) == 0);
        } else {
            assert(dv.skip(i as int).len() == 0);
            assert(remap_spec(dv.skip(i as int), c as int) == 0);
        }
    }
    i
}

/// Clone a token buffer, keeping its view.
pub fn clone_tokens(v: &Vec<String>) -> (r: Vec<String>)
    ensures
        r@ == v@,
{
    let r = v.clone();
    proof {
        assert forall|i: int| 0 <= i < v@.len() implies r@[i] == v@[i] by {
            assert(cloned::<String>(v[i], r[i]));
        }
        assert(r@ =~= v@);
    }
    r
}

/// Character-level equality of two token buffers: the same tokens, each
/// with the same characters.
pub fn tokens_eq(a: &Vec<String>, b: &Vec<String>) -> (r: bool)
    ensures
        r == (a.deep_view() == b.deep_view()),
{
    if a.len() != b.len() {
        proof {
            assert(a.deep_view().len() != b.deep_view().len());
        }
        return false;
    }
    let mut i: usize = 0;
    while i < a.len()
        invariant
            i <= a.len(),
            a.len() == b.len(),
            forall|j: int| 0 <= j < i ==> a.deep_view()[j] == b.deep_view()[j],
        decreases a.len() - i,
    {
        if !(a[i] == b[i]) {
            proof {
                assert(a.deep_view()[i as int] != b.deep_view()[i as int]);
            }
            return false;
        }
        i += 1;
    }
    proof {
        assert(a.deep_view() =~= b.deep_view());
    }
    true
}

/// Inserting a token inserts exactly its characters at the corresponding
/// column of the buffer's text: the text before the index, the new token,
/// the text from the index on.
pub proof fn lemma_text_insert(toks: Seq<Seq<char>>, i: int, t: Seq<char>)
    requires
        0 <= i <= toks.len(),
    ensures
        text_of(toks.insert(i, t)) == text_of(toks.take(i)) + t + text_of(toks.skip(i)),
{
    let ins = toks.insert(i, t);
    assert(ins =~= toks.take(i) + seq![t] + toks.skip(i));
    lemma_flatten_concat(toks.take(i) + seq![t], toks.skip(i));
    lemma_flatten_concat(toks.take(i), seq![t]);
    seq![t].lemma_flatten_singleton();
}

/// Removing a token removes exactly its characters from the buffer's text:
/// what remains is the text before the index and the text after it.
pub proof fn lemma_text_remove(toks: Seq<Seq<char>>, i: int)
    requires
        0 <= i < toks.len(),
    ensures
        text_of(toks.remove(i)) == text_of(toks.take(i)) + text_of(toks.skip(i + 1)),
{
    let rem = toks.remove(i);
    assert(rem =~= toks.take(i) + toks.skip(i + 1));
    lemma_flatten_concat(toks.take(i), toks.skip(i + 1));
}

/// Cursor remapping does not drift: when every token of a buffer is
/// nonempty, mapping a cursor to its column and back yields the same
/// cursor.  Running an identity rewrite twice therefore leaves the cursor
/// where it was.  (With an empty token just before the cursor the round
/// trip lands before that token instead, so empty tokens are excluded.)
pub proof fn lemma_remap_column_round_trip(toks: Seq<Seq<char>>, cursor: int)
    requires
        0 <= cursor <= toks.len(),
        forall|i: int| 0 <= i < toks.len() ==> #[trigger] toks[i].len() > 0,
    ensures
        remap_spec(toks, column_of_spec(toks, cursor) as int) == cursor,
    decreases cursor,
{
    if cursor == 0 {
        assert(toks.take(0) =~= Seq::<Seq<char>>::empty());
        assert(column_of_spec(toks, 0) == 0);
    } else {
        let rest = toks.drop_first();
        let taken = toks.take(cursor);
        assert(taken.drop_first() =~= rest.take(cursor - 1));
        assert(taken.flatten() == taken[0] + taken.drop_first().flatten());
        assert(column_of_spec(toks, cursor) == toks[0].len() + column_of_spec(
            rest,
            cursor - 1,
        ));
        assert(forall|i: int|
            0 <= i < rest.len() ==> #[trigger] rest[i].len() > 0) by {
            assert(forall|i: int|
                0 <= i < rest.len() ==> rest[i] == toks[i + 1]);
        }
        lemma_remap_column_round_trip(rest, cursor - 1);
    }
}

} // verus!
