//! Parsing the token buffer into a command and its argument fragments.
//!
//! The buffer is split at whitespace tokens into fragments.  The first
//! fragment is the command word; the remaining fragments are regrouped
//! into argument slots depending on the command — a send message keeps
//! its inner spaces (as escape tokens in ASCII mode), a checksum request
//! takes the algorithm and then the message, and every other command
//! takes one argument with its spaces restored.

use vstd::prelude::*;
use crate::ascii::lower_seq;
use crate::buffer::clone_tokens;
use crate::buffer::text_of;
use crate::command::command_spec;
use crate::command::CommandType;
use crate::mode::Mode;
use crate::strutil::str_eq;
use vstd::string::StrSliceExecFns;
use vstd::string::StringExecFns;

verus! {

/// The buffer split at whitespace tokens: the groups of tokens between
/// `" "` tokens, in order, empty groups kept.  There is always at least
/// one group.
pub open spec fn split_fragments(toks: Seq<Seq<char>>) -> Seq<Seq<Seq<char>>>
    decreases toks.len(),
{
    if toks.len() == 0 {
        seq![Seq::<Seq<char>>::empty()]
    } else if toks[0] == seq![' '] {
        seq![Seq::<Seq<char>>::empty()] + split_fragments(toks.drop_first())
    } else {
        let rest = split_fragments(toks.drop_first());
        seq![seq![toks[0]] + rest[0]] + rest.drop_first()
    }
}

/// A split always has at least one group.
pub proof fn lemma_split_nonempty(toks: Seq<Seq<char>>)
    ensures
        split_fragments(toks).len() >= 1,
    decreases toks.len(),
{
    if toks.len() != 0 {
        lemma_split_nonempty(toks.drop_first());
    }
}

/// Token groups joined with a single separator token between them.
pub open spec fn join_groups(gs: Seq<Seq<Seq<char>>>, sep: Seq<char>) -> Seq<Seq<char>>
    decreases gs.len(),
{
    if gs.len() == 0 {
        Seq::empty()
    } else if gs.len() == 1 {
        gs[0]
    } else {
        join_groups(gs.drop_last(), sep) + seq![sep] + gs.last()
    }
}

/// Split the buffer at whitespace tokens.
pub fn split_buffer(toks: &Vec<String>) -> (r: Vec<Vec<String>>)
    ensures
        r.deep_view() == split_fragments(toks.deep_view()),
        r.len() >= 1,
{
    let ghost dv = toks.deep_view();
    let mut done: Vec<Vec<String>> = Vec::new();
    let mut cur: Vec<String> = Vec::new();
    let mut i: usize = 0;
    proof {
        reveal_strlit(" ");
        assert(dv.skip(0) =~= dv);
        lemma_split_nonempty(dv);
        assert(done.deep_view() =~= Seq::<Seq<Seq<char>>>::empty());
        assert(cur.deep_view() =~= Seq::<Seq<char>>::empty());
    }
    while i < toks.len()
        invariant
            0 <= i <= toks.len(),
            dv == toks.deep_view(),
            dv.len() == toks.len(),
            " "@ == seq![' '],
            split_fragments(dv.skip(i as int)).len() >= 1,
            split_fragments(dv) == done.deep_view() + (seq![
                cur.deep_view() + split_fragments(dv.skip(i as int))[0],
            ] + split_fragments(dv.skip(i as int)).drop_first()),
        decreases toks.len() - i,
    {
        let ghost rest = dv.skip(i as int);
        let ghost srest = split_fragments(rest);
        let ghost snext = split_fragments(dv.skip(i + 1));
        proof {
            assert(rest[0] == dv[i as int]);
            assert(rest.drop_first() =~= dv.skip(i + 1));
            assert(dv[i as int] == toks@[i as int]@);
            lemma_split_nonempty(dv.skip(i + 1));
        }
        if str_eq(toks[i].as_str(), " ") {
            proof {
                assert(rest[0] == seq![' ']);
                assert(srest == seq![Seq::<Seq<char>>::empty()] + snext);
                assert(srest[0] =~= Seq::<Seq<char>>::empty());
                assert(cur.deep_view() + srest[0] =~= cur.deep_view());
                assert(srest.drop_first() =~= snext);
            }
            let ghost done_before = done.deep_view();
            let ghost cur_before = cur.deep_view();
            done.push(cur);
            cur = Vec::new();
            proof {
                assert(done.deep_view() =~= done_before.push(cur_before));
                assert(cur.deep_view() =~= Seq::<Seq<char>>::empty());
                assert(done.deep_view() + (seq![cur.deep_view() + snext[0]]
                    + snext.drop_first()) =~= done_before + (seq![cur_before + srest[0]]
                    + srest.drop_first()));
            }
        } else {
            proof {
                assert(rest[0] != seq![' ']);
                assert(srest == seq![seq![rest[0]] + snext[0]] + snext.drop_first());
            }
            let ghost cur_before = cur.deep_view();
            cur.push(clone_tokens_one(&toks[i]));
            proof {
                assert(cur.deep_view() =~= cur_before.push(rest[0]));
                assert(cur.deep_view() + snext[0] =~= cur_before + (seq![rest[0]]
                    + snext[0]));
                assert(cur.deep_view() + snext[0] =~= cur_before + srest[0]);
                assert(snext.drop_first() =~= srest.drop_first());
                assert(done.deep_view() + (seq![cur.deep_view() + snext[0]]
                    + snext.drop_first()) =~= done.deep_view() + (seq![cur_before
                    + srest[0]] + srest.drop_first()));
            }
        }
        i += 1;
    }
    proof {
        let send = split_fragments(dv.skip(toks.len() as int));
        assert(dv.skip(toks.len() as int).len() == 0);
        assert(send =~= seq![Seq::<Seq<char>>::empty()]);
        assert(cur.deep_view() + send[0] =~= cur.deep_view());
        assert(send.drop_first() =~= Seq::<Seq<Seq<char>>>::empty());
    }
    let ghost done_before = done.deep_view();
    let ghost cur_final = cur.deep_view();
    done.push(cur);
    proof {
        assert(done.deep_view() =~= done_before.push(cur_final));
        assert(done.deep_view() =~= split_fragments(dv));
    }
    done
}

/// Copy one token.
fn clone_tokens_one(s: &String) -> (r: String)
    ensures
        r@ == s@,
{
    let mut owned = String::new();
    owned.append(s.as_str());
    owned
}

/// Join token groups with a separator token between them.
fn join_with_token(gs: &Vec<Vec<String>>, from: usize, sep: &str) -> (r: Vec<String>)
    requires
        from <= gs.len(),
    ensures
        r.deep_view() == join_groups(gs.deep_view().skip(from as int), sep@),
{
    let ghost dv = gs.deep_view();
    let ghost tail = dv.skip(from as int);
    let mut out: Vec<String> = Vec::new();
    let mut i: usize = from;
    proof {
        assert(tail.take(0) =~= Seq::<Seq<Seq<char>>>::empty());
        assert(out.deep_view() =~= join_groups(tail.take(0), sep@));
    }
    while i < gs.len()
        invariant
            from <= i <= gs.len(),
            dv == gs.deep_view(),
            dv.len() == gs.len(),
            tail == dv.skip(from as int),
            out.deep_view() == join_groups(tail.take(i - from), sep@),
        decreases gs.len() - i,
    {
        let ghost k = i - from;
        let ghost prev = out.deep_view();
        proof {
            assert(tail.take(k + 1).drop_last() =~= tail.take(k as int));
            assert(tail.take(k + 1).last() == tail[k as int]);
            assert(tail[k as int] == dv[i as int]);
            assert(dv[i as int] == gs@[i as int].deep_view());
        }
        if i > from {
            let mut sep_tok = String::new();
            sep_tok.append(sep);
            out.push(sep_tok);
            proof {
                assert(out.deep_view() =~= prev.push(sep@));
            }
        }
        let ghost mid = out.deep_view();
        let group = clone_tokens(&gs[i]);
        let mut j: usize = 0;
        proof {
            assert(group.deep_view() =~= gs@[i as int].deep_view());
            assert(out.deep_view() =~= mid + group.deep_view().take(0));
        }
        while j < group.len()
            invariant
                0 <= j <= group.len(),
                out.deep_view() == mid + group.deep_view().take(j as int),
            decreases group.len() - j,
        {
            let ghost before = out.deep_view();
            let tok = clone_tokens_one(&group[j]);
            out.push(tok);
            proof {
                assert(group.deep_view().take(j + 1) =~= group.deep_view().take(
                    j as int,
                ).push(group.deep_view()[j as int]));
                assert(group.deep_view()[j as int] == group@[j as int]@);
                assert(out.deep_view() =~= before.push(group@[j as int]@));
                assert(out.deep_view() =~= mid + group.deep_view().take(j + 1));
            }
            j += 1;
        }
        proof {
            assert(group.deep_view().take(group.len() as int) =~= group.deep_view());
            if k == 0 {
                assert(join_groups(tail.take(1), sep@) == tail.take(1)[0]);
                assert(tail.take(1)[0] == tail[0]);
                assert(out.deep_view() =~= mid + tail[k as int]);
                assert(mid =~= Seq::<Seq<char>>::empty());
                assert(out.deep_view() =~= join_groups(tail.take(k + 1), sep@));
            } else {
                assert(join_groups(tail.take(k + 1), sep@) == join_groups(
                    tail.take(k as int),
                    sep@,
                ) + seq![sep@] + tail[k as int]);
                assert(out.deep_view() =~= prev + seq![sep@] + tail[k as int]);
                assert(out.deep_view() =~= join_groups(tail.take(k + 1), sep@));
            }
        }
        i += 1;
    }
    proof {
        assert(tail.take(gs.len() - from) =~= tail);
    }
    out
}

/// Concatenate token groups into one run of tokens.
fn concat_groups(gs: &Vec<Vec<String>>, from: usize) -> (r: Vec<String>)
    requires
        from <= gs.len(),
    ensures
        r.deep_view() == gs.deep_view().skip(from as int).flatten(),
{
    let ghost dv = gs.deep_view();
    let ghost tail = dv.skip(from as int);
    let mut out: Vec<String> = Vec::new();
    let mut i: usize = from;
    proof {
        assert(tail.take(0) =~= Seq::<Seq<Seq<char>>>::empty());
        assert(out.deep_view() =~= tail.take(0).flatten());
    }
    while i < gs.len()
        invariant
            from <= i <= gs.len(),
            dv == gs.deep_view(),
            dv.len() == gs.len(),
            tail == dv.skip(from as int),
            out.deep_view() == tail.take(i - from).flatten(),
        decreases gs.len() - i,
    {
        let ghost k = i - from;
        let ghost prev = out.deep_view();
        proof {
            assert(tail.take(k + 1) =~= tail.take(k as int).push(tail[k as int]));
            tail.take(k as int).lemma_flatten_push(tail[k as int]);
            assert(tail[k as int] == dv[i as int]);
            assert(dv[i as int] == gs@[i as int].deep_view());
        }
        let group = clone_tokens(&gs[i]);
        let mut j: usize = 0;
        proof {
            assert(group.deep_view() =~= gs@[i as int].deep_view());
            assert(out.deep_view() =~= prev + group.deep_view().take(0));
        }
        while j < group.len()
            invariant
                0 <= j <= group.len(),
                out.deep_view() == prev + group.deep_view().take(j as int),
            decreases group.len() - j,
        {
            let ghost before = out.deep_view();
            let tok = clone_tokens_one(&group[j]);
            out.push(tok);
            proof {
                assert(group.deep_view().take(j + 1) =~= group.deep_view().take(
                    j as int,
                ).push(group.deep_view()[j as int]));
                assert(group.deep_view()[j as int] == group@[j as int]@);
                assert(out.deep_view() =~= before.push(group@[j as int]@));
                assert(out.deep_view() =~= prev + group.deep_view().take(j + 1));
            }
            j += 1;
        }
        proof {
            assert(group.deep_view().take(group.len() as int) =~= group.deep_view());
            assert(out.deep_view() =~= prev + tail[k as int]);
            assert(out.deep_view() =~= tail.take(k + 1).flatten());
        }
        i += 1;
    }
    proof {
        assert(tail.take(gs.len() - from) =~= tail);
    }
    out
}

/// The argument groups of a parsed input, by command.
pub open spec fn parse_args_spec(frags: Seq<Seq<Seq<char>>>, cmd: CommandType, mode: Mode)
    -> Seq<Seq<Seq<char>>> {
    let base = seq![frags[0]];
    let with_second = if frags.len() > 1 {
        base.push(
            if cmd == CommandType::Send && mode == Mode::ASCII {
                join_groups(frags.skip(1), seq!['\\', '2', '0'])
            } else if cmd == CommandType::Send {
                frags.skip(1).flatten()
            } else if cmd == CommandType::Checksum {
                frags[1]
            } else {
                join_groups(frags.skip(1), seq![' '])
            },
        )
    } else {
        base
    };
    if frags.len() > 2 && cmd == CommandType::Checksum {
        with_second.push(
            if mode == Mode::ASCII {
                join_groups(frags.skip(2), seq!['\\', '2', '0'])
            } else {
                frags.skip(2).flatten()
            },
        )
    } else {
        with_second
    }
}

/// The command a buffer denotes: its first whitespace-separated
/// fragment, concatenated and case-folded.
pub open spec fn parse_command_spec(toks: Seq<Seq<char>>) -> CommandType {
    command_spec(lower_seq(text_of(split_fragments(toks)[0])))
}

/// Parse the token buffer into its command and its argument groups.
pub fn parse_input(toks: &Vec<String>, mode: Mode) -> (r: (CommandType, Vec<Vec<String>>))
    ensures
        r.0 == parse_command_spec(toks.deep_view()),
        r.1.deep_view() == parse_args_spec(
            split_fragments(toks.deep_view()),
            parse_command_spec(toks.deep_view()),
            mode,
        ),
{
    proof {
        reveal_strlit("\\20");
        reveal_strlit(" ");
        assert("\\20"@ =~= seq!['\\', '2', '0']);
        assert(" "@ =~= seq![' ']);
    }
    let frags = split_buffer(toks);
    let ghost fdv = frags.deep_view();
    let word = crate::buffer::concat_tokens(&frags[0]);
    proof {
        assert(frags@[0].deep_view() == fdv[0]);
    }
    let lowered = crate::ascii::lowercase_ascii(word.as_str());
    let cmd = CommandType::from_str(lowered.as_str());
    let mut args: Vec<Vec<String>> = Vec::new();
    args.push(clone_tokens(&frags[0]));
    proof {
        assert(args.deep_view() =~= seq![fdv[0]]);
    }
    if frags.len() > 1 {
        let second: Vec<String> = if cmd == CommandType::Send && mode == Mode::ASCII {
            join_with_token(&frags, 1, "\\20")
        } else if cmd == CommandType::Send {
            concat_groups(&frags, 1)
        } else if cmd == CommandType::Checksum {
            clone_tokens(&frags[1])
        } else {
            join_with_token(&frags, 1, " ")
        };
        let ghost second_dv = second.deep_view();
        proof {
            if cmd == CommandType::Checksum {
                assert(second_dv == fdv[1]);
            }
        }
        let ghost args_before = args.deep_view();
        args.push(second);
        proof {
            assert(args.deep_view() =~= args_before.push(second_dv));
        }
    }
    if frags.len() > 2 && cmd == CommandType::Checksum {
        let third: Vec<String> = if mode == Mode::ASCII {
            join_with_token(&frags, 2, "\\20")
        } else {
            concat_groups(&frags, 2)
        };
        let ghost third_dv = third.deep_view();
        let ghost args_before = args.deep_view();
        args.push(third);
        proof {
            assert(args.deep_view() =~= args_before.push(third_dv));
        }
    }
    proof {
        assert(args.deep_view() =~= parse_args_spec(fdv, cmd, mode));
    }
    (cmd, args)
}

} // verus!
