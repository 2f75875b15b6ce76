//! The serial-console context around the line editor: per-command
//! completion candidates, buffer re-tokenization, and the colored,
//! width-aware rendering of the input line.
//!
//! A `Console` holds the command-loop settings (mode, ending, reverse
//! order, known port names) and the result of the latest preprocessing
//! pass (command, argument fragments, per-slot candidate states).  Its
//! `preprocess` and `render_line` do the computing behind the engine's
//! preprocessor and renderer hooks; the caller turns the returned spans
//! into terminal colors.

use vstd::prelude::*;
use crate::ascii::printable_spec;
use crate::ascii::get_printable_ascii;
use crate::ascii::tokenize_ascii;
use crate::ascii::valid_ascii_msg;
use crate::ascii::valid_hex_msg;
use crate::ascii::valid_int;
use crate::ascii::valid_sum_request;
use crate::ascii::check_ascii_msg;
use crate::ascii::check_hex_msg;
use crate::ascii::check_int;
use crate::ascii::check_sum_request;
use crate::ascii::string_to_vec_ascii;
use crate::buffer::clone_tokens;
use crate::buffer::column_of;
use crate::buffer::column_of_spec;
use crate::buffer::concat_tokens;
use crate::buffer::text_of;
use crate::candidate::candidate_state_of;
use crate::candidate::filter_candidates;
use crate::candidate::filtered_suffixes;
use crate::candidate::CandidateState;
use crate::checksum::calc_checksum;
use crate::checksum::calc_checksum_spec;
use crate::command::CommandType;
use crate::ending::Ending;
use crate::mode::Mode;
use crate::parse::parse_args_spec;
use crate::parse::parse_command_spec;
use crate::parse::parse_input;
use crate::parse::split_fragments;
use crate::strutil::push_char;
use vstd::string::StrSliceExecFns;
use vstd::string::StringExecFns;

verus! {

/// A foreground color of a rendered segment.
#[derive(Clone, Copy, Debug, PartialEq, Eq, Structural)]
pub enum TextColor {
    Plain,
    Red,
    Green,
    Blue,
    White,
}

/// One uniformly colored segment of the rendered line.
pub struct Span {
    pub color: TextColor,
    pub text: String,
}

/// The colors and texts of a span list.
pub open spec fn spans_view(v: Seq<Span>) -> Seq<(TextColor, Seq<char>)> {
    Seq::new(v.len(), |i: int| (v[i].color, v[i].text@))
}

/// The color of the command word, by its candidate state.
pub open spec fn command_color(st: CandidateState) -> TextColor {
    match st {
        CandidateState::Match => TextColor::Blue,
        CandidateState::Has => TextColor::White,
        CandidateState::Absent => TextColor::Red,
    }
}

/// The commands whose argument must equal one of a fixed set of words.
pub open spec fn exact_arg_command(cmd: CommandType) -> bool {
    ||| cmd == CommandType::Help
    ||| cmd == CommandType::SetMode
    ||| cmd == CommandType::SetEnding
    ||| cmd == CommandType::SetReverse
    ||| cmd == CommandType::SetPort
    ||| cmd == CommandType::SetDataBits
    ||| cmd == CommandType::SetParity
    ||| cmd == CommandType::SetStopBits
    ||| cmd == CommandType::SetFlow
    ||| cmd == CommandType::SetRts
    ||| cmd == CommandType::SetDtr
}

/// The commands whose argument is a positive integer.
pub open spec fn int_arg_command(cmd: CommandType) -> bool {
    cmd == CommandType::SetBaud || cmd == CommandType::SetTimeout
}

/// The color of a message argument: white when it fits the mode's
/// grammar, red otherwise.
pub open spec fn message_color(text: Seq<char>, mode: Mode) -> TextColor {
    match mode {
        Mode::ASCII => if valid_ascii_msg(text) {
            TextColor::White
        } else {
            TextColor::Red
        },
        Mode::HEX => if valid_hex_msg(text) {
            TextColor::White
        } else {
            TextColor::Red
        },
    }
}

/// The color of the first argument, by command.
pub open spec fn arg_color(
    cmd: CommandType,
    text: Seq<char>,
    st: CandidateState,
    mode: Mode,
) -> TextColor {
    if exact_arg_command(cmd) {
        match st {
            CandidateState::Match => TextColor::Green,
            CandidateState::Has => TextColor::White,
            CandidateState::Absent => TextColor::Red,
        }
    } else if int_arg_command(cmd) {
        if valid_int(text) {
            TextColor::White
        } else {
            TextColor::Red
        }
    } else if cmd == CommandType::Send {
        message_color(text, mode)
    } else if cmd == CommandType::Checksum {
        if valid_sum_request(text) {
            TextColor::Green
        } else if st == CandidateState::Has {
            TextColor::White
        } else {
            TextColor::Red
        }
    } else {
        TextColor::Red
    }
}

/// Each token replaced by its display form.
pub open spec fn printable_tokens(toks: Seq<Seq<char>>) -> Seq<Seq<char>> {
    Seq::new(toks.len(), |i: int| printable_spec(toks[i]))
}

/// Is a message argument of this command shown through the escape
/// display mapping?  Only ASCII-mode message arguments are.
pub open spec fn mapped_display(mode: Mode) -> bool {
    mode == Mode::ASCII
}

/// The display form of a message argument's tokens.
pub open spec fn message_display(toks: Seq<Seq<char>>, mode: Mode) -> Seq<Seq<char>> {
    if mapped_display(mode) {
        printable_tokens(toks)
    } else {
        toks
    }
}

/// The display form of the first argument's tokens, by command.
pub open spec fn arg_display(cmd: CommandType, toks: Seq<Seq<char>>, mode: Mode) -> Seq<
    Seq<char>,
> {
    if cmd == CommandType::Send {
        message_display(toks, mode)
    } else {
        toks
    }
}

/// All display tokens of the rendered line, in walking order: the
/// command word, then a space and the first argument's display, then —
/// for a checksum — a space and the message's display.
pub open spec fn display_tokens_spec(
    frags: Seq<Seq<Seq<char>>>,
    cmd: CommandType,
    mode: Mode,
) -> Seq<Seq<char>> {
    let head = frags[0];
    if frags.len() <= 1 {
        head
    } else {
        let mid = head + seq![seq![' ']] + arg_display(cmd, frags[1], mode);
        if cmd == CommandType::Checksum && frags.len() > 2 {
            mid + seq![seq![' ']] + message_display(frags[2], mode)
        } else {
            mid
        }
    }
}

/// The rendered spans of the line: each segment's color and text.
pub open spec fn render_spans_spec(
    frags: Seq<Seq<Seq<char>>>,
    cmd: CommandType,
    states: Seq<CandidateState>,
    mode: Mode,
) -> Seq<(TextColor, Seq<char>)>
    recommends
        frags.len() >= 1,
        states.len() == 3,
{
    let head = seq![(command_color(states[0]), text_of(frags[0]))];
    if frags.len() <= 1 {
        head
    } else {
        let mid = head + seq![
            (TextColor::Plain, " "@),
            (arg_color(cmd, text_of(frags[1]), states[1], mode), text_of(
                arg_display(cmd, frags[1], mode),
            )),
        ];
        if cmd == CommandType::Checksum && frags.len() > 2 {
            mid + seq![
                (TextColor::Plain, " "@),
                (message_color(text_of(frags[2]), mode), text_of(
                    message_display(frags[2], mode),
                )),
            ]
        } else {
            mid
        }
    }
}

/// Map each token of a message argument to its display form.
pub fn display_message_tokens(toks: &Vec<String>, mode: Mode) -> (r: Vec<String>)
    ensures
        r.deep_view() == message_display(toks.deep_view(), mode),
{
    match mode {
        Mode::HEX => {
            let r = clone_tokens(toks);
            proof {
                assert(r.deep_view() =~= toks.deep_view());
            }
            r
        },
        Mode::ASCII => {
            let mut out: Vec<String> = Vec::new();
            let mut i: usize = 0;
            while i < toks.len()
                invariant
                    0 <= i <= toks.len(),
                    out.deep_view().len() == i,
                    forall|j: int|
                        0 <= j < i ==> out.deep_view()[j] == printable_spec(
                            toks.deep_view()[j],
                        ),
                decreases toks.len() - i,
            {
                let ghost before = out.deep_view();
                let shown = get_printable_ascii(clone_one(&toks[i]));
                out.push(shown);
                proof {
                    assert(out.deep_view() =~= before.push(
                        printable_spec(toks.deep_view()[i as int]),
                    ));
                }
                i += 1;
            }
            proof {
                assert(out.deep_view() =~= printable_tokens(toks.deep_view()));
            }
            out
        },
    }
}

/// Copy one token.
fn clone_one(s: &String) -> (r: String)
    ensures
        r@ == s@,
{
    let mut owned = String::new();
    owned.append(s.as_str());
    owned
}

/// A single-space token.
fn space_token() -> (r: String)
    ensures
        r@ == seq![' '],
{
    proof {
        reveal_strlit(" ");
        assert(" "@ =~= seq![' ']);
    }
    let mut owned = String::new();
    owned.append(" ");
    owned
}

/// The console state the hooks work on.
pub struct Console {
    pub mode: Mode,
    pub ending: Ending,
    pub reverse: bool,
    pub ports: Vec<String>,
    pub command: CommandType,
    pub fragments: Vec<Vec<String>>,
    pub states: Vec<CandidateState>,
}

impl Console {
    /// Three candidate-state slots, one per argument position.
    pub open spec fn wf(&self) -> bool {
        self.states.len() == 3
    }

    /// A fresh console: ASCII mode, no ending, normal order, no known
    /// ports, nothing parsed yet.
    pub fn new() -> (r: Console)
        ensures
            r.wf(),
            r.mode == Mode::ASCII,
            r.ending == Ending::NoEnding,
            !r.reverse,
            r.ports.len() == 0,
            r.command == CommandType::Invalid,
            r.fragments.len() == 0,
    {
        let mut states: Vec<CandidateState> = Vec::new();
        states.push(CandidateState::Absent);
        states.push(CandidateState::Absent);
        states.push(CandidateState::Absent);
        Console {
            mode: Mode::ASCII,
            ending: Ending::NoEnding,
            reverse: false,
            ports: Vec::new(),
            command: CommandType::Invalid,
            fragments: Vec::new(),
            states,
        }
    }
}

/// Append a literal word to a candidate list.
fn push_lit(v: &mut Vec<String>, s: &str)
    ensures
        final(v).deep_view() == old(v).deep_view().push(s@),
{
    let mut owned = String::new();
    owned.append(s);
    let ghost before = v.deep_view();
    v.push(owned);
    proof {
        assert(v.deep_view() =~= before.push(s@));
    }
}

/// Every command word, offered when the command itself is being typed.
pub open spec fn base_candidates() -> Seq<Seq<char>> {
    seq![
        "help"@,
        "clear"@,
        "send"@,
        "recv"@,
        "flush"@,
        "set-mode"@,
        "set-end"@,
        "set-rev"@,
        "set-port"@,
        "set-baud"@,
        "set-par"@,
        "set-data"@,
        "set-stop"@,
        "set-time"@,
        "set-flow"@,
        "set-rts"@,
        "set-dtr"@,
        "get-mode"@,
        "get-end"@,
        "get-rev"@,
        "get-port"@,
        "get-baud"@,
        "get-data"@,
        "get-par"@,
        "get-stop"@,
        "get-time"@,
        "get-flow"@,
        "get-in"@,
        "get-out"@,
        "get-cts"@,
        "get-dsr"@,
        "get-ri"@,
        "get-cd"@,
        "sum"@,
    ]
}

/// Build the command-word candidate list.
pub fn build_base_candidates() -> (r: Vec<String>)
    ensures
        r.deep_view() == base_candidates(),
{
    let mut out: Vec<String> = Vec::new();
    push_lit(&mut out, "help");
    push_lit(&mut out, "clear");
    push_lit(&mut out, "send");
    push_lit(&mut out, "recv");
    push_lit(&mut out, "flush");
    push_lit(&mut out, "set-mode");
    push_lit(&mut out, "set-end");
    push_lit(&mut out, "set-rev");
    push_lit(&mut out, "set-port");
    push_lit(&mut out, "set-baud");
    push_lit(&mut out, "set-par");
    push_lit(&mut out, "set-data");
    push_lit(&mut out, "set-stop");
    push_lit(&mut out, "set-time");
    push_lit(&mut out, "set-flow");
    push_lit(&mut out, "set-rts");
    push_lit(&mut out, "set-dtr");
    push_lit(&mut out, "get-mode");
    push_lit(&mut out, "get-end");
    push_lit(&mut out, "get-rev");
    push_lit(&mut out, "get-port");
    push_lit(&mut out, "get-baud");
    push_lit(&mut out, "get-data");
    push_lit(&mut out, "get-par");
    push_lit(&mut out, "get-stop");
    push_lit(&mut out, "get-time");
    push_lit(&mut out, "get-flow");
    push_lit(&mut out, "get-in");
    push_lit(&mut out, "get-out");
    push_lit(&mut out, "get-cts");
    push_lit(&mut out, "get-dsr");
    push_lit(&mut out, "get-ri");
    push_lit(&mut out, "get-cd");
    push_lit(&mut out, "sum");
    proof {
        assert(out.deep_view() =~= base_candidates());
    }
    out
}

/// The raw candidates for the current context, and whether they are
/// still to be filtered against the typed prefix.  While the command
/// word is being typed (or after `help`) every command word is offered;
/// a recognized command offers the words of its argument; a complete
/// checksum request offers the computed checksum itself, unfiltered.
pub open spec fn context_candidates_spec(
    cmd: CommandType,
    nfrags: int,
    ports: Seq<Seq<char>>,
    arg1: Seq<char>,
    arg2: Seq<char>,
    mode: Mode,
) -> (Seq<Seq<char>>, bool) {
    if nfrags == 1 || cmd == CommandType::Help {
        (base_candidates(), true)
    } else if cmd == CommandType::SetMode {
        (seq!["ascii"@, "hex"@], true)
    } else if cmd == CommandType::SetEnding {
        (seq!["none"@, "cr"@, "lf"@, "crlf"@], true)
    } else if cmd == CommandType::SetPort {
        (ports, true)
    } else if cmd == CommandType::SetBaud {
        (seq!["9600"@, "19200"@, "38400"@, "57600"@, "115200"@], true)
    } else if cmd == CommandType::SetParity {
        (seq!["none"@, "odd"@, "even"@], true)
    } else if cmd == CommandType::SetDataBits {
        (seq!["5"@, "6"@, "7"@, "8"@], true)
    } else if cmd == CommandType::SetStopBits {
        (seq!["1"@, "2"@], true)
    } else if cmd == CommandType::SetTimeout {
        (seq!["100"@, "500"@, "1000"@, "2000"@], true)
    } else if cmd == CommandType::SetFlow {
        (seq!["none"@, "software"@, "hardware"@], true)
    } else if cmd == CommandType::SetReverse || cmd == CommandType::SetRts || cmd
        == CommandType::SetDtr {
        (seq!["on"@, "off"@], true)
    } else if cmd == CommandType::Checksum && nfrags == 2 {
        (seq!["crc16"@, "sum8"@], true)
    } else if cmd == CommandType::Checksum && nfrags == 3 {
        (seq![calc_checksum_spec(arg1, arg2, mode)], false)
    } else {
        (Seq::empty(), true)
    }
}

/// The preprocessed buffer: a send message is re-tokenized into
/// escape-aware units, a checksum request keeps its algorithm word and
/// re-tokenizes its message, and every other buffer passes through
/// unchanged.
pub open spec fn processed_buffer_spec(
    toks: Seq<Seq<char>>,
    frags: Seq<Seq<Seq<char>>>,
    cmd: CommandType,
) -> Seq<Seq<char>> {
    if cmd == CommandType::Send {
        if frags.len() > 1 {
            frags[0] + seq![seq![' ']] + tokenize_ascii(text_of(frags[1]))
        } else {
            frags[0]
        }
    } else if cmd == CommandType::Checksum {
        let a = frags[0];
        let b = if frags.len() > 1 {
            a + seq![seq![' ']] + frags[1]
        } else {
            a
        };
        if frags.len() > 2 {
            b + seq![seq![' ']] + tokenize_ascii(text_of(frags[2]))
        } else {
            b
        }
    } else {
        toks
    }
}

impl Console {
    /// Build the raw candidate list for the current context.
    fn context_candidates(&self, cmd: CommandType, args: &Vec<Vec<String>>) -> (r: (
        Vec<String>,
        bool,
    ))
        ensures
            ({
                let spec = context_candidates_spec(
                    cmd,
                    args.deep_view().len() as int,
                    self.ports.deep_view(),
                    text_of(args.deep_view()[1]),
                    text_of(args.deep_view()[2]),
                    self.mode,
                );
                r.0.deep_view() == spec.0 && r.1 == spec.1
            }),
    {
        let nfrags = args.len();
        if nfrags == 1 || cmd == CommandType::Help {
            (build_base_candidates(), true)
        } else if cmd == CommandType::SetMode {
            let mut out: Vec<String> = Vec::new();
            push_lit(&mut out, "ascii");
            push_lit(&mut out, "hex");
            proof {
                assert(out.deep_view() =~= seq!["ascii"@, "hex"@]);
            }
            (out, true)
        } else if cmd == CommandType::SetEnding {
            let mut out: Vec<String> = Vec::new();
            push_lit(&mut out, "none");
            push_lit(&mut out, "cr");
            push_lit(&mut out, "lf");
            push_lit(&mut out, "crlf");
            proof {
                assert(out.deep_view() =~= seq!["none"@, "cr"@, "lf"@, "crlf"@]);
            }
            (out, true)
        } else if cmd == CommandType::SetPort {
            let out = clone_tokens(&self.ports);
            proof {
                assert(out.deep_view() =~= self.ports.deep_view());
            }
            (out, true)
        } else if cmd == CommandType::SetBaud {
            let mut out: Vec<String> = Vec::new();
            push_lit(&mut out, "9600");
            push_lit(&mut out, "19200");
            push_lit(&mut out, "38400");
            push_lit(&mut out, "57600");
            push_lit(&mut out, "115200");
            proof {
                assert(out.deep_view() =~= seq![
                    "9600"@,
                    "19200"@,
                    "38400"@,
                    "57600"@,
                    "115200"@,
                ]);
            }
            (out, true)
        } else if cmd == CommandType::SetParity {
            let mut out: Vec<String> = Vec::new();
            push_lit(&mut out, "none");
            push_lit(&mut out, "odd");
            push_lit(&mut out, "even");
            proof {
                assert(out.deep_view() =~= seq!["none"@, "odd"@, "even"@]);
            }
            (out, true)
        } else if cmd == CommandType::SetDataBits {
            let mut out: Vec<String> = Vec::new();
            push_lit(&mut out, "5");
            push_lit(&mut out, "6");
            push_lit(&mut out, "7");
            push_lit(&mut out, "8");
            proof {
                assert(out.deep_view() =~= seq!["5"@, "6"@, "7"@, "8"@]);
            }
            (out, true)
        } else if cmd == CommandType::SetStopBits {
            let mut out: Vec<String> = Vec::new();
            push_lit(&mut out, "1");
            push_lit(&mut out, "2");
            proof {
                assert(out.deep_view() =~= seq!["1"@, "2"@]);
            }
            (out, true)
        } else if cmd == CommandType::SetTimeout {
            let mut out: Vec<String> = Vec::new();
            push_lit(&mut out, "100");
            push_lit(&mut out, "500");
            push_lit(&mut out, "1000");
            push_lit(&mut out, "2000");
            proof {
                assert(out.deep_view() =~= seq!["100"@, "500"@, "1000"@, "2000"@]);
            }
            (out, true)
        } else if cmd == CommandType::SetFlow {
            let mut out: Vec<String> = Vec::new();
            push_lit(&mut out, "none");
            push_lit(&mut out, "software");
            push_lit(&mut out, "hardware");
            proof {
                assert(out.deep_view() =~= seq!["none"@, "software"@, "hardware"@]);
            }
            (out, true)
        } else if cmd == CommandType::SetReverse || cmd == CommandType::SetRts || cmd
            == CommandType::SetDtr {
            let mut out: Vec<String> = Vec::new();
            push_lit(&mut out, "on");
            push_lit(&mut out, "off");
            proof {
                assert(out.deep_view() =~= seq!["on"@, "off"@]);
            }
            (out, true)
        } else if cmd == CommandType::Checksum && nfrags == 2 {
            let mut out: Vec<String> = Vec::new();
            push_lit(&mut out, "crc16");
            push_lit(&mut out, "sum8");
            proof {
                assert(out.deep_view() =~= seq!["crc16"@, "sum8"@]);
            }
            (out, true)
        } else if cmd == CommandType::Checksum && nfrags == 3 {
            let arg1 = concat_tokens(&args[1]);
            let arg2 = concat_tokens(&args[2]);
            let sum = calc_checksum(arg1.as_str(), arg2.as_str(), self.mode);
            let ghost sum_view = sum@;
            let mut out: Vec<String> = Vec::new();
            out.push(sum);
            proof {
                assert(args@[1].deep_view() == args.deep_view()[1]);
                assert(args@[2].deep_view() == args.deep_view()[2]);
                assert(out.deep_view() =~= seq![sum_view]);
            }
            (out, false)
        } else {
            let out: Vec<String> = Vec::new();
            proof {
                assert(out.deep_view() =~= Seq::<Seq<char>>::empty());
            }
            (out, true)
        }
    }

    /// One preprocessing pass: parse the buffer, remember the command
    /// and its fragments, re-tokenize the buffer where the command asks
    /// for it, compute the context's candidates, filter them against the
    /// fragment being typed, and record that fragment's candidate state.
    pub fn preprocess(&mut self, buffer: Vec<String>) -> (r: crate::engine::Processed)
        requires
            old(self).wf(),
        ensures
            final(self).wf(),
            final(self).mode == old(self).mode,
            final(self).ending == old(self).ending,
            final(self).reverse == old(self).reverse,
            final(self).ports == old(self).ports,
            final(self).command == parse_command_spec(buffer.deep_view()),
            final(self).fragments.deep_view() == parse_args_spec(
                split_fragments(buffer.deep_view()),
                final(self).command,
                old(self).mode,
            ),
            r.buffer.deep_view() == processed_buffer_spec(
                buffer.deep_view(),
                final(self).fragments.deep_view(),
                final(self).command,
            ),
            ({
                let frags = final(self).fragments.deep_view();
                let last = frags.len() - 1;
                let last_text = text_of(frags[last]);
                let spec = context_candidates_spec(
                    final(self).command,
                    frags.len() as int,
                    old(self).ports.deep_view(),
                    text_of(frags[1]),
                    text_of(frags[2]),
                    old(self).mode,
                );
                if spec.1 {
                    &&& r.candidate.deep_view() == filtered_suffixes(spec.0, last_text)
                    &&& final(self).states@ == old(self).states@.update(
                        last,
                        candidate_state_of(spec.0, last_text),
                    )
                } else {
                    &&& r.candidate.deep_view() == spec.0
                    &&& final(self).states == old(self).states
                }
            }),
    {
        let (cmd, args) = parse_input(&buffer, self.mode);
        proof {
            assert(args.deep_view().len() <= 3);
            assert(args.deep_view().len() >= 1);
        }
        let processed: Vec<String> = if cmd == CommandType::Send {
            if args.len() > 1 {
                let mut p = clone_tokens(&args[0]);
                let ghost head = p.deep_view();
                p.push(space_token());
                let mut tail = string_to_vec_ascii(concat_tokens(&args[1]));
                let ghost tail_dv = tail.deep_view();
                p.append(&mut tail);
                proof {
                    assert(args@[0].deep_view() == args.deep_view()[0]);
                    assert(args@[1].deep_view() == args.deep_view()[1]);
                    assert(p.deep_view() =~= args.deep_view()[0] + seq![seq![' ']]
                        + tail_dv);
                }
                p
            } else {
                let p = clone_tokens(&args[0]);
                proof {
                    assert(args@[0].deep_view() == args.deep_view()[0]);
                    assert(p.deep_view() =~= args.deep_view()[0]);
                }
                p
            }
        } else if cmd == CommandType::Checksum {
            let mut p = clone_tokens(&args[0]);
            proof {
                assert(args@[0].deep_view() == args.deep_view()[0]);
                assert(p.deep_view() =~= args.deep_view()[0]);
            }
            if args.len() > 1 {
                let ghost head = p.deep_view();
                p.push(space_token());
                let mut t1 = clone_tokens(&args[1]);
                let ghost t1_dv = t1.deep_view();
                p.append(&mut t1);
                proof {
                    assert(args@[1].deep_view() == args.deep_view()[1]);
                    assert(t1_dv =~= args.deep_view()[1]);
                    assert(p.deep_view() =~= head + seq![seq![' ']] + args.deep_view()[1]);
                }
            }
            if args.len() > 2 {
                let ghost head = p.deep_view();
                p.push(space_token());
                let mut t2 = string_to_vec_ascii(concat_tokens(&args[2]));
                let ghost t2_dv = t2.deep_view();
                p.append(&mut t2);
                proof {
                    assert(args@[2].deep_view() == args.deep_view()[2]);
                    assert(p.deep_view() =~= head + seq![seq![' ']] + t2_dv);
                }
            }
            p
        } else {
            let p = clone_tokens(&buffer);
            proof {
                assert(p.deep_view() =~= buffer.deep_view());
            }
            p
        };
        let (cands, need_filter) = self.context_candidates(cmd, &args);
        let last_index = args.len() - 1;
        let last_part = concat_tokens(&args[last_index]);
        proof {
            assert(args@[last_index as int].deep_view() == args.deep_view()[
                last_index as int
            ]);
        }
        self.command = cmd;
        self.fragments = args;
        if need_filter {
            let (filtered, st) = filter_candidates(&cands, &last_part);
            let ghost states_before = self.states@;
            self.states[last_index] = st;
            proof {
                assert(self.states@ =~= states_before.update(last_index as int, st));
            }
            crate::engine::Processed { buffer: processed, candidate: filtered }
        } else {
            crate::engine::Processed { buffer: processed, candidate: cands }
        }
    }

    /// Render the current fragments as colored spans, and translate the
    /// token budget — the count of original tokens left of the cursor —
    /// into the terminal column after the displayed forms of that many
    /// tokens.
    pub fn render_line(&self, budget: usize) -> (r: (Vec<Span>, usize))
        requires
            self.wf(),
            self.fragments.len() >= 1,
        ensures
            spans_view(r.0@) == render_spans_spec(
                self.fragments.deep_view(),
                self.command,
                self.states@,
                self.mode,
            ),
            ({
                let disp = display_tokens_spec(
                    self.fragments.deep_view(),
                    self.command,
                    self.mode,
                );
                let limit = if budget <= disp.len() {
                    budget as int
                } else {
                    disp.len() as int
                };
                r.1 == column_of_spec(disp, limit)
            }),
    {
        let ghost fdv = self.fragments.deep_view();
        proof {
            reveal_strlit(" ");
            assert(" "@ =~= seq![' ']);
            assert(self.fragments@[0].deep_view() == fdv[0]);
        }
        let mut disp = clone_tokens(&self.fragments[0]);
        proof {
            assert(disp.deep_view() =~= fdv[0]);
        }
        let mut spans: Vec<Span> = Vec::new();
        let c0 = match self.states[0] {
            CandidateState::Match => TextColor::Blue,
            CandidateState::Has => TextColor::White,
            CandidateState::Absent => TextColor::Red,
        };
        spans.push(Span { color: c0, text: concat_tokens(&self.fragments[0]) });
        if self.fragments.len() > 1 {
            proof {
                assert(self.fragments@[1].deep_view() == fdv[1]);
            }
            let ghost disp_head = disp.deep_view();
            disp.push(space_token());
            let arg1_disp: Vec<String> = if self.command == CommandType::Send {
                display_message_tokens(&self.fragments[1], self.mode)
            } else {
                let c = clone_tokens(&self.fragments[1]);
                proof {
                    assert(c.deep_view() =~= fdv[1]);
                }
                c
            };
            proof {
                assert(arg1_disp.deep_view() == arg_display(self.command, fdv[1], self.mode));
            }
            let arg1_text = concat_tokens(&arg1_disp);
            let mut arg1_moved = arg1_disp;
            let ghost arg1_dv = arg1_moved.deep_view();
            disp.append(&mut arg1_moved);
            proof {
                assert(disp.deep_view() =~= disp_head + seq![seq![' ']] + arg1_dv);
            }
            let raw1 = concat_tokens(&self.fragments[1]);
            let c1 = if is_exact_arg(self.command) {
                match self.states[1] {
                    CandidateState::Match => TextColor::Green,
                    CandidateState::Has => TextColor::White,
                    CandidateState::Absent => TextColor::Red,
                }
            } else if self.command == CommandType::SetBaud || self.command
                == CommandType::SetTimeout {
                if check_int(raw1.as_str()) {
                    TextColor::White
                } else {
                    TextColor::Red
                }
            } else if self.command == CommandType::Send {
                message_color_exec(raw1.as_str(), self.mode)
            } else if self.command == CommandType::Checksum {
                if check_sum_request(raw1.as_str()) {
                    TextColor::Green
                } else if self.states[1] == CandidateState::Has {
                    TextColor::White
                } else {
                    TextColor::Red
                }
            } else {
                TextColor::Red
            };
            spans.push(Span { color: TextColor::Plain, text: space_token() });
            spans.push(Span { color: c1, text: arg1_text });
            if self.command == CommandType::Checksum && self.fragments.len() > 2 {
                proof {
                    assert(self.fragments@[2].deep_view() == fdv[2]);
                }
                let ghost disp_mid = disp.deep_view();
                disp.push(space_token());
                let arg2_disp = display_message_tokens(&self.fragments[2], self.mode);
                let arg2_text = concat_tokens(&arg2_disp);
                let mut arg2_moved = arg2_disp;
                let ghost arg2_dv = arg2_moved.deep_view();
                disp.append(&mut arg2_moved);
                proof {
                    assert(disp.deep_view() =~= disp_mid + seq![seq![' ']] + arg2_dv);
                }
                let raw2 = concat_tokens(&self.fragments[2]);
                let c2 = message_color_exec(raw2.as_str(), self.mode);
                spans.push(Span { color: TextColor::Plain, text: space_token() });
                spans.push(Span { color: c2, text: arg2_text });
            }
        }
        proof {
            assert(disp.deep_view() =~= display_tokens_spec(fdv, self.command, self.mode));
            assert(spans_view(spans@) =~= render_spans_spec(
                fdv,
                self.command,
                self.states@,
                self.mode,
            ));
        }
        let limit = if budget <= disp.len() {
            budget
        } else {
            disp.len()
        };
        let col = column_of(&disp, limit);
        (spans, col)
    }
}

/// Executable test for the exact-word argument commands.
fn is_exact_arg(cmd: CommandType) -> (r: bool)
    ensures
        r == exact_arg_command(cmd),
{
    match cmd {
        CommandType::Help => true,
        CommandType::SetMode => true,
        CommandType::SetEnding => true,
        CommandType::SetReverse => true,
        CommandType::SetPort => true,
        CommandType::SetDataBits => true,
        CommandType::SetParity => true,
        CommandType::SetStopBits => true,
        CommandType::SetFlow => true,
        CommandType::SetRts => true,
        CommandType::SetDtr => true,
        _ => false,
    }
}

/// Executable message color by the mode's grammar.
fn message_color_exec(text: &str, mode: Mode) -> (r: TextColor)
    ensures
        r == message_color(text@, mode),
{
    match mode {
        Mode::ASCII => if check_ascii_msg(text) {
            TextColor::White
        } else {
            TextColor::Red
        },
        Mode::HEX => if check_hex_msg(text) {
            TextColor::White
        } else {
            TextColor::Red
        },
    }
}

} // verus!

