//! The automatic line ending appended to sent messages.

use vstd::prelude::*;
use crate::strutil::str_eq;

verus! {

/// Which ending a sent message gets: nothing, a carriage return, a line
/// feed, or both.
#[derive(Debug, Clone, Copy, PartialEq, Eq, Structural)]
pub enum Ending {
    NoEnding,
    CR,
    LF,
    CRLF,
}

/// Which ending a name denotes: `"none"`, `"cr"`, `"lf"` or `"crlf"`,
/// anything else is rejected.
pub open spec fn ending_spec(s: Seq<char>) -> Result<Ending, ()> {
    if s == "none"@ {
        Ok(Ending::NoEnding)
    } else if s == "cr"@ {
        Ok(Ending::CR)
    } else if s == "lf"@ {
        Ok(Ending::LF)
    } else if s == "crlf"@ {
        Ok(Ending::CRLF)
    } else {
        Err(())
    }
}

/// The display name of an ending.
pub open spec fn ending_name(e: Ending) -> Seq<char> {
    match e {
        Ending::NoEnding => "None"@,
        Ending::CR => "CR"@,
        Ending::LF => "LF"@,
        Ending::CRLF => "CRLF"@,
    }
}

/// The bytes an ending appends to the wire message.
pub open spec fn ending_bytes_spec(e: Ending) -> Seq<u8> {
    match e {
        Ending::NoEnding => Seq::empty(),
        Ending::CR => seq![13u8],
        Ending::LF => seq![10u8],
        Ending::CRLF => seq![13u8, 10u8],
    }
}

impl Ending {
    /// Parse an ending name: `"none"`, `"cr"`, `"lf"` or `"crlf"`,
    /// anything else is an error.
    pub fn from_str(s: &str) -> (r: Result<Ending, ()>)
        ensures
            r == ending_spec(s@),
    {
        if str_eq(s, "none") {
            Ok(Ending::NoEnding)
        } else if str_eq(s, "cr") {
            Ok(Ending::CR)
        } else if str_eq(s, "lf") {
            Ok(Ending::LF)
        } else if str_eq(s, "crlf") {
            Ok(Ending::CRLF)
        } else {
            Err(())
        }
    }

    /// The display name of the ending.
    pub fn name(&self) -> (r: &'static str)
        ensures
            r@ == ending_name(*self),
    {
        match *self {
            Ending::NoEnding => "None",
            Ending::CR => "CR",
            Ending::LF => "LF",
            Ending::CRLF => "CRLF",
        }
    }

    /// The bytes this ending appends to the wire message.
    pub fn bytes(&self) -> (r: Vec<u8>)
        ensures
            r@ == ending_bytes_spec(*self),
    {
        let mut out: Vec<u8> = Vec::new();
        match *self {
            Ending::NoEnding => {
            },
            Ending::CR => {
                out.push(13u8);
            },
            Ending::LF => {
                out.push(10u8);
            },
            Ending::CRLF => {
                out.push(13u8);
                out.push(10u8);
            },
        }
        proof {
            assert(out@ =~= ending_bytes_spec(*self));
        }
        out
    }
}

} // verus!
