//! The message mode: how typed text and received bytes are interpreted.

use vstd::prelude::*;
use crate::strutil::str_eq;

verus! {

/// ASCII mode treats the message as printable characters with backslash
/// escapes; HEX mode treats it as pairs of hexadecimal digits.
#[derive(Debug, Clone, Copy, PartialEq, Eq, Structural)]
pub enum Mode {
    ASCII,
    HEX,
}

/// Which mode a name denotes: `"ascii"` or `"hex"`, anything else is
/// rejected.
pub open spec fn mode_spec(s: Seq<char>) -> Result<Mode, ()> {
    if s == "ascii"@ {
        Ok(Mode::ASCII)
    } else if s == "hex"@ {
        Ok(Mode::HEX)
    } else {
        Err(())
    }
}

/// The display name of a mode.
pub open spec fn mode_name(m: Mode) -> Seq<char> {
    match m {
        Mode::ASCII => "ASCII"@,
        Mode::HEX => "HEX"@,
    }
}

impl Mode {
    /// Parse a mode name: `"ascii"` or `"hex"`, anything else is an
    /// error.
    pub fn from_str(s: &str) -> (r: Result<Mode, ()>)
        ensures
            r == mode_spec(s@),
    {
        if str_eq(s, "ascii") {
            Ok(Mode::ASCII)
        } else if str_eq(s, "hex") {
            Ok(Mode::HEX)
        } else {
            Err(())
        }
    }

    /// The display name of the mode.
    pub fn name(&self) -> (r: &'static str)
        ensures
            r@ == mode_name(*self),
    {
        match *self {
            Mode::ASCII => "ASCII",
            Mode::HEX => "HEX",
        }
    }
}

} // verus!
