//! The console's command vocabulary: the recognized command words, their
//! parsing, and their help texts.

use vstd::prelude::*;
use crate::strutil::str_eq;

verus! {

/// Every command the console understands; `Invalid` stands for an
/// unrecognized command word.
#[derive(Debug, Clone, Copy, PartialEq, Eq, Hash, Structural)]
pub enum CommandType {
    Invalid,
    Help,
    Clear,
    Flush,
    Send,
    Receive,
    SetMode,
    SetEnding,
    SetReverse,
    SetPort,
    SetBaud,
    SetDataBits,
    SetParity,
    SetStopBits,
    SetTimeout,
    SetFlow,
    SetRts,
    SetDtr,
    GetMode,
    GetEnding,
    GetReverse,
    GetPort,
    GetBaud,
    GetDataBits,
    GetParity,
    GetStopBits,
    GetTimeout,
    GetFlow,
    GetInQue,
    GetOutQue,
    GetCts,
    GetDsr,
    GetRi,
    GetCd,
    Checksum,
}

/// Which command a word denotes; an unknown word denotes `Invalid`.
pub open spec fn command_spec(s: Seq<char>) -> CommandType {
    if s == "help"@ {
        CommandType::Help
    } else if s == "clear"@ {
        CommandType::Clear
    } else if s == "flush"@ {
        CommandType::Flush
    } else if s == "send"@ {
        CommandType::Send
    } else if s == "recv"@ {
        CommandType::Receive
    } else if s == "set-mode"@ {
        CommandType::SetMode
    } else if s == "set-end"@ {
        CommandType::SetEnding
    } else if s == "set-rev"@ {
        CommandType::SetReverse
    } else if s == "set-port"@ {
        CommandType::SetPort
    } else if s == "set-baud"@ {
        CommandType::SetBaud
    } else if s == "set-data"@ {
        CommandType::SetDataBits
    } else if s == "set-par"@ {
        CommandType::SetParity
    } else if s == "set-stop"@ {
        CommandType::SetStopBits
    } else if s == "set-time"@ {
        CommandType::SetTimeout
    } else if s == "set-flow"@ {
        CommandType::SetFlow
    } else if s == "set-rts"@ {
        CommandType::SetRts
    } else if s == "set-dtr"@ {
        CommandType::SetDtr
    } else if s == "get-mode"@ {
        CommandType::GetMode
    } else if s == "get-end"@ {
        CommandType::GetEnding
    } else if s == "get-rev"@ {
        CommandType::GetReverse
    } else if s == "get-port"@ {
        CommandType::GetPort
    } else if s == "get-baud"@ {
        CommandType::GetBaud
    } else if s == "get-data"@ {
        CommandType::GetDataBits
    } else if s == "get-par"@ {
        CommandType::GetParity
    } else if s == "get-stop"@ {
        CommandType::GetStopBits
    } else if s == "get-time"@ {
        CommandType::GetTimeout
    } else if s == "get-flow"@ {
        CommandType::GetFlow
    } else if s == "get-in"@ {
        CommandType::GetInQue
    } else if s == "get-out"@ {
        CommandType::GetOutQue
    } else if s == "get-cts"@ {
        CommandType::GetCts
    } else if s == "get-dsr"@ {
        CommandType::GetDsr
    } else if s == "get-ri"@ {
        CommandType::GetRi
    } else if s == "get-cd"@ {
        CommandType::GetCd
    } else if s == "sum"@ {
        CommandType::Checksum
    } else {
        CommandType::Invalid
    }
}

/// The command word of each command; `Invalid` shows as `"none"`.
pub open spec fn command_name(c: CommandType) -> Seq<char> {
    match c {
        CommandType::Invalid => "none"@,
        CommandType::Help => "help"@,
        CommandType::Clear => "clear"@,
        CommandType::Flush => "flush"@,
        CommandType::Send => "send"@,
        CommandType::Receive => "recv"@,
        CommandType::SetMode => "set-mode"@,
        CommandType::SetEnding => "set-end"@,
        CommandType::SetReverse => "set-rev"@,
        CommandType::SetPort => "set-port"@,
        CommandType::SetBaud => "set-baud"@,
        CommandType::SetDataBits => "set-data"@,
        CommandType::SetParity => "set-par"@,
        CommandType::SetStopBits => "set-stop"@,
        CommandType::SetTimeout => "set-time"@,
        CommandType::SetFlow => "set-flow"@,
        CommandType::SetRts => "set-rts"@,
        CommandType::SetDtr => "set-dtr"@,
        CommandType::GetMode => "get-mode"@,
        CommandType::GetEnding => "get-end"@,
        CommandType::GetReverse => "get-rev"@,
        CommandType::GetPort => "get-port"@,
        CommandType::GetBaud => "get-baud"@,
        CommandType::GetDataBits => "get-data"@,
        CommandType::GetParity => "get-par"@,
        CommandType::GetStopBits => "get-stop"@,
        CommandType::GetTimeout => "get-time"@,
        CommandType::GetFlow => "get-flow"@,
        CommandType::GetInQue => "get-in"@,
        CommandType::GetOutQue => "get-out"@,
        CommandType::GetCts => "get-cts"@,
        CommandType::GetDsr => "get-dsr"@,
        CommandType::GetRi => "get-ri"@,
        CommandType::GetCd => "get-cd"@,
        CommandType::Checksum => "sum"@,
    }
}

impl CommandType {
    /// Parse a command word; an unknown word parses as `Invalid`.
    pub fn from_str(s: &str) -> (r: CommandType)
        ensures
            r == command_spec(s@),
    {
        if str_eq(s, "help") {
            CommandType::Help
        } else if str_eq(s, "clear") {
            CommandType::Clear
        } else if str_eq(s, "flush") {
            CommandType::Flush
        } else if str_eq(s, "send") {
            CommandType::Send
        } else if str_eq(s, "recv") {
            CommandType::Receive
        } else if str_eq(s, "set-mode") {
            CommandType::SetMode
        } else if str_eq(s, "set-end") {
            CommandType::SetEnding
        } else if str_eq(s, "set-rev") {
            CommandType::SetReverse
        } else if str_eq(s, "set-port") {
            CommandType::SetPort
        } else if str_eq(s, "set-baud") {
            CommandType::SetBaud
        } else if str_eq(s, "set-data") {
            CommandType::SetDataBits
        } else if str_eq(s, "set-par") {
            CommandType::SetParity
        } else if str_eq(s, "set-stop") {
            CommandType::SetStopBits
        } else if str_eq(s, "set-time") {
            CommandType::SetTimeout
        } else if str_eq(s, "set-flow") {
            CommandType::SetFlow
        } else if str_eq(s, "set-rts") {
            CommandType::SetRts
        } else if str_eq(s, "set-dtr") {
            CommandType::SetDtr
        } else if str_eq(s, "get-mode") {
            CommandType::GetMode
        } else if str_eq(s, "get-end") {
            CommandType::GetEnding
        } else if str_eq(s, "get-rev") {
            CommandType::GetReverse
        } else if str_eq(s, "get-port") {
            CommandType::GetPort
        } else if str_eq(s, "get-baud") {
            CommandType::GetBaud
        } else if str_eq(s, "get-data") {
            CommandType::GetDataBits
        } else if str_eq(s, "get-par") {
            CommandType::GetParity
        } else if str_eq(s, "get-stop") {
            CommandType::GetStopBits
        } else if str_eq(s, "get-time") {
            CommandType::GetTimeout
        } else if str_eq(s, "get-flow") {
            CommandType::GetFlow
        } else if str_eq(s, "get-in") {
            CommandType::GetInQue
        } else if str_eq(s, "get-out") {
            CommandType::GetOutQue
        } else if str_eq(s, "get-cts") {
            CommandType::GetCts
        } else if str_eq(s, "get-dsr") {
            CommandType::GetDsr
        } else if str_eq(s, "get-ri") {
            CommandType::GetRi
        } else if str_eq(s, "get-cd") {
            CommandType::GetCd
        } else if str_eq(s, "sum") {
            CommandType::Checksum
        } else {
            CommandType::Invalid
        }
    }

    /// The command word, as shown to the user; `Invalid` shows as
    /// `"none"`.
    pub fn name(&self) -> (r: &'static str)
        ensures
            r@ == command_name(*self),
    {
        match *self {
            CommandType::Invalid => "none",
            CommandType::Help => "help",
            CommandType::Clear => "clear",
            CommandType::Flush => "flush",
            CommandType::Send => "send",
            CommandType::Receive => "recv",
            CommandType::SetMode => "set-mode",
            CommandType::SetEnding => "set-end",
            CommandType::SetReverse => "set-rev",
            CommandType::SetPort => "set-port",
            CommandType::SetBaud => "set-baud",
            CommandType::SetDataBits => "set-data",
            CommandType::SetParity => "set-par",
            CommandType::SetStopBits => "set-stop",
            CommandType::SetTimeout => "set-time",
            CommandType::SetFlow => "set-flow",
            CommandType::SetRts => "set-rts",
            CommandType::SetDtr => "set-dtr",
            CommandType::GetMode => "get-mode",
            CommandType::GetEnding => "get-end",
            CommandType::GetReverse => "get-rev",
            CommandType::GetPort => "get-port",
            CommandType::GetBaud => "get-baud",
            CommandType::GetDataBits => "get-data",
            CommandType::GetParity => "get-par",
            CommandType::GetStopBits => "get-stop",
            CommandType::GetTimeout => "get-time",
            CommandType::GetFlow => "get-flow",
            CommandType::GetInQue => "get-in",
            CommandType::GetOutQue => "get-out",
            CommandType::GetCts => "get-cts",
            CommandType::GetDsr => "get-dsr",
            CommandType::GetRi => "get-ri",
            CommandType::GetCd => "get-cd",
            CommandType::Checksum => "sum",
        }
    }
}

/// The help text of each command.
pub open spec fn help_spec(c: CommandType) -> Seq<char> {
    match c {
        CommandType::Invalid => "none: Invalid command."@,
        CommandType::Help => "help [command]: Print the help information for the command. If no command is specified, print the help information for all commands.\n\n  - [command]: The command to print help information for."@,
        CommandType::Clear => "clear: Clear the screen."@,
        CommandType::Flush => "flush: Flush the serial port manually."@,
        CommandType::Send => "send <message>: Send the message to the serial port and immediately receive the response.\n\n  - <message>: The message to send."@,
        CommandType::Receive => "recv: Receive the message from the serial port."@,
        CommandType::SetMode => "set-mode <mode>: Set the mode of the message.\n\n  - <mode>: The mode of the message.\n    ascii: ASCII mode.\n    hex  : Hexadecimal mode."@,
        CommandType::SetEnding => "set-end: <ending>: Set the ending of the message.\n\n  - <ending>: The type of ending.\n    none: No ending.\n    cr  : \\r.\n    lf  : \\n.\n    crlf: \\r\\n."@,
        CommandType::SetReverse => "set-rev <reverse>: Set if message is in reverse order.\n\n  - <state>: Whether the message is in reverse order.\n    on : Reverse order.\n    off: Normal order."@,
        CommandType::SetPort => "set-port <port>: Switch to the specified serial port.\n\n  - <port>: The serial port to switch to."@,
        CommandType::SetBaud => "set-baud <baud>: Set the baud rate of the serial port.\n\n  - <baud>: The baud rate of the serial port."@,
        CommandType::SetDataBits => "set-data <data>: Set the data bits of the serial port.\n\n  - <data>: The data bits of the serial port.\n    5: 5 bits.\n    6: 6 bits.\n    7: 7 bits.\n    8: 8 bits."@,
        CommandType::SetParity => "set-par <parity>: Set the parity of the serial port.\n\n  - <parity>: The parity of the serial port.\n    none: No parity.\n    odd : Odd parity.\n    even: Even parity."@,
        CommandType::SetStopBits => "set-stop <stop>: Set the stop bits of the serial port.\n\n  - <stop>: The stop bits of the serial port.\n    1: 1 bit.\n    2: 2 bits."@,
        CommandType::SetTimeout => "set-time <timeout>: Set the timeout of the serial port.\n\n  - <timeout>: The timeout of the serial port."@,
        CommandType::SetFlow => "set-flow <flow>: Set the flow control of the serial port.\n\n  - <flow>: The flow control of the serial port.\n    none    : No flow control.\n    hardware: Hardware flow control.\n    software: Software flow control."@,
        CommandType::SetRts => "set-rts <state>: Set the RTS of the serial port.\n\n  - <state>: Whether the RTS is on.\n    on : RTS on.\n    off: RTS off."@,
        CommandType::SetDtr => "set-dtr <state>: Set the DTR of the serial port.\n\n  - <state>: Whether the DTR is on.\n    on : DTR on.\n    off: DTR off."@,
        CommandType::GetMode => "get-mode: Get the mode of the message."@,
        CommandType::GetEnding => "get-end: Get the ending of the message."@,
        CommandType::GetReverse => "get-rev: Get if message is in reverse order."@,
        CommandType::GetPort => "get-port: Get the serial port."@,
        CommandType::GetBaud => "get-baud: Get the baud rate of the serial port."@,
        CommandType::GetDataBits => "get-data: Get the data bits of the serial port."@,
        CommandType::GetParity => "get-par: Get the parity of the serial port."@,
        CommandType::GetStopBits => "get-stop: Get the stop bits of the serial port."@,
        CommandType::GetTimeout => "get-time: Get the timeout of the serial port."@,
        CommandType::GetFlow => "get-flow: Get the flow control of the serial port."@,
        CommandType::GetInQue => "get-in: Get the input queue of the serial port."@,
        CommandType::GetOutQue => "get-out: Get the output queue of the serial port."@,
        CommandType::GetCts => "get-cts: Get the CTS of the serial port."@,
        CommandType::GetDsr => "get-dsr: Get the DSR of the serial port."@,
        CommandType::GetRi => "get-ri: Get the RI of the serial port."@,
        CommandType::GetCd => "get-cd: Get the CD of the serial port."@,
        CommandType::Checksum => "sum <type> <message>: Calculate the checksum."@,
    }
}

impl CommandType {
    /// The help text for this command, as printed by the help command.
    pub fn get_help(&self) -> (r: &'static str)
        ensures
            r@ == help_spec(*self),
    {
        match *self {
            CommandType::Invalid => "none: Invalid command.",
            CommandType::Help => "help [command]: Print the help information for the command. If no command is specified, print the help information for all commands.\n\n  - [command]: The command to print help information for.",
            CommandType::Clear => "clear: Clear the screen.",
            CommandType::Flush => "flush: Flush the serial port manually.",
            CommandType::Send => "send <message>: Send the message to the serial port and immediately receive the response.\n\n  - <message>: The message to send.",
            CommandType::Receive => "recv: Receive the message from the serial port.",
            CommandType::SetMode => "set-mode <mode>: Set the mode of the message.\n\n  - <mode>: The mode of the message.\n    ascii: ASCII mode.\n    hex  : Hexadecimal mode.",
            CommandType::SetEnding => "set-end: <ending>: Set the ending of the message.\n\n  - <ending>: The type of ending.\n    none: No ending.\n    cr  : \\r.\n    lf  : \\n.\n    crlf: \\r\\n.",
            CommandType::SetReverse => "set-rev <reverse>: Set if message is in reverse order.\n\n  - <state>: Whether the message is in reverse order.\n    on : Reverse order.\n    off: Normal order.",
            CommandType::SetPort => "set-port <port>: Switch to the specified serial port.\n\n  - <port>: The serial port to switch to.",
            CommandType::SetBaud => "set-baud <baud>: Set the baud rate of the serial port.\n\n  - <baud>: The baud rate of the serial port.",
            CommandType::SetDataBits => "set-data <data>: Set the data bits of the serial port.\n\n  - <data>: The data bits of the serial port.\n    5: 5 bits.\n    6: 6 bits.\n    7: 7 bits.\n    8: 8 bits.",
            CommandType::SetParity => "set-par <parity>: Set the parity of the serial port.\n\n  - <parity>: The parity of the serial port.\n    none: No parity.\n    odd : Odd parity.\n    even: Even parity.",
            CommandType::SetStopBits => "set-stop <stop>: Set the stop bits of the serial port.\n\n  - <stop>: The stop bits of the serial port.\n    1: 1 bit.\n    2: 2 bits.",
            CommandType::SetTimeout => "set-time <timeout>: Set the timeout of the serial port.\n\n  - <timeout>: The timeout of the serial port.",
            CommandType::SetFlow => "set-flow <flow>: Set the flow control of the serial port.\n\n  - <flow>: The flow control of the serial port.\n    none    : No flow control.\n    hardware: Hardware flow control.\n    software: Software flow control.",
            CommandType::SetRts => "set-rts <state>: Set the RTS of the serial port.\n\n  - <state>: Whether the RTS is on.\n    on : RTS on.\n    off: RTS off.",
            CommandType::SetDtr => "set-dtr <state>: Set the DTR of the serial port.\n\n  - <state>: Whether the DTR is on.\n    on : DTR on.\n    off: DTR off.",
            CommandType::GetMode => "get-mode: Get the mode of the message.",
            CommandType::GetEnding => "get-end: Get the ending of the message.",
            CommandType::GetReverse => "get-rev: Get if message is in reverse order.",
            CommandType::GetPort => "get-port: Get the serial port.",
            CommandType::GetBaud => "get-baud: Get the baud rate of the serial port.",
            CommandType::GetDataBits => "get-data: Get the data bits of the serial port.",
            CommandType::GetParity => "get-par: Get the parity of the serial port.",
            CommandType::GetStopBits => "get-stop: Get the stop bits of the serial port.",
            CommandType::GetTimeout => "get-time: Get the timeout of the serial port.",
            CommandType::GetFlow => "get-flow: Get the flow control of the serial port.",
            CommandType::GetInQue => "get-in: Get the input queue of the serial port.",
            CommandType::GetOutQue => "get-out: Get the output queue of the serial port.",
            CommandType::GetCts => "get-cts: Get the CTS of the serial port.",
            CommandType::GetDsr => "get-dsr: Get the DSR of the serial port.",
            CommandType::GetRi => "get-ri: Get the RI of the serial port.",
            CommandType::GetCd => "get-cd: Get the CD of the serial port.",
            CommandType::Checksum => "sum <type> <message>: Calculate the checksum.",
        }
    }
}

} // verus!

