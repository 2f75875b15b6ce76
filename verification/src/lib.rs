//! A verified line-editing engine for a terminal REPL, together with the
//! token, command and checksum logic of a small serial-console vocabulary.
//!
//! The editor keeps an editable buffer of tokens with a cursor, a bounded
//! command history, and context-sensitive completion candidates.  Caller
//! supplied hooks re-tokenize the buffer, render it, convert the accepted
//! line into a domain value and handle unrecognized key events; the engine
//! owns the state machine around them.

pub mod ascii;
pub mod buffer;
pub mod candidate;
pub mod checksum;
pub mod command;
pub mod ending;
pub mod console;
pub mod editor;
pub mod engine;
pub mod history;
pub mod mode;
pub mod parse;
pub mod render;
pub mod strutil;
