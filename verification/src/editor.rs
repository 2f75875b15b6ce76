//! The editing environment and the per-key buffer/cursor/history mutations.
//!
//! `Environment` is the aggregate a single prompt works on: the live token
//! buffer with its cursor, the completion candidates, the history with its
//! browsing index, and the engine-owned flow-control and interrupt flags.
//! Each key's effect is one method with an exact contract; the dispatcher
//! in `engine` maps events to these methods.

use vstd::prelude::*;
use crate::buffer::clone_tokens;
use crate::buffer::text_of;
use crate::history::Direction;
use crate::history::History;
use crate::strutil::char_string;
use crate::strutil::str_eq;
use vstd::string::StrSliceExecFns;

verus! {

/// Flow-control signal of one handled event: stop the prompt loop, or go
/// on listening.
#[derive(Clone, Copy, Debug, PartialEq, Eq, Structural)]
pub enum Flow {
    Break,
    Continue,
}

/// A key event, as the dispatcher understands it.  `Paste` carries the
/// clipboard contents as read by the caller (`None` when the clipboard
/// could not be read).  Events the engine does not special-case arrive as
/// `Unknown` and are delegated to the fallback handler.
pub enum Event {
    Enter,
    CtrlC,
    Paste(Option<String>),
    Char(char),
    Backspace,
    Delete,
    Left,
    Right,
    WordLeft,
    WordRight,
    Home,
    End,
    Tab,
    Up,
    Down,
    Unknown,
}

/// Each character of `s` as a one-character token.
pub open spec fn char_tokens(s: Seq<char>) -> Seq<Seq<char>> {
    s.map_values(|c: char| seq![c])
}

/// The state one prompt invocation works on.
pub struct Environment {
    pub prompt: String,
    pub buffer: Vec<String>,
    pub cursor: usize,
    pub column: usize,
    pub rendered: String,
    pub candidate: Vec<String>,
    pub flow_ctrl: Option<Flow>,
    pub interrupt: bool,
    pub history: History,
}

impl Environment {
    /// The cursor stays inside the buffer and the history is well formed.
    pub open spec fn wf(&self) -> bool {
        &&& self.cursor <= self.buffer.len()
        &&& self.history.wf()
    }

    /// The buffer's tokens, as character sequences.
    pub open spec fn toks(&self) -> Seq<Seq<char>> {
        self.buffer.deep_view()
    }

    /// The buffer's logical text.
    pub open spec fn text(&self) -> Seq<char> {
        text_of(self.toks())
    }

    /// The fields an edit operation never touches.
    pub open spec fn same_render_fields(&self, other: &Environment) -> bool {
        &&& self.prompt == other.prompt
        &&& self.rendered == other.rendered
        &&& self.column == other.column
        &&& self.candidate == other.candidate
    }

    /// History identical in entries, index and bound.
    pub open spec fn same_history(&self, other: &Environment) -> bool {
        &&& self.history.entries == other.history.entries
        &&& self.history.index == other.history.index
        &&& self.history.max == other.history.max
    }

    /// A fresh environment: empty buffer, cursor at zero, no candidates,
    /// no pending signals, an empty default-bounded history.
    pub fn new() -> (r: Environment)
        ensures
            r.wf(),
            r.buffer.len() == 0,
            r.cursor == 0,
            r.candidate.len() == 0,
            r.flow_ctrl is None,
            !r.interrupt,
            r.history.entries.len() == 0,
            r.history.index == 0,
            r.history.max == crate::history::HISTORY_MAX,
            r.prompt@ == Seq::<char>::empty(),
    {
        Environment {
            prompt: String::new(),
            buffer: Vec::new(),
            cursor: 0,
            column: 0,
            rendered: String::new(),
            candidate: Vec::new(),
            flow_ctrl: None,
            interrupt: false,
            history: History::new(),
        }
    }

    /// Reset everything a new prompt starts from, keeping the history
    /// entries and bound; the browsing index moves to the live position.
    pub fn reset_for_prompt(&mut self)
        requires
            old(self).wf(),
        ensures
            final(self).wf(),
            final(self).buffer.len() == 0,
            final(self).cursor == 0,
            final(self).candidate.len() == 0,
            final(self).flow_ctrl is None,
            !final(self).interrupt,
            final(self).history.entries == old(self).history.entries,
            final(self).history.max == old(self).history.max,
            final(self).history.index == final(self).history.entries.len(),
            final(self).prompt == old(self).prompt,
    {
        self.buffer = Vec::new();
        self.cursor = 0;
        self.column = 0;
        self.rendered = String::new();
        self.candidate = Vec::new();
        self.flow_ctrl = None;
        self.interrupt = false;
        self.history.index = self.history.entries.len();
    }

    /// Insert the characters of `s` at the cursor, one token per
    /// character, and advance the cursor past them.
    pub fn insert_chars(&mut self, s: &str)
        requires
            old(self).wf(),
        ensures
            final(self).wf(),
            final(self).toks() == old(self).toks().take(old(self).cursor as int)
                + char_tokens(s@) + old(self).toks().skip(old(self).cursor as int),
            final(self).cursor == old(self).cursor + s@.len(),
            final(self).same_render_fields(old(self)),
            final(self).same_history(old(self)),
            final(self).flow_ctrl == old(self).flow_ctrl,
            final(self).interrupt == old(self).interrupt,
    {
        let ghost start = old(self).cursor as int;
        let ghost before = old(self).toks();
        let n = s.unicode_len();
        let mut j: usize = 0;
        proof {
            assert(char_tokens(s@.take(0)) =~= Seq::<Seq<char>>::empty());
            assert(before.take(start) + char_tokens(s@.take(0)) + before.skip(start)
                =~= before);
        }
        while j < n
            invariant
                j <= n,
                n == s@.len(),
                0 <= start <= before.len(),
                self.cursor == start + j,
                start + j <= self.buffer.len(),
                self.toks() == before.take(start) + char_tokens(s@.take(j as int))
                    + before.skip(start),
                self.wf(),
                self.same_render_fields(old(self)),
                self.same_history(old(self)),
                self.flow_ctrl == old(self).flow_ctrl,
                self.interrupt == old(self).interrupt,
            decreases n - j,
        {
            let c = s.get_char(j);
            let tok = char_string(c);
            let ghost pre = self.toks();
            self.buffer.insert(self.cursor, tok);
            proof {
                assert(self.toks() =~= pre.insert(start + j, seq![c]));
                assert(char_tokens(s@.take(j + 1)) =~= char_tokens(s@.take(j as int)).push(
                    seq![c],
                ));
                assert(before.take(start).len() == start);
                assert(s@.take(j as int).len() == j);
                assert(char_tokens(s@.take(j as int)).len() == j);
                assert(pre.insert(start + j, seq![c]) =~= before.take(start) + char_tokens(
                    s@.take(j as int),
                ).push(seq![c]) + before.skip(start));
                assert(self.toks() == before.take(start) + char_tokens(s@.take(j + 1))
                    + before.skip(start));
                assert(self.cursor < self.buffer.len());
            }
            self.cursor += 1;
            j += 1;
        }
        proof {
            assert(s@.take(n as int) =~= s@);
        }
    }

    /// A printable character: detach from history browsing first (copy the
    /// browsed entry into the live buffer, clamping the cursor to it, and
    /// reset the index to the live position), then insert the character at
    /// the cursor as a fresh token and advance the cursor.  The stored
    /// history entries are never modified.
    pub fn insert(&mut self, c: char)
        requires
            old(self).wf(),
        ensures
            final(self).wf(),
            final(self).history.entries == old(self).history.entries,
            final(self).history.max == old(self).history.max,
            final(self).history.index == final(self).history.entries.len(),
            ({
                let base = if old(self).history.index < old(self).history.entries.len() {
                    old(self).history.snapshots()[old(self).history.index as int]
                } else {
                    old(self).toks()
                };
                let at = if old(self).cursor <= base.len() {
                    old(self).cursor as int
                } else {
                    base.len() as int
                };
                &&& final(self).toks() == base.insert(at, seq![c])
                &&& final(self).cursor == at + 1
            }),
            final(self).same_render_fields(old(self)),
            final(self).flow_ctrl == old(self).flow_ctrl,
            final(self).interrupt == old(self).interrupt,
    {
        if self.history.index < self.history.entries.len() {
            self.buffer = clone_tokens(&self.history.entries[self.history.index]);
            self.history.index = self.history.entries.len();
            if self.cursor > self.buffer.len() {
                self.cursor = self.buffer.len();
            }
        }
        proof {
            assert(self.toks() =~= (if old(self).history.index
                < old(self).history.entries.len() {
                old(self).history.snapshots()[old(self).history.index as int]
            } else {
                old(self).toks()
            }));
        }
        self.buffer.insert(self.cursor, char_string(c));
        proof {
            let base = if old(self).history.index < old(self).history.entries.len() {
                old(self).history.snapshots()[old(self).history.index as int]
            } else {
                old(self).toks()
            };
            let at = if old(self).cursor <= base.len() {
                old(self).cursor as int
            } else {
                base.len() as int
            };
            assert(self.toks() =~= base.insert(at, seq![c]));
            assert(self.cursor < self.buffer.len());
        }
        self.cursor += 1;
    }

    /// Remove the token before the cursor and step the cursor back; at the
    /// start of the buffer nothing happens.
    pub fn backspace(&mut self)
        requires
            old(self).wf(),
        ensures
            final(self).wf(),
            if old(self).cursor == 0 {
                *final(self) == *old(self)
            } else {
                &&& final(self).toks() == old(self).toks().remove(old(self).cursor - 1)
                &&& final(self).cursor == old(self).cursor - 1
                &&& final(self).same_render_fields(old(self))
                &&& final(self).same_history(old(self))
                &&& final(self).flow_ctrl == old(self).flow_ctrl
                &&& final(self).interrupt == old(self).interrupt
            },
    {
        if self.cursor > 0 {
            self.cursor -= 1;
            self.buffer.remove(self.cursor);
            proof {
                assert(self.toks() =~= old(self).toks().remove(old(self).cursor - 1));
            }
        }
    }

    /// Remove the token at the cursor; at the end of the buffer nothing
    /// happens.
    pub fn delete(&mut self)
        requires
            old(self).wf(),
        ensures
            final(self).wf(),
            if old(self).cursor == old(self).buffer.len() {
                *final(self) == *old(self)
            } else {
                &&& final(self).toks() == old(self).toks().remove(old(self).cursor as int)
                &&& final(self).cursor == old(self).cursor
                &&& final(self).same_render_fields(old(self))
                &&& final(self).same_history(old(self))
                &&& final(self).flow_ctrl == old(self).flow_ctrl
                &&& final(self).interrupt == old(self).interrupt
            },
    {
        if self.cursor < self.buffer.len() {
            self.buffer.remove(self.cursor);
            proof {
                assert(self.toks() =~= old(self).toks().remove(old(self).cursor as int));
            }
        }
    }

    /// Step the cursor one token left; at the start, signal a no-op
    /// instead.
    pub fn move_left(&mut self)
        requires
            old(self).wf(),
        ensures
            final(self).wf(),
            final(self).buffer == old(self).buffer,
            final(self).same_render_fields(old(self)),
            final(self).same_history(old(self)),
            final(self).interrupt == old(self).interrupt,
            if old(self).cursor == 0 {
                final(self).cursor == 0 && final(self).flow_ctrl == Some(Flow::Continue)
            } else {
                final(self).cursor == old(self).cursor - 1 && final(self).flow_ctrl == old(
                    self,
                ).flow_ctrl
            },
    {
        if self.cursor == 0 {
            self.flow_ctrl = Some(Flow::Continue);
        } else {
            self.cursor -= 1;
        }
    }

    /// Step the cursor one token right; at the end, signal a no-op
    /// instead.
    pub fn move_right(&mut self)
        requires
            old(self).wf(),
        ensures
            final(self).wf(),
            final(self).buffer == old(self).buffer,
            final(self).same_render_fields(old(self)),
            final(self).same_history(old(self)),
            final(self).interrupt == old(self).interrupt,
            if old(self).cursor == old(self).buffer.len() {
                final(self).cursor == old(self).cursor && final(self).flow_ctrl == Some(
                    Flow::Continue,
                )
            } else {
                final(self).cursor == old(self).cursor + 1 && final(self).flow_ctrl == old(
                    self,
                ).flow_ctrl
            },
    {
        if self.cursor == self.buffer.len() {
            self.flow_ctrl = Some(Flow::Continue);
        } else {
            self.cursor += 1;
        }
    }

    /// Move the cursor left to the nearest boundary delimited by a
    /// whitespace token: the cursor lands just after a `" "` token, or at
    /// the start of the buffer.  At the start, signal a no-op instead.
    pub fn move_left_word(&mut self)
        requires
            old(self).wf(),
        ensures
            final(self).wf(),
            final(self).buffer == old(self).buffer,
            final(self).same_render_fields(old(self)),
            final(self).same_history(old(self)),
            final(self).interrupt == old(self).interrupt,
            if old(self).cursor == 0 {
                final(self).cursor == 0 && final(self).flow_ctrl == Some(Flow::Continue)
            } else {
                &&& final(self).flow_ctrl == old(self).flow_ctrl
                &&& final(self).cursor <= old(self).cursor
                &&& (final(self).cursor == 0 || final(self).toks()[final(self).cursor - 1]
                    == seq![' '])
                &&& forall|j: int|
                    final(self).cursor <= j < old(self).cursor ==> final(self).toks()[j]
                        != seq![' ']
            },
    {
        proof {
            reveal_strlit(" ");
        }
        if self.cursor == 0 {
            self.flow_ctrl = Some(Flow::Continue);
            return;
        }
        let mut i: usize = self.cursor;
        while i > 0 && !str_eq(self.buffer[i - 1].as_str(), " ")
            invariant
                i <= old(self).cursor,
                *self == *old(self),
                old(self).wf(),
                " "@ == seq![' '],
                forall|j: int| i <= j < old(self).cursor ==> old(self).toks()[j] != seq![' '],
            decreases i,
        {
            proof {
                assert(old(self).toks()[i - 1] == self.buffer@[i - 1]@);
                assert(old(self).toks()[i - 1] != seq![' ']);
            }
            i -= 1;
        }
        self.cursor = i;
        proof {
            assert forall|j: int|
                self.cursor <= j < old(self).cursor implies self.toks()[j] != seq![
                    ' ',
                ] by {
                assert(self.buffer == old(self).buffer);
                assert(old(self).toks()[j] != seq![' ']);
            }
        }
    }

    /// Move the cursor right to the nearest boundary delimited by a
    /// whitespace token: the cursor lands on a `" "` token, or at the end
    /// of the buffer.  At the end, signal a no-op instead.
    pub fn move_right_word(&mut self)
        requires
            old(self).wf(),
        ensures
            final(self).wf(),
            final(self).buffer == old(self).buffer,
            final(self).same_render_fields(old(self)),
            final(self).same_history(old(self)),
            final(self).interrupt == old(self).interrupt,
            if old(self).cursor == old(self).buffer.len() {
                final(self).cursor == old(self).cursor && final(self).flow_ctrl == Some(
                    Flow::Continue,
                )
            } else {
                &&& final(self).flow_ctrl == old(self).flow_ctrl
                &&& old(self).cursor <= final(self).cursor <= old(self).buffer.len()
                &&& (final(self).cursor == old(self).buffer.len() || final(self).toks()[
                    final(self).cursor as int
                ] == seq![' '])
                &&& forall|j: int|
                    old(self).cursor <= j < final(self).cursor ==> final(self).toks()[j]
                        != seq![' ']
            },
    {
        proof {
            reveal_strlit(" ");
        }
        if self.cursor == self.buffer.len() {
            self.flow_ctrl = Some(Flow::Continue);
            return;
        }
        let mut i: usize = self.cursor;
        while i < self.buffer.len() && !str_eq(self.buffer[i].as_str(), " ")
            invariant
                old(self).cursor <= i <= old(self).buffer.len(),
                *self == *old(self),
                old(self).wf(),
                " "@ == seq![' '],
                forall|j: int| old(self).cursor <= j < i ==> old(self).toks()[j] != seq![' '],
            decreases self.buffer.len() - i,
        {
            proof {
                assert(old(self).toks()[i as int] == self.buffer@[i as int]@);
                assert(old(self).toks()[i as int] != seq![' ']);
            }
            i += 1;
        }
        self.cursor = i;
        proof {
            assert forall|j: int|
                old(self).cursor <= j < self.cursor implies self.toks()[j] != seq![
                    ' ',
                ] by {
                assert(self.buffer == old(self).buffer);
                assert(old(self).toks()[j] != seq![' ']);
            }
        }
    }

    /// Send the cursor to the start of the buffer.
    pub fn move_to_start(&mut self)
        requires
            old(self).wf(),
        ensures
            final(self).wf(),
            final(self).cursor == 0,
            final(self).buffer == old(self).buffer,
            final(self).same_render_fields(old(self)),
            final(self).same_history(old(self)),
            final(self).flow_ctrl == old(self).flow_ctrl,
            final(self).interrupt == old(self).interrupt,
    {
        self.cursor = 0;
    }

    /// Send the cursor to the end of the buffer.
    pub fn move_to_end(&mut self)
        requires
            old(self).wf(),
        ensures
            final(self).wf(),
            final(self).cursor == old(self).buffer.len(),
            final(self).buffer == old(self).buffer,
            final(self).same_render_fields(old(self)),
            final(self).same_history(old(self)),
            final(self).flow_ctrl == old(self).flow_ctrl,
            final(self).interrupt == old(self).interrupt,
    {
        self.cursor = self.buffer.len();
    }

    /// Accept the first completion candidate: insert its characters at the
    /// cursor, one token each, advancing the cursor past them.  With no
    /// candidates, signal a no-op instead.
    pub fn autocomplete(&mut self)
        requires
            old(self).wf(),
        ensures
            final(self).wf(),
            final(self).same_render_fields(old(self)),
            final(self).same_history(old(self)),
            final(self).interrupt == old(self).interrupt,
            if old(self).candidate.len() == 0 {
                &&& final(self).buffer == old(self).buffer
                &&& final(self).cursor == old(self).cursor
                &&& final(self).flow_ctrl == Some(Flow::Continue)
            } else {
                &&& final(self).toks() == old(self).toks().take(old(self).cursor as int)
                    + char_tokens(old(self).candidate.deep_view()[0]) + old(
                    self,
                ).toks().skip(old(self).cursor as int)
                &&& final(self).cursor == old(self).cursor + old(self).candidate.deep_view()[
                    0
                ].len()
                &&& final(self).flow_ctrl == old(self).flow_ctrl
            },
    {
        if self.candidate.len() == 0 {
            self.flow_ctrl = Some(Flow::Continue);
            return;
        }
        let first = self.candidate[0].clone();
        proof {
            assert(first@ == old(self).candidate.deep_view()[0]);
        }
        self.insert_chars(first.as_str());
    }

    /// Paste: insert the clipboard contents at the cursor, one token per
    /// character, advancing the cursor past them.  An unreadable clipboard
    /// (`None`) is a silent no-op.
    pub fn paste(&mut self, contents: Option<String>)
        requires
            old(self).wf(),
        ensures
            final(self).wf(),
            final(self).same_render_fields(old(self)),
            final(self).same_history(old(self)),
            final(self).interrupt == old(self).interrupt,
            final(self).flow_ctrl == old(self).flow_ctrl,
            match contents {
                Some(s) => {
                    &&& final(self).toks() == old(self).toks().take(old(self).cursor as int)
                        + char_tokens(s@) + old(self).toks().skip(old(self).cursor as int)
                    &&& final(self).cursor == old(self).cursor + s@.len()
                },
                None => {
                    &&& final(self).buffer == old(self).buffer
                    &&& final(self).cursor == old(self).cursor
                },
            },
    {
        match contents {
            Some(s) => {
                self.insert_chars(s.as_str());
            },
            None => {},
        }
    }

    /// Browse one entry back in the history: load the entry into the live
    /// buffer and put the cursor at its end.  At the oldest entry, signal
    /// a no-op instead.
    pub fn previous_history(&mut self)
        requires
            old(self).wf(),
        ensures
            final(self).wf(),
            final(self).same_render_fields(old(self)),
            final(self).interrupt == old(self).interrupt,
            final(self).history.entries == old(self).history.entries,
            final(self).history.max == old(self).history.max,
            if old(self).history.index == 0 {
                &&& final(self).buffer == old(self).buffer
                &&& final(self).cursor == old(self).cursor
                &&& final(self).history.index == 0
                &&& final(self).flow_ctrl == Some(Flow::Continue)
            } else {
                &&& final(self).history.index == old(self).history.index - 1
                &&& final(self).toks() == old(self).history.snapshots()[
                    old(self).history.index - 1
                ]
                &&& final(self).cursor == final(self).buffer.len()
                &&& final(self).flow_ctrl == old(self).flow_ctrl
            },
    {
        match self.history.navigate(Direction::Previous) {
            Some(loaded) => {
                self.buffer = loaded;
                self.cursor = self.buffer.len();
            },
            None => {
                self.flow_ctrl = Some(Flow::Continue);
            },
        }
    }

    /// Browse one entry forward in the history: load the entry into the
    /// live buffer and put the cursor at its end; moving past the newest
    /// entry resets the live buffer to empty.  At the live position,
    /// signal a no-op instead.
    pub fn next_history(&mut self)
        requires
            old(self).wf(),
        ensures
            final(self).wf(),
            final(self).same_render_fields(old(self)),
            final(self).interrupt == old(self).interrupt,
            final(self).history.entries == old(self).history.entries,
            final(self).history.max == old(self).history.max,
            if old(self).history.index >= old(self).history.entries.len() {
                &&& final(self).buffer == old(self).buffer
                &&& final(self).cursor == old(self).cursor
                &&& final(self).history.index == old(self).history.index
                &&& final(self).flow_ctrl == Some(Flow::Continue)
            } else {
                &&& final(self).history.index == old(self).history.index + 1
                &&& final(self).toks() == (if old(self).history.index + 1 == old(
                    self,
                ).history.entries.len() {
                    Seq::<Seq<char>>::empty()
                } else {
                    old(self).history.snapshots()[old(self).history.index + 1]
                })
                &&& final(self).cursor == final(self).buffer.len()
                &&& final(self).flow_ctrl == old(self).flow_ctrl
            },
    {
        match self.history.navigate(Direction::Next) {
            Some(loaded) => {
                self.buffer = loaded;
                self.cursor = self.buffer.len();
            },
            None => {
                self.flow_ctrl = Some(Flow::Continue);
            },
        }
    }

    /// Commit the live buffer to the history (unless empty or a duplicate
    /// of the newest entry) on Enter.
    pub fn commit(&mut self)
        requires
            old(self).wf(),
        ensures
            final(self).wf(),
            final(self).buffer == old(self).buffer,
            final(self).cursor == old(self).cursor,
            final(self).same_render_fields(old(self)),
            final(self).flow_ctrl == old(self).flow_ctrl,
            final(self).interrupt == old(self).interrupt,
            final(self).history.max == old(self).history.max,
            ({
                let dv = old(self).toks();
                let before = old(self).history.snapshots();
                if dv.len() == 0 || (before.len() > 0 && before.last() == dv) {
                    final(self).history.snapshots() == before && final(self).history.index
                        == old(self).history.index
                } else {
                    &&& final(self).history.index == final(self).history.entries.len()
                    &&& final(self).history.snapshots() == (if before.len() == old(
                        self,
                    ).history.max {
                        before.drop_first().push(dv)
                    } else {
                        before.push(dv)
                    })
                }
            }),
    {
        let buffer = clone_tokens(&self.buffer);
        proof {
            assert(buffer.deep_view() =~= self.buffer.deep_view());
        }
        self.history.push(&buffer);
    }

    /// The dispatcher's key → action table: apply one event's
    /// buffer/cursor/history mutation.  Enter commits to the history,
    /// Ctrl-C interrupts, Right at the end of the buffer with candidates
    /// accepts like Tab, and an event the engine does not special-case
    /// changes nothing here (it is the fallback handler's).
    pub fn apply_event(&mut self, event: Event)
        requires
            old(self).wf(),
        ensures
            final(self).wf(),
            final(self).same_render_fields(old(self)),
            match event {
                Event::Enter => {
                    &&& final(self).buffer == old(self).buffer
                    &&& final(self).cursor == old(self).cursor
                    &&& final(self).flow_ctrl == old(self).flow_ctrl
                    &&& final(self).interrupt == old(self).interrupt
                    &&& final(self).history.max == old(self).history.max
                    &&& ({
                        let dv = old(self).toks();
                        let before = old(self).history.snapshots();
                        if dv.len() == 0 || (before.len() > 0 && before.last() == dv) {
                            final(self).history.snapshots() == before && final(self).history.index == old(self).history.index
                        } else {
                            &&& final(self).history.index == final(self).history.entries.len()
                            &&& final(self).history.snapshots() == (if before.len() == old(
                                self,
                            ).history.max {
                                before.drop_first().push(dv)
                            } else {
                                before.push(dv)
                            })
                        }
                    })
                },
                Event::CtrlC => {
                    &&& final(self).buffer == old(self).buffer
                    &&& final(self).cursor == old(self).cursor
                    &&& final(self).same_history(old(self))
                    &&& final(self).flow_ctrl == Some(Flow::Break)
                    &&& final(self).interrupt
                },
                Event::Paste(contents) => {
                    &&& final(self).same_history(old(self))
                    &&& final(self).interrupt == old(self).interrupt
                    &&& final(self).flow_ctrl == old(self).flow_ctrl
                    &&& match contents {
                        Some(s) => {
                            &&& final(self).toks() == old(self).toks().take(
                                old(self).cursor as int,
                            ) + char_tokens(s@) + old(self).toks().skip(
                                old(self).cursor as int,
                            )
                            &&& final(self).cursor == old(self).cursor + s@.len()
                        },
                        None => {
                            &&& final(self).buffer == old(self).buffer
                            &&& final(self).cursor == old(self).cursor
                        },
                    }
                },
                Event::Char(c) => {
                    &&& final(self).history.entries == old(self).history.entries
                    &&& final(self).history.max == old(self).history.max
                    &&& final(self).history.index == final(self).history.entries.len()
                    &&& ({
                        let base = if old(self).history.index < old(
                            self,
                        ).history.entries.len() {
                            old(self).history.snapshots()[old(self).history.index as int]
                        } else {
                            old(self).toks()
                        };
                        let at = if old(self).cursor <= base.len() {
                            old(self).cursor as int
                        } else {
                            base.len() as int
                        };
                        &&& final(self).toks() == base.insert(at, seq![c])
                        &&& final(self).cursor == at + 1
                    })
                    &&& final(self).flow_ctrl == old(self).flow_ctrl
                    &&& final(self).interrupt == old(self).interrupt
                },
                Event::Backspace => if old(self).cursor == 0 {
                    *final(self) == *old(self)
                } else {
                    &&& final(self).toks() == old(self).toks().remove(old(self).cursor - 1)
                    &&& final(self).cursor == old(self).cursor - 1
                    &&& final(self).same_history(old(self))
                    &&& final(self).flow_ctrl == old(self).flow_ctrl
                    &&& final(self).interrupt == old(self).interrupt
                },
                Event::Delete => if old(self).cursor == old(self).buffer.len() {
                    *final(self) == *old(self)
                } else {
                    &&& final(self).toks() == old(self).toks().remove(
                        old(self).cursor as int,
                    )
                    &&& final(self).cursor == old(self).cursor
                    &&& final(self).same_history(old(self))
                    &&& final(self).flow_ctrl == old(self).flow_ctrl
                    &&& final(self).interrupt == old(self).interrupt
                },
                Event::Left => {
                    &&& final(self).buffer == old(self).buffer
                    &&& final(self).same_history(old(self))
                    &&& final(self).interrupt == old(self).interrupt
                    &&& if old(self).cursor == 0 {
                        final(self).cursor == 0 && final(self).flow_ctrl == Some(
                            Flow::Continue,
                        )
                    } else {
                        final(self).cursor == old(self).cursor - 1 && final(self).flow_ctrl
                            == old(self).flow_ctrl
                    }
                },
                Event::Right => {
                    &&& final(self).same_history(old(self))
                    &&& final(self).interrupt == old(self).interrupt
                    &&& if old(self).cursor == old(self).buffer.len() && old(
                        self,
                    ).candidate.len() > 0 {
                        &&& final(self).toks() == old(self).toks().take(
                            old(self).cursor as int,
                        ) + char_tokens(old(self).candidate.deep_view()[0]) + old(
                            self,
                        ).toks().skip(old(self).cursor as int)
                        &&& final(self).cursor == old(self).cursor + old(
                            self,
                        ).candidate.deep_view()[0].len()
                        &&& final(self).flow_ctrl == old(self).flow_ctrl
                    } else if old(self).cursor == old(self).buffer.len() {
                        &&& final(self).buffer == old(self).buffer
                        &&& final(self).cursor == old(self).cursor
                        &&& final(self).flow_ctrl == Some(Flow::Continue)
                    } else {
                        &&& final(self).buffer == old(self).buffer
                        &&& final(self).cursor == old(self).cursor + 1
                        &&& final(self).flow_ctrl == old(self).flow_ctrl
                    }
                },
                Event::WordLeft => {
                    &&& final(self).buffer == old(self).buffer
                    &&& final(self).same_history(old(self))
                    &&& final(self).interrupt == old(self).interrupt
                    &&& if old(self).cursor == 0 {
                        final(self).cursor == 0 && final(self).flow_ctrl == Some(
                            Flow::Continue,
                        )
                    } else {
                        &&& final(self).flow_ctrl == old(self).flow_ctrl
                        &&& final(self).cursor <= old(self).cursor
                        &&& (final(self).cursor == 0 || final(self).toks()[
                            final(self).cursor - 1
                        ] == seq![' '])
                        &&& forall|j: int|
                            final(self).cursor <= j < old(self).cursor ==> final(self).toks()[j] != seq![' ']
                    }
                },
                Event::WordRight => {
                    &&& final(self).buffer == old(self).buffer
                    &&& final(self).same_history(old(self))
                    &&& final(self).interrupt == old(self).interrupt
                    &&& if old(self).cursor == old(self).buffer.len() {
                        final(self).cursor == old(self).cursor && final(self).flow_ctrl
                            == Some(Flow::Continue)
                    } else {
                        &&& final(self).flow_ctrl == old(self).flow_ctrl
                        &&& old(self).cursor <= final(self).cursor <= old(
                            self,
                        ).buffer.len()
                        &&& (final(self).cursor == old(self).buffer.len() || final(self).toks()[final(self).cursor as int] == seq![' '])
                        &&& forall|j: int|
                            old(self).cursor <= j < final(self).cursor ==> final(self).toks()[j] != seq![' ']
                    }
                },
                Event::Home => {
                    &&& final(self).buffer == old(self).buffer
                    &&& final(self).cursor == 0
                    &&& final(self).same_history(old(self))
                    &&& final(self).flow_ctrl == old(self).flow_ctrl
                    &&& final(self).interrupt == old(self).interrupt
                },
                Event::End => {
                    &&& final(self).buffer == old(self).buffer
                    &&& final(self).cursor == old(self).buffer.len()
                    &&& final(self).same_history(old(self))
                    &&& final(self).flow_ctrl == old(self).flow_ctrl
                    &&& final(self).interrupt == old(self).interrupt
                },
                Event::Tab => {
                    &&& final(self).same_history(old(self))
                    &&& final(self).interrupt == old(self).interrupt
                    &&& if old(self).candidate.len() == 0 {
                        &&& final(self).buffer == old(self).buffer
                        &&& final(self).cursor == old(self).cursor
                        &&& final(self).flow_ctrl == Some(Flow::Continue)
                    } else {
                        &&& final(self).toks() == old(self).toks().take(
                            old(self).cursor as int,
                        ) + char_tokens(old(self).candidate.deep_view()[0]) + old(
                            self,
                        ).toks().skip(old(self).cursor as int)
                        &&& final(self).cursor == old(self).cursor + old(
                            self,
                        ).candidate.deep_view()[0].len()
                        &&& final(self).flow_ctrl == old(self).flow_ctrl
                    }
                },
                Event::Up => {
                    &&& final(self).interrupt == old(self).interrupt
                    &&& final(self).history.entries == old(self).history.entries
                    &&& final(self).history.max == old(self).history.max
                    &&& if old(self).history.index == 0 {
                        &&& final(self).buffer == old(self).buffer
                        &&& final(self).cursor == old(self).cursor
                        &&& final(self).history.index == 0
                        &&& final(self).flow_ctrl == Some(Flow::Continue)
                    } else {
                        &&& final(self).history.index == old(self).history.index - 1
                        &&& final(self).toks() == old(self).history.snapshots()[
                            old(self).history.index - 1
                        ]
                        &&& final(self).cursor == final(self).buffer.len()
                        &&& final(self).flow_ctrl == old(self).flow_ctrl
                    }
                },
                Event::Down => {
                    &&& final(self).interrupt == old(self).interrupt
                    &&& final(self).history.entries == old(self).history.entries
                    &&& final(self).history.max == old(self).history.max
                    &&& if old(self).history.index >= old(self).history.entries.len() {
                        &&& final(self).buffer == old(self).buffer
                        &&& final(self).cursor == old(self).cursor
                        &&& final(self).history.index == old(self).history.index
                        &&& final(self).flow_ctrl == Some(Flow::Continue)
                    } else {
                        &&& final(self).history.index == old(self).history.index + 1
                        &&& final(self).toks() == (if old(self).history.index + 1 == old(
                            self,
                        ).history.entries.len() {
                            Seq::<Seq<char>>::empty()
                        } else {
                            old(self).history.snapshots()[old(self).history.index + 1]
                        })
                        &&& final(self).cursor == final(self).buffer.len()
                        &&& final(self).flow_ctrl == old(self).flow_ctrl
                    }
                },
                Event::Unknown => *final(self) == *old(self),
            },
    {
        match event {
            Event::Enter => {
                self.commit();
            },
            Event::CtrlC => {
                self.interrupt();
            },
            Event::Paste(contents) => {
                self.paste(contents);
            },
            Event::Char(c) => {
                self.insert(c);
            },
            Event::Backspace => {
                self.backspace();
            },
            Event::Delete => {
                self.delete();
            },
            Event::Left => {
                self.move_left();
            },
            Event::Right => {
                if self.cursor == self.buffer.len() && self.candidate.len() > 0 {
                    self.autocomplete();
                } else {
                    self.move_right();
                }
            },
            Event::WordLeft => {
                self.move_left_word();
            },
            Event::WordRight => {
                self.move_right_word();
            },
            Event::Home => {
                self.move_to_start();
            },
            Event::End => {
                self.move_to_end();
            },
            Event::Tab => {
                self.autocomplete();
            },
            Event::Up => {
                self.previous_history();
            },
            Event::Down => {
                self.next_history();
            },
            Event::Unknown => {
            },
        }
    }

    /// Ctrl-C: raise the interrupt flag and ask the prompt loop to stop.
    pub fn interrupt(&mut self)
        requires
            old(self).wf(),
        ensures
            final(self).wf(),
            final(self).buffer == old(self).buffer,
            final(self).cursor == old(self).cursor,
            final(self).same_render_fields(old(self)),
            final(self).same_history(old(self)),
            final(self).flow_ctrl == Some(Flow::Break),
            final(self).interrupt,
    {
        self.flow_ctrl = Some(Flow::Break);
        self.interrupt = true;
    }
}

} // verus!
