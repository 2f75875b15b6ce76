//! The input engine: hooks, builder and the key-event dispatcher.
//!
//! The engine owns an `Environment` and a set of caller-supplied hooks.
//! One call of [`Input::step`] handles one key event: it applies the
//! event's buffer/cursor/history mutation, then — unless the event was
//! terminal or a signalled no-op — re-runs the preprocessor, remaps the
//! cursor by column, and re-runs the renderer.  The caller drives the
//! loop: it reads events, hands them to `step`, and draws the frame the
//! environment then holds.

use vstd::prelude::*;
use crate::buffer::clone_tokens;
use crate::buffer::column_of;
use crate::buffer::column_of_spec;
use crate::buffer::concat_tokens;
use crate::buffer::remap_cursor;
use crate::buffer::remap_spec;
use crate::buffer::text_of;
use crate::editor::Environment;
use crate::editor::Event;
use crate::editor::Flow;
use vstd::seq_lib::*;

verus! {

/// What a preprocessor hands back: the rewritten token buffer and the
/// completion candidates for the current context.
pub struct Processed {
    pub buffer: Vec<String>,
    pub candidate: Vec<String>,
}

/// The four caller-supplied hooks that parametrize the engine.  The
/// engine calls them but owns none of their logic, and it re-establishes
/// its own invariants (cursor bounds, history ownership) after every
/// call, so no behaviour is assumed of an implementation.
pub trait Hooks {
    /// What the finalizer converts an accepted line into.
    type Out;

    /// Re-derive the buffer and the completion candidates from the raw
    /// buffer; may re-tokenize wholesale.
    fn preprocessor(&mut self, buffer: Vec<String>, cursor: usize) -> Processed;

    /// Produce the display string for a buffer, and the target column:
    /// the count of original tokens to the cursor's left.
    fn renderer(&mut self, buffer: &Vec<String>, cursor: usize) -> (String, usize);

    /// Convert the accepted raw text into the domain result.
    fn finalizer(&mut self, raw: String) -> Self::Out;

    /// Handle an event the engine does not special-case; an `Err` asks
    /// the engine to stop as interrupted.
    fn fallback_handler(&mut self, event: &Event) -> Result<(), ()>;
}

/// The default hooks: no rewriting, no candidates, a plain join for
/// display, the identity finalizer, and a fallback that always succeeds.
pub struct IdentityHooks {
}

impl Hooks for IdentityHooks {
    type Out = String;

    fn preprocessor(&mut self, buffer: Vec<String>, cursor: usize) -> Processed {
        Processed { buffer, candidate: Vec::new() }
    }

    fn renderer(&mut self, buffer: &Vec<String>, cursor: usize) -> (String, usize) {
        (concat_tokens(buffer), cursor)
    }

    fn finalizer(&mut self, raw: String) -> String {
        raw
    }

    fn fallback_handler(&mut self, event: &Event) -> Result<(), ()> {
        Ok(())
    }
}

/// The error `prompt` reports when the user interrupted the line.
#[derive(Clone, Copy, Debug, PartialEq, Eq, Structural)]
pub struct InterruptedError;

/// Configuration for an engine instance: the prompt text shown before the
/// editable region, and the hooks.
pub struct InputBuilder {
    pub prompt: String,
}

impl InputBuilder {
    /// Start a configuration with an empty prompt.
    pub fn new() -> (r: InputBuilder)
        ensures
            r.prompt@ == Seq::<char>::empty(),
    {
        InputBuilder { prompt: String::new() }
    }

    /// Set the prompt text shown before the editable region.
    pub fn prompt(self, prompt: String) -> (r: InputBuilder)
        ensures
            r.prompt == prompt,
    {
        InputBuilder { prompt }
    }

    /// Build an engine around the given hooks.
    pub fn build_with_hooks<H: Hooks>(self, hooks: H) -> (r: Input<H>)
        ensures
            r.env.wf(),
            r.env.prompt == self.prompt,
            r.env.buffer.len() == 0,
            r.env.history.entries.len() == 0,
            r.env.history.max == crate::history::HISTORY_MAX,
            !r.env.interrupt,
    {
        let mut env = Environment::new();
        env.prompt = self.prompt;
        Input { env, hooks }
    }

    /// Build an engine with the identity hooks: the accepted line is
    /// returned as the typed string itself.
    pub fn build(self) -> (r: Input<IdentityHooks>)
        ensures
            r.env.wf(),
            r.env.prompt == self.prompt,
            r.env.buffer.len() == 0,
            r.env.history.entries.len() == 0,
            !r.env.interrupt,
    {
        self.build_with_hooks(IdentityHooks {})
    }
}

/// The line-editing engine: the environment of the current prompt and the
/// hooks that parametrize it.  The history persists across prompts on the
/// same instance until cleared.
pub struct Input<H: Hooks> {
    pub env: Environment,
    pub hooks: H,
}

impl<H: Hooks> Input<H> {
    /// Re-derive buffer, candidates and cursor after a mutation: run the
    /// preprocessor on the raw buffer, then remap the cursor so that it
    /// keeps its logical column — the count of characters before it —
    /// across the rewrite, and record that column.
    pub fn reprocess(&mut self)
        requires
            old(self).env.wf(),
        ensures
            final(self).env.wf(),
            final(self).env.cursor == remap_spec(
                final(self).env.toks(),
                column_of_spec(old(self).env.toks(), old(self).env.cursor as int) as int,
            ),
            final(self).env.history == old(self).env.history,
            final(self).env.interrupt == old(self).env.interrupt,
            final(self).env.flow_ctrl == old(self).env.flow_ctrl,
            final(self).env.prompt == old(self).env.prompt,
            final(self).env.rendered == old(self).env.rendered,
    {
        let col = column_of(&self.env.buffer, self.env.cursor);
        let raw = clone_tokens(&self.env.buffer);
        let processed = self.hooks.preprocessor(raw, self.env.cursor);
        self.env.buffer = processed.buffer;
        self.env.candidate = processed.candidate;
        self.env.cursor = remap_cursor(&self.env.buffer, col);
        self.env.column = col;
    }

    /// Run the renderer on the current buffer and record the display
    /// string and the target column it reports.
    pub fn render(&mut self)
        requires
            old(self).env.wf(),
        ensures
            final(self).env.wf(),
            final(self).env.buffer == old(self).env.buffer,
            final(self).env.cursor == old(self).env.cursor,
            final(self).env.candidate == old(self).env.candidate,
            final(self).env.history == old(self).env.history,
            final(self).env.interrupt == old(self).env.interrupt,
            final(self).env.flow_ctrl == old(self).env.flow_ctrl,
            final(self).env.prompt == old(self).env.prompt,
    {
        let (display, target) = self.hooks.renderer(&self.env.buffer, self.env.cursor);
        self.env.rendered = display;
        self.env.column = target;
    }

    /// Start a new prompt: reset the environment (keeping the history),
    /// then derive the initial candidates and frame.
    pub fn begin(&mut self)
        requires
            old(self).env.wf(),
        ensures
            final(self).env.wf(),
            final(self).env.history.entries == old(self).env.history.entries,
            final(self).env.history.max == old(self).env.history.max,
            !final(self).env.interrupt,
            final(self).env.flow_ctrl is None,
            final(self).env.prompt == old(self).env.prompt,
    {
        self.env.reset_for_prompt();
        self.reprocess();
        self.render();
    }

    /// Handle one key event.
    ///
    /// Enter commits the buffer to the history — unless it is empty or
    /// identical to the newest entry — and ends the prompt.  Ctrl-C raises
    /// the interrupt flag and ends the prompt.  Every other recognized
    /// event applies its buffer/cursor/history mutation; afterwards,
    /// unless the event signalled a pure no-op, the preprocessor re-runs
    /// and the cursor is remapped by column, then the renderer re-runs.
    /// Unrecognized events go to the fallback handler, whose failure ends
    /// the prompt as interrupted.  The stored history entries change on
    /// Enter alone.
    pub fn step(&mut self, event: Event) -> (flow: Flow)
        requires
            old(self).env.wf(),
            old(self).env.flow_ctrl is None,
        ensures
            final(self).env.wf(),
            final(self).env.flow_ctrl is None,
            final(self).env.prompt == old(self).env.prompt,
            final(self).env.history.max == old(self).env.history.max,
            event is Enter ==> flow == Flow::Break && final(self).env.buffer == old(
                self,
            ).env.buffer && final(self).env.interrupt == old(self).env.interrupt,
            event is Enter ==> ({
                let dv = old(self).env.toks();
                let before = old(self).env.history.snapshots();
                if dv.len() == 0 || (before.len() > 0 && before.last() == dv) {
                    final(self).env.history.snapshots() == before
                } else {
                    final(self).env.history.snapshots() == (if before.len() == old(
                        self,
                    ).env.history.max {
                        before.drop_first().push(dv)
                    } else {
                        before.push(dv)
                    })
                }
            }),
            event is CtrlC ==> flow == Flow::Break && final(self).env.interrupt,
            !(event is Enter) ==> final(self).env.history.entries == old(
                self,
            ).env.history.entries,
            !(event is CtrlC || event is Unknown) ==> final(self).env.interrupt == old(
                self,
            ).env.interrupt,
            !(event is Enter) ==> (flow == Flow::Break ==> final(self).env.interrupt),
            !(event is Enter || event is CtrlC || event is Unknown) ==> flow
                == Flow::Continue,
    {
        match event {
            Event::Enter => {
                self.env.apply_event(Event::Enter);
                return Flow::Break;
            },
            Event::Unknown => {
                match self.hooks.fallback_handler(&Event::Unknown) {
                    Ok(accepted) => {
                        let _ = accepted;
                    },
                    Err(refused) => {
                        let _ = refused;
                        self.env.interrupt();
                    },
                }
            },
            other => {
                self.env.apply_event(other);
            },
        }
        match self.env.flow_ctrl {
            Some(flow) => {
                self.env.flow_ctrl = None;
                return flow;
            },
            None => {
            },
        }
        self.reprocess();
        self.render();
        Flow::Continue
    }

    /// The outcome of a finished prompt: the interrupt error when the
    /// user broke off, otherwise the finalizer's conversion of the
    /// buffer's concatenated text.
    pub fn take_result(&mut self) -> (r: Result<H::Out, InterruptedError>)
        requires
            old(self).env.wf(),
        ensures
            final(self).env.wf(),
            (r is Err) == old(self).env.interrupt,
            final(self).env == old(self).env,
    {
        if self.env.interrupt {
            Err(InterruptedError)
        } else {
            let raw = concat_tokens(&self.env.buffer);
            Ok(self.hooks.finalizer(raw))
        }
    }

    /// Empty the history and reset its browsing index.
    pub fn clear_history(&mut self)
        requires
            old(self).env.wf(),
        ensures
            final(self).env.wf(),
            final(self).env.history.entries.len() == 0,
            final(self).env.history.index == 0,
    {
        self.env.history.clear();
    }
}

/// Typed characters round-trip through the engine under the identity
/// hooks: a buffer of one-character tokens — what typing builds when the
/// preprocessor rewrites nothing — concatenates back to exactly the
/// typed characters, so the identity finalizer returns the original
/// typed string.
pub proof fn lemma_identity_round_trip(cs: Seq<char>)
    ensures
        text_of(crate::editor::char_tokens(cs)) == cs,
    decreases cs.len(),
{
    if cs.len() == 0 {
        assert(crate::editor::char_tokens(cs) =~= Seq::<Seq<char>>::empty());
        assert(text_of(crate::editor::char_tokens(cs)) =~= cs);
    } else {
        let head = cs.drop_last();
        lemma_identity_round_trip(head);
        assert(crate::editor::char_tokens(cs) =~= crate::editor::char_tokens(head).push(
            seq![cs.last()],
        ));
        crate::editor::char_tokens(head).lemma_flatten_push(seq![cs.last()]);
        assert(text_of(crate::editor::char_tokens(cs)) =~= cs);
    }
}

} // verus!
