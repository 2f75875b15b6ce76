use serial_console::buffer::concat_tokens;
use serial_console::buffer::remap_cursor;
use serial_console::editor::Environment;
use serial_console::editor::Event;
use serial_console::editor::Flow;
use serial_console::engine::Hooks;
use serial_console::engine::InputBuilder;
use serial_console::engine::Processed;
use serial_console::history::Direction;
use serial_console::history::History;
use serial_console::render::candidate_preview;
use serial_console::strutil::char_string;

fn toks(s: &str) -> Vec<String> {
    let mut out = Vec::new();
    for c in s.chars() {
        out.push(c.to_string());
    }
    out
}

#[test]
fn typing_builds_the_literal_text() {
    let mut env = Environment::new();
    env.insert('a');
    env.insert('b');
    env.insert('c');
    assert_eq!(concat_tokens(&env.buffer), "abc");
    assert_eq!(env.cursor, 3);
    env.backspace();
    env.insert('d');
    assert_eq!(concat_tokens(&env.buffer), "abd");
    assert_eq!(env.cursor, 3);
    env.move_to_start();
    env.insert('x');
    assert_eq!(concat_tokens(&env.buffer), "xabd");
    assert_eq!(env.cursor, 1);
    env.delete();
    assert_eq!(concat_tokens(&env.buffer), "xbd");
}

#[test]
fn backspace_at_start_and_delete_at_end_do_nothing() {
    let mut env = Environment::new();
    env.insert('a');
    env.move_to_start();
    env.backspace();
    assert_eq!(concat_tokens(&env.buffer), "a");
    assert_eq!(env.cursor, 0);
    env.move_to_end();
    env.delete();
    assert_eq!(concat_tokens(&env.buffer), "a");
}

#[test]
fn cursor_moves_and_word_jumps() {
    let mut env = Environment::new();
    env.buffer = toks("ab cd");
    env.cursor = 5;
    env.move_left_word();
    assert_eq!(env.cursor, 3);
    env.move_left();
    assert_eq!(env.cursor, 2);
    env.move_left_word();
    assert_eq!(env.cursor, 0);
    env.move_right_word();
    assert_eq!(env.cursor, 2);
    env.move_right();
    assert_eq!(env.cursor, 3);
    env.move_right_word();
    assert_eq!(env.cursor, 5);
    env.move_right();
    assert_eq!(env.cursor, 5);
    assert_eq!(env.flow_ctrl, Some(Flow::Continue));
}

#[test]
fn history_is_bounded_and_evicts_the_oldest() {
    let mut h = History::with_max(3);
    h.push(&toks("a"));
    h.push(&toks("b"));
    h.push(&toks("c"));
    assert_eq!(h.entries.len(), 3);
    h.push(&toks("d"));
    assert_eq!(h.entries.len(), 3);
    assert_eq!(concat_tokens(&h.entries[0]), "b");
    assert_eq!(concat_tokens(&h.entries[2]), "d");
    assert_eq!(h.index, 3);
}

#[test]
fn history_skips_empty_and_consecutive_duplicates() {
    let mut h = History::new();
    h.push(&toks(""));
    assert_eq!(h.entries.len(), 0);
    h.push(&toks("a"));
    h.push(&toks("a"));
    assert_eq!(h.entries.len(), 1);
    h.push(&toks("b"));
    h.push(&toks("a"));
    assert_eq!(h.entries.len(), 3);
}

#[test]
fn clear_history_resets_entries_and_index() {
    let mut h = History::new();
    h.push(&toks("a"));
    h.push(&toks("b"));
    h.clear();
    assert_eq!(h.entries.len(), 0);
    assert_eq!(h.index, 0);
}

#[test]
fn navigate_walks_back_and_forward() {
    let mut h = History::new();
    h.push(&toks("send 01"));
    h.push(&toks("send 02"));
    assert_eq!(h.index, 2);
    let b = h.navigate(Direction::Previous).unwrap();
    assert_eq!(concat_tokens(&b), "send 02");
    assert_eq!(h.index, 1);
    let b = h.navigate(Direction::Previous).unwrap();
    assert_eq!(concat_tokens(&b), "send 01");
    assert_eq!(h.index, 0);
    assert!(h.navigate(Direction::Previous).is_none());
    let b = h.navigate(Direction::Next).unwrap();
    assert_eq!(concat_tokens(&b), "send 02");
    let b = h.navigate(Direction::Next).unwrap();
    assert_eq!(concat_tokens(&b), "");
    assert_eq!(h.index, 2);
    assert!(h.navigate(Direction::Next).is_none());
}

#[test]
fn browsing_scenario_loads_entries_into_the_buffer() {
    let mut env = Environment::new();
    env.history.push(&toks("send 01"));
    env.history.push(&toks("send 02"));
    assert_eq!(env.history.index, 2);
    env.previous_history();
    assert_eq!(concat_tokens(&env.buffer), "send 02");
    assert_eq!(env.cursor, 7);
    assert_eq!(env.history.index, 1);
    env.previous_history();
    assert_eq!(concat_tokens(&env.buffer), "send 01");
    assert_eq!(env.history.index, 0);
    env.next_history();
    env.next_history();
    assert_eq!(env.history.index, 2);
    assert_eq!(concat_tokens(&env.buffer), "");
}

#[test]
fn typing_while_browsing_detaches_and_keeps_entries_intact() {
    let mut env = Environment::new();
    env.history.push(&toks("ab"));
    env.previous_history();
    assert_eq!(env.history.index, 0);
    assert_eq!(concat_tokens(&env.buffer), "ab");
    env.insert('x');
    assert_eq!(env.history.entries.len(), 1);
    assert_eq!(concat_tokens(&env.history.entries[0]), "ab");
    assert_eq!(env.history.index, 1);
    assert_eq!(concat_tokens(&env.buffer), "abx");
}

#[test]
fn tab_accepts_the_first_candidate() {
    let mut env = Environment::new();
    env.buffer = toks("se");
    env.cursor = 2;
    env.candidate = vec!["nd".to_string()];
    env.autocomplete();
    assert_eq!(concat_tokens(&env.buffer), "send");
    assert_eq!(env.cursor, 4);
}

#[test]
fn tab_without_candidates_is_a_signalled_no_op() {
    let mut env = Environment::new();
    env.buffer = toks("se");
    env.cursor = 2;
    env.autocomplete();
    assert_eq!(concat_tokens(&env.buffer), "se");
    assert_eq!(env.flow_ctrl, Some(Flow::Continue));
}

#[test]
fn paste_inserts_clipboard_text_and_ignores_failure() {
    let mut env = Environment::new();
    env.buffer = toks("ab");
    env.cursor = 1;
    env.paste(Some("xy".to_string()));
    assert_eq!(concat_tokens(&env.buffer), "axyb");
    assert_eq!(env.cursor, 3);
    env.paste(None);
    assert_eq!(concat_tokens(&env.buffer), "axyb");
    assert_eq!(env.cursor, 3);
}

#[test]
fn prompt_round_trips_the_typed_string_under_identity_hooks() {
    let mut input = InputBuilder::new().prompt("> ".to_string()).build();
    input.begin();
    assert_eq!(input.step(Event::Char('h')), Flow::Continue);
    assert_eq!(input.step(Event::Char('i')), Flow::Continue);
    assert_eq!(input.step(Event::Enter), Flow::Break);
    assert_eq!(input.take_result(), Ok("hi".to_string()));
    assert_eq!(input.env.history.entries.len(), 1);
}

#[test]
fn interrupt_reports_an_error() {
    let mut input = InputBuilder::new().build();
    input.begin();
    input.step(Event::Char('h'));
    assert_eq!(input.step(Event::CtrlC), Flow::Break);
    assert!(input.take_result().is_err());
    assert_eq!(input.env.history.entries.len(), 0);
}

#[test]
fn enter_skips_empty_and_duplicate_commits() {
    let mut input = InputBuilder::new().build();
    input.begin();
    assert_eq!(input.step(Event::Enter), Flow::Break);
    assert_eq!(input.env.history.entries.len(), 0);
    input.begin();
    input.step(Event::Char('a'));
    input.step(Event::Enter);
    input.begin();
    input.step(Event::Char('a'));
    input.step(Event::Enter);
    assert_eq!(input.env.history.entries.len(), 1);
}

#[test]
fn reprocessing_twice_does_not_drift_the_cursor() {
    let mut input = InputBuilder::new().build();
    input.begin();
    input.step(Event::Char('a'));
    input.step(Event::Char('b'));
    input.step(Event::Char('c'));
    input.step(Event::Left);
    assert_eq!(input.env.cursor, 2);
    input.reprocess();
    assert_eq!(input.env.cursor, 2);
    input.reprocess();
    assert_eq!(input.env.cursor, 2);
}

#[test]
fn remap_lands_after_the_token_that_ends_at_the_column() {
    let buf = vec!["\\1b".to_string(), "a".to_string(), "b".to_string()];
    assert_eq!(remap_cursor(&buf, 0), 0);
    assert_eq!(remap_cursor(&buf, 1), 1);
    assert_eq!(remap_cursor(&buf, 3), 1);
    assert_eq!(remap_cursor(&buf, 4), 2);
    assert_eq!(remap_cursor(&buf, 5), 3);
    assert_eq!(remap_cursor(&buf, 99), 3);
}

struct SeHooks;

impl Hooks for SeHooks {
    type Out = String;

    fn preprocessor(&mut self, buffer: Vec<String>, _cursor: usize) -> Processed {
        let word: String = buffer.concat();
        let candidate = if word == "se" {
            vec!["nd".to_string()]
        } else {
            Vec::new()
        };
        Processed { buffer, candidate }
    }

    fn renderer(&mut self, buffer: &Vec<String>, cursor: usize) -> (String, usize) {
        (buffer.concat(), cursor)
    }

    fn finalizer(&mut self, raw: String) -> String {
        raw
    }

    fn fallback_handler(&mut self, _event: &Event) -> Result<(), ()> {
        Ok(())
    }
}

#[test]
fn tab_scenario_completes_se_to_send() {
    let mut input = InputBuilder::new().build_with_hooks(SeHooks);
    input.begin();
    input.step(Event::Char('s'));
    input.step(Event::Char('e'));
    assert_eq!(input.env.candidate, vec!["nd".to_string()]);
    input.step(Event::Tab);
    assert_eq!(concat_tokens(&input.env.buffer), "send");
    assert_eq!(input.env.cursor, 4);
}

#[test]
fn right_at_end_with_candidates_accepts_like_tab() {
    let mut input = InputBuilder::new().build_with_hooks(SeHooks);
    input.begin();
    input.step(Event::Char('s'));
    input.step(Event::Char('e'));
    input.step(Event::Right);
    assert_eq!(concat_tokens(&input.env.buffer), "send");
    assert_eq!(input.env.cursor, 4);
}

#[test]
fn preview_truncates_to_the_remaining_width() {
    let cands = vec!["hardware".to_string(), "software".to_string()];
    assert_eq!(candidate_preview(&cands, 20, 15), "[ha..]");
    assert_eq!(candidate_preview(&cands, 80, 0), "[hardware, software]");
    assert_eq!(candidate_preview(&cands, 20, 18), "");
    let none: Vec<String> = Vec::new();
    assert_eq!(candidate_preview(&none, 80, 0), "");
}

#[test]
fn char_string_holds_the_character() {
    assert_eq!(char_string('a'), "a");
    assert_eq!(char_string('\\'), "\\");
}

#[test]
fn history_default_bound_is_fifty() {
    let mut h = History::new();
    for i in 0..60 {
        h.push(&toks(&format!("cmd {}", i)));
    }
    assert_eq!(h.entries.len(), 50);
    assert_eq!(concat_tokens(&h.entries[0]), "cmd 10");
    assert_eq!(concat_tokens(&h.entries[49]), "cmd 59");
}

#[test]
fn preview_shows_at_least_one_character_or_nothing() {
    let cands = vec!["hardware".to_string()];
    assert_eq!(candidate_preview(&cands, 10, 6), "[h..]");
    assert_eq!(candidate_preview(&cands, 10, 7), "");
    assert_eq!(candidate_preview(&cands, 10, 2), "[hardware]");
}

struct RefusingHooks;

impl Hooks for RefusingHooks {
    type Out = String;

    fn preprocessor(&mut self, buffer: Vec<String>, _cursor: usize) -> Processed {
        Processed { buffer, candidate: Vec::new() }
    }

    fn renderer(&mut self, buffer: &Vec<String>, cursor: usize) -> (String, usize) {
        (buffer.concat(), cursor)
    }

    fn finalizer(&mut self, raw: String) -> String {
        raw
    }

    fn fallback_handler(&mut self, _event: &Event) -> Result<(), ()> {
        Err(())
    }
}

#[test]
fn a_refused_fallback_interrupts_the_prompt() {
    let mut input = InputBuilder::new().build_with_hooks(RefusingHooks);
    input.begin();
    assert_eq!(input.step(Event::Unknown), Flow::Break);
    assert!(input.take_result().is_err());
}

#[test]
fn detaching_clamps_the_cursor_to_the_entry() {
    let mut env = Environment::new();
    env.history.push(&toks("a"));
    env.history.index = 0;
    env.buffer = toks("abc");
    env.cursor = 3;
    env.insert('x');
    assert_eq!(concat_tokens(&env.buffer), "ax");
    assert_eq!(env.cursor, 2);
    assert_eq!(concat_tokens(&env.history.entries[0]), "a");
}
