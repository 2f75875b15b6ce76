use serial_console::ascii::check_ascii_msg;
use serial_console::ascii::check_hex_msg;
use serial_console::ascii::check_int;
use serial_console::ascii::check_sum_request;
use serial_console::ascii::get_lead_byte_ascii;
use serial_console::ascii::get_lead_byte_hex;
use serial_console::ascii::get_printable_ascii;
use serial_console::ascii::lowercase_ascii;
use serial_console::ascii::string_to_vec_ascii;
use serial_console::buffer::concat_tokens;
use serial_console::candidate::filter_candidates;
use serial_console::candidate::CandidateState;
use serial_console::checksum::calc_checksum;
use serial_console::checksum::crc16;
use serial_console::checksum::split_request;
use serial_console::checksum::sum8;
use serial_console::command::CommandType;
use serial_console::console::Console;
use serial_console::console::TextColor;
use serial_console::ending::Ending;
use serial_console::mode::Mode;
use serial_console::parse::parse_input;

fn toks(s: &str) -> Vec<String> {
    let mut out = Vec::new();
    for c in s.chars() {
        out.push(c.to_string());
    }
    out
}

#[test]
fn mode_parses_and_names() {
    assert_eq!(Mode::from_str("ascii"), Ok(Mode::ASCII));
    assert_eq!(Mode::from_str("hex"), Ok(Mode::HEX));
    assert_eq!(Mode::from_str("HEX"), Err(()));
    assert_eq!(Mode::ASCII.name(), "ASCII");
    assert_eq!(Mode::HEX.name(), "HEX");
}

#[test]
fn ending_parses_names_and_bytes() {
    assert_eq!(Ending::from_str("none"), Ok(Ending::NoEnding));
    assert_eq!(Ending::from_str("cr"), Ok(Ending::CR));
    assert_eq!(Ending::from_str("lf"), Ok(Ending::LF));
    assert_eq!(Ending::from_str("crlf"), Ok(Ending::CRLF));
    assert_eq!(Ending::from_str("x"), Err(()));
    assert_eq!(Ending::CRLF.name(), "CRLF");
    assert_eq!(Ending::NoEnding.bytes(), Vec::<u8>::new());
    assert_eq!(Ending::CR.bytes(), vec![13u8]);
    assert_eq!(Ending::LF.bytes(), vec![10u8]);
    assert_eq!(Ending::CRLF.bytes(), vec![13u8, 10u8]);
}

#[test]
fn command_words_parse_both_ways() {
    assert_eq!(CommandType::from_str("send"), CommandType::Send);
    assert_eq!(CommandType::from_str("recv"), CommandType::Receive);
    assert_eq!(CommandType::from_str("set-baud"), CommandType::SetBaud);
    assert_eq!(CommandType::from_str("get-cd"), CommandType::GetCd);
    assert_eq!(CommandType::from_str("sum"), CommandType::Checksum);
    assert_eq!(CommandType::from_str("nonsense"), CommandType::Invalid);
    assert_eq!(CommandType::Send.name(), "send");
    assert_eq!(CommandType::Checksum.name(), "sum");
    assert_eq!(CommandType::Invalid.name(), "none");
}

#[test]
fn help_text_is_the_documented_one() {
    assert_eq!(
        CommandType::Clear.get_help(),
        "clear: Clear the screen."
    );
    assert_eq!(
        CommandType::Send.get_help(),
        "send <message>: Send the message to the serial port and immediately receive the response.\n\n  - <message>: The message to send."
    );
}

#[test]
fn lowercase_folds_ascii_capitals_only() {
    assert_eq!(lowercase_ascii("AbC-12"), "abc-12");
    assert_eq!(lowercase_ascii(""), "");
}

#[test]
fn tokenizer_builds_escape_aware_units() {
    let t = string_to_vec_ascii("a\\41 b".to_string());
    assert_eq!(t, vec!["a", "\\41", "\\20", "b"]);
    assert_eq!(string_to_vec_ascii("\\\\".to_string()), vec!["\\", "\\"]);
    assert_eq!(string_to_vec_ascii("\\4".to_string()), vec!["\\", "4"]);
    assert_eq!(string_to_vec_ascii("".to_string()), Vec::<String>::new());
}

#[test]
fn printable_maps_control_escapes() {
    assert_eq!(get_printable_ascii("\\0A".to_string()), "[LF]");
    assert_eq!(get_printable_ascii("\\1b".to_string()), "[ESC]");
    assert_eq!(get_printable_ascii("\\20".to_string()), "[SP]");
    assert_eq!(get_printable_ascii("\\7f".to_string()), "[DEL]");
    assert_eq!(get_printable_ascii("\\41".to_string()), "\\41");
    assert_eq!(get_printable_ascii("x".to_string()), "x");
}

#[test]
fn lead_bytes_come_off_the_front() {
    let mut b = "\\41BC".to_string();
    assert_eq!(get_lead_byte_ascii(&mut b), 0x41);
    assert_eq!(b, "BC");
    let mut b = "\\\\x".to_string();
    assert_eq!(get_lead_byte_ascii(&mut b), 92);
    assert_eq!(b, "x");
    let mut b = "qx".to_string();
    assert_eq!(get_lead_byte_ascii(&mut b), 113);
    assert_eq!(b, "x");
    let mut b = "4142".to_string();
    assert_eq!(get_lead_byte_hex(&mut b), 0x41);
    assert_eq!(b, "42");
}

#[test]
fn grammars_accept_and_reject() {
    assert!(check_ascii_msg("ab\\01 c\\\\"));
    assert!(!check_ascii_msg(""));
    assert!(!check_ascii_msg("\\zz"));
    assert!(!check_ascii_msg("a\\4"));
    assert!(check_hex_msg("4142"));
    assert!(!check_hex_msg("414"));
    assert!(!check_hex_msg("4g"));
    assert!(!check_hex_msg(""));
    assert!(check_int("123"));
    assert!(!check_int("0123"));
    assert!(!check_int(""));
    assert!(!check_int("12a"));
    assert!(check_sum_request("crc16"));
    assert!(check_sum_request("sum8"));
    assert!(check_sum_request("crc16-ir"));
    assert!(check_sum_request("sum8-c"));
    assert!(!check_sum_request("crc16-"));
    assert!(!check_sum_request("crc16-x"));
    assert!(!check_sum_request("sum9"));
}

#[test]
fn split_request_takes_base_and_flags() {
    assert_eq!(split_request("crc16-ir"), ("crc16".to_string(), "ir".to_string()));
    assert_eq!(split_request("sum8"), ("sum8".to_string(), "".to_string()));
    assert_eq!(split_request("a-b-c"), ("a".to_string(), "b".to_string()));
}

#[test]
fn crc16_and_sum8_match_known_values() {
    let digits: Vec<u8> = b"123456789".to_vec();
    assert_eq!(crc16(&digits), 0x4B37);
    assert_eq!(sum8(&digits), 0xDD);
    assert_eq!(crc16(&Vec::new()), 0xFFFF);
    assert_eq!(sum8(&Vec::new()), 0);
}

#[test]
fn checksum_requests_format_by_mode_and_flags() {
    let hexmsg = "313233343536373839";
    assert_eq!(calc_checksum("crc16", hexmsg, Mode::HEX), "4B37");
    assert_eq!(calc_checksum("crc16-r", hexmsg, Mode::HEX), "374B");
    assert_eq!(calc_checksum("crc16-i", hexmsg, Mode::HEX), "B4C8");
    assert_eq!(calc_checksum("crc16-n", hexmsg, Mode::HEX), "B4C9");
    assert_eq!(calc_checksum("sum8", hexmsg, Mode::HEX), "DD");
    assert_eq!(calc_checksum("sum8-i", hexmsg, Mode::HEX), "22");
    assert_eq!(calc_checksum("crc16-c", hexmsg, Mode::HEX), "34423337");
    assert_eq!(calc_checksum("crc16", "123456789", Mode::ASCII), "\\4B\\37");
    assert_eq!(calc_checksum("crc16-c", "123456789", Mode::ASCII), "4B37");
    assert_eq!(calc_checksum("crc16", "zz", Mode::HEX), "0000");
    assert_eq!(calc_checksum("md5", hexmsg, Mode::HEX), "");
}

#[test]
fn filtering_strips_the_prefix_and_reports_the_state() {
    let cands = vec!["send".to_string(), "set-mode".to_string(), "set-baud".to_string()];
    let (suffixes, state) = filter_candidates(&cands, &"se".to_string());
    assert_eq!(suffixes, vec!["nd", "t-mode", "t-baud"]);
    assert_eq!(state, CandidateState::Has);
    let (suffixes, state) = filter_candidates(&cands, &"send".to_string());
    assert_eq!(suffixes, Vec::<String>::new());
    assert_eq!(state, CandidateState::Match);
    let (suffixes, state) = filter_candidates(&cands, &"x".to_string());
    assert_eq!(suffixes, Vec::<String>::new());
    assert_eq!(state, CandidateState::Absent);
}

#[test]
fn parse_splits_command_and_arguments() {
    let (cmd, args) = parse_input(&toks("send ab"), Mode::ASCII);
    assert_eq!(cmd, CommandType::Send);
    assert_eq!(args.len(), 2);
    assert_eq!(concat_tokens(&args[0]), "send");
    assert_eq!(args[1], vec!["a", "b"]);
    let (_, args) = parse_input(&toks("send a b"), Mode::ASCII);
    assert_eq!(args[1], vec!["a", "\\20", "b"]);
    let (_, args) = parse_input(&toks("send a b"), Mode::HEX);
    assert_eq!(args[1], vec!["a", "b"]);
    let (cmd, args) = parse_input(&toks("sum crc16 41"), Mode::HEX);
    assert_eq!(cmd, CommandType::Checksum);
    assert_eq!(args.len(), 3);
    assert_eq!(args[1], vec!["c", "r", "c", "1", "6"]);
    assert_eq!(args[2], vec!["4", "1"]);
    let (cmd, args) = parse_input(&toks("set-mode x y"), Mode::ASCII);
    assert_eq!(cmd, CommandType::SetMode);
    assert_eq!(args[1], vec!["x", " ", "y"]);
    let (cmd, _) = parse_input(&toks("HELP"), Mode::ASCII);
    assert_eq!(cmd, CommandType::Help);
}

#[test]
fn parsing_an_empty_buffer_gives_one_empty_fragment() {
    let (cmd, args) = parse_input(&Vec::new(), Mode::ASCII);
    assert_eq!(cmd, CommandType::Invalid);
    assert_eq!(args.len(), 1);
    assert!(args[0].is_empty());
}

#[test]
fn preprocessing_offers_command_word_completions() {
    let mut c = Console::new();
    let p = c.preprocess(toks("se"));
    assert_eq!(c.command, CommandType::Invalid);
    assert_eq!(p.candidate.len(), 13);
    assert_eq!(p.candidate[0], "nd");
    assert_eq!(p.candidate[1], "t-mode");
    assert_eq!(c.states[0], CandidateState::Has);
    let p = c.preprocess(toks("help"));
    assert_eq!(c.command, CommandType::Help);
    assert_eq!(c.states[0], CandidateState::Match);
    assert!(p.candidate.is_empty());
}

#[test]
fn preprocessing_offers_argument_completions() {
    let mut c = Console::new();
    let p = c.preprocess(toks("set-mode as"));
    assert_eq!(c.command, CommandType::SetMode);
    assert_eq!(p.candidate, vec!["cii"]);
    assert_eq!(c.states[1], CandidateState::Has);
    c.ports = vec!["COM1".to_string(), "COM3".to_string()];
    let p = c.preprocess(toks("set-port COM"));
    assert_eq!(p.candidate, vec!["1", "3"]);
}

#[test]
fn preprocessing_retokenizes_a_send_message() {
    let mut c = Console::new();
    let p = c.preprocess(toks("send a\\41 b"));
    assert_eq!(c.command, CommandType::Send);
    assert_eq!(p.buffer, vec!["s", "e", "n", "d", " ", "a", "\\41", "\\20", "b"]);
}

#[test]
fn preprocessing_previews_a_complete_checksum() {
    let mut c = Console::new();
    c.mode = Mode::HEX;
    let p = c.preprocess(toks("sum crc16 313233343536373839"));
    assert_eq!(c.command, CommandType::Checksum);
    assert_eq!(p.candidate, vec!["4B37"]);
}

#[test]
fn rendering_colors_the_command_by_its_state() {
    let mut c = Console::new();
    c.preprocess(toks("help"));
    let (spans, col) = c.render_line(4);
    assert_eq!(spans.len(), 1);
    assert_eq!(spans[0].color, TextColor::Blue);
    assert_eq!(spans[0].text, "help");
    assert_eq!(col, 4);
    let (_, col) = c.render_line(2);
    assert_eq!(col, 2);
    c.preprocess(toks("zzz"));
    let (spans, _) = c.render_line(0);
    assert_eq!(spans[0].color, TextColor::Red);
}

#[test]
fn rendering_shows_escape_units_in_their_display_form() {
    let mut c = Console::new();
    let p = c.preprocess(toks("send \\01"));
    let p = c.preprocess(p.buffer);
    let (spans, col) = c.render_line(6);
    assert_eq!(spans.len(), 3);
    assert_eq!(spans[0].text, "send");
    assert_eq!(spans[1].text, " ");
    assert_eq!(spans[2].text, "[SOH]");
    assert_eq!(spans[2].color, TextColor::White);
    assert_eq!(col, 10);
    let (_, col) = c.render_line(5);
    assert_eq!(col, 5);
    assert!(p.candidate.is_empty());
}

#[test]
fn rendering_marks_an_invalid_message_red() {
    let mut c = Console::new();
    c.mode = Mode::HEX;
    c.preprocess(toks("send 4g"));
    let (spans, _) = c.render_line(0);
    assert_eq!(spans[2].color, TextColor::Red);
    c.preprocess(toks("set-baud 96x"));
    let (spans, _) = c.render_line(0);
    assert_eq!(spans[2].color, TextColor::Red);
    c.preprocess(toks("set-baud 9600"));
    let (spans, _) = c.render_line(0);
    assert_eq!(spans[2].color, TextColor::White);
}
