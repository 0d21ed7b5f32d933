use vtcode_acp::decimal::{i64_to_decimal, parse_usize, u64_to_decimal};
use vtcode_acp::text::{
    contains_whitespace, eq_ignore_ascii_case, is_whitespace, str_eq, strip_prefix, strip_suffix, to_ascii_uppercase,
    trim,
};
use vtcode_acp::tool_args::{
    parse_positive_argument, requested_terminal_mode, terminal_mode_for, tool_choice, tool_loop_limit_message,
    tool_runtime, validate_command_parts, IntegerArgument, IntegerArgumentError, RunTerminalMode, ToolChoiceMode,
    ToolRuntime,
};

#[test]
fn trimming_matches_the_standard_library() {
    for text in ["", "   ", " a ", "\u{3000}x\u{a0}", "\t\nmid dle\r\n", "\u{85}\u{2029}", "no-space"] {
        assert_eq!(trim(text), text.trim());
    }
}

#[test]
fn whitespace_matches_the_standard_library() {
    for c in ['\t', '\u{b}', ' ', '\u{85}', '\u{a0}', '\u{1680}', '\u{2000}', '\u{200a}', '\u{200b}', '\u{202f}', 'a', '\u{3000}', '\u{feff}'] {
        assert_eq!(is_whitespace(c), c.is_whitespace(), "{c:?}");
    }
    assert!(contains_whitespace("a b"));
    assert!(!contains_whitespace("ab"));
}

#[test]
fn case_and_affix_helpers() {
    assert!(eq_ignore_ascii_case("Bearer", "bEARER"));
    assert!(!eq_ignore_ascii_case("Bearer", "Bearers"));
    assert!(!eq_ignore_ascii_case("\u{e9}", "\u{c9}"));
    assert!(str_eq("abc", "abc"));
    assert!(!str_eq("abc", "abd"));
    assert_eq!(strip_prefix("offset:12", "offset:"), Some("12"));
    assert_eq!(strip_prefix("off", "offset:"), None);
    assert_eq!(strip_suffix("a [blocked]", " [blocked]"), Some("a"));
    assert_eq!(strip_suffix("a", " [blocked]"), None);
    assert_eq!(to_ascii_uppercase('q'), 'Q');
    assert_eq!(to_ascii_uppercase('\u{e9}'), '\u{e9}');
}

#[test]
fn decimal_text_round_trips() {
    assert_eq!(u64_to_decimal(0), "0");
    assert_eq!(u64_to_decimal(u64::MAX), u64::MAX.to_string());
    assert_eq!(i64_to_decimal(i64::MIN), i64::MIN.to_string());
    assert_eq!(i64_to_decimal(-7), "-7");
    for n in [0usize, 9, 10, 65_535, usize::MAX] {
        assert_eq!(parse_usize(&n.to_string()), Some(n));
    }
    for text in ["", "+", "-1", "1a", " 1", "18446744073709551616"] {
        assert_eq!(parse_usize(text), text.parse::<usize>().ok(), "{text:?}");
    }
    assert_eq!(parse_usize("+42"), Some(42));
}

#[test]
fn terminal_mode_follows_mode_then_tty() {
    assert_eq!(requested_terminal_mode(Some(" PTY "), None), Ok(RunTerminalMode::Pty));
    assert_eq!(requested_terminal_mode(Some("terminal"), Some(true)), Ok(RunTerminalMode::Terminal));
    assert_eq!(requested_terminal_mode(Some("  "), Some(true)), Ok(RunTerminalMode::Terminal));
    assert_eq!(
        requested_terminal_mode(Some("Streaming"), None),
        Err("command sessions do not support streaming mode".to_string())
    );
    assert_eq!(requested_terminal_mode(Some("other"), Some(true)), Ok(RunTerminalMode::Pty));
    assert_eq!(requested_terminal_mode(None, None), Ok(RunTerminalMode::Terminal));
    assert_eq!(terminal_mode_for(Some("pty"), Some(false)), Ok(RunTerminalMode::Pty));
}

#[test]
fn positive_arguments_are_checked() {
    assert_eq!(parse_positive_argument(IntegerArgument::Absent), Ok(None));
    assert_eq!(parse_positive_argument(IntegerArgument::Null), Ok(None));
    assert_eq!(parse_positive_argument(IntegerArgument::Unsigned(0)), Err(IntegerArgumentError::Invalid));
    assert_eq!(parse_positive_argument(IntegerArgument::Other), Err(IntegerArgumentError::Invalid));
    assert_eq!(parse_positive_argument(IntegerArgument::Unsigned(5)), Ok(Some(5)));
    assert_eq!(
        parse_positive_argument(IntegerArgument::Unsigned(u64::from(u32::MAX) + 1)),
        Err(IntegerArgumentError::OutOfRange)
    );
}

#[test]
fn commands_need_words_and_an_executable() {
    assert_eq!(validate_command_parts(Vec::new()), Err("command array cannot be empty".to_string()));
    assert_eq!(
        validate_command_parts(vec!["  ".to_string(), "x".to_string()]),
        Err("command executable cannot be empty".to_string())
    );
    assert_eq!(validate_command_parts(vec!["ls".to_string()]), Ok(vec!["ls".to_string()]));
}

#[test]
fn turn_tool_settings() {
    assert_eq!(
        tool_loop_limit_message(8),
        "Reached maximum tool loops (8); stopping this turn to avoid an unsafe autonomous loop."
    );
    assert_eq!(tool_runtime(true, true, false), ToolRuntime::Disabled);
    assert_eq!(tool_runtime(true, true, true), ToolRuntime::Enabled);
    assert_eq!(tool_runtime(true, false, false), ToolRuntime::Enabled);
    assert_eq!(tool_runtime(false, false, true), ToolRuntime::Disabled);
    assert_eq!(tool_choice(true), ToolChoiceMode::Auto);
    assert_eq!(tool_choice(false), ToolChoiceMode::NoTools);
}
