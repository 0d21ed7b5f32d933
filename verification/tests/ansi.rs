use vtcode_acp::ansi::strip_terminal_escapes;

#[test]
fn control_sequences_are_removed() {
    assert_eq!(strip_terminal_escapes("\u{1b}[31mred\u{1b}[0m"), "red");
    assert_eq!(strip_terminal_escapes("a\u{1b}[1;32;48;5;236mb"), "ab");
}

#[test]
fn operating_system_commands_are_removed_up_to_their_terminator() {
    assert_eq!(strip_terminal_escapes("\u{1b}]0;title\u{7}after"), "after");
    assert_eq!(strip_terminal_escapes("\u{1b}]8;;http://x\u{1b}\\link\u{1b}]8;;\u{1b}\\"), "link");
    assert_eq!(strip_terminal_escapes("\u{1b}]unterminated"), "");
}

#[test]
fn short_escapes_and_plain_text() {
    assert_eq!(strip_terminal_escapes("\u{1b}(Bx\u{1b}=y"), "xy");
    assert_eq!(strip_terminal_escapes("plain caf\u{e9} text\n"), "plain caf\u{e9} text\n");
    assert_eq!(strip_terminal_escapes("end\u{1b}"), "end");
    assert_eq!(strip_terminal_escapes(""), "");
}

#[test]
fn stripping_twice_is_stripping_once() {
    let once = strip_terminal_escapes("\u{1b}[1mbold\u{1b}[0m and \u{1b}]2;t\u{7}plain");
    assert_eq!(once, "bold and plain");
    assert_eq!(strip_terminal_escapes(&once), once);
}
