//! Checks on tool call arguments and the tool settings of a turn: terminal
//! mode, positive integer arguments, command words, and which tools a turn
//! offers.

use vstd::prelude::*;

use crate::decimal::{decimal, push_decimal};
use crate::text::{str_eq, trim, trimmed};

verus! {

/// What `str::to_lowercase` returns for `s`: the Unicode lower-case mapping
/// of its characters, a capital sigma mapped by its position in a word.
pub uninterp spec fn unicode_lowercase(s: Seq<char>) -> Seq<char>;

/// `str::to_lowercase`.
///
/// Calls the standard library's `to_lowercase`, which maps the characters by
/// the Unicode lower-case mapping (a capital sigma by its position in a
/// word), independently of any locale. The result depends on `s` alone and is
/// named, not described.
#[verifier::external_body]
pub(crate) fn lowercase(s: &str) -> (r: String)
    ensures
        r@ == unicode_lowercase(s@),
{
    s.to_lowercase()
}

/// How a command runs.
#[derive(Clone, Copy, Debug, PartialEq, Eq, Structural)]
pub enum RunTerminalMode {
    Terminal,
    Pty,
}

/// The message for a mode that command sessions refuse.
pub const STREAMING_MODE_MESSAGE: &'static str = "command sessions do not support streaming mode";

/// The terminal mode for a normalized `mode` argument and a `tty` flag:
/// `pty` and `terminal` (or nothing) name a mode, `streaming` is refused,
/// and any other mode defers to the flag.
pub open spec fn mode_decision(normalized: Option<Seq<char>>, tty: Option<bool>) -> Result<
    RunTerminalMode,
    (),
> {
    let by_flag = if tty == Some(true) {
        Ok(RunTerminalMode::Pty)
    } else {
        Ok(RunTerminalMode::Terminal)
    };
    match normalized {
        Some(m) => if m == "pty"@ {
            Ok(RunTerminalMode::Pty)
        } else if m == "terminal"@ || m.len() == 0 {
            Ok(RunTerminalMode::Terminal)
        } else if m == "streaming"@ {
            Err(())
        } else {
            by_flag
        },
        None => by_flag,
    }
}

/// The terminal mode for an already normalized `mode` argument (trimmed
/// and lower-cased) and a `tty` flag.
pub fn terminal_mode_for(normalized: Option<&str>, tty: Option<bool>) -> (r: Result<
    RunTerminalMode,
    String,
>)
    ensures
        match mode_decision(
            match normalized {
                Some(m) => Some(m@),
                None => None,
            },
            tty,
        ) {
            Ok(mode) => r == Ok::<RunTerminalMode, String>(mode),
            Err(_) => r matches Err(message) && message@ == STREAMING_MODE_MESSAGE@,
        },
{
    if let Some(mode) = normalized {
        if str_eq(mode, "pty") {
            return Ok(RunTerminalMode::Pty);
        }
        if str_eq(mode, "terminal") || mode.unicode_len() == 0 {
            return Ok(RunTerminalMode::Terminal);
        }
        if str_eq(mode, "streaming") {
            return Err(String::from_str(STREAMING_MODE_MESSAGE));
        }
    }
    if tty == Some(true) {
        Ok(RunTerminalMode::Pty)
    } else {
        Ok(RunTerminalMode::Terminal)
    }
}

/// The terminal mode a command asks for with its `mode` text argument and
/// its `tty` flag; the mode is compared trimmed and lower-cased.
pub fn requested_terminal_mode(mode: Option<&str>, tty: Option<bool>) -> (r: Result<
    RunTerminalMode,
    String,
>)
    ensures
        match mode_decision(
            match mode {
                Some(m) => Some(unicode_lowercase(trimmed(m@))),
                None => None,
            },
            tty,
        ) {
            Ok(m) => r == Ok::<RunTerminalMode, String>(m),
            Err(_) => r matches Err(message) && message@ == STREAMING_MODE_MESSAGE@,
        },
{
    match mode {
        Some(m) => {
            let normalized = lowercase(trim(m));
            terminal_mode_for(Some(normalized.as_str()), tty)
        },
        None => terminal_mode_for(None, tty),
    }
}

/// An optional positive integer argument, as found in the arguments.
#[derive(Clone, Copy, Debug, PartialEq, Eq, Structural)]
pub enum IntegerArgument {
    /// The argument is not given.
    Absent,
    /// The argument is `null`.
    Null,
    /// The argument is an unsigned integer.
    Unsigned(u64),
    /// The argument is anything else.
    Other,
}

/// Why a positive integer argument was refused.
#[derive(Clone, Copy, Debug, PartialEq, Eq, Structural)]
pub enum IntegerArgumentError {
    /// Not a positive integer.
    Invalid,
    /// Larger than a `u32`.
    OutOfRange,
}

/// A positive integer argument: absent and `null` give nothing, zero and
/// non-integers are invalid, values above `u32::MAX` are out of range.
pub fn parse_positive_argument(raw: IntegerArgument) -> (r: Result<Option<u32>, IntegerArgumentError>)
    ensures
        r == match raw {
            IntegerArgument::Absent | IntegerArgument::Null => Ok(None),
            IntegerArgument::Other => Err(IntegerArgumentError::Invalid),
            IntegerArgument::Unsigned(v) => if v == 0 {
                Err(IntegerArgumentError::Invalid)
            } else if v > u32::MAX {
                Err(IntegerArgumentError::OutOfRange)
            } else {
                Ok(Some(v as u32))
            },
        },
{
    match raw {
        IntegerArgument::Absent | IntegerArgument::Null => Ok(None),
        IntegerArgument::Other => Err(IntegerArgumentError::Invalid),
        IntegerArgument::Unsigned(v) => if v == 0 {
            Err(IntegerArgumentError::Invalid)
        } else if v > u32::MAX as u64 {
            Err(IntegerArgumentError::OutOfRange)
        } else {
            Ok(Some(v as u32))
        },
    }
}

/// The message for an empty command.
pub const EMPTY_COMMAND_MESSAGE: &'static str = "command array cannot be empty";

/// The message for a command whose executable is blank.
pub const EMPTY_EXECUTABLE_MESSAGE: &'static str = "command executable cannot be empty";

/// Refuses a command without words, or whose first word is blank.
pub fn validate_command_parts(parts: Vec<String>) -> (r: Result<Vec<String>, String>)
    ensures
        parts@.len() == 0 ==> (r matches Err(m) && m@ == EMPTY_COMMAND_MESSAGE@),
        parts@.len() > 0 && trimmed(parts@[0]@).len() == 0 ==> (r matches Err(m) && m@
            == EMPTY_EXECUTABLE_MESSAGE@),
        parts@.len() > 0 && trimmed(parts@[0]@).len() > 0 ==> (r matches Ok(v) && v@ == parts@),
{
    if parts.len() == 0 {
        return Err(String::from_str(EMPTY_COMMAND_MESSAGE));
    }
    if trim(parts[0].as_str()).unicode_len() == 0 {
        return Err(String::from_str(EMPTY_EXECUTABLE_MESSAGE));
    }
    Ok(parts)
}

/// The message when a turn reached its tool loop limit.
pub open spec fn loop_limit_text(limit: nat) -> Seq<char> {
    "Reached maximum tool loops ("@ + decimal(limit)
        + "); stopping this turn to avoid an unsafe autonomous loop."@
}

/// The message when a turn reached its tool loop limit `limit`.
pub fn tool_loop_limit_message(limit: usize) -> (s: String)
    ensures
        s@ == loop_limit_text(limit as nat),
{
    let mut s = String::from_str("Reached maximum tool loops (");
    push_decimal(&mut s, limit as u64);
    s.append("); stopping this turn to avoid an unsafe autonomous loop.");
    s
}

/// Whether a tool can run in a turn.
#[derive(Clone, Copy, Debug, PartialEq, Eq, Structural)]
pub enum ToolRuntime {
    Enabled,
    Disabled,
}

/// Whether a registered tool runs: only when the provider supports tools,
/// and the file reading tool only when the client can read text files.
pub fn tool_runtime(
    provider_supports_tools: bool,
    is_read_file_tool: bool,
    client_supports_read_text_file: bool,
) -> (r: ToolRuntime)
    ensures
        r == if provider_supports_tools && (!is_read_file_tool || client_supports_read_text_file) {
            ToolRuntime::Enabled
        } else {
            ToolRuntime::Disabled
        },
{
    if provider_supports_tools && (!is_read_file_tool || client_supports_read_text_file) {
        ToolRuntime::Enabled
    } else {
        ToolRuntime::Disabled
    }
}

/// The tool choice of a request.
#[derive(Clone, Copy, Debug, PartialEq, Eq, Structural)]
pub enum ToolChoiceMode {
    Auto,
    NoTools,
}

/// Automatic tool choice when tools are available, none otherwise.
pub fn tool_choice(tools_available: bool) -> (r: ToolChoiceMode)
    ensures
        r == if tools_available {
            ToolChoiceMode::Auto
        } else {
            ToolChoiceMode::NoTools
        },
{
    if tools_available {
        ToolChoiceMode::Auto
    } else {
        ToolChoiceMode::NoTools
    }
}

/// Whether a turn offers tool definitions: the provider must support tools,
/// and some client tool must be enabled or local tools be available.
pub fn offers_tool_definitions(
    provider_supports_tools: bool,
    enabled_tools_empty: bool,
    include_local: bool,
) -> (r: bool)
    ensures
        r == (provider_supports_tools && !(enabled_tools_empty && !include_local)),
{
    provider_supports_tools && !(enabled_tools_empty && !include_local)
}

} // verus!
