//! How the result of a command execution is presented: a summary of the
//! well-known fields in a fixed order, the command's output, and every other
//! field as execution details, each block cut to a display limit.

use vstd::prelude::*;

use crate::ansi::{strip_escapes, strip_terminal_escapes};
use crate::text::{ascii_upper, str_eq};

verus! {

/// One field of an execution result: its key, its value as rendered, and
/// whether that value is text, whose terminal escape sequences are removed
/// when it is shown.
#[derive(Debug)]
pub struct ExecField {
    pub key: String,
    pub display: String,
    pub is_text: bool,
}

/// How a rendered value is shown: text without its terminal escape
/// sequences, anything else as rendered.
pub open spec fn shown_text(display: Seq<char>, is_text: bool) -> Seq<char> {
    if is_text {
        strip_escapes(display)
    } else {
        display
    }
}

/// How a field's value is shown.
pub open spec fn shown_value(f: ExecField) -> Seq<char> {
    shown_text(f.display@, f.is_text)
}

/// A rendered value as shown.
fn show(display: &str, is_text: bool) -> (s: String)
    ensures
        s@ == shown_text(display@, is_text),
{
    if is_text {
        strip_terminal_escapes(display)
    } else {
        String::from_str(display)
    }
}

/// A field's value as shown.
fn shown(f: &ExecField) -> (s: String)
    ensures
        s@ == shown_value(*f),
{
    show(f.display.as_str(), f.is_text)
}

/// The summary fields, in order, with their labels.
pub open spec fn summary_fields() -> Seq<(&'static str, &'static str)> {
    seq![
        ("command", "Command"),
        ("working_directory", "Working directory"),
        ("backend", "Backend"),
        ("session_id", "Session ID"),
        ("success", "Tool succeeded"),
        ("is_exited", "Process exited"),
        ("exit_code", "Exit code"),
        ("process_id", "Process ID"),
        ("wall_time", "Wall time (seconds)"),
    ]
}

fn summary_field_table() -> (v: Vec<(&'static str, &'static str)>)
    ensures
        v@ == summary_fields(),
{
    let v = vec![
        ("command", "Command"),
        ("working_directory", "Working directory"),
        ("backend", "Backend"),
        ("session_id", "Session ID"),
        ("success", "Tool succeeded"),
        ("is_exited", "Process exited"),
        ("exit_code", "Exit code"),
        ("process_id", "Process ID"),
        ("wall_time", "Wall time (seconds)"),
    ];
    assert(v@ =~= summary_fields());
    v
}

/// The views of a result's fields.
pub open spec fn field_views(fields: Seq<ExecField>) -> Seq<(Seq<char>, Seq<char>)> {
    fields.map_values(|f: ExecField| (f.key@, shown_value(f)))
}

/// The displayed value of the first field with key `key`.
pub open spec fn lookup(fields: Seq<(Seq<char>, Seq<char>)>, key: Seq<char>) -> Option<Seq<char>>
    decreases fields.len(),
{
    if fields.len() == 0 {
        None
    } else if fields[0].0 == key {
        Some(fields[0].1)
    } else {
        lookup(fields.drop_first(), key)
    }
}

/// Lines joined with line feeds.
pub open spec fn join_lines(lines: Seq<Seq<char>>) -> Seq<char>
    decreases lines.len(),
{
    if lines.len() == 0 {
        Seq::empty()
    } else if lines.len() == 1 {
        lines[0]
    } else {
        join_lines(lines.drop_last()) + seq!['\n'] + lines.last()
    }
}

/// The summary lines `label: value` of the summary fields present.
pub open spec fn summary_lines(
    fields: Seq<(Seq<char>, Seq<char>)>,
    table: Seq<(&'static str, &'static str)>,
) -> Seq<Seq<char>>
    decreases table.len(),
{
    if table.len() == 0 {
        Seq::empty()
    } else {
        let rest = summary_lines(fields, table.drop_last());
        match lookup(fields, table.last().0@) {
            Some(value) => rest.push(table.last().1@ + ": "@ + value),
            None => rest,
        }
    }
}

/// The summary of a result.
pub open spec fn summary_text(fields: Seq<(Seq<char>, Seq<char>)>) -> Seq<char> {
    let lines = summary_lines(fields, summary_fields());
    if lines.len() == 0 {
        "Command completed"@
    } else {
        join_lines(lines)
    }
}

/// Whether a key is shown in the summary or as the command's output.
pub open spec fn is_summary_or_output_key(key: Seq<char>) -> bool {
    key == "output"@ || exists|i: int| 0 <= i < summary_fields().len() && #[trigger] summary_fields()[i].0@ == key
}

/// A key as a label: underscores become spaces and the first character is
/// upper-cased when it is an ASCII letter.
pub open spec fn label_of(key: Seq<char>) -> Seq<char> {
    Seq::new(
        key.len(),
        |i: int|
            {
                let c = if key[i] == '_' {
                    ' '
                } else {
                    key[i]
                };
                if i == 0 {
                    ascii_upper(c)
                } else {
                    c
                }
            },
    )
}

/// The detail lines of the fields that are neither summary fields nor the
/// output, in their order.
pub open spec fn detail_lines(fields: Seq<(Seq<char>, Seq<char>)>) -> Seq<Seq<char>>
    decreases fields.len(),
{
    if fields.len() == 0 {
        Seq::empty()
    } else {
        let rest = detail_lines(fields.drop_last());
        let (key, value) = fields.last();
        if is_summary_or_output_key(key) {
            rest
        } else {
            rest.push(label_of(key) + ": "@ + value)
        }
    }
}

/// The key of a result field as a label.
pub fn field_label(key: &str) -> (s: String)
    ensures
        s@ == label_of(key@),
{
    let len = key.unicode_len();
    let mut s = String::new();
    let mut i: usize = 0;
    while i < len
        invariant
            len == key@.len(),
            i <= len,
            s@ == label_of(key@).take(i as int),
        decreases len - i,
    {
        let c = key.get_char(i);
        let c = if c == '_' {
            ' '
        } else {
            c
        };
        let c = if i == 0 {
            crate::text::to_ascii_uppercase(c)
        } else {
            c
        };
        s.push(c);
        proof {
            assert(label_of(key@).take(i + 1) =~= label_of(key@).take(i as int).push(c));
        }
        i += 1;
    }
    proof {
        assert(label_of(key@).take(len as int) =~= label_of(key@));
    }
    s
}

/// The displayed value of the first field with key `key`.
fn find_field(fields: &Vec<ExecField>, key: &str) -> (r: Option<String>)
    ensures
        match lookup(field_views(fields@), key@) {
            Some(v) => r is Some && r->0@ == v,
            None => r is None,
        },
{
    let ghost views = field_views(fields@);
    assert(views.subrange(0, views.len() as int) =~= views);
    let mut i: usize = 0;
    while i < fields.len()
        invariant
            i <= fields.len(),
            views == field_views(fields@),
            lookup(views, key@) == lookup(views.subrange(i as int, views.len() as int), key@),
        decreases fields.len() - i,
    {
        let ghost tail = views.subrange(i as int, views.len() as int);
        assert(tail[0] == views[i as int]);
        assert(tail.drop_first() =~= views.subrange(i + 1, views.len() as int));
        if str_eq(fields[i].key.as_str(), key) {
            return Some(shown(&fields[i]));
        }
        i += 1;
    }
    None
}

proof fn lemma_join_push(lines: Seq<Seq<char>>, line: Seq<char>)
    ensures
        join_lines(lines.push(line)) == if lines.len() == 0 {
            line
        } else {
            join_lines(lines) + seq!['\n'] + line
        },
{
    assert(lines.push(line).drop_last() =~= lines);
    if lines.len() == 0 {
        assert(lines.push(line)[0] == line);
    }
}

/// Appends `line` as the next of the lines already in `out`.
fn append_line(out: &mut String, count: usize, line: &str)
    requires
        count < usize::MAX,
    ensures
        final(out)@ == if count == 0 {
            old(out)@ + line@
        } else {
            old(out)@ + seq!['\n'] + line@
        },
{
    if count > 0 {
        out.append("\n");
        proof {
            reveal_strlit("\n");
        }
    }
    out.append(line);
}

/// The summary of a result: one `label: value` line per summary field
/// present, in the fixed order, or `Command completed` when none is.
pub fn render_summary(fields: &Vec<ExecField>) -> (s: String)
    ensures
        s@ == summary_text(field_views(fields@)),
{
    let table = summary_field_table();
    let ghost views = field_views(fields@);
    let mut out = String::new();
    let mut count: usize = 0;
    let mut i: usize = 0;
    while i < table.len()
        invariant
            i <= table.len(),
            table@ == summary_fields(),
            views == field_views(fields@),
            count == summary_lines(views, table@.take(i as int)).len(),
            count <= i,
            out@ == join_lines(summary_lines(views, table@.take(i as int))),
        decreases table.len() - i,
    {
        let (key, label) = table[i];
        proof {
            assert(table@.take(i + 1).drop_last() =~= table@.take(i as int));
            assert(table@.take(i + 1).last() == table@[i as int]);
        }
        if let Some(value) = find_field(fields, key) {
            let mut line = String::from_str(label);
            line.append(": ");
            line.append(value.as_str());
            proof {
                lemma_join_push(summary_lines(views, table@.take(i as int)), line@);
            }
            append_line(&mut out, count, line.as_str());
            count += 1;
        }
        i += 1;
    }
    proof {
        assert(table@.take(table@.len() as int) =~= table@);
    }
    if count == 0 {
        String::from_str("Command completed")
    } else {
        out
    }
}

/// Whether `key` is a summary field or the output.
fn is_summary_or_output(key: &str, table: &Vec<(&'static str, &'static str)>) -> (r: bool)
    requires
        table@ == summary_fields(),
    ensures
        r == is_summary_or_output_key(key@),
{
    if str_eq(key, "output") {
        return true;
    }
    let mut i: usize = 0;
    while i < table.len()
        invariant
            i <= table.len(),
            table@ == summary_fields(),
            forall|j: int| 0 <= j < i ==> summary_fields()[j].0@ != key@,
        decreases table.len() - i,
    {
        if str_eq(table[i].0, key) {
            assert(summary_fields()[i as int].0@ == key@);
            return true;
        }
        i += 1;
    }
    false
}

/// The execution details: one `Label: value` line per field that is
/// neither a summary field nor the output, in order; none when no such
/// field exists.
pub fn render_additional_details(fields: &Vec<ExecField>) -> (r: Option<String>)
    ensures
        detail_lines(field_views(fields@)).len() == 0 ==> r is None,
        detail_lines(field_views(fields@)).len() > 0 ==> (r is Some && r->0@ == join_lines(
            detail_lines(field_views(fields@)),
        )),
{
    let table = summary_field_table();
    let ghost views = field_views(fields@);
    let mut out = String::new();
    let mut count: usize = 0;
    let mut i: usize = 0;
    while i < fields.len()
        invariant
            i <= fields.len(),
            table@ == summary_fields(),
            views == field_views(fields@),
            count == detail_lines(views.take(i as int)).len(),
            count <= i,
            out@ == join_lines(detail_lines(views.take(i as int))),
        decreases fields.len() - i,
    {
        proof {
            assert(views.take(i + 1).drop_last() =~= views.take(i as int));
            assert(views.take(i + 1).last() == views[i as int]);
        }
        let field = &fields[i];
        if !is_summary_or_output(field.key.as_str(), &table) {
            let mut line = field_label(field.key.as_str());
            line.append(": ");
            let value = shown(field);
            line.append(value.as_str());
            proof {
                lemma_join_push(detail_lines(views.take(i as int)), line@);
            }
            append_line(&mut out, count, line.as_str());
            count += 1;
        }
        i += 1;
    }
    proof {
        assert(views.take(views.len() as int) =~= views);
    }
    if count == 0 {
        None
    } else {
        Some(out)
    }
}

/// The presentation of a command execution result.
#[derive(Debug)]
pub struct ExecCommandPresentation {
    pub summary: String,
    pub output: String,
    pub details: Option<String>,
}

/// The text shown when the result has no output field.
pub const NO_OUTPUT_TEXT: &'static str = "(no command output returned)";

impl ExecCommandPresentation {
    /// The presentation of a result object with `fields`, in their order.
    pub fn from_fields(fields: &Vec<ExecField>) -> (p: ExecCommandPresentation)
        ensures
            p.summary@ == summary_text(field_views(fields@)),
            p.output@ == match lookup(field_views(fields@), "output"@) {
                Some(v) => v,
                None => NO_OUTPUT_TEXT@,
            },
            detail_lines(field_views(fields@)).len() == 0 ==> p.details is None,
            detail_lines(field_views(fields@)).len() > 0 ==> (p.details is Some && p.details->0@
                == join_lines(detail_lines(field_views(fields@)))),
    {
        let summary = render_summary(fields);
        let output = match find_field(fields, "output") {
            Some(v) => v,
            None => String::from_str(NO_OUTPUT_TEXT),
        };
        let details = render_additional_details(fields);
        ExecCommandPresentation { summary, output, details }
    }

    /// The presentation of a result that is not an object, rendered as
    /// `display`: its value, as shown, is the output.
    pub fn from_value(display: &str, is_text: bool) -> (p: ExecCommandPresentation)
        ensures
            p.summary@ == "Command completed"@,
            p.output@ == shown_text(display@, is_text),
            p.details is None,
    {
        ExecCommandPresentation {
            summary: String::from_str("Command completed"),
            output: show(display, is_text),
            details: None,
        }
    }
}

/// `input` cut to its first `max_chars` characters, and whether it was cut.
pub fn truncate_text(input: &str, max_chars: usize) -> (r: (String, bool))
    ensures
        input@.len() <= max_chars ==> r.0@ == input@ && !r.1,
        input@.len() > max_chars ==> r.0@ == input@.take(max_chars as int) && r.1,
{
    let len = input.unicode_len();
    if len <= max_chars {
        return (String::from_str(input), false);
    }
    (String::from_str(input.substring_char(0, max_chars)), true)
}

/// A titled block of `text` cut to `max_chars`, with a note when it was cut.
pub open spec fn block_text(title: Seq<char>, note: Seq<char>, text: Seq<char>, max_chars: nat) -> Seq<
    char,
> {
    if text.len() <= max_chars {
        title + seq!['\n'] + text
    } else {
        title + seq!['\n'] + text.take(max_chars as int) + seq!['\n'] + note
    }
}

fn render_block(title: &str, note: &str, text: &str, max_chars: usize) -> (s: String)
    ensures
        s@ == block_text(title@, note@, text@, max_chars as nat),
{
    let (rendered, truncated) = truncate_text(text, max_chars);
    let mut s = String::from_str(title);
    s.append("\n");
    s.append(rendered.as_str());
    if truncated {
        s.append("\n");
        s.append(note);
    }
    proof {
        reveal_strlit("\n");
    }
    s
}

/// The block that shows a command's output.
pub fn render_command_output_block(output: &str, max_chars: usize) -> (s: String)
    ensures
        s@ == block_text(
            "Command output"@,
            "[command output truncated for display; complete data remains in rawOutput]"@,
            output@,
            max_chars as nat,
        ),
{
    render_block(
        "Command output",
        "[command output truncated for display; complete data remains in rawOutput]",
        output,
        max_chars,
    )
}

/// The block that shows execution details.
pub fn render_command_details_block(details: &str, max_chars: usize) -> (s: String)
    ensures
        s@ == block_text(
            "Execution details"@,
            "[execution details truncated for display; complete data remains in rawOutput]"@,
            details@,
            max_chars as nat,
        ),
{
    render_block(
        "Execution details",
        "[execution details truncated for display; complete data remains in rawOutput]",
        details,
        max_chars,
    )
}

/// The content blocks of an execution result: the summary, the output block,
/// and the details block when there are details.
pub fn render_exec_command_content(presentation: &ExecCommandPresentation, max_chars: usize) -> (v:
    Vec<String>)
    ensures
        v@.len() == if presentation.details is Some {
            3nat
        } else {
            2nat
        },
        v@[0]@ == presentation.summary@,
        v@[1]@ == block_text(
            "Command output"@,
            "[command output truncated for display; complete data remains in rawOutput]"@,
            presentation.output@,
            max_chars as nat,
        ),
        presentation.details matches Some(d) ==> v@[2]@ == block_text(
            "Execution details"@,
            "[execution details truncated for display; complete data remains in rawOutput]"@,
            d@,
            max_chars as nat,
        ),
{
    let mut blocks: Vec<String> = Vec::new();
    blocks.push(String::from_str(presentation.summary.as_str()));
    blocks.push(render_command_output_block(presentation.output.as_str(), max_chars));
    if let Some(details) = &presentation.details {
        blocks.push(render_command_details_block(details.as_str(), max_chars));
    }
    blocks
}

} // verus!
