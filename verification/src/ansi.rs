//! Removal of terminal escape sequences from text shown to a client: control
//! sequences (`ESC [` … final character), operating-system commands
//! (`ESC ]` … `BEL` or `ESC \`) and other escapes (`ESC`, intermediate
//! characters, one final character).

use vstd::prelude::*;

verus! {

/// The escape character that opens every sequence.
pub const ESC: char = '\u{1b}';

/// The bell character that may end an operating-system command.
pub const BEL: char = '\u{7}';

/// A parameter or intermediate character of a control sequence.
pub open spec fn is_csi_body(c: char) -> bool {
    '\u{20}' <= c && c <= '\u{3f}'
}

/// The character that ends a control sequence.
pub open spec fn is_csi_final(c: char) -> bool {
    '\u{40}' <= c && c <= '\u{7e}'
}

/// An intermediate character of an escape sequence.
pub open spec fn is_esc_intermediate(c: char) -> bool {
    '\u{20}' <= c && c <= '\u{2f}'
}

/// The character that ends an escape sequence other than a control
/// sequence or an operating-system command.
pub open spec fn is_esc_final(c: char) -> bool {
    '\u{30}' <= c && c <= '\u{7e}'
}

/// Where an escape sequence whose intermediates start at `i` ends: after
/// its final character, before the first character that can be neither, or
/// at the end of the text.
pub open spec fn esc_end(s: Seq<char>, i: int) -> int
    decreases s.len() - i,
{
    if i >= s.len() {
        s.len() as int
    } else if is_esc_intermediate(s[i]) {
        esc_end(s, i + 1)
    } else if is_esc_final(s[i]) {
        i + 1
    } else {
        i
    }
}

/// Where a control sequence whose body starts at `i` ends: after its final
/// character, before the first character that can be neither body nor
/// final, or at the end of the text.
pub open spec fn csi_end(s: Seq<char>, i: int) -> int
    decreases s.len() - i,
{
    if i >= s.len() {
        s.len() as int
    } else if is_csi_body(s[i]) {
        csi_end(s, i + 1)
    } else if is_csi_final(s[i]) {
        i + 1
    } else {
        i
    }
}

/// Where an operating-system command whose body starts at `i` ends: after
/// `BEL`, after `ESC \`, or at the end of the text.
pub open spec fn osc_end(s: Seq<char>, i: int) -> int
    decreases s.len() - i,
{
    if i >= s.len() {
        s.len() as int
    } else if s[i] == BEL {
        i + 1
    } else if s[i] == ESC && i + 1 < s.len() && s[i + 1] == '\\' {
        i + 2
    } else {
        osc_end(s, i + 1)
    }
}

/// Where the escape sequence opened by the `ESC` at `i` ends.
pub open spec fn escape_end(s: Seq<char>, i: int) -> int {
    if i + 1 >= s.len() {
        s.len() as int
    } else if s[i + 1] == '[' {
        csi_end(s, i + 2)
    } else if s[i + 1] == ']' {
        osc_end(s, i + 2)
    } else {
        esc_end(s, i + 1)
    }
}

/// A control sequence ends inside the text.
pub proof fn lemma_csi_end_bounds(s: Seq<char>, i: int)
    requires
        i <= s.len(),
    ensures
        i <= csi_end(s, i) <= s.len(),
    decreases s.len() - i,
{
    if i < s.len() && is_csi_body(s[i]) {
        lemma_csi_end_bounds(s, i + 1);
    }
}

/// An escape sequence's intermediates and final character stay inside the
/// text.
pub proof fn lemma_esc_end_bounds(s: Seq<char>, i: int)
    requires
        i <= s.len(),
    ensures
        i <= esc_end(s, i) <= s.len(),
    decreases s.len() - i,
{
    if i < s.len() && is_esc_intermediate(s[i]) {
        lemma_esc_end_bounds(s, i + 1);
    }
}

/// An operating-system command ends inside the text.
pub proof fn lemma_osc_end_bounds(s: Seq<char>, i: int)
    requires
        i <= s.len(),
    ensures
        i <= osc_end(s, i) <= s.len(),
    decreases s.len() - i,
{
    if i < s.len() && s[i] != BEL && !(s[i] == ESC && i + 1 < s.len() && s[i + 1] == '\\') {
        lemma_osc_end_bounds(s, i + 1);
    }
}

/// An escape sequence ends after its `ESC` and inside the text.
pub proof fn lemma_escape_end_bounds(s: Seq<char>, i: int)
    requires
        0 <= i < s.len(),
    ensures
        i < escape_end(s, i) <= s.len(),
{
    if i + 1 < s.len() {
        if s[i + 1] == '[' {
            lemma_csi_end_bounds(s, i + 2);
        } else if s[i + 1] == ']' {
            lemma_osc_end_bounds(s, i + 2);
        } else {
            lemma_esc_end_bounds(s, i + 1);
        }
    }
}

/// The text of `s` from `i` on, without its escape sequences.
pub open spec fn strip_from(s: Seq<char>, i: int) -> Seq<char>
    decreases s.len() - i,
{
    if i < 0 || i >= s.len() {
        Seq::empty()
    } else if s[i] != ESC {
        seq![s[i]] + strip_from(s, i + 1)
    } else {
        proof {
            lemma_escape_end_bounds(s, i);
        }
        strip_from(s, escape_end(s, i))
    }
}

/// `s` without its terminal escape sequences.
pub open spec fn strip_escapes(s: Seq<char>) -> Seq<char> {
    strip_from(s, 0)
}

proof fn lemma_strip_from_has_no_escape(s: Seq<char>, i: int)
    ensures
        forall|k: int| 0 <= k < strip_from(s, i).len() ==> #[trigger] strip_from(s, i)[k] != ESC,
    decreases s.len() - i,
{
    if 0 <= i < s.len() {
        if s[i] != ESC {
            lemma_strip_from_has_no_escape(s, i + 1);
            assert(strip_from(s, i) == seq![s[i]] + strip_from(s, i + 1));
            assert forall|k: int| 0 <= k < strip_from(s, i).len() implies #[trigger] strip_from(
                s,
                i,
            )[k] != ESC by {
                if k > 0 {
                    assert(strip_from(s, i)[k] == strip_from(s, i + 1)[k - 1]);
                }
            }
        } else {
            lemma_escape_end_bounds(s, i);
            lemma_strip_from_has_no_escape(s, escape_end(s, i));
            assert(strip_from(s, i) == strip_from(s, escape_end(s, i)));
        }
    }
}

proof fn lemma_strip_from_plain(s: Seq<char>, i: int)
    requires
        0 <= i <= s.len(),
        forall|k: int| i <= k < s.len() ==> s[k] != ESC,
    ensures
        strip_from(s, i) == s.subrange(i, s.len() as int),
    decreases s.len() - i,
{
    if i < s.len() {
        lemma_strip_from_plain(s, i + 1);
        assert(s.subrange(i, s.len() as int) =~= seq![s[i]] + s.subrange(i + 1, s.len() as int));
    } else {
        assert(s.subrange(i, s.len() as int) =~= Seq::<char>::empty());
    }
}

/// Text shown after stripping holds no escape character.
pub proof fn lemma_stripped_has_no_escape(s: Seq<char>)
    ensures
        !strip_escapes(s).contains(ESC),
{
    lemma_strip_from_has_no_escape(s, 0);
}

/// Text without an escape character is kept as it is, so stripping twice
/// is stripping once.
pub proof fn lemma_strip_keeps_plain_text(s: Seq<char>)
    requires
        !s.contains(ESC),
    ensures
        strip_escapes(s) == s,
        strip_escapes(strip_escapes(s)) == strip_escapes(s),
{
    assert forall|k: int| 0 <= k < s.len() implies s[k] != ESC by {
        if s[k] == ESC {
            assert(s.contains(ESC));
        }
    }
    lemma_strip_from_plain(s, 0);
    assert(s.subrange(0, s.len() as int) =~= s);
}

/// Stripping is idempotent: what is shown has nothing left to strip.
pub proof fn lemma_strip_idempotent(s: Seq<char>)
    ensures
        strip_escapes(strip_escapes(s)) == strip_escapes(s),
{
    lemma_stripped_has_no_escape(s);
    lemma_strip_keeps_plain_text(strip_escapes(s));
}

/// The characters of `text`, in order.
fn chars_of(text: &str) -> (v: Vec<char>)
    ensures
        v@ == text@,
{
    broadcast use vstd::string::axiom_spec_iter;

    let mut v: Vec<char> = Vec::new();
    for c in it: text.chars()
        invariant
            v@ == it.seq().take(it.index() as int),
            it.seq() == text@,
    {
        v.push(c);
    }
    v
}

fn csi_end_exec(s: &Vec<char>, i: usize) -> (r: usize)
    requires
        i <= s.len(),
    ensures
        r as int == csi_end(s@, i as int),
{
    let mut j = i;
    while j < s.len() && '\u{20}' <= s[j] && s[j] <= '\u{3f}'
        invariant
            i <= j <= s.len(),
            csi_end(s@, i as int) == csi_end(s@, j as int),
        decreases s.len() - j,
    {
        j += 1;
    }
    if j < s.len() && '\u{40}' <= s[j] && s[j] <= '\u{7e}' {
        j + 1
    } else {
        j
    }
}

fn osc_end_exec(s: &Vec<char>, i: usize) -> (r: usize)
    requires
        i <= s.len(),
    ensures
        r as int == osc_end(s@, i as int),
{
    let mut j = i;
    while j < s.len()
        invariant
            i <= j <= s.len(),
            osc_end(s@, i as int) == osc_end(s@, j as int),
        decreases s.len() - j,
    {
        if s[j] == BEL {
            return j + 1;
        }
        if s[j] == ESC && j + 1 < s.len() && s[j + 1] == '\\' {
            return j + 2;
        }
        j += 1;
    }
    j
}

fn esc_end_exec(s: &Vec<char>, i: usize) -> (r: usize)
    requires
        i <= s.len(),
    ensures
        r as int == esc_end(s@, i as int),
{
    let mut j = i;
    while j < s.len() && '\u{20}' <= s[j] && s[j] <= '\u{2f}'
        invariant
            i <= j <= s.len(),
            esc_end(s@, i as int) == esc_end(s@, j as int),
        decreases s.len() - j,
    {
        j += 1;
    }
    if j < s.len() && '\u{30}' <= s[j] && s[j] <= '\u{7e}' {
        j + 1
    } else {
        j
    }
}

fn escape_end_exec(s: &Vec<char>, i: usize) -> (r: usize)
    requires
        i < s.len(),
    ensures
        r as int == escape_end(s@, i as int),
{
    if i + 1 >= s.len() {
        s.len()
    } else if s[i + 1] == '[' {
        csi_end_exec(s, i + 2)
    } else if s[i + 1] == ']' {
        osc_end_exec(s, i + 2)
    } else {
        esc_end_exec(s, i + 1)
    }
}

/// `text` without its terminal escape sequences: every character outside a
/// sequence is kept, in order.
pub fn strip_terminal_escapes(text: &str) -> (r: String)
    ensures
        r@ == strip_escapes(text@),
{
    let s = chars_of(text);
    let mut out = String::new();
    let mut i: usize = 0;
    proof {
        assert(out@ =~= Seq::<char>::empty());
    }
    while i < s.len()
        invariant
            i <= s.len(),
            s@ == text@,
            out@ + strip_from(s@, i as int) == strip_escapes(s@),
        decreases s.len() - i,
    {
        let c = s[i];
        if c != ESC {
            proof {
                assert(strip_from(s@, i as int) == seq![c] + strip_from(s@, i + 1));
                assert(out@ + strip_from(s@, i as int) =~= out@.push(c) + strip_from(s@, i + 1));
            }
            out.push(c);
            i += 1;
        } else {
            proof {
                lemma_escape_end_bounds(s@, i as int);
            }
            i = escape_end_exec(&s, i);
        }
    }
    proof {
        assert(strip_from(s@, i as int) =~= Seq::<char>::empty());
        assert(out@ + Seq::<char>::empty() =~= out@);
    }
    out
}

} // verus!
