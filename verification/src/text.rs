//! Character-level text helpers shared by the protocol code: Unicode
//! whitespace, trimming, ASCII case folding and prefix handling.

use vstd::prelude::*;

verus! {

/// The Unicode `White_Space` property, which `char::is_whitespace` reports.
pub open spec fn is_white_space(c: char) -> bool {
    ||| ('\u{9}' <= c && c <= '\u{d}')
    ||| c == ' '
    ||| c == '\u{85}'
    ||| c == '\u{a0}'
    ||| c == '\u{1680}'
    ||| ('\u{2000}' <= c && c <= '\u{200a}')
    ||| c == '\u{2028}'
    ||| c == '\u{2029}'
    ||| c == '\u{202f}'
    ||| c == '\u{205f}'
    ||| c == '\u{3000}'
}

/// Whether some character of `s` is whitespace.
pub open spec fn has_white_space(s: Seq<char>) -> bool {
    exists|i: int| 0 <= i < s.len() && #[trigger] is_white_space(s[i])
}

/// `s` without its leading whitespace.
pub open spec fn trim_front(s: Seq<char>) -> Seq<char>
    decreases s.len(),
{
    if s.len() > 0 && is_white_space(s[0]) {
        trim_front(s.drop_first())
    } else {
        s
    }
}

/// `s` without its trailing whitespace.
pub open spec fn trim_back(s: Seq<char>) -> Seq<char>
    decreases s.len(),
{
    if s.len() > 0 && is_white_space(s.last()) {
        trim_back(s.drop_last())
    } else {
        s
    }
}

/// What `str::trim` returns: `s` without leading and trailing whitespace.
pub open spec fn trimmed(s: Seq<char>) -> Seq<char> {
    trim_back(trim_front(s))
}

/// The code of `c` with ASCII upper-case letters mapped to lower case.
pub open spec fn ascii_fold(c: char) -> u32 {
    if 'A' <= c && c <= 'Z' {
        (c as u32 + 32) as u32
    } else {
        c as u32
    }
}

/// What `str::eq_ignore_ascii_case` decides.
pub open spec fn eq_ignore_ascii_case_spec(a: Seq<char>, b: Seq<char>) -> bool {
    &&& a.len() == b.len()
    &&& forall|i: int| 0 <= i < a.len() ==> #[trigger] ascii_fold(a[i]) == ascii_fold(b[i])
}

/// Whether `s` starts with `prefix`.
pub open spec fn has_prefix(s: Seq<char>, prefix: Seq<char>) -> bool {
    prefix.len() <= s.len() && s.subrange(0, prefix.len() as int) == prefix
}

/// Whether `s` ends with `suffix`.
pub open spec fn has_suffix(s: Seq<char>, suffix: Seq<char>) -> bool {
    suffix.len() <= s.len() && s.subrange(s.len() - suffix.len(), s.len() as int) == suffix
}

/// `String::push` appends one character.
pub assume_specification[ String::push ](string: &mut String, ch: char)
    ensures
        final(string)@ == old(string)@.push(ch),
;

/// `char::to_ascii_uppercase`: ASCII lower-case letters become upper case,
/// every other character stays.
pub open spec fn ascii_upper(c: char) -> char {
    if 'a' <= c && c <= 'z' {
        ((c as u32) - 32) as char
    } else {
        c
    }
}

/// `char::to_ascii_uppercase`.
pub fn to_ascii_uppercase(c: char) -> (r: char)
    ensures
        r == ascii_upper(c),
{
    if 'a' <= c && c <= 'z' {
        let code: u8 = (c as u32 - 32) as u8;
        code as char
    } else {
        c
    }
}

/// `char::is_whitespace`.
pub fn is_whitespace(c: char) -> (r: bool)
    ensures
        r == is_white_space(c),
{
    ('\u{9}' <= c && c <= '\u{d}') || c == ' ' || c == '\u{85}' || c == '\u{a0}' || c == '\u{1680}'
        || ('\u{2000}' <= c && c <= '\u{200a}') || c == '\u{2028}' || c == '\u{2029}' || c
        == '\u{202f}' || c == '\u{205f}' || c == '\u{3000}'
}

/// Whether any character of `s` is whitespace.
pub fn contains_whitespace(s: &str) -> (r: bool)
    ensures
        r == has_white_space(s@),
{
    let len = s.unicode_len();
    let mut i: usize = 0;
    while i < len
        invariant
            len == s@.len(),
            i <= len,
            forall|j: int| 0 <= j < i ==> !#[trigger] is_white_space(s@[j]),
        decreases len - i,
    {
        let c = s.get_char(i);
        if is_whitespace(c) {
            assert(is_white_space(s@[i as int]));
            return true;
        }
        i += 1;
    }
    false
}

proof fn lemma_trim_front_skip(s: Seq<char>, k: int)
    requires
        0 <= k <= s.len(),
        forall|j: int| 0 <= j < k ==> #[trigger] is_white_space(s[j]),
    ensures
        trim_front(s) == trim_front(s.subrange(k, s.len() as int)),
    decreases k,
{
    if k > 0 {
        assert(is_white_space(s[0]));
        let rest = s.drop_first();
        assert forall|j: int| 0 <= j < k - 1 implies #[trigger] is_white_space(rest[j]) by {
            assert(rest[j] == s[j + 1]);
        }
        lemma_trim_front_skip(rest, k - 1);
        assert(rest.subrange(k - 1, rest.len() as int) =~= s.subrange(k, s.len() as int));
    } else {
        assert(s.subrange(0, s.len() as int) =~= s);
    }
}

proof fn lemma_trim_back_skip(s: Seq<char>, k: int)
    requires
        0 <= k <= s.len(),
        forall|j: int| k <= j < s.len() ==> #[trigger] is_white_space(s[j]),
    ensures
        trim_back(s) == trim_back(s.subrange(0, k)),
    decreases s.len() - k,
{
    if k < s.len() {
        assert(is_white_space(s.last()));
        let rest = s.drop_last();
        assert forall|j: int| k <= j < rest.len() implies #[trigger] is_white_space(rest[j]) by {
            assert(rest[j] == s[j]);
        }
        lemma_trim_back_skip(rest, k);
        assert(rest.subrange(0, k) =~= s.subrange(0, k));
    } else {
        assert(s.subrange(0, k) =~= s);
    }
}

/// `str::trim`: `s` without leading and trailing whitespace.
pub fn trim(s: &str) -> (r: &str)
    ensures
        r@ == trimmed(s@),
{
    let len = s.unicode_len();
    let mut start: usize = 0;
    while start < len && is_whitespace(s.get_char(start))
        invariant
            len == s@.len(),
            start <= len,
            forall|j: int| 0 <= j < start ==> #[trigger] is_white_space(s@[j]),
        decreases len - start,
    {
        start += 1;
    }
    proof {
        lemma_trim_front_skip(s@, start as int);
    }
    let ghost front = s@.subrange(start as int, len as int);
    assert(start == len || !is_white_space(front[0]));
    assert(trim_front(front) == front);
    let mut end: usize = len;
    while end > start && is_whitespace(s.get_char(end - 1))
        invariant
            len == s@.len(),
            start <= end <= len,
            forall|j: int| end <= j < len ==> #[trigger] is_white_space(s@[j]),
        decreases end,
    {
        end -= 1;
    }
    proof {
        let k = end - start;
        assert forall|j: int| k <= j < front.len() implies #[trigger] is_white_space(front[j]) by {
            assert(front[j] == s@[j + start]);
        }
        lemma_trim_back_skip(front, k);
        let kept = front.subrange(0, k);
        assert(kept =~= s@.subrange(start as int, end as int));
        if kept.len() > 0 {
            assert(kept.last() == s@[end - 1]);
        }
    }
    s.substring_char(start, end)
}

/// Whether two texts are equal.
pub fn str_eq(a: &str, b: &str) -> (r: bool)
    ensures
        r == (a@ == b@),
{
    let len = a.unicode_len();
    if len != b.unicode_len() {
        return false;
    }
    let mut i: usize = 0;
    while i < len
        invariant
            len == a@.len(),
            len == b@.len(),
            i <= len,
            forall|j: int| 0 <= j < i ==> a@[j] == b@[j],
        decreases len - i,
    {
        if a.get_char(i) != b.get_char(i) {
            return false;
        }
        i += 1;
    }
    assert(a@ =~= b@);
    true
}

/// `str::eq_ignore_ascii_case`.
pub fn eq_ignore_ascii_case(a: &str, b: &str) -> (r: bool)
    ensures
        r == eq_ignore_ascii_case_spec(a@, b@),
{
    let len = a.unicode_len();
    if len != b.unicode_len() {
        return false;
    }
    let mut i: usize = 0;
    while i < len
        invariant
            len == a@.len(),
            len == b@.len(),
            i <= len,
            forall|j: int| 0 <= j < i ==> #[trigger] ascii_fold(a@[j]) == ascii_fold(b@[j]),
        decreases len - i,
    {
        let x = a.get_char(i);
        let y = b.get_char(i);
        let fx: u32 = if 'A' <= x && x <= 'Z' {
            x as u32 + 32
        } else {
            x as u32
        };
        let fy: u32 = if 'A' <= y && y <= 'Z' {
            y as u32 + 32
        } else {
            y as u32
        };
        if fx != fy {
            assert(ascii_fold(a@[i as int]) != ascii_fold(b@[i as int]));
            return false;
        }
        i += 1;
    }
    true
}

/// `str::strip_prefix`: the rest of `s` after `prefix`, when `s` starts with it.
pub fn strip_prefix<'a>(s: &'a str, prefix: &str) -> (r: Option<&'a str>)
    ensures
        r.is_some() == has_prefix(s@, prefix@),
        r.is_some() ==> r.unwrap()@ == s@.subrange(prefix@.len() as int, s@.len() as int),
{
    let len = s.unicode_len();
    let plen = prefix.unicode_len();
    if plen > len {
        return None;
    }
    let mut i: usize = 0;
    while i < plen
        invariant
            len == s@.len(),
            plen == prefix@.len(),
            plen <= len,
            i <= plen,
            forall|j: int| 0 <= j < i ==> #[trigger] s@[j] == prefix@[j],
        decreases plen - i,
    {
        if s.get_char(i) != prefix.get_char(i) {
            assert(s@.subrange(0, plen as int)[i as int] != prefix@[i as int]);
            return None;
        }
        i += 1;
    }
    assert(s@.subrange(0, plen as int) =~= prefix@);
    Some(s.substring_char(plen, len))
}

/// `str::strip_suffix`: `s` without `suffix`, when `s` ends with it.
pub fn strip_suffix<'a>(s: &'a str, suffix: &str) -> (r: Option<&'a str>)
    ensures
        r.is_some() == has_suffix(s@, suffix@),
        r.is_some() ==> r.unwrap()@ == s@.subrange(0, s@.len() - suffix@.len()),
{
    let len = s.unicode_len();
    let slen = suffix.unicode_len();
    if slen > len {
        return None;
    }
    let start = len - slen;
    let mut i: usize = 0;
    while i < slen
        invariant
            len == s@.len(),
            slen == suffix@.len(),
            start == len - slen,
            i <= slen,
            forall|j: int| 0 <= j < i ==> s@[start + j] == #[trigger] suffix@[j],
        decreases slen - i,
    {
        if s.get_char(start + i) != suffix.get_char(i) {
            assert(s@.subrange(start as int, len as int)[i as int] != suffix@[i as int]);
            return None;
        }
        i += 1;
    }
    assert forall|j: int| 0 <= j < slen implies s@.subrange(start as int, len as int)[j]
        == suffix@[j] by {
        assert(s@[start + j] == suffix@[j]);
    }
    assert(s@.subrange(start as int, len as int) =~= suffix@);
    Some(s.substring_char(0, start))
}

} // verus!
