//! Bearer-token authentication for the A2A endpoints: which tokens are
//! acceptable, how a presented token is compared, and when an
//! `Authorization` header authenticates a request.

use vstd::prelude::*;

use crate::ids::{is_hyphenated_uuid, is_lower_hex, is_uuid_hyphen_position, new_v4_text};
use crate::text::{
    contains_whitespace,
    eq_ignore_ascii_case,
    eq_ignore_ascii_case_spec,
    has_white_space,
    is_white_space,
};

verus! {

/// The message of the error returned for an unacceptable token.
pub const INVALID_TOKEN_MESSAGE: &'static str =
    "A2A authentication token must be non-empty ASCII text without whitespace";

/// The text that stands for a token wherever a token is described.
pub const REDACTED_TOKEN_TEXT: &'static str = "AuthToken(REDACTED)";

/// The authentication scheme that protected endpoints accept.
pub const BEARER_SCHEME: &'static str = "Bearer";

/// A token is acceptable when it is non-empty ASCII text without whitespace.
pub open spec fn valid_token_text(s: Seq<char>) -> bool {
    &&& s.len() > 0
    &&& vstd::utf8::is_ascii_chars(s)
    &&& !has_white_space(s)
}

/// The index of the first space in `s`, if there is one.
pub open spec fn first_space(s: Seq<char>) -> Option<int> {
    if exists|i: int| 0 <= i < s.len() && s[i] == ' ' {
        Some(
            choose|i: int|
                0 <= i < s.len() && s[i] == ' ' && forall|j: int| 0 <= j < i ==> s[j] != ' ',
        )
    } else {
        None
    }
}

/// Whether an `Authorization` header value authenticates with the token
/// `expected`: a scheme equal to `Bearer` up to ASCII case, one space, then a
/// non-empty credential without whitespace that equals the token.
pub open spec fn header_authenticates(value: Seq<char>, expected: Seq<char>) -> bool {
    match first_space(value) {
        Some(i) => {
            let scheme = value.subrange(0, i);
            let credential = value.subrange(i + 1, value.len() as int);
            &&& eq_ignore_ascii_case_spec(scheme, BEARER_SCHEME@)
            &&& credential.len() > 0
            &&& !has_white_space(credential)
            &&& credential == expected
        },
        None => false,
    }
}

/// Whether the `Authorization` headers of a request authenticate it: exactly
/// one header, whose value is text (`None` stands for a value that is not
/// visible ASCII) and authenticates with `expected`.
pub open spec fn headers_authenticate(values: Seq<Option<String>>, expected: Seq<char>) -> bool {
    &&& values.len() == 1
    &&& values[0] is Some
    &&& header_authenticates(values[0]->0@, expected)
}

/// Why a token was refused.
#[derive(Clone, Copy, Debug, PartialEq, Eq, Structural)]
pub enum AuthTokenError {
    /// The token is empty, not ASCII, or contains whitespace.
    InvalidToken,
}

impl AuthTokenError {
    /// The error's message.
    pub fn message(&self) -> (s: &'static str)
        ensures
            s@ == INVALID_TOKEN_MESSAGE@,
    {
        INVALID_TOKEN_MESSAGE
    }
}

/// The bearer token that protects the RPC and streaming endpoints.
pub struct AuthToken {
    value: String,
}

impl View for AuthToken {
    type V = Seq<char>;

    closed spec fn view(&self) -> Seq<char> {
        self.value@
    }
}

impl AuthToken {
    /// Every token holds acceptable text.
    pub closed spec fn well_formed(&self) -> bool {
        valid_token_text(self.value@)
    }

    /// A token made of a fresh random UUID in hyphenated form.
    pub fn generated() -> (t: AuthToken)
        ensures
            t.well_formed(),
            valid_token_text(t@),
            is_hyphenated_uuid(t@),
    {
        let value = new_v4_text();
        proof {
            let s = value@;
            assert forall|i: int| 0 <= i < s.len() implies '\0' <= #[trigger] s[i] <= '\u{7f}' by {
                if !is_uuid_hyphen_position(i) {
                    assert(is_lower_hex(s[i]));
                }
            }
            assert forall|i: int| 0 <= i < s.len() implies !#[trigger] is_white_space(s[i]) by {
                if !is_uuid_hyphen_position(i) {
                    assert(is_lower_hex(s[i]));
                }
            }
        }
        AuthToken { value }
    }

    /// A token from caller-supplied text, refused unless it is non-empty
    /// ASCII text without whitespace.
    pub fn from_value(value: String) -> (r: Result<AuthToken, AuthTokenError>)
        ensures
            r is Ok <==> valid_token_text(value@),
            r matches Ok(t) ==> t@ == value@ && t.well_formed(),
            r matches Err(e) ==> e == AuthTokenError::InvalidToken,
    {
        let text = value.as_str();
        assert(text@ == value@);
        let len = text.unicode_len();
        if len == 0 || !text.is_ascii() || contains_whitespace(text) {
            proof {
                if len != 0 && text.is_ascii() {
                    assert(has_white_space(value@));
                }
            }
            return Err(AuthTokenError::InvalidToken);
        }
        Ok(AuthToken { value })
    }

    /// The token's text.
    pub fn as_str(&self) -> (s: &str)
        ensures
            s@ == self@,
    {
        self.value.as_str()
    }

    /// How the token is described in diagnostics: its text never appears.
    pub fn redacted_text(&self) -> (s: &'static str)
        ensures
            s@ == REDACTED_TOKEN_TEXT@,
    {
        REDACTED_TOKEN_TEXT
    }

    /// Whether `presented` is this token. The comparison visits every byte
    /// of the longer of the two texts and folds their differences together
    /// without branching on their contents.
    pub fn matches(&self, presented: &str) -> (r: bool)
        ensures
            r == (self@ == presented@),
    {
        let expected = self.value.as_str().as_bytes();
        let given = presented.as_bytes();
        let elen = expected.len();
        let glen = given.len();
        let mut difference: usize = elen ^ glen;
        assert((difference == 0) == (elen == glen)) by (bit_vector)
            requires
                difference == elen ^ glen,
        ;
        let comparison_len = if elen < glen {
            glen
        } else {
            elen
        };
        let mut index: usize = 0;
        while index < comparison_len
            invariant
                expected@ == vstd::utf8::encode_utf8(self.value@),
                given@ == vstd::utf8::encode_utf8(presented@),
                elen == expected@.len(),
                glen == given@.len(),
                comparison_len == if elen < glen {
                    glen
                } else {
                    elen
                },
                index <= comparison_len,
                (difference == 0) == (elen == glen && forall|j: int|
                    0 <= j < index && j < elen && j < glen ==> #[trigger] expected@[j] == given@[j]),
            decreases comparison_len - index,
        {
            let expected_byte: u8 = if index < elen {
                expected[index]
            } else {
                0
            };
            let given_byte: u8 = if index < glen {
                given[index]
            } else {
                0
            };
            let x: u8 = expected_byte ^ given_byte;
            assert((x == 0) == (expected_byte == given_byte)) by (bit_vector)
                requires
                    x == expected_byte ^ given_byte,
            ;
            let next: usize = difference | (x as usize);
            assert((next == 0) == (difference == 0 && x == 0)) by (bit_vector)
                requires
                    next == difference | (x as usize),
            ;
            proof {
                if next == 0 {
                    assert forall|j: int|
                        0 <= j < index + 1 && j < elen && j < glen implies #[trigger] expected@[j]
                        == given@[j] by {
                        if j == index {
                            assert(expected@[j] == expected_byte);
                        }
                    }
                }
                if index < elen && index < glen && expected@[index as int] != given@[index as int] {
                    assert(x != 0);
                }
            }
            difference = next;
            index += 1;
        }
        proof {
            vstd::utf8::encode_utf8_decode_utf8(self.value@);
            vstd::utf8::encode_utf8_decode_utf8(presented@);
            if difference == 0 {
                assert(expected@ =~= given@);
            } else if self.value@ == presented@ {
                assert(expected@ == given@);
            }
        }
        difference == 0
    }
}

/// Finds the first space of `s`.
fn find_first_space(s: &str) -> (r: Option<usize>)
    ensures
        r matches Some(k) ==> first_space(s@) == Some(k as int) && k < s@.len(),
        r is None ==> first_space(s@) is None,
{
    let len = s.unicode_len();
    let mut i: usize = 0;
    while i < len
        invariant
            len == s@.len(),
            i <= len,
            forall|j: int| 0 <= j < i ==> s@[j] != ' ',
        decreases len - i,
    {
        if s.get_char(i) == ' ' {
            proof {
                let w = choose|k: int|
                    0 <= k < s@.len() && s@[k] == ' ' && forall|j: int| 0 <= j < k ==> s@[j] != ' ';
                assert(s@[i as int] == ' ');
                if w < i {
                    assert(s@[w] != ' ');
                } else if w > i {
                    assert(s@[i as int] != ' ');
                }
            }
            return Some(i);
        }
        i += 1;
    }
    None
}

/// Whether one `Authorization` header value authenticates with `token`.
pub fn header_value_authenticates(token: &AuthToken, value: &str) -> (r: bool)
    ensures
        r == header_authenticates(value@, token@),
{
    let len = value.unicode_len();
    let Some(i) = find_first_space(value) else {
        return false;
    };
    let scheme = value.substring_char(0, i);
    let credential = value.substring_char(i + 1, len);
    assert(first_space(value@) == Some(i as int));
    assert(scheme@ == value@.subrange(0, i as int));
    assert(credential@ == value@.subrange(i + 1, value@.len() as int));
    eq_ignore_ascii_case(scheme, BEARER_SCHEME) && credential.unicode_len() > 0 && !contains_whitespace(
        credential,
    ) && token.matches(credential)
}

/// Whether the `Authorization` headers of a request authenticate it with
/// `token`. Each entry of `values` is one header, as text where its value is
/// visible ASCII and `None` where it is not.
pub fn has_valid_bearer_auth(token: &AuthToken, values: &Vec<Option<String>>) -> (r: bool)
    ensures
        r == headers_authenticate(values@, token@),
{
    if values.len() != 1 {
        return false;
    }
    match &values[0] {
        Some(value) => header_value_authenticates(token, value.as_str()),
        None => false,
    }
}

/// A header `Bearer <credential>` authenticates exactly when the credential
/// is the token's own text.
pub proof fn law_token_matches_only_itself(token: AuthToken, presented: Seq<char>)
    requires
        token.well_formed(),
    ensures
        header_authenticates(seq!['B', 'e', 'a', 'r', 'e', 'r', ' '] + presented, token@)
            <==> presented == token@,
{
    let value = seq!['B', 'e', 'a', 'r', 'e', 'r', ' '] + presented;
    reveal_strlit("Bearer");
    assert(value[6] == ' ');
    let i = choose|i: int|
        0 <= i < value.len() && value[i] == ' ' && forall|j: int| 0 <= j < i ==> value[j] != ' ';
    assert(first_space(value) == Some(i));
    if i < 6 {
        assert(value[i] != ' ');
    } else if i > 6 {
        assert(value[6] != ' ');
    }
    assert(value.subrange(7, value.len() as int) =~= presented);
    assert(value.subrange(0, 6) =~= BEARER_SCHEME@);
    assert(eq_ignore_ascii_case_spec(value.subrange(0, 6), BEARER_SCHEME@));
    if presented == token@ {
        assert(valid_token_text(token.value@));
    }
}

} // verus!
