//! Identifiers of calls: random (version 4) UUIDs, and their text.

use vstd::prelude::*;

verus! {

/// An identifier that ties a response to the call it answers.
#[derive(PartialEq, Eq, Structural, Clone, Copy, Debug, Hash)]
pub struct Uuid {
    value: u128,
}

impl View for Uuid {
    type V = u128;

    closed spec fn view(&self) -> u128 {
        self.value
    }
}

/// The lower-case hexadecimal digit of `n`, for `0 <= n < 16`.
pub open spec fn hex_digit(n: u128) -> char {
    if n < 10 {
        (48 + n) as char
    } else {
        (87 + n) as char
    }
}

/// The `i`-th group of four bits of `v`, counted from the most significant.
pub open spec fn nibble(v: u128, i: int) -> u128 {
    (v >> ((124 - 4 * i) as u128)) & 15u128
}

/// Which hexadecimal digit stands at position `k` of the hyphenated text.
pub open spec fn digit_index(k: int) -> int {
    k - (if k > 8 { 1int } else { 0int }) - (if k > 13 { 1int } else { 0int }) - (if k > 18 {
        1int
    } else {
        0int
    }) - (if k > 23 { 1int } else { 0int })
}

/// The hyphenated text of a UUID: its 32 lower-case hexadecimal digits,
/// most significant first, in groups of 8, 4, 4, 4 and 12 joined by `-`.
pub open spec fn hyphenated(v: u128) -> Seq<char> {
    Seq::new(
        36,
        |k: int|
            if k == 8 || k == 13 || k == 18 || k == 23 {
                '-'
            } else {
                hex_digit(nibble(v, digit_index(k)))
            },
    )
}

/// Whether `v` is a random UUID: version 4, variant of RFC 4122.
pub open spec fn is_random_uuid(v: u128) -> bool {
    &&& (v >> 76u128) & 15u128 == 4u128
    &&& (v >> 62u128) & 3u128 == 2u128
}

/// Whether a text has a length, in bytes of UTF-8, that the text of a UUID
/// can have: 32 (the digits alone), 36 (hyphenated), 38 (hyphenated in
/// braces) or 45 (hyphenated after `urn:uuid:`).
pub open spec fn has_uuid_length(text: Seq<char>) -> bool {
    let n = vstd::utf8::encode_utf8(text).len();
    n == 32 || n == 36 || n == 38 || n == 45
}

/// What `uuid::Uuid::try_parse` makes of a text, by the UUID's 128-bit value.
pub uninterp spec fn uuid_parse(text: Seq<char>) -> Option<u128>;

/// Calls `uuid::Uuid::new_v4` and takes the 128-bit value. The crate masks
/// random bits so that the version is 4 and the variant is RFC 4122; the
/// other bits are not stated.
#[verifier::external_body]
fn random_uuid_value() -> (v: u128)
    ensures
        is_random_uuid(v),
{
    ::uuid::Uuid::new_v4().as_u128()
}

/// Calls `uuid::Uuid::from_u128(v).hyphenated().to_string()`. Its text is
/// the hyphenated, lower-case form.
#[verifier::external_body]
fn uuid_value_text(v: u128) -> (s: String)
    ensures
        s@ == hyphenated(v),
{
    ::uuid::Uuid::from_u128(v).hyphenated().to_string()
}

/// Calls `uuid::Uuid::try_parse`. The crate reports every failure with the
/// one error text shown below, refuses a text of any length but those of
/// [`has_uuid_length`], and reads the hyphenated text of a value back as
/// that value.
#[verifier::external_body]
fn uuid_try_parse(s: &str) -> (r: Result<u128, String>)
    ensures
        match r {
            Ok(v) => uuid_parse(s@) == Some(v),
            Err(m) => uuid_parse(s@) is None && m@ == "failed to parse a UUID"@,
        },
        r is Ok || forall|v: u128| hyphenated(v) != s@,
        !has_uuid_length(s@) ==> r is Err,
        r matches Ok(w) ==> (forall|v: u128| hyphenated(v) == s@ ==> w == v),
{
    match ::uuid::Uuid::try_parse(s) {
        Ok(u) => Ok(u.as_u128()),
        Err(e) => Err(e.to_string()),
    }
}

/// The words that introduce the reason a text is not a UUID.
pub open spec fn parse_failure_text() -> Seq<char> {
    "Failed to parse Uuid from string: failed to parse a UUID"@
}

/// Two UUIDs are the same exactly where their 128-bit values are.
pub proof fn lemma_uuid_view_injective(a: Uuid, b: Uuid)
    ensures
        a@ == b@ <==> a == b,
{
}

impl Uuid {
    /// A new random UUID (version 4).
    pub fn new_v4() -> (u: Uuid)
        ensures
            is_random_uuid(u@),
    {
        Uuid { value: random_uuid_value() }
    }

    /// The 128-bit value of this UUID.
    pub fn value(&self) -> (v: u128)
        ensures
            v == self@,
    {
        self.value
    }

    /// The hyphenated text of this UUID, as it is shown and sent.
    pub fn to_text(&self) -> (s: String)
        ensures
            s@ == hyphenated(self@),
    {
        uuid_value_text(self.value)
    }

    /// Reads a UUID from its text, as it is received.
    pub fn parse(s: &str) -> (r: Result<Uuid, String>)
        ensures
            r matches Ok(u) ==> uuid_parse(s@) == Some(u@),
            r matches Err(m) ==> (uuid_parse(s@) is None && m@ == parse_failure_text()),
            forall|v: u128| s@ == hyphenated(v) ==> (r matches Ok(u) && u@ == v),
            !has_uuid_length(s@) ==> r is Err,
    {
        match uuid_try_parse(s) {
            Ok(v) => {
                let u = Uuid { value: v };
                assert(u@ == v);
                Ok(u)
            },
            Err(e) => {
                let mut m = String::from_str("Failed to parse Uuid from string: ");
                m.append(e.as_str());
                proof {
                    reveal_strlit("Failed to parse Uuid from string: ");
                    reveal_strlit("failed to parse a UUID");
                    reveal_strlit("Failed to parse Uuid from string: failed to parse a UUID");
                    assert(m@ =~= parse_failure_text());
                }
                Err(m)
            },
        }
    }
}

} // verus!
