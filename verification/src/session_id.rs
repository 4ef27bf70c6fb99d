//! Identity of a session: a UUID of version seven.
use crate::text;
use crate::text::{decimal_text, join};
use vstd::prelude::*;
use vstd::string::*;

verus! {

/// The error of a text that is no UUID.
#[verifier::external_type_specification]
#[verifier::external_body]
pub struct ExUuidError(uuid::Error);

/// The number in the version field of a UUID, given as a big-endian number.
pub open spec fn uuid_version(value: u128) -> int {
    (value as int / 0x1000_0000_0000_0000_0000) % 16
}

/// The character of one hexadecimal digit.
pub open spec fn hex_char(d: int) -> char {
    if d < 10 {
        (48 + d) as char
    } else {
        (87 + d) as char
    }
}

/// The last `count` hexadecimal digits of a number.
pub open spec fn hex_digits(value: nat, count: nat) -> Seq<char>
    decreases count,
{
    if count == 0 {
        Seq::empty()
    } else {
        hex_digits(value / 16, (count - 1) as nat).push(hex_char((value % 16) as int))
    }
}

/// The lower-case hyphenated form of a UUID.
pub open spec fn hyphenated(value: u128) -> Seq<char> {
    let digits = hex_digits(value as nat, 32);
    digits.subrange(0, 8) + seq!['-'] + digits.subrange(8, 12) + seq!['-'] + digits.subrange(12, 16)
        + seq!['-'] + digits.subrange(16, 20) + seq!['-'] + digits.subrange(20, 32)
}

/// The UUID that a text stands for, in any of the forms that are understood.
pub uninterp spec fn uuid_of_text(text: Seq<char>) -> Option<u128>;

/// Reads a UUID.
///
/// Trusted: `uuid::Uuid::parse_str`, with `as_u128` for the number. Whether a
/// text is a UUID, and which one, depends on the text alone; the accepted forms
/// are left to the crate.
#[verifier::external_body]
fn parse_uuid(text: &str) -> (r: Result<u128, uuid::Error>)
    ensures
        r is Ok <==> uuid_of_text(text@) is Some,
        r is Ok ==> Some(r->Ok_0) == uuid_of_text(text@),
{
    uuid::Uuid::parse_str(text).map(|id| id.as_u128())
}

/// Writes a UUID.
///
/// Trusted: the `Display` form of `uuid::Uuid`, which is the lower-case
/// hyphenated one, and which `parse_str` reads back as the same UUID.
#[verifier::external_body]
fn uuid_text(value: u128) -> (r: String)
    ensures
        r@ == hyphenated(value),
        uuid_of_text(r@) == Some(value),
{
    uuid::Uuid::from_u128(value).to_string()
}

/// Creates a UUID of version seven from the current time and random bits.
///
/// Trusted: `uuid::Uuid::now_v7`, which always sets the version field to
/// seven. The other bits are left to the crate.
#[verifier::external_body]
fn fresh_uuid() -> (r: u128)
    ensures
        uuid_version(r) == 7,
{
    uuid::Uuid::now_v7().as_u128()
}

/// Returns the number in the version field of a UUID.
///
/// Trusted: `uuid::Uuid::get_version_num`, which is the upper half of the
/// seventh byte.
#[verifier::external_body]
fn version_number(value: u128) -> (r: usize)
    ensures
        r == uuid_version(value),
{
    uuid::Uuid::from_u128(value).get_version_num()
}

/// Invalid session identity.
#[derive(Debug)]
pub enum SessionIdError {
    /// The text is no UUID.
    InvalidUuid(uuid::Error),
    /// The UUID has another version.
    WrongVersion {
        /// The version that it has.
        version: usize,
    },
}

impl SessionIdError {
    /// The description of the error.
    pub open spec fn text(self) -> Seq<char> {
        match self {
            SessionIdError::InvalidUuid(_) => "invalid session UUID"@,
            SessionIdError::WrongVersion { version } => "session IDs must be UUIDv7, got UUIDv"@
                + text::decimal_digits(version as nat),
        }
    }

    /// Describes the error.
    pub fn message(&self) -> (r: String)
        ensures
            r@ == self.text(),
    {
        match self {
            SessionIdError::InvalidUuid(_) => "invalid session UUID".to_owned(),
            SessionIdError::WrongVersion { version } => join(
                "session IDs must be UUIDv7, got UUIDv",
                decimal_text(*version as u64).as_str(),
            ),
        }
    }
}

/// Stable identity of one session.
#[derive(Clone, Copy, Debug, PartialEq, Eq, Structural)]
pub struct SessionId {
    value: u128,
}

impl View for SessionId {
    type V = u128;

    closed spec fn view(&self) -> u128 {
        self.value
    }
}

/// Whether a text is accepted as a session identity.
pub open spec fn names_session(text: Seq<char>) -> bool {
    uuid_of_text(text) is Some && uuid_version(uuid_of_text(text)->0) == 7
}

impl SessionId {
    /// Every session identity is a UUID of version seven.
    #[verifier::type_invariant]
    spec fn version_seven(self) -> bool {
        uuid_version(self.value) == 7
    }

    /// Creates a new identity.
    pub fn new() -> (r: Self)
        ensures
            uuid_version(r@) == 7,
    {
        SessionId { value: fresh_uuid() }
    }

    /// Returns the identity as a big-endian number.
    pub fn as_uuid(&self) -> (r: u128)
        ensures
            r == self@,
            uuid_version(r) == 7,
    {
        proof {
            use_type_invariant(self);
        }
        self.value
    }

    /// Accepts a UUID of version seven.
    pub fn from_uuid(value: u128) -> (r: Result<Self, SessionIdError>)
        ensures
            match r {
                Ok(id) => uuid_version(value) == 7 && id@ == value,
                Err(SessionIdError::WrongVersion { version }) => version == uuid_version(value)
                    && version != 7,
                Err(SessionIdError::InvalidUuid(_)) => false,
            },
    {
        let version: usize = version_number(value);
        if version == 7 {
            Ok(SessionId { value })
        } else {
            Err(SessionIdError::WrongVersion { version })
        }
    }

    /// Reads an identity.
    pub fn parse(text: &str) -> (r: Result<Self, SessionIdError>)
        ensures
            match r {
                Ok(id) => uuid_of_text(text@) == Some(id@) && uuid_version(id@) == 7,
                Err(SessionIdError::InvalidUuid(_)) => uuid_of_text(text@) is None,
                Err(SessionIdError::WrongVersion { version }) => uuid_of_text(text@) is Some
                    && version == uuid_version(uuid_of_text(text@)->0) && version != 7,
            },
    {
        match parse_uuid(text) {
            Ok(value) => SessionId::from_uuid(value),
            Err(error) => Err(SessionIdError::InvalidUuid(error)),
        }
    }

    /// Writes the identity. [`SessionId::parse`] accepts the text and reads the
    /// same identity back.
    pub fn text(&self) -> (r: String)
        ensures
            r@ == hyphenated(self@),
            uuid_of_text(r@) == Some(self@),
            names_session(r@),
    {
        proof {
            use_type_invariant(self);
        }
        uuid_text(self.value)
    }
}

impl std::str::FromStr for SessionId {
    type Err = SessionIdError;

    fn from_str(value: &str) -> (r: Result<Self, SessionIdError>)
        ensures
            match r {
                Ok(id) => uuid_of_text(value@) == Some(id@) && uuid_version(id@) == 7,
                Err(SessionIdError::InvalidUuid(_)) => uuid_of_text(value@) is None,
                Err(SessionIdError::WrongVersion { version }) => uuid_of_text(value@) is Some
                    && version == uuid_version(uuid_of_text(value@)->0) && version != 7,
            },
    {
        SessionId::parse(value)
    }
}

/// The written form of an identity has the usual groups of lower-case
/// hexadecimal digits, and two identities are written differently.
pub proof fn law_identities_are_written_apart(one: u128, other: u128)
    ensures
        hyphenated(one).len() == 36,
        forall|i: int|
            0 <= i < 36 ==> (#[trigger] hyphenated(one)[i] == '-' <==> i == 8 || i == 13 || i == 18
                || i == 23),
        hyphenated(one) == hyphenated(other) <==> one == other,
{
    lemma_hex_digits(one as nat, 32);
    lemma_hex_digits(other as nat, 32);
    let digits = hex_digits(one as nat, 32);
    let others = hex_digits(other as nat, 32);
    assert forall|i: int| 0 <= i < 36 implies (#[trigger] hyphenated(one)[i] == '-' <==> i == 8 || i
        == 13 || i == 18 || i == 23) by {
        if i < 8 {
            assert(hyphenated(one)[i] == digits[i]);
        } else if 8 < i < 13 {
            assert(hyphenated(one)[i] == digits[i - 1]);
        } else if 13 < i < 18 {
            assert(hyphenated(one)[i] == digits[i - 2]);
        } else if 18 < i < 23 {
            assert(hyphenated(one)[i] == digits[i - 3]);
        } else if 23 < i {
            assert(hyphenated(one)[i] == digits[i - 4]);
        }
    }
    if hyphenated(one) == hyphenated(other) {
        let written = hyphenated(one);
        assert forall|i: int| 0 <= i < 32 implies digits[i] == others[i] by {
            let at: int = if i < 8 {
                i
            } else if i < 12 {
                i + 1
            } else if i < 16 {
                i + 2
            } else if i < 20 {
                i + 3
            } else {
                i + 4
            };
            assert(hyphenated(one)[at] == digits[i]);
            assert(hyphenated(other)[at] == others[i]);
        }
        assert(digits =~= others);
        assert(sixteens(32) == 0x1_0000_0000_0000_0000_0000_0000_0000_0000) by {
            reveal_with_fuel(sixteens, 33);
        }
        lemma_hex_digits_tell_numbers_apart(one as nat, other as nat, 32);
    }
}

/// How many numbers a count of hexadecimal digits can write.
pub open spec fn sixteens(count: nat) -> nat
    decreases count,
{
    if count == 0 {
        1
    } else {
        16 * sixteens((count - 1) as nat)
    }
}

/// Hexadecimal digits are as many as asked for, and none is a hyphen.
proof fn lemma_hex_digits(value: nat, count: nat)
    ensures
        hex_digits(value, count).len() == count,
        forall|i: int| 0 <= i < count ==> (#[trigger] hex_digits(value, count)[i]) != '-',
    decreases count,
{
    if count > 0 {
        lemma_hex_digits(value / 16, (count - 1) as nat);
    }
}

/// Numbers with the same digits are the same.
proof fn lemma_hex_digits_tell_numbers_apart(one: nat, other: nat, count: nat)
    requires
        one < sixteens(count),
        other < sixteens(count),
        hex_digits(one, count) == hex_digits(other, count),
    ensures
        one == other,
    decreases count,
{
    if count > 0 {
        let shorter = (count - 1) as nat;
        lemma_hex_digits(one, count);
        lemma_hex_digits(other, count);
        lemma_hex_digits(one / 16, shorter);
        lemma_hex_digits(other / 16, shorter);
        let a = hex_digits(one, count);
        let b = hex_digits(other, count);
        assert(a.drop_last() =~= hex_digits(one / 16, shorter));
        assert(b.drop_last() =~= hex_digits(other / 16, shorter));
        assert(a.last() == hex_char((one % 16) as int));
        assert(b.last() == hex_char((other % 16) as int));
        assert(one % 16 == other % 16);
        lemma_hex_digits_tell_numbers_apart(one / 16, other / 16, shorter);
    }
}

/// A text names a session exactly when it stands for a UUID of version seven.
pub proof fn law_sessions_have_version_seven(text: Seq<char>)
    ensures
        names_session(text) ==> (uuid_of_text(text) matches Some(value) && uuid_version(value) == 7),
        uuid_of_text(text) matches Some(value) ==> uuid_version(value) == 7 ==> names_session(text),
        uuid_of_text(text) is None ==> !names_session(text),
{
}

/// A message about another version names it.
pub proof fn law_version_faults_name_the_version(error: SessionIdError)
    ensures
        error matches SessionIdError::WrongVersion { version } ==> error.text()
            == "session IDs must be UUIDv7, got UUIDv"@ + text::decimal_digits(version as nat),
{
}

} // verus!
