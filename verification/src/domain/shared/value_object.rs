use vstd::arithmetic::power::pow;
use vstd::prelude::*;

verus! {

/// The lowercase hexadecimal digit for a nibble value in `0..16`.
pub open spec fn hex_digit(n: int) -> char {
    if n < 10 {
        (n + 48) as char
    } else {
        (n + 87) as char
    }
}

/// Index of the hexadecimal digit shown at position `i` of the hyphenated form.
pub open spec fn hyphenated_digit_index(i: int) -> int {
    if i < 8 {
        i
    } else if i < 13 {
        i - 1
    } else if i < 18 {
        i - 2
    } else if i < 23 {
        i - 3
    } else {
        i - 4
    }
}

/// The hyphenated lowercase text of a UUID whose big-endian value is `value`,
/// such as `67e55044-10b1-426f-9247-bb680e5fe0c8`.
pub open spec fn uuid_text(value: u128) -> Seq<char> {
    Seq::new(
        36,
        |i: int|
            if i == 8 || i == 13 || i == 18 || i == 23 {
                '-'
            } else {
                hex_digit(
                    (value as int / pow(16, (31 - hyphenated_digit_index(i)) as nat)) % 16,
                )
            },
    )
}

/// What `uuid::Uuid::parse_str` gives for a text: the UUID's big-endian value,
/// or `None` where the text is no UUID.
pub uninterp spec fn uuid_parse(text: Seq<char>) -> Option<u128>;

/// Calls `uuid::Uuid::parse_str`. Claimed: the result is `uuid_parse` of the text.
#[verifier::external_body]
fn parse_uuid_text(text: &str) -> (parsed: Option<u128>)
    ensures
        parsed == uuid_parse(text@),
{
    uuid::Uuid::parse_str(text).ok().map(|u| u.as_u128())
}

/// Formats with `uuid::Uuid`'s `Display`. Claimed: the text is the hyphenated
/// lowercase form, and `parse_str` reads that form back to the same value.
#[verifier::external_body]
fn format_uuid(value: u128) -> (text: String)
    ensures
        text@ == uuid_text(value),
        uuid_parse(text@) == Some(value),
{
    uuid::Uuid::from_u128(value).to_string()
}

/// A version 4 (random) UUID of the RFC 4122 variant: its version nibble
/// (bits 76 to 79) is 4 and the top two bits of its variant (bits 62 and 63)
/// are `10`.
pub open spec fn is_random_uuid(value: u128) -> bool {
    &&& (value as int / 0x1000_0000_0000_0000_0000) % 16 == 4
    &&& (value as int / 0x4000_0000_0000_0000) % 4 == 2
}

/// Calls `uuid::Uuid::new_v4`. Claimed: the value has the version and variant
/// bits that `new_v4` sets; nothing more is claimed of the random value.
#[verifier::external_body]
fn random_uuid() -> (value: u128)
    ensures
        is_random_uuid(value),
{
    uuid::Uuid::new_v4().as_u128()
}

/// A UUID, held as its 128-bit big-endian value.
#[derive(Debug, Clone, Copy, PartialEq, Eq, Hash, Structural)]
pub struct UuidVo {
    pub id: u128,
}

/// Raised when a text is not a UUID; it carries that text.
#[derive(Debug, Clone)]
pub struct InvalidUuidError(pub String);

/// The message of an [`InvalidUuidError`] for a given text.
pub open spec fn invalid_uuid_message(text: Seq<char>) -> Seq<char> {
    "Invalid UUID: "@ + text
}

impl InvalidUuidError {
    /// The error's message: `Invalid UUID: ` followed by the text.
    pub fn to_string(&self) -> (message: String)
        ensures
            message@ == invalid_uuid_message(self.0@),
    {
        let mut message = String::from_str("Invalid UUID: ");
        message.append(self.0.as_str());
        message
    }
}

impl UuidVo {
    /// A fresh random (version 4) UUID.
    pub fn new() -> (uuid: Self)
        ensures
            is_random_uuid(uuid.id),
    {
        UuidVo { id: random_uuid() }
    }

    /// Reads a UUID from text; the error carries the text when it is none.
    pub fn from(id: &str) -> (result: Result<Self, InvalidUuidError>)
        ensures
            match uuid_parse(id@) {
                Some(v) => result == Ok::<UuidVo, InvalidUuidError>(UuidVo { id: v }),
                None => result matches Err(e) && e.0@ == id@,
            },
    {
        match parse_uuid_text(id) {
            Some(v) => Ok(UuidVo { id: v }),
            None => Err(InvalidUuidError(String::from_str(id))),
        }
    }

    /// The UUID's 128-bit value.
    pub fn id(&self) -> (value: u128)
        ensures
            value == self.id,
    {
        self.id
    }

    /// The hyphenated lowercase text of the UUID.
    pub fn to_string(&self) -> (text: String)
        ensures
            text@ == uuid_text(self.id),
            uuid_parse(text@) == Some(self.id),
    {
        format_uuid(self.id)
    }
}

impl Default for UuidVo {
    fn default() -> Self {
        Self::new()
    }
}

} // verus!
