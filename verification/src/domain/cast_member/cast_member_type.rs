use vstd::prelude::*;

use crate::domain::shared::text::{decimal, decimal_text};

verus! {

/// The role a cast member plays.
#[derive(Debug, Clone, Copy, PartialEq, Eq, Structural)]
pub enum CastMemberType {
    Director,
    Actor,
}

/// A number that names no cast member type.
#[derive(Debug, Clone, Copy, PartialEq, Eq, Structural)]
pub struct InvalidCastMemberTypeError(pub u8);

/// The type a number names: 1 is a director, 2 an actor.
pub open spec fn cast_member_type_of(value: u8) -> Result<CastMemberType, InvalidCastMemberTypeError> {
    if value == 1 {
        Ok(CastMemberType::Director)
    } else if value == 2 {
        Ok(CastMemberType::Actor)
    } else {
        Err(InvalidCastMemberTypeError(value))
    }
}

/// The number of a type.
pub open spec fn cast_member_type_number(t: CastMemberType) -> u8 {
    match t {
        CastMemberType::Director => 1,
        CastMemberType::Actor => 2,
    }
}

/// The name of a type.
pub open spec fn cast_member_type_name(t: CastMemberType) -> Seq<char> {
    match t {
        CastMemberType::Director => "Director"@,
        CastMemberType::Actor => "Actor"@,
    }
}

impl CastMemberType {
    /// The type a number names; 1 and 2 are the only valid numbers.
    pub fn from_u8(value: u8) -> (result: Result<Self, InvalidCastMemberTypeError>)
        ensures
            result == cast_member_type_of(value),
    {
        match value {
            1 => Ok(CastMemberType::Director),
            2 => Ok(CastMemberType::Actor),
            _ => Err(InvalidCastMemberTypeError(value)),
        }
    }

    /// The number of the type: 1 for a director, 2 for an actor.
    pub fn value(&self) -> (number: u8)
        ensures
            number == cast_member_type_number(*self),
    {
        match self {
            CastMemberType::Director => 1,
            CastMemberType::Actor => 2,
        }
    }

    /// `Director` or `Actor`.
    pub fn to_string(&self) -> (name: String)
        ensures
            name@ == cast_member_type_name(*self),
    {
        match self {
            CastMemberType::Director => String::from_str("Director"),
            CastMemberType::Actor => String::from_str("Actor"),
        }
    }
}

/// The message of an [`InvalidCastMemberTypeError`].
pub open spec fn invalid_cast_member_type_message(value: u8) -> Seq<char> {
    "Invalid cast member type: "@ + decimal(value as nat)
        + ". Valid values are 1 (Director) or 2 (Actor)"@
}

impl InvalidCastMemberTypeError {
    /// `Invalid cast member type: <n>. Valid values are 1 (Director) or 2 (Actor)`.
    pub fn to_string(&self) -> (message: String)
        ensures
            message@ == invalid_cast_member_type_message(self.0),
    {
        let mut message = String::from_str("Invalid cast member type: ");
        let number = decimal_text(self.0 as u64);
        message.append(number.as_str());
        message.append(". Valid values are 1 (Director) or 2 (Actor)");
        message
    }
}

/// Reading back the number of a type gives the type.
pub proof fn lemma_cast_member_type_round_trip(t: CastMemberType)
    ensures
        cast_member_type_of(cast_member_type_number(t)) == Ok::<CastMemberType, InvalidCastMemberTypeError>(t),
{
}

/// A number read as a type gives that number back.
pub proof fn lemma_cast_member_number_round_trip(value: u8)
    ensures
        cast_member_type_of(value) matches Ok(t) ==> cast_member_type_number(t) == value,
{
}

} // verus!
