use vstd::prelude::*;

use crate::domain::shared::text::text_eq;

verus! {

/// The age rating of a video.
#[derive(Debug, Clone, Copy, PartialEq, Eq, Structural)]
pub enum Rating {
    RL,
    R10,
    R12,
    R14,
    R16,
    R18,
}

/// A text that names no rating; it carries the text.
#[derive(Debug, Clone)]
pub struct InvalidRatingError(pub String);

/// The text of a rating: `L`, `10`, `12`, `14`, `16` or `18`.
pub open spec fn rating_text(rating: Rating) -> Seq<char> {
    match rating {
        Rating::RL => "L"@,
        Rating::R10 => "10"@,
        Rating::R12 => "12"@,
        Rating::R14 => "14"@,
        Rating::R16 => "16"@,
        Rating::R18 => "18"@,
    }
}

/// The rating a text names, if any.
pub open spec fn rating_of(text: Seq<char>) -> Option<Rating> {
    if text == "L"@ {
        Some(Rating::RL)
    } else if text == "10"@ {
        Some(Rating::R10)
    } else if text == "12"@ {
        Some(Rating::R12)
    } else if text == "14"@ {
        Some(Rating::R14)
    } else if text == "16"@ {
        Some(Rating::R16)
    } else if text == "18"@ {
        Some(Rating::R18)
    } else {
        None
    }
}

impl Rating {
    /// The rating a text names; the error carries the text when it names none.
    pub fn from_str(value: &str) -> (result: Result<Self, InvalidRatingError>)
        ensures
            match rating_of(value@) {
                Some(r) => result matches Ok(x) && x == r,
                None => result matches Err(e) && e.0@ == value@,
            },
    {
        if text_eq(value, "L") {
            Ok(Rating::RL)
        } else if text_eq(value, "10") {
            Ok(Rating::R10)
        } else if text_eq(value, "12") {
            Ok(Rating::R12)
        } else if text_eq(value, "14") {
            Ok(Rating::R14)
        } else if text_eq(value, "16") {
            Ok(Rating::R16)
        } else if text_eq(value, "18") {
            Ok(Rating::R18)
        } else {
            Err(InvalidRatingError(String::from_str(value)))
        }
    }

    pub fn create_rl() -> (rating: Self)
        ensures
            rating == Rating::RL,
    {
        Rating::RL
    }

    pub fn create_10() -> (rating: Self)
        ensures
            rating == Rating::R10,
    {
        Rating::R10
    }

    pub fn create_12() -> (rating: Self)
        ensures
            rating == Rating::R12,
    {
        Rating::R12
    }

    pub fn create_14() -> (rating: Self)
        ensures
            rating == Rating::R14,
    {
        Rating::R14
    }

    pub fn create_16() -> (rating: Self)
        ensures
            rating == Rating::R16,
    {
        Rating::R16
    }

    pub fn create_18() -> (rating: Self)
        ensures
            rating == Rating::R18,
    {
        Rating::R18
    }

    /// The text of the rating.
    pub fn value(&self) -> (text: &'static str)
        ensures
            text@ == rating_text(*self),
    {
        match self {
            Rating::RL => "L",
            Rating::R10 => "10",
            Rating::R12 => "12",
            Rating::R14 => "14",
            Rating::R16 => "16",
            Rating::R18 => "18",
        }
    }

    /// The text of the rating, owned.
    pub fn to_string(&self) -> (text: String)
        ensures
            text@ == rating_text(*self),
    {
        String::from_str(self.value())
    }
}

/// The message of an [`InvalidRatingError`].
pub open spec fn invalid_rating_message(text: Seq<char>) -> Seq<char> {
    "Invalid rating: "@ + text + ". Valid values are L, 10, 12, 14, 16, 18"@
}

impl InvalidRatingError {
    /// `Invalid rating: <text>. Valid values are L, 10, 12, 14, 16, 18`.
    pub fn to_string(&self) -> (message: String)
        ensures
            message@ == invalid_rating_message(self.0@),
    {
        let mut message = String::from_str("Invalid rating: ");
        message.append(self.0.as_str());
        message.append(". Valid values are L, 10, 12, 14, 16, 18");
        message
    }
}

/// Reading the text of a rating gives the rating back.
pub proof fn lemma_rating_text_round_trip(rating: Rating)
    ensures
        rating_of(rating_text(rating)) == Some(rating),
{
    reveal_strlit("L");
    reveal_strlit("10");
    reveal_strlit("12");
    reveal_strlit("14");
    reveal_strlit("16");
    reveal_strlit("18");
    let t = rating_text(rating);
    if rating != Rating::RL {
        assert(t.len() != "L"@.len());
    }
    if rating != Rating::RL && rating != Rating::R10 {
        assert(t[1] != "10"@[1]);
    }
    if rating != Rating::RL && rating != Rating::R10 && rating != Rating::R12 {
        assert(t[1] != "12"@[1]);
    }
    if rating == Rating::R16 || rating == Rating::R18 {
        assert(t[1] != "14"@[1]);
    }
    if rating == Rating::R18 {
        assert(t[1] != "16"@[1]);
    }
}

/// A text read as a rating is that rating's text.
pub proof fn lemma_rating_of_is_text(text: Seq<char>)
    ensures
        rating_of(text) matches Some(r) ==> rating_text(r) == text,
{
}

} // verus!
