use vstd::prelude::*;

use crate::domain::shared::value_object::{is_random_uuid, uuid_parse, uuid_text, InvalidUuidError, UuidVo};

verus! {

/// The identity of a genre.
#[derive(Debug, Clone, Copy, PartialEq, Eq, Hash, Structural)]
pub struct GenreId(pub UuidVo);

impl GenreId {
    /// A fresh random identity.
    pub fn new() -> (id: Self)
        ensures
            is_random_uuid(id.0.id),
    {
        GenreId(UuidVo::new())
    }

    /// Reads an identity from its text; the error carries the text when it is no UUID.
    pub fn from(id: &str) -> (result: Result<Self, InvalidUuidError>)
        ensures
            match uuid_parse(id@) {
                Some(v) => result == Ok::<GenreId, InvalidUuidError>(GenreId(UuidVo { id: v })),
                None => result matches Err(e) && e.0@ == id@,
            },
    {
        match UuidVo::from(id) {
            Ok(uuid) => Ok(GenreId(uuid)),
            Err(e) => Err(e),
        }
    }

    /// The UUID.
    pub fn inner(&self) -> (inner: &UuidVo)
        ensures
            *inner == self.0,
    {
        &self.0
    }

    /// The UUID's 128-bit value.
    pub fn value(&self) -> (value: u128)
        ensures
            value == self.0.id,
    {
        self.0.id
    }

    /// The hyphenated lowercase text of the identity.
    pub fn to_string(&self) -> (text: String)
        ensures
            text@ == uuid_text(self.0.id),
            uuid_parse(text@) == Some(self.0.id),
    {
        self.0.to_string()
    }
}

impl Default for GenreId {
    fn default() -> Self {
        Self::new()
    }
}

} // verus!
