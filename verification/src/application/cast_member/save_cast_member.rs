use vstd::prelude::*;

use crate::application::messages::{invalid_id, invalid_id_prefix};
use crate::domain::shared::value_object::invalid_uuid_message;
use crate::domain::cast_member::aggregate::{
    created_cast_member, CastMember, CastMemberCreateCommand, CastMemberView,
};
use crate::domain::cast_member::cast_member_id::CastMemberId;
use crate::domain::cast_member::cast_member_repository::ICastMemberRepository;
use crate::domain::cast_member::cast_member_type::{
    cast_member_type_of, invalid_cast_member_type_message, CastMemberType,
};
use crate::domain::shared::entity::Entity;
use crate::domain::shared::errors::{EntityValidationError, ErrorMessage};
use crate::domain::shared::query::{
    first_selected, lemma_find_after_insert, lemma_find_after_update, lemma_selected_has_position,
    position_of_id,
};
use crate::domain::shared::timestamp::Timestamp;
use crate::domain::shared::validation::checked_length;
use crate::domain::shared::value_object::{uuid_parse, uuid_text, UuidVo};

verus! {

/// The values a cast member is created or updated with; the type by number.
#[derive(Debug, Clone)]
pub struct SaveCastMemberInput {
    pub cast_member_id: String,
    pub name: String,
    pub cast_member_type: u8,
    pub created_at: Timestamp,
}

/// The id saved under, and whether the cast member was new.
#[derive(Debug, Clone)]
pub struct SaveCastMemberOutput {
    pub id: String,
    pub created: bool,
}

/// Why a cast member could not be saved.
#[derive(Debug)]
pub enum SaveCastMemberError<E> {
    Validation(EntityValidationError),
    InvalidId(String),
    InvalidType(String),
    Repository(E),
}

/// The message for a type number that names no type.
pub open spec fn invalid_type_message(value: u8) -> Seq<char> {
    "invalid cast member type: "@ + invalid_cast_member_type_message(value)
}

impl<E: ErrorMessage> SaveCastMemberError<E> {
    /// The error's message; a repository error gives its own.
    pub fn to_string(&self) -> (message: String)
        ensures
            self is Validation ==> message@ == "Entity Validation Error"@,
            self matches SaveCastMemberError::InvalidId(m) ==> message@ == invalid_id_prefix("cast member"@) + m@,
            self matches SaveCastMemberError::InvalidType(m) ==> message@ == m@,
            self matches SaveCastMemberError::Repository(e) ==> message@ == e.message_text(),
    {
        match self {
            SaveCastMemberError::Validation(e) => e.to_string(),
            SaveCastMemberError::InvalidId(m) => invalid_id("cast member", m.as_str()),
            SaveCastMemberError::InvalidType(m) => m.clone(),
            SaveCastMemberError::Repository(e) => e.message(),
        }
    }
}

/// The cast member an input creates under the UUID `v` with type `t`.
pub open spec fn cast_member_from_input(v: u128, t: CastMemberType, input: SaveCastMemberInput) -> CastMemberView {
    created_cast_member(CastMemberId(UuidVo { id: v }), input.name@, t, input.created_at)
}

/// A stored cast member after an input was applied to it: renamed (and its
/// name checked again), its type and creation time replaced.
pub open spec fn cast_member_with_input(
    existing: CastMemberView,
    t: CastMemberType,
    input: SaveCastMemberInput,
) -> CastMemberView {
    CastMemberView {
        name: input.name@,
        notification: checked_length(existing.notification, "name"@, input.name@),
        cast_member_type: t,
        created_at: input.created_at,
        ..existing
    }
}

/// What saving an input does to the repository and returns: an id that is
/// no UUID, then a type number that names no type, is refused with nothing
/// written; a cast member with validation errors is refused with nothing
/// written; otherwise the saved cast member takes the place of the one stored
/// under its id, or follows the others when there was none.
pub open spec fn cast_member_saved<R: ICastMemberRepository>(
    before: R,
    after: R,
    input: SaveCastMemberInput,
    result: Result<SaveCastMemberOutput, SaveCastMemberError<R::Error>>,
) -> bool {
    &&& after.reliable() == before.reliable()
    &&& match (uuid_parse(input.cast_member_id@), cast_member_type_of(input.cast_member_type)) {
        (None, _) => {
            &&& result matches Err(SaveCastMemberError::InvalidId(m)) && m@ == invalid_uuid_message(input.cast_member_id@)
            &&& after == before
        },
        (Some(_), Err(_)) => {
            &&& result matches Err(SaveCastMemberError::InvalidType(m)) && m@ == invalid_type_message(
                input.cast_member_type,
            )
            &&& after == before
        },
        (Some(v), Ok(t)) => {
            let existing = first_selected::<CastMember>(before.stored(), before.hides_deleted(), Some(v), None);
            let saved = match existing {
                Some(c) => cast_member_with_input(c, t, input),
                None => cast_member_from_input(v, t, input),
            };
            &&& !(result matches Err(SaveCastMemberError::InvalidId(_)))
            &&& !(result matches Err(SaveCastMemberError::InvalidType(_)))
            &&& result matches Err(SaveCastMemberError::Validation(e)) ==> (saved.notification.len() > 0
                && e.notification@ == saved.notification && after == before)
            &&& saved.notification.len() > 0 ==> after == before
            &&& before.reliable() ==> (result is Ok <==> saved.notification.len() == 0)
            &&& result matches Ok(out) ==> {
                &&& saved.notification.len() == 0
                &&& out.id@ == uuid_text(v)
                &&& out.created == existing is None
                &&& after.hides_deleted() == before.hides_deleted()
                &&& after.stored() == match existing {
                    Some(c) => before.stored().update(position_of_id::<CastMember>(before.stored(), v), saved),
                    None => before.stored().push(saved),
                }
            }
        },
    }
}

/// Creates a cast member, or updates the one stored under the same id.
pub struct SaveCastMemberUseCase<R: ICastMemberRepository> {
    repo: R,
}

impl<R: ICastMemberRepository> SaveCastMemberUseCase<R> {
    /// The repository written to.
    pub closed spec fn repository(&self) -> R {
        self.repo
    }

    pub fn new(repo: R) -> (use_case: Self)
        ensures
            use_case.repository() == repo,
    {
        SaveCastMemberUseCase { repo }
    }

    /// Saves the input. The id is read first, then the type number (1 is a
    /// director, 2 an actor); when a cast member is found under the id the
    /// input is applied to it and it is stored again, else a new one is
    /// inserted. A cast member with validation errors is refused and nothing is
    /// written.
    pub fn execute(&mut self, input: SaveCastMemberInput) -> (result: Result<
        SaveCastMemberOutput,
        SaveCastMemberError<R::Error>,
    >)
        ensures
            cast_member_saved(old(self).repository(), final(self).repository(), input, result),
    {
        let cast_member_id = match CastMemberId::from(input.cast_member_id.as_str()) {
            Ok(id) => id,
            Err(e) => {
                return Err(
                    SaveCastMemberError::InvalidId(e.to_string()),
                );
            },
        };
        let cast_member_type = match CastMemberType::from_u8(input.cast_member_type) {
            Ok(t) => t,
            Err(e) => {
                let mut message = String::from_str("invalid cast member type: ");
                let detail = e.to_string();
                message.append(detail.as_str());
                return Err(SaveCastMemberError::InvalidType(message));
            },
        };
        let ghost v = cast_member_id.0.id;
        match self.repo.find_by_id(&cast_member_id) {
            Err(e) => Err(SaveCastMemberError::Repository(e)),
            Ok(Some(cast_member)) => {
                proof {
                    lemma_selected_has_position::<CastMember>(
                        self.repo.stored(),
                        self.repo.hides_deleted(),
                        v,
                        None,
                    );
                }
                self.update_cast_member(input, cast_member, cast_member_type)
            },
            Ok(None) => self.create_cast_member(input, cast_member_id, cast_member_type),
        }
    }

    fn create_cast_member(
        &mut self,
        input: SaveCastMemberInput,
        cast_member_id: CastMemberId,
        cast_member_type: CastMemberType,
    ) -> (result: Result<SaveCastMemberOutput, SaveCastMemberError<R::Error>>)
        ensures
            ({
                let before = old(self).repository();
                let after = final(self).repository();
                let saved = cast_member_from_input(cast_member_id.0.id, cast_member_type, input);
                &&& after.reliable() == before.reliable()
                &&& !(result matches Err(SaveCastMemberError::InvalidId(_)))
                &&& !(result matches Err(SaveCastMemberError::InvalidType(_)))
                &&& result matches Err(SaveCastMemberError::Validation(e)) ==> (saved.notification.len() > 0
                    && e.notification@ == saved.notification && after == before)
                &&& saved.notification.len() > 0 ==> after == before
                &&& before.reliable() ==> (result is Ok <==> saved.notification.len() == 0)
                &&& result matches Ok(out) ==> (saved.notification.len() == 0 && out.id@ == uuid_text(
                    cast_member_id.0.id,
                ) && out.created && after.hides_deleted() == before.hides_deleted() && after.stored()
                    == before.stored().push(saved))
            }),
    {
        let entity = CastMember::create(
            CastMemberCreateCommand {
                cast_member_id,
                name: input.name,
                cast_member_type,
                created_at: input.created_at,
            },
        );
        if entity.notification().has_errors() {
            return Err(SaveCastMemberError::Validation(EntityValidationError::new(entity.notification().clone())));
        }
        match self.repo.insert(&entity) {
            Err(e) => Err(SaveCastMemberError::Repository(e)),
            Ok(()) => Ok(SaveCastMemberOutput { id: entity.cast_member_id().to_string(), created: true }),
        }
    }

    fn update_cast_member(
        &mut self,
        input: SaveCastMemberInput,
        cast_member: CastMember,
        cast_member_type: CastMemberType,
    ) -> (result: Result<SaveCastMemberOutput, SaveCastMemberError<R::Error>>)
        requires
            position_of_id::<CastMember>(old(self).repository().stored(), cast_member@.cast_member_id.0.id) >= 0,
        ensures
            ({
                let before = old(self).repository();
                let after = final(self).repository();
                let id = cast_member@.cast_member_id.0.id;
                let saved = cast_member_with_input(cast_member@, cast_member_type, input);
                &&& after.reliable() == before.reliable()
                &&& !(result matches Err(SaveCastMemberError::InvalidId(_)))
                &&& !(result matches Err(SaveCastMemberError::InvalidType(_)))
                &&& result matches Err(SaveCastMemberError::Validation(e)) ==> (saved.notification.len() > 0
                    && e.notification@ == saved.notification && after == before)
                &&& saved.notification.len() > 0 ==> after == before
                &&& before.reliable() ==> (result is Ok <==> saved.notification.len() == 0)
                &&& result matches Ok(out) ==> (saved.notification.len() == 0 && out.id@ == uuid_text(id)
                    && !out.created && after.hides_deleted() == before.hides_deleted() && after.stored()
                    == before.stored().update(position_of_id::<CastMember>(before.stored(), id), saved))
            }),
    {
        let mut cast_member = cast_member;
        cast_member.change_name(input.name);
        cast_member.change_type(cast_member_type);
        cast_member.change_created_at(input.created_at);
        if cast_member.notification().has_errors() {
            return Err(
                SaveCastMemberError::Validation(EntityValidationError::new(cast_member.notification().clone())),
            );
        }
        match self.repo.update(&cast_member) {
            Err(e) => Err(SaveCastMemberError::Repository(e)),
            Ok(()) => Ok(SaveCastMemberOutput { id: cast_member.cast_member_id().to_string(), created: false }),
        }
    }
}

} // verus!

verus! {

/// Once a cast member is saved, a read of its id finds it, with the name,
/// type and creation time of the input.
pub proof fn lemma_cast_member_found_after_save<R: ICastMemberRepository>(
    before: R,
    after: R,
    input: SaveCastMemberInput,
    result: Result<SaveCastMemberOutput, SaveCastMemberError<R::Error>>,
)
    requires
        cast_member_saved(before, after, input, result),
        result is Ok,
    ensures
        uuid_parse(input.cast_member_id@) matches Some(v) && cast_member_type_of(input.cast_member_type) matches Ok(t)
            && first_selected::<CastMember>(after.stored(), after.hides_deleted(), Some(v), None) matches Some(c)
            && c.cast_member_id.0.id == v && c.name == input.name@ && c.cast_member_type == t && c.created_at
            == input.created_at,
{
    let v = uuid_parse(input.cast_member_id@)->0;
    let t = cast_member_type_of(input.cast_member_type)->Ok_0;
    let existing = first_selected::<CastMember>(before.stored(), before.hides_deleted(), Some(v), None);
    match existing {
        Some(c) => {
            lemma_selected_has_position::<CastMember>(before.stored(), before.hides_deleted(), v, None);
            lemma_find_after_update::<CastMember>(before.stored(), before.hides_deleted(), cast_member_with_input(c, t, input));
        },
        None => {
            lemma_find_after_insert::<CastMember>(before.stored(), before.hides_deleted(), cast_member_from_input(v, t, input));
        },
    }
}

} // verus!
