use vstd::prelude::*;

use crate::domain::cast_member::aggregate::{CastMember, CastMemberView};
use crate::domain::cast_member::cast_member_id::CastMemberId;
use crate::domain::cast_member::cast_member_repository::ICastMemberRepository;
use crate::domain::shared::errors::{not_found_message, ErrorMessage, NotFoundError};
use crate::domain::shared::nested_map::keys_distinct;
use crate::domain::shared::query::{
    first_selected, lemma_hidden_after_soft_delete, lemma_selected_has_position, position_of_id,
};
use crate::domain::shared::value_object::uuid_parse;

use crate::application::messages::{invalid_id, invalid_id_prefix};
use crate::domain::shared::value_object::invalid_uuid_message;

verus! {

/// The id of the cast member to delete.
#[derive(Debug, Clone)]
pub struct DeleteCastMemberInput {
    pub id: String,
}

/// Why a cast member could not be deleted.
#[derive(Debug)]
pub enum DeleteCastMemberError<E> {
    NotFound(NotFoundError),
    InvalidId(String),
    Repository(E),
}

impl<E: ErrorMessage> DeleteCastMemberError<E> {
    /// The error's message; a repository error gives its own.
    pub fn to_string(&self) -> (message: String)
        ensures
            self matches DeleteCastMemberError::NotFound(e) ==> message@ == not_found_message(e.id@, e.entity_name@),
            self matches DeleteCastMemberError::InvalidId(m) ==> message@ == invalid_id_prefix("cast member"@) + m@,
            self matches DeleteCastMemberError::Repository(e) ==> message@ == e.message_text(),
    {
        match self {
            DeleteCastMemberError::NotFound(e) => e.to_string(),
            DeleteCastMemberError::InvalidId(m) => invalid_id("cast member", m.as_str()),
            DeleteCastMemberError::Repository(e) => e.message(),
        }
    }
}

/// Soft-deletes a cast member: it stays stored, marked deleted.
pub struct DeleteCastMemberUseCase<R: ICastMemberRepository> {
    repo: R,
}

/// The stored cast members after the one at `pos` was replaced by `found`
/// marked deleted at some time.
pub open spec fn cast_member_marked_deleted(
    before: Seq<CastMemberView>,
    after: Seq<CastMemberView>,
    pos: int,
    found: CastMemberView,
) -> bool {
    &&& 0 <= pos < before.len()
    &&& after[pos].deleted_at is Some
    &&& after == before.update(pos, CastMemberView { deleted_at: after[pos].deleted_at, ..found })
}

/// What deleting by `input` does to the repository and returns: an id that
/// is no UUID is refused and nothing changes; otherwise the cast member found
/// under the id is marked deleted and stored again.
pub open spec fn cast_member_deleted<R: ICastMemberRepository>(
    before: R,
    after: R,
    input: DeleteCastMemberInput,
    result: Result<(), DeleteCastMemberError<R::Error>>,
) -> bool {
    &&& after.reliable() == before.reliable()
    &&& match uuid_parse(input.id@) {
        None => {
            &&& result matches Err(DeleteCastMemberError::InvalidId(m)) && m@ == invalid_uuid_message(input.id@)
            &&& after == before
        },
        Some(v) => {
            let found = first_selected::<CastMember>(before.stored(), before.hides_deleted(), Some(v), None);
            &&& !(result matches Err(DeleteCastMemberError::InvalidId(_)))
            &&& before.reliable() ==> (result is Ok <==> found is Some)
            &&& before.reliable() ==> !(result matches Err(DeleteCastMemberError::Repository(_)))
            &&& result matches Err(DeleteCastMemberError::NotFound(e)) ==> (found is None && e.id@
                == input.id@ && e.entity_name@ == "CastMember"@ && after == before)
            &&& result is Ok ==> (found matches Some(c) && cast_member_marked_deleted(
                before.stored(),
                after.stored(),
                position_of_id::<CastMember>(before.stored(), v),
                c,
            ) && after.hides_deleted() == before.hides_deleted())
        },
    }
}

impl<R: ICastMemberRepository> DeleteCastMemberUseCase<R> {
    /// The repository written to.
    pub closed spec fn repository(&self) -> R {
        self.repo
    }

    pub fn new(repo: R) -> (use_case: Self)
        ensures
            use_case.repository() == repo,
    {
        DeleteCastMemberUseCase { repo }
    }

    /// Marks the cast member with the id as deleted and stores it again. An id
    /// that is no UUID is refused with `invalid cast member id: Invalid UUID: <id>`;
    /// when no cast member has it, the error is `CastMember Not Found using ID <id>`.
    pub fn execute(&mut self, input: DeleteCastMemberInput) -> (result: Result<(), DeleteCastMemberError<R::Error>>)
        ensures
            cast_member_deleted(old(self).repository(), final(self).repository(), input, result),
    {
        let cast_member_id = match CastMemberId::from(input.id.as_str()) {
            Ok(id) => id,
            Err(e) => {
                return Err(DeleteCastMemberError::InvalidId(e.to_string()));
            },
        };
        let ghost v = cast_member_id.0.id;
        let mut cast_member = match self.repo.find_by_id(&cast_member_id) {
            Err(e) => {
                return Err(DeleteCastMemberError::Repository(e));
            },
            Ok(None) => {
                return Err(DeleteCastMemberError::NotFound(NotFoundError::new(input.id.as_str(), "CastMember")));
            },
            Ok(Some(cast_member)) => cast_member,
        };
        proof {
            lemma_selected_has_position::<CastMember>(
                self.repo.stored(),
                self.repo.hides_deleted(),
                v,
                None,
            );
        }
        cast_member.mark_as_deleted();
        match self.repo.update(&cast_member) {
            Err(e) => Err(DeleteCastMemberError::Repository(e)),
            Ok(()) => Ok(()),
        }
    }
}

} // verus!

verus! {

/// Once a cast member is deleted, a read of its id finds nothing when reads hide
/// soft-deleted cast members and no two stored cast members share an id.
pub proof fn lemma_cast_member_hidden_after_delete<R: ICastMemberRepository>(
    before: R,
    after: R,
    input: DeleteCastMemberInput,
    result: Result<(), DeleteCastMemberError<R::Error>>,
)
    requires
        cast_member_deleted(before, after, input, result),
        result is Ok,
        before.hides_deleted(),
        keys_distinct::<CastMember>(before.stored()),
    ensures
        uuid_parse(input.id@) matches Some(v) && first_selected::<CastMember>(
            after.stored(),
            after.hides_deleted(),
            Some(v),
            None,
        ) is None,
{
    let v = uuid_parse(input.id@)->0;
    lemma_selected_has_position::<CastMember>(before.stored(), before.hides_deleted(), v, None);
    let pos = position_of_id::<CastMember>(before.stored(), v);
    lemma_hidden_after_soft_delete::<CastMember>(before.stored(), after.stored()[pos]);
}

} // verus!
