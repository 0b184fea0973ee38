use vstd::prelude::*;

use crate::domain::cast_member::aggregate::{CastMember, CastMemberView};
use crate::domain::cast_member::cast_member_id::CastMemberId;
use crate::domain::cast_member::cast_member_type::{
    cast_member_type_number, cast_member_type_of, invalid_cast_member_type_message, CastMemberType,
};
use crate::domain::shared::entity::Entity;
use crate::domain::shared::errors::LoadEntityError;
use crate::domain::shared::notification::error_lines;
use crate::domain::shared::validation::{checked_length, exceeds_max_length};
use crate::domain::shared::text::text_eq;
use crate::domain::shared::timestamp::Timestamp;
use crate::domain::shared::value_object::{invalid_uuid_message, uuid_parse, UuidVo};

use super::category_mapper::{invalid_document_type, invalid_type_error, load_error, validation_error};

verus! {

/// The `type` of a cast member's search document.
pub const CAST_MEMBER_DOCUMENT_TYPE: &'static str = "CastMember";

/// A cast member as stored in the search index, under its id; the type by number.
#[derive(Debug, Clone)]
pub struct CastMemberDocument {
    pub cast_member_name: String,
    pub cast_member_type: u8,
    pub created_at: Timestamp,
    pub deleted_at: Option<Timestamp>,
    pub doc_type: String,
}

/// The abstract value of a [`CastMemberDocument`].
pub struct CastMemberDocumentView {
    pub cast_member_name: Seq<char>,
    pub cast_member_type: u8,
    pub created_at: Timestamp,
    pub deleted_at: Option<Timestamp>,
    pub doc_type: Seq<char>,
}

impl View for CastMemberDocument {
    type V = CastMemberDocumentView;

    open spec fn view(&self) -> CastMemberDocumentView {
        CastMemberDocumentView {
            cast_member_name: self.cast_member_name@,
            cast_member_type: self.cast_member_type,
            created_at: self.created_at,
            deleted_at: self.deleted_at,
            doc_type: self.doc_type@,
        }
    }
}

/// The document a cast member is stored as.
pub open spec fn cast_member_document_of(member: CastMemberView) -> CastMemberDocumentView {
    CastMemberDocumentView {
        cast_member_name: member.name,
        cast_member_type: cast_member_type_number(member.cast_member_type),
        created_at: member.created_at,
        deleted_at: member.deleted_at,
        doc_type: "CastMember"@,
    }
}

/// The cast member a document stored under `id` loads as, or the errors that
/// refuse it: a wrong `type`, an id that is no UUID, a type number that names
/// no type, then the validation errors of the loaded cast member, one line
/// `field: message` each.
pub open spec fn cast_member_from_document(id: Seq<char>, document: CastMemberDocumentView) -> Result<
    CastMemberView,
    Seq<Seq<char>>,
> {
    if document.doc_type != "CastMember"@ {
        Err(invalid_document_type())
    } else {
        match uuid_parse(id) {
            None => Err(seq![invalid_uuid_message(id)]),
            Some(v) => match cast_member_type_of(document.cast_member_type) {
                Err(_) => Err(seq![invalid_cast_member_type_message(document.cast_member_type)]),
                Ok(t) => {
                    let checks = checked_length(Seq::empty(), "name"@, document.cast_member_name);
                    if checks.len() > 0 {
                        Err(error_lines(checks))
                    } else {
                        Ok(
                            CastMemberView {
                                cast_member_id: CastMemberId(UuidVo { id: v }),
                                name: document.cast_member_name,
                                cast_member_type: t,
                                created_at: document.created_at,
                                deleted_at: document.deleted_at,
                                notification: Seq::empty(),
                            },
                        )
                    }
                },
            },
        }
    }
}

/// Turns cast members into search documents and back.
pub struct CastMemberElasticSearchMapper;

impl CastMemberElasticSearchMapper {
    /// Loads the cast member stored under `id`, and refuses it when it fails validation.
    pub fn to_entity(id: &str, document: &CastMemberDocument) -> (result: Result<CastMember, LoadEntityError>)
        ensures
            match cast_member_from_document(id@, document@) {
                Ok(v) => result matches Ok(c) && c@ == v,
                Err(errors) => result matches Err(e) && e.errors.deep_view() == errors,
            },
    {
        if !text_eq(document.doc_type.as_str(), CAST_MEMBER_DOCUMENT_TYPE) {
            return Err(invalid_type_error());
        }
        let cast_member_id = match CastMemberId::from(id) {
            Ok(cast_member_id) => cast_member_id,
            Err(e) => {
                return Err(load_error(e.to_string()));
            },
        };
        let cast_member_type = match CastMemberType::from_u8(document.cast_member_type) {
            Ok(t) => t,
            Err(e) => {
                return Err(load_error(e.to_string()));
            },
        };
        let mut member = CastMember::new(
            cast_member_id,
            document.cast_member_name.clone(),
            cast_member_type,
            document.created_at,
            document.deleted_at,
        );
        member.validate();
        if member.notification().has_errors() {
            return Err(validation_error(member.notification()));
        }
        assert(member@.notification =~= Seq::empty());
        Ok(member)
    }

    /// The document the cast member is stored as.
    pub fn to_document(entity: &CastMember) -> (document: CastMemberDocument)
        ensures
            document@ == cast_member_document_of(entity@),
    {
        CastMemberDocument {
            cast_member_name: String::from_str(entity.name()),
            cast_member_type: entity.cast_member_type().value(),
            created_at: entity.created_at(),
            deleted_at: entity.deleted_at(),
            doc_type: String::from_str(CAST_MEMBER_DOCUMENT_TYPE),
        }
    }
}

/// Storing a cast member whose name passes validation and loading it back
/// under the text of its id gives the cast member again, without its
/// validation errors.
pub proof fn lemma_cast_member_document_round_trip(member: CastMemberView, id: Seq<char>)
    requires
        uuid_parse(id) == Some(member.cast_member_id.0.id),
        !exceeds_max_length(member.name),
    ensures
        cast_member_from_document(id, cast_member_document_of(member)) == Ok::<CastMemberView, Seq<Seq<char>>>(
            CastMemberView { notification: Seq::empty(), ..member },
        ),
{
}

} // verus!

verus! {

/// A cast member's document carries its name, the number of its type (which
/// reads back as that type), its creation and deletion times; its `type` is
/// `CastMember`.
pub proof fn lemma_cast_member_document_fields(member: CastMemberView)
    ensures
        cast_member_document_of(member).cast_member_name == member.name,
        cast_member_type_of(cast_member_document_of(member).cast_member_type) == Ok::<
            CastMemberType,
            crate::domain::cast_member::cast_member_type::InvalidCastMemberTypeError,
        >(member.cast_member_type),
        cast_member_document_of(member).created_at == member.created_at,
        cast_member_document_of(member).deleted_at == member.deleted_at,
        cast_member_document_of(member).doc_type == "CastMember"@,
{
    crate::domain::cast_member::cast_member_type::lemma_cast_member_type_round_trip(member.cast_member_type);
}

/// A cast member loaded from a document stored under `id` has the UUID that
/// `id` reads as, the type the document's number names, and the document's
/// name, creation and deletion times.
pub proof fn lemma_cast_member_loaded_fields(id: Seq<char>, document: CastMemberDocumentView)
    requires
        cast_member_from_document(id, document) is Ok,
    ensures
        cast_member_from_document(id, document) matches Ok(m) && uuid_parse(id) == Some(m.cast_member_id.0.id)
            && cast_member_type_of(document.cast_member_type) == Ok::<
            CastMemberType,
            crate::domain::cast_member::cast_member_type::InvalidCastMemberTypeError,
        >(m.cast_member_type) && m.name == document.cast_member_name && m.created_at == document.created_at
            && m.deleted_at == document.deleted_at,
{
}

} // verus!
