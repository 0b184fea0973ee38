use vstd::prelude::*;

use crate::domain::shared::entity::{AggregateRoot, Entity};
use crate::domain::shared::nested_map::Keyed;
use crate::domain::shared::query::Stored;
use crate::domain::shared::notification::{ErrorEntry, Notification};
use crate::domain::shared::timestamp::{now, Timestamp};
use crate::domain::shared::validation::{check_length, checked_length};
use crate::domain::shared::value_object::{uuid_text, UuidVo};

use super::cast_member_id::CastMemberId;
use super::cast_member_type::CastMemberType;

verus! {

/// A person who takes part in videos.
#[derive(Debug)]
pub struct CastMember {
    cast_member_id: CastMemberId,
    name: String,
    cast_member_type: CastMemberType,
    created_at: Timestamp,
    deleted_at: Option<Timestamp>,
    notification: Notification,
}

/// The abstract value of a [`CastMember`].
pub struct CastMemberView {
    pub cast_member_id: CastMemberId,
    pub name: Seq<char>,
    pub cast_member_type: CastMemberType,
    pub created_at: Timestamp,
    pub deleted_at: Option<Timestamp>,
    pub notification: Seq<ErrorEntry>,
}

/// What a cast member is created from.
#[derive(Debug, Clone)]
pub struct CastMemberCreateCommand {
    pub cast_member_id: CastMemberId,
    pub name: String,
    pub cast_member_type: CastMemberType,
    pub created_at: Timestamp,
}

/// A cast member as plain values, for serialisation.
#[derive(Debug, Clone)]
pub struct CastMemberJson {
    pub cast_member_id: String,
    pub name: String,
    pub cast_member_type: CastMemberType,
    pub created_at: Timestamp,
    pub deleted_at: Option<Timestamp>,
}

impl View for CastMember {
    type V = CastMemberView;

    closed spec fn view(&self) -> CastMemberView {
        CastMemberView {
            cast_member_id: self.cast_member_id,
            name: self.name@,
            cast_member_type: self.cast_member_type,
            created_at: self.created_at,
            deleted_at: self.deleted_at,
            notification: self.notification@,
        }
    }
}

/// The cast member a command creates: not deleted, its name checked.
pub open spec fn created_cast_member(
    cast_member_id: CastMemberId,
    name: Seq<char>,
    cast_member_type: CastMemberType,
    created_at: Timestamp,
) -> CastMemberView {
    CastMemberView {
        cast_member_id,
        name,
        cast_member_type,
        created_at,
        deleted_at: None,
        notification: checked_length(Seq::empty(), "name"@, name),
    }
}

impl CastMember {
    /// A cast member with the given values and no errors; nothing is checked.
    pub fn new(
        cast_member_id: CastMemberId,
        name: String,
        cast_member_type: CastMemberType,
        created_at: Timestamp,
        deleted_at: Option<Timestamp>,
    ) -> (cast_member: Self)
        ensures
            cast_member@ == (CastMemberView {
                cast_member_id,
                name: name@,
                cast_member_type,
                created_at,
                deleted_at,
                notification: Seq::empty(),
            }),
    {
        CastMember {
            cast_member_id,
            name,
            cast_member_type,
            created_at,
            deleted_at,
            notification: Notification::new(),
        }
    }

    /// A new, not deleted cast member from a command, validated.
    pub fn create(command: CastMemberCreateCommand) -> (cast_member: Self)
        ensures
            cast_member@ == created_cast_member(
                command.cast_member_id,
                command.name@,
                command.cast_member_type,
                command.created_at,
            ),
    {
        let mut cast_member = Self::new(
            command.cast_member_id,
            command.name,
            command.cast_member_type,
            command.created_at,
            None,
        );
        cast_member.validate();
        cast_member
    }

    /// Renames, then validates again.
    pub fn change_name(&mut self, name: String)
        ensures
            final(self)@ == (CastMemberView {
                name: name@,
                notification: checked_length(old(self)@.notification, "name"@, name@),
                ..old(self)@
            }),
    {
        self.name = name;
        self.validate();
    }

    pub fn change_type(&mut self, cast_member_type: CastMemberType)
        ensures
            final(self)@ == (CastMemberView { cast_member_type, ..old(self)@ }),
    {
        self.cast_member_type = cast_member_type;
    }

    pub fn change_created_at(&mut self, created_at: Timestamp)
        ensures
            final(self)@ == (CastMemberView { created_at, ..old(self)@ }),
    {
        self.created_at = created_at;
    }

    /// Marks as deleted at the current time.
    pub fn mark_as_deleted(&mut self)
        ensures
            final(self)@.deleted_at is Some,
            final(self)@ == (CastMemberView { deleted_at: final(self)@.deleted_at, ..old(self)@ }),
    {
        self.deleted_at = Some(now());
    }

    pub fn mark_as_not_deleted(&mut self)
        ensures
            final(self)@ == (CastMemberView { deleted_at: None, ..old(self)@ }),
    {
        self.deleted_at = None;
    }

    /// Records an error when the name is longer than 255 bytes.
    pub fn validate(&mut self)
        ensures
            final(self)@ == (CastMemberView {
                notification: checked_length(old(self)@.notification, "name"@, old(self)@.name),
                ..old(self)@
            }),
    {
        check_length(&mut self.notification, "name", self.name.as_str());
    }

    pub fn cast_member_id(&self) -> (id: &CastMemberId)
        ensures
            *id == self@.cast_member_id,
    {
        &self.cast_member_id
    }

    pub fn name(&self) -> (name: &str)
        ensures
            name@ == self@.name,
    {
        self.name.as_str()
    }

    pub fn cast_member_type(&self) -> (cast_member_type: CastMemberType)
        ensures
            cast_member_type == self@.cast_member_type,
    {
        self.cast_member_type
    }

    pub fn created_at(&self) -> (created_at: Timestamp)
        ensures
            created_at == self@.created_at,
    {
        self.created_at
    }

    pub fn deleted_at(&self) -> (deleted_at: Option<Timestamp>)
        ensures
            deleted_at == self@.deleted_at,
    {
        self.deleted_at
    }

    /// The cast member as plain values, its id as text.
    pub fn to_json(&self) -> (json: CastMemberJson)
        ensures
            json.cast_member_id@ == uuid_text(self@.cast_member_id.0.id),
            json.name@ == self@.name,
            json.cast_member_type == self@.cast_member_type,
            json.created_at == self@.created_at,
            json.deleted_at == self@.deleted_at,
    {
        CastMemberJson {
            cast_member_id: self.cast_member_id.to_string(),
            name: self.name.clone(),
            cast_member_type: self.cast_member_type,
            created_at: self.created_at,
            deleted_at: self.deleted_at,
        }
    }
}

impl Clone for CastMember {
    fn clone(&self) -> (copy: Self)
        ensures
            copy@ == self@,
    {
        CastMember {
            cast_member_id: self.cast_member_id,
            name: self.name.clone(),
            cast_member_type: self.cast_member_type,
            created_at: self.created_at,
            deleted_at: self.deleted_at,
            notification: self.notification.clone(),
        }
    }
}

impl Entity for CastMember {
    fn entity_id(&self) -> (id: &UuidVo)
        ensures
            *id == self@.cast_member_id.0,
    {
        &self.cast_member_id.0
    }

    fn notification(&self) -> (notification: &Notification)
        ensures
            notification@ == self@.notification,
    {
        &self.notification
    }
}

impl AggregateRoot for CastMember {

}

impl Keyed for CastMember {
    open spec fn key_of(value: CastMemberView) -> u128 {
        value.cast_member_id.0.id
    }

    fn key(&self) -> (key: u128) {
        self.cast_member_id.0.id
    }

    fn duplicate(&self) -> (copy: Self) {
        self.clone()
    }
}

impl Stored for CastMember {
    type Filter = CastMemberType;

    open spec fn deleted_of(value: CastMemberView) -> bool {
        value.deleted_at is Some
    }

    open spec fn text_of(value: CastMemberView) -> Seq<char> {
        value.name
    }

    open spec fn created_of(value: CastMemberView) -> Timestamp {
        value.created_at
    }

    open spec fn filter_of(value: CastMemberView) -> CastMemberType {
        value.cast_member_type
    }

    fn is_deleted(&self) -> (deleted: bool) {
        self.deleted_at.is_some()
    }

    fn sort_text(&self) -> (text: &str) {
        self.name.as_str()
    }

    fn created(&self) -> (created: Timestamp) {
        self.created_at
    }

    fn has_filter(&self, filter: CastMemberType) -> (has: bool) {
        self.cast_member_type == filter
    }
}

} // verus!
