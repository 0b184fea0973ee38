use vstd::prelude::*;

use crate::domain::shared::entity::Entity;
use crate::domain::shared::named::Named;
use crate::domain::shared::nested_map::{views_of, NestedItem};
use crate::domain::shared::notification::{ErrorEntry, Notification};
use crate::domain::shared::timestamp::{now, Timestamp};
use crate::domain::shared::validation::{check_length, checked_length};
use crate::domain::shared::value_object::{uuid_text, UuidVo};

use super::cast_member_id::CastMemberId;
use super::cast_member_type::CastMemberType;

verus! {

/// A cast member as held inside another aggregate.
#[derive(Debug)]
pub struct NestedCastMember {
    key: String,
    cast_member_id: CastMemberId,
    name: String,
    cast_member_type: CastMemberType,
    deleted_at: Option<Timestamp>,
    notification: Notification,
}

/// The abstract value of a [`NestedCastMember`].
pub struct NestedCastMemberView {
    /// The text the cast member is kept under in its collection.
    pub key: Seq<char>,
    pub cast_member_id: CastMemberId,
    pub name: Seq<char>,
    pub cast_member_type: CastMemberType,
    pub deleted_at: Option<Timestamp>,
    pub notification: Seq<ErrorEntry>,
}

/// What a nested cast member is created from.
#[derive(Debug)]
pub struct NestedCastMemberCreateCommand {
    pub cast_member_id: CastMemberId,
    pub name: String,
    pub cast_member_type: CastMemberType,
    pub deleted_at: Option<Timestamp>,
}

impl View for NestedCastMember {
    type V = NestedCastMemberView;

    closed spec fn view(&self) -> NestedCastMemberView {
        NestedCastMemberView {
            key: self.key@,
            cast_member_id: self.cast_member_id,
            name: self.name@,
            cast_member_type: self.cast_member_type,
            deleted_at: self.deleted_at,
            notification: self.notification@,
        }
    }
}

/// The nested cast member a command creates, once validated.
pub open spec fn created_nested_cast_member(
    cast_member_id: CastMemberId,
    name: Seq<char>,
    cast_member_type: CastMemberType,
    deleted_at: Option<Timestamp>,
) -> NestedCastMemberView {
    NestedCastMemberView {
        key: uuid_text(cast_member_id.0.id),
        cast_member_id,
        name,
        cast_member_type,
        deleted_at,
        notification: checked_length(Seq::empty(), "name"@, name),
    }
}

impl NestedCastMember {
    /// A nested cast member with the given values and no errors; nothing is checked.
    pub fn new(
        cast_member_id: CastMemberId,
        name: String,
        cast_member_type: CastMemberType,
        deleted_at: Option<Timestamp>,
    ) -> (nested: Self)
        ensures
            nested@ == (NestedCastMemberView {
                key: uuid_text(cast_member_id.0.id),
                cast_member_id,
                name: name@,
                cast_member_type,
                deleted_at,
                notification: Seq::empty(),
            }),
    {
        let key = cast_member_id.to_string();
        NestedCastMember { key, cast_member_id, name, cast_member_type, deleted_at, notification: Notification::new() }
    }

    /// A nested cast member from a command, validated.
    pub fn create(command: NestedCastMemberCreateCommand) -> (nested: Self)
        ensures
            nested@ == created_nested_cast_member(
                command.cast_member_id,
                command.name@,
                command.cast_member_type,
                command.deleted_at,
            ),
    {
        let mut nested = Self::new(
            command.cast_member_id,
            command.name,
            command.cast_member_type,
            command.deleted_at,
        );
        nested.validate();
        nested
    }

    /// The same cast member, kept under another text.
    pub fn with_key(self, key: String) -> (nested: Self)
        ensures
            nested@ == (NestedCastMemberView { key: key@, ..self@ }),
    {
        let mut nested = self;
        nested.key = key;
        nested
    }

    /// Renames, then validates again.
    pub fn change_name(&mut self, name: String)
        ensures
            final(self)@ == (NestedCastMemberView {
                name: name@,
                notification: checked_length(old(self)@.notification, "name"@, name@),
                ..old(self)@
            }),
    {
        self.name = name;
        self.validate();
    }

    pub fn change_type(&mut self, cast_member_type: CastMemberType)
        ensures
            final(self)@ == (NestedCastMemberView { cast_member_type, ..old(self)@ }),
    {
        self.cast_member_type = cast_member_type;
    }

    /// Marks as deleted at the current time.
    pub fn mark_as_deleted(&mut self)
        ensures
            final(self)@.deleted_at is Some,
            final(self)@ == (NestedCastMemberView { deleted_at: final(self)@.deleted_at, ..old(self)@ }),
    {
        self.deleted_at = Some(now());
    }

    pub fn mark_as_not_deleted(&mut self)
        ensures
            final(self)@ == (NestedCastMemberView { deleted_at: None, ..old(self)@ }),
    {
        self.deleted_at = None;
    }

    /// Records an error when the name is longer than 255 bytes.
    pub fn validate(&mut self)
        ensures
            final(self)@ == (NestedCastMemberView {
                notification: checked_length(old(self)@.notification, "name"@, old(self)@.name),
                ..old(self)@
            }),
    {
        check_length(&mut self.notification, "name", self.name.as_str());
    }

    pub fn cast_member_id(&self) -> (id: &CastMemberId)
        ensures
            *id == self@.cast_member_id,
    {
        &self.cast_member_id
    }

    pub fn name(&self) -> (name: &str)
        ensures
            name@ == self@.name,
    {
        self.name.as_str()
    }

    pub fn cast_member_type(&self) -> (cast_member_type: CastMemberType)
        ensures
            cast_member_type == self@.cast_member_type,
    {
        self.cast_member_type
    }

    pub fn deleted_at(&self) -> (deleted_at: Option<Timestamp>)
        ensures
            deleted_at == self@.deleted_at,
    {
        self.deleted_at
    }
}

impl Clone for NestedCastMember {
    fn clone(&self) -> (copy: Self)
        ensures
            copy@ == self@,
    {
        NestedCastMember {
            key: self.key.clone(),
            cast_member_id: self.cast_member_id,
            name: self.name.clone(),
            cast_member_type: self.cast_member_type,
            deleted_at: self.deleted_at,
            notification: self.notification.clone(),
        }
    }
}

impl Entity for NestedCastMember {
    fn entity_id(&self) -> (id: &UuidVo)
        ensures
            *id == self@.cast_member_id.0,
    {
        &self.cast_member_id.0
    }

    fn notification(&self) -> (notification: &Notification)
        ensures
            notification@ == self@.notification,
    {
        &self.notification
    }
}

impl NestedItem for NestedCastMember {
    open spec fn key_text_of(value: NestedCastMemberView) -> Seq<char> {
        value.key
    }

    fn key_text(&self) -> (key: &str) {
        self.key.as_str()
    }

    fn duplicate(&self) -> (copy: Self) {
        self.clone()
    }
}

impl Named for NestedCastMember {
    open spec fn name_of(value: NestedCastMemberView) -> Seq<char> {
        value.name
    }

    fn name_text(&self) -> (name: &str) {
        self.name.as_str()
    }
}

/// The nested cast members that a list of commands creates.
pub open spec fn nested_cast_members_of(props: Seq<NestedCastMemberCreateCommand>) -> Seq<NestedCastMemberView> {
    props.map_values(
        |p: NestedCastMemberCreateCommand|
            created_nested_cast_member(p.cast_member_id, p.name@, p.cast_member_type, p.deleted_at),
    )
}

/// Creates, in order, the nested cast members of a list of commands.
pub fn create_nested_cast_members(props: Vec<NestedCastMemberCreateCommand>) -> (nested: Vec<NestedCastMember>)
    ensures
        views_of(nested@) == nested_cast_members_of(props@),
{
    let mut nested: Vec<NestedCastMember> = Vec::new();
    let n = props.len();
    for i in 0..n
        invariant
            n == props.len(),
            views_of(nested@) == nested_cast_members_of(props@).take(i as int),
    {
        let p = props[i].clone();
        let ghost before = views_of(nested@);
        let item = NestedCastMember::create(p);
        nested.push(item);
        assert(views_of(nested@) =~= before.push(item@));
        assert(nested_cast_members_of(props@).take(i + 1) =~= nested_cast_members_of(props@).take(
            i as int,
        ).push(nested_cast_members_of(props@)[i as int]));
    }
    assert(nested_cast_members_of(props@).take(n as int) =~= nested_cast_members_of(props@));
    nested
}

impl Clone for NestedCastMemberCreateCommand {
    fn clone(&self) -> (copy: Self)
        ensures
            copy == *self,
    {
        NestedCastMemberCreateCommand {
            cast_member_id: self.cast_member_id,
            name: self.name.clone(),
            cast_member_type: self.cast_member_type,
            deleted_at: self.deleted_at,
        }
    }
}


/// A nested cast member kept under the text of its id.
pub open spec fn keyed_by_cast_member_id(nested: NestedCastMemberView) -> NestedCastMemberView {
    NestedCastMemberView { key: uuid_text(nested.cast_member_id.0.id), ..nested }
}

/// Copies of the nested cast members, each kept under the text of its id.
pub fn nested_cast_members_keyed_by_id(nested: &Vec<NestedCastMember>) -> (keyed: Vec<NestedCastMember>)
    ensures
        views_of(keyed@) == views_of(nested@).map_values(|n: NestedCastMemberView| keyed_by_cast_member_id(n)),
{
    let ghost all = views_of(nested@).map_values(|n: NestedCastMemberView| keyed_by_cast_member_id(n));
    let mut keyed: Vec<NestedCastMember> = Vec::new();
    for i in 0..nested.len()
        invariant
            all == views_of(nested@).map_values(|n: NestedCastMemberView| keyed_by_cast_member_id(n)),
            views_of(keyed@) == all.take(i as int),
    {
        let ghost before = views_of(keyed@);
        let item = nested[i].clone();
        let key = item.cast_member_id().to_string();
        let item = item.with_key(key);
        keyed.push(item);
        assert(views_of(keyed@) =~= before.push(item@));
        assert(all.take(i + 1) =~= all.take(i as int).push(all[i as int]));
    }
    assert(all.take(nested.len() as int) =~= all);
    keyed
}


/// Nested items created from commands are already kept under their id texts.
pub proof fn lemma_created_nested_cast_members_keyed_by_id(props: Seq<NestedCastMemberCreateCommand>)
    ensures
        nested_cast_members_of(props).map_values(|n: NestedCastMemberView| keyed_by_cast_member_id(n)) == nested_cast_members_of(props),
{
    assert(nested_cast_members_of(props).map_values(|n: NestedCastMemberView| keyed_by_cast_member_id(n)) =~= nested_cast_members_of(props));
}

} // verus!
