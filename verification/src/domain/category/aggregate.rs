use vstd::prelude::*;

use crate::domain::shared::entity::{AggregateRoot, Entity};
use crate::domain::shared::nested_map::Keyed;
use crate::domain::shared::query::Stored;
use crate::domain::shared::notification::{ErrorEntry, Notification};
use crate::domain::shared::text::{clone_option_text, option_as_str, option_str, option_text};
use crate::domain::shared::timestamp::{now, Timestamp};
use crate::domain::shared::validation::{check_length, checked_length};
use crate::domain::shared::value_object::{uuid_text, UuidVo};

use super::category_id::CategoryId;

verus! {

/// A category of videos.
#[derive(Debug)]
pub struct Category {
    category_id: CategoryId,
    name: String,
    description: Option<String>,
    is_active: bool,
    created_at: Timestamp,
    deleted_at: Option<Timestamp>,
    notification: Notification,
}

/// The abstract value of a [`Category`].
pub struct CategoryView {
    pub category_id: CategoryId,
    pub name: Seq<char>,
    pub description: Option<Seq<char>>,
    pub is_active: bool,
    pub created_at: Timestamp,
    pub deleted_at: Option<Timestamp>,
    pub notification: Seq<ErrorEntry>,
}

/// What a category is created from.
#[derive(Debug, Clone)]
pub struct CategoryCreateCommand {
    pub category_id: CategoryId,
    pub name: String,
    pub description: Option<String>,
    pub is_active: bool,
    pub created_at: Timestamp,
}

/// A category as plain values, for serialisation.
#[derive(Debug, Clone)]
pub struct CategoryJson {
    pub category_id: String,
    pub name: String,
    pub description: Option<String>,
    pub is_active: bool,
    pub created_at: Timestamp,
    pub deleted_at: Option<Timestamp>,
}

impl View for Category {
    type V = CategoryView;

    closed spec fn view(&self) -> CategoryView {
        CategoryView {
            category_id: self.category_id,
            name: self.name@,
            description: option_text(self.description),
            is_active: self.is_active,
            created_at: self.created_at,
            deleted_at: self.deleted_at,
            notification: self.notification@,
        }
    }
}

/// The category a command creates: not deleted, its name checked.
pub open spec fn created_category(
    category_id: CategoryId,
    name: Seq<char>,
    description: Option<Seq<char>>,
    is_active: bool,
    created_at: Timestamp,
) -> CategoryView {
    CategoryView {
        category_id,
        name,
        description,
        is_active,
        created_at,
        deleted_at: None,
        notification: checked_length(Seq::empty(), "name"@, name),
    }
}

impl Category {
    /// A category with the given values and no errors; nothing is checked.
    pub fn new(
        category_id: CategoryId,
        name: String,
        description: Option<String>,
        is_active: bool,
        created_at: Timestamp,
        deleted_at: Option<Timestamp>,
    ) -> (category: Self)
        ensures
            category@ == (CategoryView {
                category_id,
                name: name@,
                description: option_text(description),
                is_active,
                created_at,
                deleted_at,
                notification: Seq::empty(),
            }),
    {
        Category {
            category_id,
            name,
            description,
            is_active,
            created_at,
            deleted_at,
            notification: Notification::new(),
        }
    }

    /// A new, not deleted category from a command, validated.
    pub fn create(command: CategoryCreateCommand) -> (category: Self)
        ensures
            category@ == created_category(
                command.category_id,
                command.name@,
                option_text(command.description),
                command.is_active,
                command.created_at,
            ),
    {
        let mut category = Self::new(
            command.category_id,
            command.name,
            command.description,
            command.is_active,
            command.created_at,
            None,
        );
        category.validate();
        category
    }

    /// Renames, then validates again.
    pub fn change_name(&mut self, name: String)
        ensures
            final(self)@ == (CategoryView {
                name: name@,
                notification: checked_length(old(self)@.notification, "name"@, name@),
                ..old(self)@
            }),
    {
        self.name = name;
        self.validate();
    }

    pub fn change_description(&mut self, description: Option<String>)
        ensures
            final(self)@ == (CategoryView { description: option_text(description), ..old(self)@ }),
    {
        self.description = description;
    }

    pub fn change_created_at(&mut self, created_at: Timestamp)
        ensures
            final(self)@ == (CategoryView { created_at, ..old(self)@ }),
    {
        self.created_at = created_at;
    }

    pub fn activate(&mut self)
        ensures
            final(self)@ == (CategoryView { is_active: true, ..old(self)@ }),
    {
        self.is_active = true;
    }

    pub fn deactivate(&mut self)
        ensures
            final(self)@ == (CategoryView { is_active: false, ..old(self)@ }),
    {
        self.is_active = false;
    }

    /// Marks as deleted at the current time.
    pub fn mark_as_deleted(&mut self)
        ensures
            final(self)@.deleted_at is Some,
            final(self)@ == (CategoryView { deleted_at: final(self)@.deleted_at, ..old(self)@ }),
    {
        self.deleted_at = Some(now());
    }

    pub fn mark_as_not_deleted(&mut self)
        ensures
            final(self)@ == (CategoryView { deleted_at: None, ..old(self)@ }),
    {
        self.deleted_at = None;
    }

    /// Records an error when the name is longer than 255 bytes.
    pub fn validate(&mut self)
        ensures
            final(self)@ == (CategoryView {
                notification: checked_length(old(self)@.notification, "name"@, old(self)@.name),
                ..old(self)@
            }),
    {
        check_length(&mut self.notification, "name", self.name.as_str());
    }

    pub fn category_id(&self) -> (id: &CategoryId)
        ensures
            *id == self@.category_id,
    {
        &self.category_id
    }

    pub fn name(&self) -> (name: &str)
        ensures
            name@ == self@.name,
    {
        self.name.as_str()
    }

    pub fn description(&self) -> (description: Option<&str>)
        ensures
            option_str(description) == self@.description,
    {
        option_as_str(&self.description)
    }

    pub fn is_active(&self) -> (active: bool)
        ensures
            active == self@.is_active,
    {
        self.is_active
    }

    pub fn created_at(&self) -> (created_at: Timestamp)
        ensures
            created_at == self@.created_at,
    {
        self.created_at
    }

    pub fn deleted_at(&self) -> (deleted_at: Option<Timestamp>)
        ensures
            deleted_at == self@.deleted_at,
    {
        self.deleted_at
    }

    /// The category as plain values, its id as text.
    pub fn to_json(&self) -> (json: CategoryJson)
        ensures
            json.category_id@ == uuid_text(self@.category_id.0.id),
            json.name@ == self@.name,
            option_text(json.description) == self@.description,
            json.is_active == self@.is_active,
            json.created_at == self@.created_at,
            json.deleted_at == self@.deleted_at,
    {
        CategoryJson {
            category_id: self.category_id.to_string(),
            name: self.name.clone(),
            description: clone_option_text(&self.description),
            is_active: self.is_active,
            created_at: self.created_at,
            deleted_at: self.deleted_at,
        }
    }
}

impl Clone for Category {
    fn clone(&self) -> (copy: Self)
        ensures
            copy@ == self@,
    {
        Category {
            category_id: self.category_id,
            name: self.name.clone(),
            description: clone_option_text(&self.description),
            is_active: self.is_active,
            created_at: self.created_at,
            deleted_at: self.deleted_at,
            notification: self.notification.clone(),
        }
    }
}

impl Entity for Category {
    fn entity_id(&self) -> (id: &UuidVo)
        ensures
            *id == self@.category_id.0,
    {
        &self.category_id.0
    }

    fn notification(&self) -> (notification: &Notification)
        ensures
            notification@ == self@.notification,
    {
        &self.notification
    }
}

impl AggregateRoot for Category {

}

impl Keyed for Category {
    open spec fn key_of(value: CategoryView) -> u128 {
        value.category_id.0.id
    }

    fn key(&self) -> (key: u128) {
        self.category_id.0.id
    }

    fn duplicate(&self) -> (copy: Self) {
        self.clone()
    }
}

impl Stored for Category {
    type Filter = bool;

    open spec fn deleted_of(value: CategoryView) -> bool {
        value.deleted_at is Some
    }

    open spec fn text_of(value: CategoryView) -> Seq<char> {
        value.name
    }

    open spec fn created_of(value: CategoryView) -> Timestamp {
        value.created_at
    }

    open spec fn filter_of(value: CategoryView) -> bool {
        value.is_active
    }

    fn is_deleted(&self) -> (deleted: bool) {
        self.deleted_at.is_some()
    }

    fn sort_text(&self) -> (text: &str) {
        self.name.as_str()
    }

    fn created(&self) -> (created: Timestamp) {
        self.created_at
    }

    fn has_filter(&self, filter: bool) -> (has: bool) {
        self.is_active == filter
    }
}

} // verus!
