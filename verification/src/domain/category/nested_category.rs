use vstd::prelude::*;

use crate::domain::shared::entity::Entity;
use crate::domain::shared::named::Named;
use crate::domain::shared::nested_map::{views_of, NestedItem};
use crate::domain::shared::notification::{ErrorEntry, Notification};
use crate::domain::shared::timestamp::{now, Timestamp};
use crate::domain::shared::validation::{check_length, checked_length};
use crate::domain::shared::value_object::{uuid_text, UuidVo};

use super::category_id::CategoryId;

verus! {

/// A category as held inside another aggregate.
#[derive(Debug)]
pub struct NestedCategory {
    key: String,
    category_id: CategoryId,
    name: String,
    is_active: bool,
    deleted_at: Option<Timestamp>,
    notification: Notification,
}

/// The abstract value of a [`NestedCategory`].
pub struct NestedCategoryView {
    /// The text the category is kept under in its collection.
    pub key: Seq<char>,
    pub category_id: CategoryId,
    pub name: Seq<char>,
    pub is_active: bool,
    pub deleted_at: Option<Timestamp>,
    pub notification: Seq<ErrorEntry>,
}

/// What a nested category is created from.
#[derive(Debug)]
pub struct NestedCategoryCreateCommand {
    pub category_id: CategoryId,
    pub name: String,
    pub is_active: bool,
    pub deleted_at: Option<Timestamp>,
}

impl View for NestedCategory {
    type V = NestedCategoryView;

    closed spec fn view(&self) -> NestedCategoryView {
        NestedCategoryView {
            key: self.key@,
            category_id: self.category_id,
            name: self.name@,
            is_active: self.is_active,
            deleted_at: self.deleted_at,
            notification: self.notification@,
        }
    }
}

/// The nested category a command creates, once validated.
pub open spec fn created_nested_category(
    category_id: CategoryId,
    name: Seq<char>,
    is_active: bool,
    deleted_at: Option<Timestamp>,
) -> NestedCategoryView {
    NestedCategoryView {
        key: uuid_text(category_id.0.id),
        category_id,
        name,
        is_active,
        deleted_at,
        notification: checked_length(Seq::empty(), "name"@, name),
    }
}

impl NestedCategory {
    /// A nested category with the given values and no errors; nothing is checked.
    pub fn new(
        category_id: CategoryId,
        name: String,
        is_active: bool,
        deleted_at: Option<Timestamp>,
    ) -> (nested: Self)
        ensures
            nested@ == (NestedCategoryView {
                key: uuid_text(category_id.0.id),
                category_id,
                name: name@,
                is_active,
                deleted_at,
                notification: Seq::empty(),
            }),
    {
        let key = category_id.to_string();
        NestedCategory { key, category_id, name, is_active, deleted_at, notification: Notification::new() }
    }

    /// A nested category from a command, validated.
    pub fn create(command: NestedCategoryCreateCommand) -> (nested: Self)
        ensures
            nested@ == created_nested_category(
                command.category_id,
                command.name@,
                command.is_active,
                command.deleted_at,
            ),
    {
        let mut nested = Self::new(
            command.category_id,
            command.name,
            command.is_active,
            command.deleted_at,
        );
        nested.validate();
        nested
    }

    /// The same category, kept under another text.
    pub fn with_key(self, key: String) -> (nested: Self)
        ensures
            nested@ == (NestedCategoryView { key: key@, ..self@ }),
    {
        let mut nested = self;
        nested.key = key;
        nested
    }

    /// Renames, then validates again.
    pub fn change_name(&mut self, name: String)
        ensures
            final(self)@ == (NestedCategoryView {
                name: name@,
                notification: checked_length(old(self)@.notification, "name"@, name@),
                ..old(self)@
            }),
    {
        self.name = name;
        self.validate();
    }

    pub fn activate(&mut self)
        ensures
            final(self)@ == (NestedCategoryView { is_active: true, ..old(self)@ }),
    {
        self.is_active = true;
    }

    pub fn deactivate(&mut self)
        ensures
            final(self)@ == (NestedCategoryView { is_active: false, ..old(self)@ }),
    {
        self.is_active = false;
    }

    /// Marks as deleted at the current time.
    pub fn mark_as_deleted(&mut self)
        ensures
            final(self)@.deleted_at is Some,
            final(self)@ == (NestedCategoryView { deleted_at: final(self)@.deleted_at, ..old(self)@ }),
    {
        self.deleted_at = Some(now());
    }

    pub fn mark_as_not_deleted(&mut self)
        ensures
            final(self)@ == (NestedCategoryView { deleted_at: None, ..old(self)@ }),
    {
        self.deleted_at = None;
    }

    /// Records an error when the name is longer than 255 bytes.
    pub fn validate(&mut self)
        ensures
            final(self)@ == (NestedCategoryView {
                notification: checked_length(old(self)@.notification, "name"@, old(self)@.name),
                ..old(self)@
            }),
    {
        check_length(&mut self.notification, "name", self.name.as_str());
    }

    pub fn category_id(&self) -> (id: &CategoryId)
        ensures
            *id == self@.category_id,
    {
        &self.category_id
    }

    pub fn name(&self) -> (name: &str)
        ensures
            name@ == self@.name,
    {
        self.name.as_str()
    }

    pub fn is_active(&self) -> (active: bool)
        ensures
            active == self@.is_active,
    {
        self.is_active
    }

    pub fn deleted_at(&self) -> (deleted_at: Option<Timestamp>)
        ensures
            deleted_at == self@.deleted_at,
    {
        self.deleted_at
    }
}

impl Clone for NestedCategory {
    fn clone(&self) -> (copy: Self)
        ensures
            copy@ == self@,
    {
        NestedCategory {
            key: self.key.clone(),
            category_id: self.category_id,
            name: self.name.clone(),
            is_active: self.is_active,
            deleted_at: self.deleted_at,
            notification: self.notification.clone(),
        }
    }
}

impl Entity for NestedCategory {
    fn entity_id(&self) -> (id: &UuidVo)
        ensures
            *id == self@.category_id.0,
    {
        &self.category_id.0
    }

    fn notification(&self) -> (notification: &Notification)
        ensures
            notification@ == self@.notification,
    {
        &self.notification
    }
}

impl NestedItem for NestedCategory {
    open spec fn key_text_of(value: NestedCategoryView) -> Seq<char> {
        value.key
    }

    fn key_text(&self) -> (key: &str) {
        self.key.as_str()
    }

    fn duplicate(&self) -> (copy: Self) {
        self.clone()
    }
}

impl Named for NestedCategory {
    open spec fn name_of(value: NestedCategoryView) -> Seq<char> {
        value.name
    }

    fn name_text(&self) -> (name: &str) {
        self.name.as_str()
    }
}

/// The nested categories that a list of commands creates.
pub open spec fn nested_categories_of(props: Seq<NestedCategoryCreateCommand>) -> Seq<NestedCategoryView> {
    props.map_values(
        |p: NestedCategoryCreateCommand|
            created_nested_category(p.category_id, p.name@, p.is_active, p.deleted_at),
    )
}

/// Creates, in order, the nested categories of a list of commands.
pub fn create_nested_categories(props: Vec<NestedCategoryCreateCommand>) -> (nested: Vec<NestedCategory>)
    ensures
        views_of(nested@) == nested_categories_of(props@),
{
    let mut nested: Vec<NestedCategory> = Vec::new();
    let n = props.len();
    for i in 0..n
        invariant
            n == props.len(),
            views_of(nested@) == nested_categories_of(props@).take(i as int),
    {
        let p = props[i].clone();
        let ghost before = views_of(nested@);
        let item = NestedCategory::create(p);
        nested.push(item);
        assert(views_of(nested@) =~= before.push(item@));
        assert(nested_categories_of(props@).take(i + 1) =~= nested_categories_of(props@).take(
            i as int,
        ).push(nested_categories_of(props@)[i as int]));
    }
    assert(nested_categories_of(props@).take(n as int) =~= nested_categories_of(props@));
    nested
}

impl Clone for NestedCategoryCreateCommand {
    fn clone(&self) -> (copy: Self)
        ensures
            copy == *self,
    {
        NestedCategoryCreateCommand {
            category_id: self.category_id,
            name: self.name.clone(),
            is_active: self.is_active,
            deleted_at: self.deleted_at,
        }
    }
}


/// A nested category kept under the text of its id.
pub open spec fn keyed_by_category_id(nested: NestedCategoryView) -> NestedCategoryView {
    NestedCategoryView { key: uuid_text(nested.category_id.0.id), ..nested }
}

/// Copies of the nested categorys, each kept under the text of its id.
pub fn nested_categories_keyed_by_id(nested: &Vec<NestedCategory>) -> (keyed: Vec<NestedCategory>)
    ensures
        views_of(keyed@) == views_of(nested@).map_values(|n: NestedCategoryView| keyed_by_category_id(n)),
{
    let ghost all = views_of(nested@).map_values(|n: NestedCategoryView| keyed_by_category_id(n));
    let mut keyed: Vec<NestedCategory> = Vec::new();
    for i in 0..nested.len()
        invariant
            all == views_of(nested@).map_values(|n: NestedCategoryView| keyed_by_category_id(n)),
            views_of(keyed@) == all.take(i as int),
    {
        let ghost before = views_of(keyed@);
        let item = nested[i].clone();
        let key = item.category_id().to_string();
        let item = item.with_key(key);
        keyed.push(item);
        assert(views_of(keyed@) =~= before.push(item@));
        assert(all.take(i + 1) =~= all.take(i as int).push(all[i as int]));
    }
    assert(all.take(nested.len() as int) =~= all);
    keyed
}


/// Nested items created from commands are already kept under their id texts.
pub proof fn lemma_created_nested_categories_keyed_by_id(props: Seq<NestedCategoryCreateCommand>)
    ensures
        nested_categories_of(props).map_values(|n: NestedCategoryView| keyed_by_category_id(n)) == nested_categories_of(props),
{
    assert(nested_categories_of(props).map_values(|n: NestedCategoryView| keyed_by_category_id(n)) =~= nested_categories_of(props));
}

} // verus!
