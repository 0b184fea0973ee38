use vstd::prelude::*;

use crate::domain::category::category_id::CategoryId;
use crate::domain::category::nested_category::{
    create_nested_categories, nested_categories_of, NestedCategory, NestedCategoryCreateCommand,
    NestedCategoryView, keyed_by_category_id,
    nested_categories_keyed_by_id,
};
use crate::domain::shared::entity::{AggregateRoot, Entity};
use crate::domain::shared::nested_map::Keyed;
use crate::domain::shared::query::Stored;
use crate::domain::shared::nested_map::{collected, value_at_key, views_of, with_value, without_key, NestedMap};
use crate::domain::shared::notification::{ErrorEntry, Notification};
use crate::domain::shared::timestamp::{now, Timestamp};
use crate::domain::shared::validation::{check_length, checked_length};
use crate::domain::shared::value_object::{uuid_text, UuidVo};

use super::genre_id::GenreId;

verus! {

/// A genre of videos and the categories it belongs to.
#[derive(Debug)]
pub struct Genre {
    genre_id: GenreId,
    name: String,
    categories: NestedMap<NestedCategory>,
    is_active: bool,
    created_at: Timestamp,
    deleted_at: Option<Timestamp>,
    notification: Notification,
}

/// The abstract value of a [`Genre`]; its categories are kept one per key text.
pub struct GenreView {
    pub genre_id: GenreId,
    pub name: Seq<char>,
    pub categories: Seq<NestedCategoryView>,
    pub is_active: bool,
    pub created_at: Timestamp,
    pub deleted_at: Option<Timestamp>,
    pub notification: Seq<ErrorEntry>,
}

/// What a genre is created from.
#[derive(Debug, Clone)]
pub struct GenreCreateCommand {
    pub genre_id: GenreId,
    pub name: String,
    pub categories_props: Vec<NestedCategoryCreateCommand>,
    pub is_active: bool,
    pub created_at: Timestamp,
}

impl View for Genre {
    type V = GenreView;

    closed spec fn view(&self) -> GenreView {
        GenreView {
            genre_id: self.genre_id,
            name: self.name@,
            categories: self.categories@,
            is_active: self.is_active,
            created_at: self.created_at,
            deleted_at: self.deleted_at,
            notification: self.notification@,
        }
    }
}

/// The genre a command creates: not deleted, its categories kept one per id
/// (a later one replacing an earlier), its name checked.
pub open spec fn created_genre(
    genre_id: GenreId,
    name: Seq<char>,
    props: Seq<NestedCategoryCreateCommand>,
    is_active: bool,
    created_at: Timestamp,
) -> GenreView {
    GenreView {
        genre_id,
        name,
        categories: collected::<NestedCategory>(nested_categories_of(props)),
        is_active,
        created_at,
        deleted_at: None,
        notification: checked_length(Seq::empty(), "name"@, name),
    }
}

/// The categories after changing, where present, the nested category with the id.
pub open spec fn with_category_changed(
    categories: Seq<NestedCategoryView>,
    id: CategoryId,
    change: spec_fn(NestedCategoryView) -> NestedCategoryView,
) -> Seq<NestedCategoryView> {
    match value_at_key::<NestedCategory>(categories, uuid_text(id.0.id)) {
        Some(v) => with_value::<NestedCategory>(categories, change(v)),
        None => categories,
    }
}

impl Genre {
    /// A genre with the given values and no errors; nothing is checked.
    pub fn new(
        genre_id: GenreId,
        name: String,
        categories: NestedMap<NestedCategory>,
        is_active: bool,
        created_at: Timestamp,
        deleted_at: Option<Timestamp>,
    ) -> (genre: Self)
        ensures
            genre@ == (GenreView {
                genre_id,
                name: name@,
                categories: categories@,
                is_active,
                created_at,
                deleted_at,
                notification: Seq::empty(),
            }),
    {
        Genre { genre_id, name, categories, is_active, created_at, deleted_at, notification: Notification::new() }
    }

    /// A new, not deleted genre from a command, validated, with one nested
    /// category per id of the command's categories.
    pub fn create(command: GenreCreateCommand) -> (genre: Self)
        ensures
            genre@ == created_genre(
                command.genre_id,
                command.name@,
                command.categories_props@,
                command.is_active,
                command.created_at,
            ),
    {
        let nested = create_nested_categories(command.categories_props);
        let categories = NestedMap::from_list(nested);
        let mut genre = Self::new(
            command.genre_id,
            command.name,
            categories,
            command.is_active,
            command.created_at,
            None,
        );
        genre.validate();
        genre
    }

    /// Renames, then validates again.
    pub fn change_name(&mut self, name: String)
        ensures
            final(self)@ == (GenreView {
                name: name@,
                notification: checked_length(old(self)@.notification, "name"@, name@),
                ..old(self)@
            }),
    {
        self.name = name;
        self.validate();
    }

    /// Adds a nested category under the text of its id, replacing the one kept there.
    pub fn add_nested_category(&mut self, nested: NestedCategory)
        ensures
            final(self)@ == (GenreView {
                categories: with_value::<NestedCategory>(old(self)@.categories, keyed_by_category_id(nested@)),
                ..old(self)@
            }),
    {
        let key = nested.category_id().to_string();
        self.categories.put(nested.with_key(key));
    }

    /// Removes the nested category with the id, if any.
    pub fn remove_nested_category(&mut self, category_id: &CategoryId)
        ensures
            final(self)@ == (GenreView {
                categories: without_key::<NestedCategory>(old(self)@.categories, uuid_text(category_id.0.id)),
                ..old(self)@
            }),
    {
        let key = category_id.to_string();
        self.categories.remove(key.as_str());
    }

    /// Activates the nested category with the id, if any.
    pub fn activate_nested_category(&mut self, category_id: &CategoryId)
        ensures
            final(self)@ == (GenreView {
                categories: with_category_changed(
                    old(self)@.categories,
                    *category_id,
                    |v: NestedCategoryView| NestedCategoryView { is_active: true, ..v },
                ),
                ..old(self)@
            }),
    {
        let key = category_id.to_string();
        if let Some(found) = self.categories.get(key.as_str()) {
            let mut nested = found.clone();
            nested.activate();
            self.categories.put(nested);
        }
    }

    /// Deactivates the nested category with the id, if any.
    pub fn deactivate_nested_category(&mut self, category_id: &CategoryId)
        ensures
            final(self)@ == (GenreView {
                categories: with_category_changed(
                    old(self)@.categories,
                    *category_id,
                    |v: NestedCategoryView| NestedCategoryView { is_active: false, ..v },
                ),
                ..old(self)@
            }),
    {
        let key = category_id.to_string();
        if let Some(found) = self.categories.get(key.as_str()) {
            let mut nested = found.clone();
            nested.deactivate();
            self.categories.put(nested);
        }
    }

    /// Renames the nested category with the id, if any (its name is checked again).
    pub fn change_nested_category_name(&mut self, category_id: &CategoryId, name: String)
        ensures
            final(self)@ == (GenreView {
                categories: with_category_changed(
                    old(self)@.categories,
                    *category_id,
                    |v: NestedCategoryView|
                        NestedCategoryView {
                            name: name@,
                            notification: checked_length(v.notification, "name"@, name@),
                            ..v
                        },
                ),
                ..old(self)@
            }),
    {
        let key = category_id.to_string();
        if let Some(found) = self.categories.get(key.as_str()) {
            let mut nested = found.clone();
            nested.change_name(name);
            self.categories.put(nested);
        }
    }

    /// Replaces all nested categories with those of the list, each kept under
    /// the text of its id, one per id (a later one replacing an earlier).
    pub fn sync_nested_categories(&mut self, categories: Vec<NestedCategory>)
        ensures
            final(self)@ == (GenreView {
                categories: collected::<NestedCategory>(
                    views_of(categories@).map_values(|n: NestedCategoryView| keyed_by_category_id(n)),
                ),
                ..old(self)@
            }),
    {
        self.categories = NestedMap::from_list(nested_categories_keyed_by_id(&categories));
    }

    pub fn activate(&mut self)
        ensures
            final(self)@ == (GenreView { is_active: true, ..old(self)@ }),
    {
        self.is_active = true;
    }

    pub fn deactivate(&mut self)
        ensures
            final(self)@ == (GenreView { is_active: false, ..old(self)@ }),
    {
        self.is_active = false;
    }

    /// Marks as deleted at the current time.
    pub fn mark_as_deleted(&mut self)
        ensures
            final(self)@.deleted_at is Some,
            final(self)@ == (GenreView { deleted_at: final(self)@.deleted_at, ..old(self)@ }),
    {
        self.deleted_at = Some(now());
    }

    pub fn mark_as_undeleted(&mut self)
        ensures
            final(self)@ == (GenreView { deleted_at: None, ..old(self)@ }),
    {
        self.deleted_at = None;
    }

    pub fn change_created_at(&mut self, created_at: Timestamp)
        ensures
            final(self)@ == (GenreView { created_at, ..old(self)@ }),
    {
        self.created_at = created_at;
    }

    /// Records an error when the name is longer than 255 bytes.
    pub fn validate(&mut self)
        ensures
            final(self)@ == (GenreView {
                notification: checked_length(old(self)@.notification, "name"@, old(self)@.name),
                ..old(self)@
            }),
    {
        check_length(&mut self.notification, "name", self.name.as_str());
    }

    pub fn genre_id(&self) -> (id: &GenreId)
        ensures
            *id == self@.genre_id,
    {
        &self.genre_id
    }

    pub fn name(&self) -> (name: &str)
        ensures
            name@ == self@.name,
    {
        self.name.as_str()
    }

    pub fn categories(&self) -> (categories: &NestedMap<NestedCategory>)
        ensures
            categories@ == self@.categories,
    {
        &self.categories
    }

    pub fn is_active(&self) -> (active: bool)
        ensures
            active == self@.is_active,
    {
        self.is_active
    }

    pub fn created_at(&self) -> (created_at: Timestamp)
        ensures
            created_at == self@.created_at,
    {
        self.created_at
    }

    pub fn deleted_at(&self) -> (deleted_at: Option<Timestamp>)
        ensures
            deleted_at == self@.deleted_at,
    {
        self.deleted_at
    }
}

impl Clone for Genre {
    fn clone(&self) -> (copy: Self)
        ensures
            copy@ == self@,
    {
        Genre {
            genre_id: self.genre_id,
            name: self.name.clone(),
            categories: self.categories.clone(),
            is_active: self.is_active,
            created_at: self.created_at,
            deleted_at: self.deleted_at,
            notification: self.notification.clone(),
        }
    }
}

impl Entity for Genre {
    fn entity_id(&self) -> (id: &UuidVo)
        ensures
            *id == self@.genre_id.0,
    {
        &self.genre_id.0
    }

    fn notification(&self) -> (notification: &Notification)
        ensures
            notification@ == self@.notification,
    {
        &self.notification
    }
}

impl AggregateRoot for Genre {

}

impl Keyed for Genre {
    open spec fn key_of(value: GenreView) -> u128 {
        value.genre_id.0.id
    }

    fn key(&self) -> (key: u128) {
        self.genre_id.0.id
    }

    fn duplicate(&self) -> (copy: Self) {
        self.clone()
    }
}

impl Stored for Genre {
    type Filter = bool;

    open spec fn deleted_of(value: GenreView) -> bool {
        value.deleted_at is Some
    }

    open spec fn text_of(value: GenreView) -> Seq<char> {
        value.name
    }

    open spec fn created_of(value: GenreView) -> Timestamp {
        value.created_at
    }

    open spec fn filter_of(value: GenreView) -> bool {
        value.is_active
    }

    fn is_deleted(&self) -> (deleted: bool) {
        self.deleted_at.is_some()
    }

    fn sort_text(&self) -> (text: &str) {
        self.name.as_str()
    }

    fn created(&self) -> (created: Timestamp) {
        self.created_at
    }

    fn has_filter(&self, filter: bool) -> (has: bool) {
        self.is_active == filter
    }
}

} // verus!
