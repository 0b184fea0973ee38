use vstd::prelude::*;

use crate::domain::shared::entity::Entity;
use crate::domain::shared::named::Named;
use crate::domain::shared::nested_map::{views_of, NestedItem};
use crate::domain::shared::notification::{ErrorEntry, Notification};
use crate::domain::shared::timestamp::{now, Timestamp};
use crate::domain::shared::validation::{check_length, checked_length};
use crate::domain::shared::value_object::{uuid_text, UuidVo};

use super::genre_id::GenreId;

verus! {

/// A genre as held inside another aggregate.
#[derive(Debug)]
pub struct NestedGenre {
    key: String,
    genre_id: GenreId,
    name: String,
    is_active: bool,
    deleted_at: Option<Timestamp>,
    notification: Notification,
}

/// The abstract value of a [`NestedGenre`].
pub struct NestedGenreView {
    /// The text the genre is kept under in its collection.
    pub key: Seq<char>,
    pub genre_id: GenreId,
    pub name: Seq<char>,
    pub is_active: bool,
    pub deleted_at: Option<Timestamp>,
    pub notification: Seq<ErrorEntry>,
}

/// What a nested genre is created from.
#[derive(Debug)]
pub struct NestedGenreCreateCommand {
    pub genre_id: GenreId,
    pub name: String,
    pub is_active: bool,
    pub deleted_at: Option<Timestamp>,
}

impl View for NestedGenre {
    type V = NestedGenreView;

    closed spec fn view(&self) -> NestedGenreView {
        NestedGenreView {
            key: self.key@,
            genre_id: self.genre_id,
            name: self.name@,
            is_active: self.is_active,
            deleted_at: self.deleted_at,
            notification: self.notification@,
        }
    }
}

/// The nested genre a command creates, once validated.
pub open spec fn created_nested_genre(
    genre_id: GenreId,
    name: Seq<char>,
    is_active: bool,
    deleted_at: Option<Timestamp>,
) -> NestedGenreView {
    NestedGenreView {
        key: uuid_text(genre_id.0.id),
        genre_id,
        name,
        is_active,
        deleted_at,
        notification: checked_length(Seq::empty(), "name"@, name),
    }
}

impl NestedGenre {
    /// A nested genre with the given values and no errors; nothing is checked.
    pub fn new(
        genre_id: GenreId,
        name: String,
        is_active: bool,
        deleted_at: Option<Timestamp>,
    ) -> (nested: Self)
        ensures
            nested@ == (NestedGenreView {
                key: uuid_text(genre_id.0.id),
                genre_id,
                name: name@,
                is_active,
                deleted_at,
                notification: Seq::empty(),
            }),
    {
        let key = genre_id.to_string();
        NestedGenre { key, genre_id, name, is_active, deleted_at, notification: Notification::new() }
    }

    /// A nested genre from a command, validated.
    pub fn create(command: NestedGenreCreateCommand) -> (nested: Self)
        ensures
            nested@ == created_nested_genre(
                command.genre_id,
                command.name@,
                command.is_active,
                command.deleted_at,
            ),
    {
        let mut nested = Self::new(
            command.genre_id,
            command.name,
            command.is_active,
            command.deleted_at,
        );
        nested.validate();
        nested
    }

    /// The same genre, kept under another text.
    pub fn with_key(self, key: String) -> (nested: Self)
        ensures
            nested@ == (NestedGenreView { key: key@, ..self@ }),
    {
        let mut nested = self;
        nested.key = key;
        nested
    }

    /// Renames, then validates again.
    pub fn change_name(&mut self, name: String)
        ensures
            final(self)@ == (NestedGenreView {
                name: name@,
                notification: checked_length(old(self)@.notification, "name"@, name@),
                ..old(self)@
            }),
    {
        self.name = name;
        self.validate();
    }

    pub fn activate(&mut self)
        ensures
            final(self)@ == (NestedGenreView { is_active: true, ..old(self)@ }),
    {
        self.is_active = true;
    }

    pub fn deactivate(&mut self)
        ensures
            final(self)@ == (NestedGenreView { is_active: false, ..old(self)@ }),
    {
        self.is_active = false;
    }

    /// Marks as deleted at the current time.
    pub fn mark_as_deleted(&mut self)
        ensures
            final(self)@.deleted_at is Some,
            final(self)@ == (NestedGenreView { deleted_at: final(self)@.deleted_at, ..old(self)@ }),
    {
        self.deleted_at = Some(now());
    }

    pub fn mark_as_not_deleted(&mut self)
        ensures
            final(self)@ == (NestedGenreView { deleted_at: None, ..old(self)@ }),
    {
        self.deleted_at = None;
    }

    /// Records an error when the name is longer than 255 bytes.
    pub fn validate(&mut self)
        ensures
            final(self)@ == (NestedGenreView {
                notification: checked_length(old(self)@.notification, "name"@, old(self)@.name),
                ..old(self)@
            }),
    {
        check_length(&mut self.notification, "name", self.name.as_str());
    }

    pub fn genre_id(&self) -> (id: &GenreId)
        ensures
            *id == self@.genre_id,
    {
        &self.genre_id
    }

    pub fn name(&self) -> (name: &str)
        ensures
            name@ == self@.name,
    {
        self.name.as_str()
    }

    pub fn is_active(&self) -> (active: bool)
        ensures
            active == self@.is_active,
    {
        self.is_active
    }

    pub fn deleted_at(&self) -> (deleted_at: Option<Timestamp>)
        ensures
            deleted_at == self@.deleted_at,
    {
        self.deleted_at
    }
}

impl Clone for NestedGenre {
    fn clone(&self) -> (copy: Self)
        ensures
            copy@ == self@,
    {
        NestedGenre {
            key: self.key.clone(),
            genre_id: self.genre_id,
            name: self.name.clone(),
            is_active: self.is_active,
            deleted_at: self.deleted_at,
            notification: self.notification.clone(),
        }
    }
}

impl Entity for NestedGenre {
    fn entity_id(&self) -> (id: &UuidVo)
        ensures
            *id == self@.genre_id.0,
    {
        &self.genre_id.0
    }

    fn notification(&self) -> (notification: &Notification)
        ensures
            notification@ == self@.notification,
    {
        &self.notification
    }
}

impl NestedItem for NestedGenre {
    open spec fn key_text_of(value: NestedGenreView) -> Seq<char> {
        value.key
    }

    fn key_text(&self) -> (key: &str) {
        self.key.as_str()
    }

    fn duplicate(&self) -> (copy: Self) {
        self.clone()
    }
}

impl Named for NestedGenre {
    open spec fn name_of(value: NestedGenreView) -> Seq<char> {
        value.name
    }

    fn name_text(&self) -> (name: &str) {
        self.name.as_str()
    }
}

/// The nested genres that a list of commands creates.
pub open spec fn nested_genres_of(props: Seq<NestedGenreCreateCommand>) -> Seq<NestedGenreView> {
    props.map_values(
        |p: NestedGenreCreateCommand|
            created_nested_genre(p.genre_id, p.name@, p.is_active, p.deleted_at),
    )
}

/// Creates, in order, the nested genres of a list of commands.
pub fn create_nested_genres(props: Vec<NestedGenreCreateCommand>) -> (nested: Vec<NestedGenre>)
    ensures
        views_of(nested@) == nested_genres_of(props@),
{
    let mut nested: Vec<NestedGenre> = Vec::new();
    let n = props.len();
    for i in 0..n
        invariant
            n == props.len(),
            views_of(nested@) == nested_genres_of(props@).take(i as int),
    {
        let p = props[i].clone();
        let ghost before = views_of(nested@);
        let item = NestedGenre::create(p);
        nested.push(item);
        assert(views_of(nested@) =~= before.push(item@));
        assert(nested_genres_of(props@).take(i + 1) =~= nested_genres_of(props@).take(
            i as int,
        ).push(nested_genres_of(props@)[i as int]));
    }
    assert(nested_genres_of(props@).take(n as int) =~= nested_genres_of(props@));
    nested
}

impl Clone for NestedGenreCreateCommand {
    fn clone(&self) -> (copy: Self)
        ensures
            copy == *self,
    {
        NestedGenreCreateCommand {
            genre_id: self.genre_id,
            name: self.name.clone(),
            is_active: self.is_active,
            deleted_at: self.deleted_at,
        }
    }
}


/// A nested genre kept under the text of its id.
pub open spec fn keyed_by_genre_id(nested: NestedGenreView) -> NestedGenreView {
    NestedGenreView { key: uuid_text(nested.genre_id.0.id), ..nested }
}

/// Copies of the nested genres, each kept under the text of its id.
pub fn nested_genres_keyed_by_id(nested: &Vec<NestedGenre>) -> (keyed: Vec<NestedGenre>)
    ensures
        views_of(keyed@) == views_of(nested@).map_values(|n: NestedGenreView| keyed_by_genre_id(n)),
{
    let ghost all = views_of(nested@).map_values(|n: NestedGenreView| keyed_by_genre_id(n));
    let mut keyed: Vec<NestedGenre> = Vec::new();
    for i in 0..nested.len()
        invariant
            all == views_of(nested@).map_values(|n: NestedGenreView| keyed_by_genre_id(n)),
            views_of(keyed@) == all.take(i as int),
    {
        let ghost before = views_of(keyed@);
        let item = nested[i].clone();
        let key = item.genre_id().to_string();
        let item = item.with_key(key);
        keyed.push(item);
        assert(views_of(keyed@) =~= before.push(item@));
        assert(all.take(i + 1) =~= all.take(i as int).push(all[i as int]));
    }
    assert(all.take(nested.len() as int) =~= all);
    keyed
}


/// Nested items created from commands are already kept under their id texts.
pub proof fn lemma_created_nested_genres_keyed_by_id(props: Seq<NestedGenreCreateCommand>)
    ensures
        nested_genres_of(props).map_values(|n: NestedGenreView| keyed_by_genre_id(n)) == nested_genres_of(props),
{
    assert(nested_genres_of(props).map_values(|n: NestedGenreView| keyed_by_genre_id(n)) =~= nested_genres_of(props));
}

} // verus!
