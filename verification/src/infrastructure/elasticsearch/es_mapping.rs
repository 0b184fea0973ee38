use vstd::prelude::*;

use crate::domain::shared::nested_map::views_of;

verus! {

/// How the index stores a field.
#[derive(Clone, Copy, Debug, PartialEq, Eq, Structural)]
pub enum FieldKind {
    /// An exact value, matched and sorted as a whole.
    Keyword,
    /// Full text, split into words.
    Text,
    /// Full text, with an exact `keyword` sub-field to sort by.
    TextWithKeyword,
    Integer,
    Boolean,
    Date,
    /// A list of items, each with fields of its own.
    Nested,
}

/// A field of each item held in a nested field.
pub struct ItemField {
    pub name: String,
    pub kind: FieldKind,
}

pub struct ItemFieldView {
    pub name: Seq<char>,
    pub kind: FieldKind,
}

impl View for ItemField {
    type V = ItemFieldView;

    open spec fn view(&self) -> ItemFieldView {
        ItemFieldView { name: self.name@, kind: self.kind }
    }
}

/// A field of the index; `items` holds the fields of each item of a nested
/// field, and is empty for any other.
pub struct FieldMapping {
    pub name: String,
    pub kind: FieldKind,
    pub items: Vec<ItemField>,
}

pub struct FieldMappingView {
    pub name: Seq<char>,
    pub kind: FieldKind,
    pub items: Seq<ItemFieldView>,
}

impl View for FieldMapping {
    type V = FieldMappingView;

    open spec fn view(&self) -> FieldMappingView {
        FieldMappingView { name: self.name@, kind: self.kind, items: views_of(self.items@) }
    }
}

pub open spec fn item_field(name: Seq<char>, kind: FieldKind) -> ItemFieldView {
    ItemFieldView { name, kind }
}

/// A field that is not nested.
pub open spec fn plain_field(name: Seq<char>, kind: FieldKind) -> FieldMappingView {
    FieldMappingView { name, kind, items: Seq::empty() }
}

pub open spec fn nested_field(name: Seq<char>, items: Seq<ItemFieldView>) -> FieldMappingView {
    FieldMappingView { name, kind: FieldKind::Nested, items }
}

/// The fields of a category held in a genre or a video.
pub open spec fn category_item_fields() -> Seq<ItemFieldView> {
    seq![
        item_field("category_id"@, FieldKind::Keyword),
        item_field("category_name"@, FieldKind::Keyword),
        item_field("is_active"@, FieldKind::Boolean),
        item_field("deleted_at"@, FieldKind::Date),
        item_field("is_deleted"@, FieldKind::Boolean),
    ]
}

/// The fields of a genre held in a video.
pub open spec fn genre_item_fields() -> Seq<ItemFieldView> {
    seq![
        item_field("genre_id"@, FieldKind::Keyword),
        item_field("genre_name"@, FieldKind::Keyword),
        item_field("is_active"@, FieldKind::Boolean),
        item_field("deleted_at"@, FieldKind::Date),
        item_field("is_deleted"@, FieldKind::Boolean),
    ]
}

/// The fields of a cast member held in a video.
pub open spec fn cast_member_item_fields() -> Seq<ItemFieldView> {
    seq![
        item_field("cast_member_id"@, FieldKind::Keyword),
        item_field("cast_member_name"@, FieldKind::Keyword),
        item_field("cast_member_type"@, FieldKind::Integer),
        item_field("deleted_at"@, FieldKind::Date),
        item_field("is_deleted"@, FieldKind::Boolean),
    ]
}

/// The fields of the catalog index, in order. One index holds every document
/// type, told apart by `type`.
pub open spec fn index_fields() -> Seq<FieldMappingView> {
    seq![
        plain_field("type"@, FieldKind::Keyword),
        plain_field("category_name"@, FieldKind::Keyword),
        plain_field("category_description"@, FieldKind::Text),
        plain_field("cast_member_name"@, FieldKind::Keyword),
        plain_field("cast_member_type"@, FieldKind::Integer),
        plain_field("genre_name"@, FieldKind::Keyword),
        nested_field("categories"@, category_item_fields()),
        plain_field("video_title"@, FieldKind::TextWithKeyword),
        plain_field("video_description"@, FieldKind::Text),
        plain_field("year_launched"@, FieldKind::Integer),
        plain_field("duration"@, FieldKind::Integer),
        plain_field("rating"@, FieldKind::Keyword),
        plain_field("is_opened"@, FieldKind::Boolean),
        plain_field("is_published"@, FieldKind::Boolean),
        plain_field("banner_url"@, FieldKind::Keyword),
        plain_field("thumbnail_url"@, FieldKind::Keyword),
        plain_field("thumbnail_half_url"@, FieldKind::Keyword),
        plain_field("trailer_url"@, FieldKind::Keyword),
        plain_field("video_url"@, FieldKind::Keyword),
        nested_field("genres"@, genre_item_fields()),
        nested_field("cast_members"@, cast_member_item_fields()),
        plain_field("is_active"@, FieldKind::Boolean),
        plain_field("created_at"@, FieldKind::Date),
        plain_field("deleted_at"@, FieldKind::Date),
    ]
}

fn item(name: &str, kind: FieldKind) -> (field: ItemField)
    ensures
        field@ == item_field(name@, kind),
{
    ItemField { name: String::from_str(name), kind }
}

fn plain(name: &str, kind: FieldKind) -> (field: FieldMapping)
    ensures
        field@ == plain_field(name@, kind),
{
    let items: Vec<ItemField> = Vec::new();
    assert(views_of(items@) =~= Seq::<ItemFieldView>::empty());
    FieldMapping { name: String::from_str(name), kind, items }
}

fn nested(name: &str, items: Vec<ItemField>) -> (field: FieldMapping)
    ensures
        field@ == nested_field(name@, views_of(items@)),
{
    FieldMapping { name: String::from_str(name), kind: FieldKind::Nested, items }
}

fn category_items() -> (items: Vec<ItemField>)
    ensures
        views_of(items@) == category_item_fields(),
{
    let mut items: Vec<ItemField> = Vec::new();
    items.push(item("category_id", FieldKind::Keyword));
    items.push(item("category_name", FieldKind::Keyword));
    items.push(item("is_active", FieldKind::Boolean));
    items.push(item("deleted_at", FieldKind::Date));
    items.push(item("is_deleted", FieldKind::Boolean));
    assert(views_of(items@) =~= category_item_fields());
    items
}

fn genre_items() -> (items: Vec<ItemField>)
    ensures
        views_of(items@) == genre_item_fields(),
{
    let mut items: Vec<ItemField> = Vec::new();
    items.push(item("genre_id", FieldKind::Keyword));
    items.push(item("genre_name", FieldKind::Keyword));
    items.push(item("is_active", FieldKind::Boolean));
    items.push(item("deleted_at", FieldKind::Date));
    items.push(item("is_deleted", FieldKind::Boolean));
    assert(views_of(items@) =~= genre_item_fields());
    items
}

fn cast_member_items() -> (items: Vec<ItemField>)
    ensures
        views_of(items@) == cast_member_item_fields(),
{
    let mut items: Vec<ItemField> = Vec::new();
    items.push(item("cast_member_id", FieldKind::Keyword));
    items.push(item("cast_member_name", FieldKind::Keyword));
    items.push(item("cast_member_type", FieldKind::Integer));
    items.push(item("deleted_at", FieldKind::Date));
    items.push(item("is_deleted", FieldKind::Boolean));
    assert(views_of(items@) =~= cast_member_item_fields());
    items
}

/// The fields of the catalog index, as [`index_fields`] lists them.
pub fn es_mapping() -> (fields: Vec<FieldMapping>)
    ensures
        views_of(fields@) == index_fields(),
{
    let mut fields: Vec<FieldMapping> = Vec::new();
    fields.push(plain("type", FieldKind::Keyword));
    fields.push(plain("category_name", FieldKind::Keyword));
    fields.push(plain("category_description", FieldKind::Text));
    fields.push(plain("cast_member_name", FieldKind::Keyword));
    fields.push(plain("cast_member_type", FieldKind::Integer));
    fields.push(plain("genre_name", FieldKind::Keyword));
    fields.push(nested("categories", category_items()));
    fields.push(plain("video_title", FieldKind::TextWithKeyword));
    fields.push(plain("video_description", FieldKind::Text));
    fields.push(plain("year_launched", FieldKind::Integer));
    fields.push(plain("duration", FieldKind::Integer));
    fields.push(plain("rating", FieldKind::Keyword));
    fields.push(plain("is_opened", FieldKind::Boolean));
    fields.push(plain("is_published", FieldKind::Boolean));
    fields.push(plain("banner_url", FieldKind::Keyword));
    fields.push(plain("thumbnail_url", FieldKind::Keyword));
    fields.push(plain("thumbnail_half_url", FieldKind::Keyword));
    fields.push(plain("trailer_url", FieldKind::Keyword));
    fields.push(plain("video_url", FieldKind::Keyword));
    fields.push(nested("genres", genre_items()));
    fields.push(nested("cast_members", cast_member_items()));
    fields.push(plain("is_active", FieldKind::Boolean));
    fields.push(plain("created_at", FieldKind::Date));
    fields.push(plain("deleted_at", FieldKind::Date));
    assert(views_of(fields@) =~= index_fields());
    fields
}

} // verus!
