use vstd::prelude::*;

use crate::domain::category::nested_category::{NestedCategory, NestedCategoryView};
use crate::domain::genre::aggregate::{Genre, GenreView};
use crate::domain::shared::named::{copies_by_name, sorted_by_name};
use crate::domain::shared::nested_map::views_of;
use crate::domain::shared::timestamp::Timestamp;
use crate::domain::shared::value_object::uuid_text;

verus! {

/// A category of a genre as the application returns it.
#[derive(Debug, Clone, PartialEq, Eq)]
pub struct NestedCategoryOutput {
    pub id: String,
    pub name: String,
    pub is_active: bool,
    pub deleted_at: Option<Timestamp>,
}

/// A genre as the application returns it.
#[derive(Debug, Clone, PartialEq, Eq)]
pub struct GenreOutput {
    pub id: String,
    pub name: String,
    pub categories: Vec<NestedCategoryOutput>,
    pub is_active: bool,
    pub created_at: Timestamp,
}

/// `output` shows the nested category: its id as text and its fields.
pub open spec fn is_nested_category_output(output: NestedCategoryOutput, nested: NestedCategoryView) -> bool {
    &&& output.id@ == uuid_text(nested.category_id.0.id)
    &&& output.name@ == nested.name
    &&& output.is_active == nested.is_active
    &&& output.deleted_at == nested.deleted_at
}

/// `outputs` show, in order, the nested categories of `nested`.
pub open spec fn are_nested_category_outputs(outputs: Seq<NestedCategoryOutput>, nested: Seq<NestedCategoryView>) -> bool {
    &&& outputs.len() == nested.len()
    &&& forall|i: int| 0 <= i < outputs.len() ==> is_nested_category_output(#[trigger] outputs[i], nested[i])
}

/// `output` shows the genre, its categories ordered by name.
pub open spec fn is_genre_output(output: GenreOutput, genre: GenreView) -> bool {
    &&& output.id@ == uuid_text(genre.genre_id.0.id)
    &&& output.name@ == genre.name
    &&& are_nested_category_outputs(output.categories@, sorted_by_name::<NestedCategory>(genre.categories))
    &&& output.is_active == genre.is_active
    &&& output.created_at == genre.created_at
}

/// `outputs` show, in order, the genres of `genres`.
pub open spec fn are_genre_outputs(outputs: Seq<GenreOutput>, genres: Seq<GenreView>) -> bool {
    &&& outputs.len() == genres.len()
    &&& forall|i: int| 0 <= i < outputs.len() ==> is_genre_output(#[trigger] outputs[i], genres[i])
}

/// The output of one nested category.
pub fn nested_category_output(nested: &NestedCategory) -> (output: NestedCategoryOutput)
    ensures
        is_nested_category_output(output, nested@),
{
    NestedCategoryOutput {
        id: nested.category_id().to_string(),
        name: String::from_str(nested.name()),
        is_active: nested.is_active(),
        deleted_at: nested.deleted_at(),
    }
}

/// The outputs of nested categories, ordered by name; equal names keep their order.
pub fn nested_category_outputs(nested: &Vec<NestedCategory>) -> (outputs: Vec<NestedCategoryOutput>)
    ensures
        are_nested_category_outputs(outputs@, sorted_by_name::<NestedCategory>(views_of(nested@))),
{
    let sorted = copies_by_name(nested);
    let mut outputs: Vec<NestedCategoryOutput> = Vec::new();
    for i in 0..sorted.len()
        invariant
            outputs@.len() == i,
            forall|k: int| 0 <= k < i ==> is_nested_category_output(#[trigger] outputs@[k], sorted@[k]@),
    {
        outputs.push(nested_category_output(&sorted[i]));
    }
    outputs
}

/// Turns genres into outputs.
pub struct GenreOutputMapper;

impl GenreOutputMapper {
    pub fn to_output(entity: &Genre) -> (output: GenreOutput)
        ensures
            is_genre_output(output, entity@),
    {
        GenreOutput {
            id: entity.genre_id().to_string(),
            name: String::from_str(entity.name()),
            categories: nested_category_outputs(entity.categories().values()),
            is_active: entity.is_active(),
            created_at: entity.created_at(),
        }
    }
}

/// The outputs of a list of genres, in order.
pub fn genre_outputs(genres: &Vec<Genre>) -> (outputs: Vec<GenreOutput>)
    ensures
        are_genre_outputs(outputs@, views_of(genres@)),
{
    let mut outputs: Vec<GenreOutput> = Vec::new();
    for i in 0..genres.len()
        invariant
            outputs@.len() == i,
            forall|k: int| 0 <= k < i ==> is_genre_output(#[trigger] outputs@[k], genres@[k]@),
    {
        outputs.push(GenreOutputMapper::to_output(&genres[i]));
    }
    outputs
}

} // verus!
