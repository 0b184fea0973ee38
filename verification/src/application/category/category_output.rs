use vstd::prelude::*;

use crate::domain::category::aggregate::{Category, CategoryView};
use crate::domain::shared::text::{option_text, option_to_owned};
use crate::domain::shared::timestamp::Timestamp;
use crate::domain::shared::value_object::uuid_text;

verus! {

/// A category as the application returns it.
#[derive(Debug, Clone, PartialEq, Eq)]
pub struct CategoryOutput {
    pub id: String,
    pub name: String,
    pub description: Option<String>,
    pub is_active: bool,
    pub created_at: Timestamp,
    pub deleted_at: Option<Timestamp>,
}

/// `output` shows the category: its id as text and its fields.
pub open spec fn is_category_output(output: CategoryOutput, category: CategoryView) -> bool {
    &&& output.id@ == uuid_text(category.category_id.0.id)
    &&& output.name@ == category.name
    &&& option_text(output.description) == category.description
    &&& output.is_active == category.is_active
    &&& output.created_at == category.created_at
    &&& output.deleted_at == category.deleted_at
}

/// `outputs` show, in order, the categories of `categories`.
pub open spec fn are_category_outputs(outputs: Seq<CategoryOutput>, categories: Seq<CategoryView>) -> bool {
    &&& outputs.len() == categories.len()
    &&& forall|i: int| 0 <= i < outputs.len() ==> is_category_output(#[trigger] outputs[i], categories[i])
}

/// Turns categories into outputs.
pub struct CategoryOutputMapper;

impl CategoryOutputMapper {
    pub fn to_output(entity: &Category) -> (output: CategoryOutput)
        ensures
            is_category_output(output, entity@),
    {
        CategoryOutput {
            id: entity.category_id().to_string(),
            name: String::from_str(entity.name()),
            description: option_to_owned(entity.description()),
            is_active: entity.is_active(),
            created_at: entity.created_at(),
            deleted_at: entity.deleted_at(),
        }
    }
}

/// The outputs of a list of categories, in order.
pub fn category_outputs(categories: &Vec<Category>) -> (outputs: Vec<CategoryOutput>)
    ensures
        are_category_outputs(outputs@, crate::domain::shared::nested_map::views_of(categories@)),
{
    let mut outputs: Vec<CategoryOutput> = Vec::new();
    for i in 0..categories.len()
        invariant
            outputs@.len() == i,
            forall|k: int| 0 <= k < i ==> is_category_output(#[trigger] outputs@[k], categories@[k]@),
    {
        outputs.push(CategoryOutputMapper::to_output(&categories[i]));
    }
    outputs
}

} // verus!
