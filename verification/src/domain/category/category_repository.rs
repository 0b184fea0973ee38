use vstd::prelude::*;

use crate::domain::shared::errors::ErrorMessage;
use crate::domain::shared::listing::kept;
use crate::domain::shared::nested_map::views_of;
use crate::domain::shared::ordering::text_less;
use crate::domain::shared::query::{
    first_selected, found_for_ids, lemma_first_selected_member, lemma_listed_by_creation, lemma_listed_by_text,
    lemma_listed_members, lemma_listed_unordered, listed, listing, meets_filter, missing_ids, position_of_id,
    selected, shown, stores_id, SortKey,
};
use crate::domain::shared::repository::{
    ExistsByIdResult, FindByIdsResult, SortDirection, SortOrder,
};
use crate::domain::shared::value_object::UuidVo;

use super::aggregate::{Category, CategoryView};
use super::category_id::CategoryId;

verus! {

/// How categories are ordered for a requested order: by `name` or by
/// `created_at`, any other field keeping storage order; no order keeps storage order.
pub open spec fn category_order(order: Option<SortOrder>) -> (SortKey, SortDirection) {
    match order {
        Some(o) => (
            if o.field@ == "name"@ {
                SortKey::Text
            } else if o.field@ == "created_at"@ {
                SortKey::CreatedAt
            } else {
                SortKey::Unordered
            },
            o.direction,
        ),
        None => (SortKey::Unordered, SortDirection::Asc),
    }
}

/// The UUIDs of a list of category ids.
pub open spec fn category_uuids(ids: Seq<CategoryId>) -> Seq<u128> {
    ids.map_values(|id: CategoryId| id.0.id)
}

/// The UUID values of a list of UUIDs.
pub open spec fn uuid_values(ids: Seq<UuidVo>) -> Seq<u128> {
    ids.map_values(|id: UuidVo| id.id)
}

/// Where categories are kept. Reads see the stored categories in storage order,
/// leaving out soft-deleted ones when `hides_deleted` holds.
pub trait ICategoryRepository {
    type Error: ErrorMessage;

    /// The stored categories, in storage order.
    spec fn stored(&self) -> Seq<CategoryView>;

    /// Whether reads leave out soft-deleted categories.
    spec fn hides_deleted(&self) -> bool;

    /// Requests fail only where a contract below says they may (an update or a
    /// delete of a missing category); otherwise the store behind can fail any time.
    spec fn reliable(&self) -> bool;

    /// The fields a listing can be ordered by.
    fn sortable_fields(&self) -> (fields: Vec<&'static str>)
        ensures
            fields@.len() == 2,
            fields@[0]@ == "name"@,
            fields@[1]@ == "created_at"@,
    ;

    fn insert(&mut self, entity: &Category) -> (result: Result<(), Self::Error>)
        ensures
            old(self).reliable() ==> result is Ok,
            final(self).reliable() == old(self).reliable(),
            result is Ok ==> final(self).stored() == old(self).stored().push(entity@)
                && final(self).hides_deleted() == old(self).hides_deleted(),
    ;

    fn bulk_insert(&mut self, entities: &[Category]) -> (result: Result<(), Self::Error>)
        ensures
            old(self).reliable() ==> result is Ok,
            final(self).reliable() == old(self).reliable(),
            result is Ok ==> final(self).stored() == old(self).stored() + views_of(entities@)
                && final(self).hides_deleted() == old(self).hides_deleted(),
    ;

    fn find_by_id(&self, id: &CategoryId) -> (result: Result<Option<Category>, Self::Error>)
        ensures
            self.reliable() ==> result is Ok,
            result matches Ok(found) ==> match found {
                Some(c) => first_selected::<Category>(self.stored(), self.hides_deleted(), Some(id.0.id), None) == Some(c@),
                None => first_selected::<Category>(self.stored(), self.hides_deleted(), Some(id.0.id), None) is None,
            },
    ;

    fn find_one_by(&self, category_id: Option<&CategoryId>, is_active: Option<bool>) -> (result: Result<
        Option<Category>,
        Self::Error,
    >)
        ensures
            self.reliable() ==> result is Ok,
            result matches Ok(found) ==> ({
                let selection = first_selected::<Category>(
                    self.stored(),
                    self.hides_deleted(),
                    match category_id {
                        Some(id) => Some(id.0.id),
                        None => None,
                    },
                    is_active,
                );
                match found {
                    Some(c) => selection == Some(c@),
                    None => selection is None,
                }
            }),
    ;

    fn find_by(
        &self,
        category_id: Option<&CategoryId>,
        is_active: Option<bool>,
        order: Option<&SortOrder>,
    ) -> (result: Result<Vec<Category>, Self::Error>)
        ensures
            self.reliable() ==> result is Ok,
            result matches Ok(found) ==> views_of(found@) == listed::<Category>(
                self.stored(),
                self.hides_deleted(),
                match category_id {
                    Some(id) => Some(id.0.id),
                    None => None,
                },
                is_active,
                category_order(
                    match order {
                        Some(o) => Some(*o),
                        None => None,
                    },
                ).0,
                category_order(
                    match order {
                        Some(o) => Some(*o),
                        None => None,
                    },
                ).1,
            ),
    ;

    fn find_all(&self) -> (result: Result<Vec<Category>, Self::Error>)
        ensures
            self.reliable() ==> result is Ok,
            result matches Ok(all) ==> views_of(all@) == kept(
                self.stored(),
                |v: CategoryView| shown::<Category>(self.hides_deleted(), v),
            ),
    ;

    fn find_by_ids(&self, ids: &[CategoryId]) -> (result: Result<FindByIdsResult<Category>, Self::Error>)
        ensures
            self.reliable() ==> result is Ok,
            result matches Ok(r) ==> views_of(r.exists@) == found_for_ids::<Category>(
                self.stored(),
                self.hides_deleted(),
                category_uuids(ids@),
            ) && uuid_values(r.not_exists@) == missing_ids::<Category>(
                self.stored(),
                self.hides_deleted(),
                category_uuids(ids@),
            ),
    ;

    fn exists_by_id(&self, ids: &[CategoryId]) -> (result: Result<ExistsByIdResult, Self::Error>)
        ensures
            self.reliable() ==> result is Ok,
            result matches Ok(r) ==> uuid_values(r.exists@) == kept(
                category_uuids(ids@),
                |k: u128| stores_id::<Category>(self.stored(), k),
            ) && uuid_values(r.not_exists@) == kept(
                category_uuids(ids@),
                |k: u128| !stores_id::<Category>(self.stored(), k),
            ),
    ;

    fn update(&mut self, entity: &Category) -> (result: Result<(), Self::Error>)
        ensures
            old(self).reliable() ==> (result is Ok <==> position_of_id::<Category>(
                old(self).stored(),
                entity@.category_id.0.id,
            ) >= 0),
            final(self).reliable() == old(self).reliable(),
            result is Ok ==> position_of_id::<Category>(old(self).stored(), entity@.category_id.0.id) >= 0
                && final(self).stored() == old(self).stored().update(
                position_of_id::<Category>(old(self).stored(), entity@.category_id.0.id),
                entity@,
            ) && final(self).hides_deleted() == old(self).hides_deleted(),
    ;

    fn delete(&mut self, id: &CategoryId) -> (result: Result<(), Self::Error>)
        ensures
            old(self).reliable() ==> (result is Ok <==> position_of_id::<Category>(
                old(self).stored(),
                id.0.id,
            ) >= 0),
            final(self).reliable() == old(self).reliable(),
            result is Ok ==> position_of_id::<Category>(old(self).stored(), id.0.id) >= 0
                && final(self).stored() == old(self).stored().remove(
                position_of_id::<Category>(old(self).stored(), id.0.id),
            ) && final(self).hides_deleted() == old(self).hides_deleted(),
    ;
}

} // verus!

verus! {

/// A read keeps a category: it is not soft-deleted where those are left out, and
/// it has the id asked (if one is) and the activity asked (if one is).
pub open spec fn category_kept_by_read(
    hides_deleted: bool,
    id: Option<u128>,
    is_active: Option<bool>,
    value: CategoryView,
) -> bool {
    &&& !hides_deleted || value.deleted_at is None
    &&& id matches Some(k) ==> value.category_id.0.id == k
    &&& is_active matches Some(f) ==> value.is_active == f
}

/// The categories run by name: in the byte order of the UTF-8 text ascending, and
/// in its reverse descending.
pub open spec fn categories_by_name(values: Seq<CategoryView>, direction: SortDirection) -> bool {
    forall|i: int, j: int|
        0 <= i < j < values.len() ==> match direction {
            SortDirection::Asc => !text_less((#[trigger] values[j]).name, (#[trigger] values[i]).name),
            SortDirection::Desc => !text_less(values[i].name, values[j].name),
        }
}

/// The categories run by creation time: earliest first ascending, latest first
/// descending.
pub open spec fn categories_by_creation(values: Seq<CategoryView>, direction: SortDirection) -> bool {
    forall|i: int, j: int|
        0 <= i < j < values.len() ==> match direction {
            SortDirection::Asc => (#[trigger] values[i]).created_at <= (#[trigger] values[j]).created_at,
            SortDirection::Desc => values[i].created_at >= values[j].created_at,
        }
}

/// What a listing of categories holds and in which order: each listed category is
/// a stored one that the read keeps, and each stored category that the read
/// keeps is listed; ordered by `name` or by `created_at` in the requested
/// direction when one of those fields is asked, in storage order for any other
/// field, in storage order when no order is asked.
pub proof fn lemma_category_listing(
    stored: Seq<CategoryView>,
    hides_deleted: bool,
    id: Option<u128>,
    is_active: Option<bool>,
    order: Option<SortOrder>,
)
    ensures
        forall|i: int|
            0 <= i < listing::<Category>(stored, hides_deleted, id, is_active, category_order(order)).len() ==> category_kept_by_read(
                hides_deleted,
                id,
                is_active,
                #[trigger] listing::<Category>(stored, hides_deleted, id, is_active, category_order(order))[i],
            ) && stored.contains(listing::<Category>(stored, hides_deleted, id, is_active, category_order(order))[i]),
        forall|i: int|
            0 <= i < stored.len() && category_kept_by_read(hides_deleted, id, is_active, #[trigger] stored[i])
                ==> listing::<Category>(stored, hides_deleted, id, is_active, category_order(order)).contains(stored[i]),
        order matches Some(o) ==> (o.field@ == "name"@) ==> categories_by_name(listing::<Category>(stored, hides_deleted, id, is_active, category_order(order)), o.direction),
        order matches Some(o) ==> (o.field@ == "created_at"@) ==> categories_by_creation(listing::<Category>(stored, hides_deleted, id, is_active, category_order(order)), o.direction),
        order matches Some(o) ==> (o.field@ != "name"@ && o.field@ != "created_at"@) ==> listing::<Category>(stored, hides_deleted, id, is_active, category_order(order)) == kept(
            stored,
            |x: CategoryView| category_kept_by_read(hides_deleted, id, is_active, x),
        ),
        order is None ==> listing::<Category>(stored, hides_deleted, id, is_active, category_order(order)) == kept(stored, |x: CategoryView| category_kept_by_read(hides_deleted, id, is_active, x)),
{
    reveal_strlit("name");
    reveal_strlit("created_at");
    assert("name"@.len() == 4 && "created_at"@.len() == 10);
    let (key, direction) = category_order(order);
    lemma_listed_members::<Category>(stored, hides_deleted, id, is_active, key, direction);
    lemma_listed_by_text::<Category>(stored, hides_deleted, id, is_active, direction);
    lemma_listed_by_creation::<Category>(stored, hides_deleted, id, is_active, direction);
    lemma_listed_unordered::<Category>(stored, hides_deleted, id, is_active, direction);
    let keep = |x: CategoryView| category_kept_by_read(hides_deleted, id, is_active, x);
    let read_keep = |v: CategoryView| shown::<Category>(hides_deleted, v) && meets_filter::<Category>(id, is_active, v);
    assert(read_keep =~= keep);
    assert(selected::<Category>(stored, hides_deleted, id, is_active) == kept(stored, keep));
}

/// A category a read finds is a stored one that the read keeps, and the
/// read finds one whenever some stored category is kept.
pub proof fn lemma_category_found_by_read(
    stored: Seq<CategoryView>,
    hides_deleted: bool,
    id: Option<u128>,
    is_active: Option<bool>,
)
    ensures
        first_selected::<Category>(stored, hides_deleted, id, is_active) matches Some(x) ==> category_kept_by_read(
            hides_deleted,
            id,
            is_active,
            x,
        ) && stored.contains(x),
        forall|i: int|
            0 <= i < stored.len() && category_kept_by_read(hides_deleted, id, is_active, #[trigger] stored[i])
                ==> first_selected::<Category>(stored, hides_deleted, id, is_active) is Some,
{
    lemma_first_selected_member::<Category>(stored, hides_deleted, id, is_active);
}

} // verus!
