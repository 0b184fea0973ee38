use vstd::prelude::*;

use crate::domain::shared::errors::ErrorMessage;
use crate::domain::shared::listing::kept;
use crate::domain::shared::nested_map::views_of;
use crate::domain::shared::ordering::text_less;
use crate::domain::shared::query::{
    first_selected, found_for_ids, lemma_first_selected_member, lemma_listed_by_creation, lemma_listed_by_text,
    lemma_listed_members, lemma_listed_unordered, listed, listing, meets_filter, missing_ids, position_of_id,
    selected, shown, stores_id, SortKey,
};
use crate::domain::shared::repository::{
    ExistsByIdResult, FindByIdsResult, SortDirection, SortOrder,
};
use crate::domain::category::category_repository::uuid_values;

use super::aggregate::{CastMember, CastMemberView};
use super::cast_member_id::CastMemberId;
use super::cast_member_type::CastMemberType;

verus! {

/// How cast members are ordered for a requested order: by `name` or by `created_at`,
/// any other field keeping storage order; with no order, newest first.
pub open spec fn cast_member_order(order: Option<SortOrder>) -> (SortKey, SortDirection) {
    match order {
        Some(o) => (
            if o.field@ == "name"@ {
                SortKey::Text
            } else if o.field@ == "created_at"@ {
                SortKey::CreatedAt
            } else {
                SortKey::Unordered
            },
            o.direction,
        ),
        None => (SortKey::CreatedAt, SortDirection::Desc),
    }
}

/// The UUIDs of a list of cast member ids.
pub open spec fn cast_member_uuids(ids: Seq<CastMemberId>) -> Seq<u128> {
    ids.map_values(|id: CastMemberId| id.0.id)
}

/// Where cast members are kept. Reads see the stored cast members in storage order,
/// leaving out soft-deleted ones when `hides_deleted` holds.
pub trait ICastMemberRepository {
    type Error: ErrorMessage;

    /// The stored cast members, in storage order.
    spec fn stored(&self) -> Seq<CastMemberView>;

    /// Whether reads leave out soft-deleted cast members.
    spec fn hides_deleted(&self) -> bool;

    /// Requests fail only where a contract below says they may (an update or a
    /// delete of a missing cast member); otherwise the store behind can fail any time.
    spec fn reliable(&self) -> bool;

    /// The fields a listing can be ordered by.
    fn sortable_fields(&self) -> (fields: Vec<&'static str>)
        ensures
            fields@.len() == 2,
            fields@[0]@ == "name"@,
            fields@[1]@ == "created_at"@,
    ;

    fn insert(&mut self, entity: &CastMember) -> (result: Result<(), Self::Error>)
        ensures
            old(self).reliable() ==> result is Ok,
            final(self).reliable() == old(self).reliable(),
            result is Ok ==> final(self).stored() == old(self).stored().push(entity@)
                && final(self).hides_deleted() == old(self).hides_deleted(),
    ;

    fn bulk_insert(&mut self, entities: &[CastMember]) -> (result: Result<(), Self::Error>)
        ensures
            old(self).reliable() ==> result is Ok,
            final(self).reliable() == old(self).reliable(),
            result is Ok ==> final(self).stored() == old(self).stored() + views_of(entities@)
                && final(self).hides_deleted() == old(self).hides_deleted(),
    ;

    fn find_by_id(&self, id: &CastMemberId) -> (result: Result<Option<CastMember>, Self::Error>)
        ensures
            self.reliable() ==> result is Ok,
            result matches Ok(found) ==> match found {
                Some(c) => first_selected::<CastMember>(self.stored(), self.hides_deleted(), Some(id.0.id), None) == Some(c@),
                None => first_selected::<CastMember>(self.stored(), self.hides_deleted(), Some(id.0.id), None) is None,
            },
    ;

    fn find_one_by(&self, cast_member_id: Option<&CastMemberId>, cast_member_type: Option<CastMemberType>) -> (result: Result<
        Option<CastMember>,
        Self::Error,
    >)
        ensures
            self.reliable() ==> result is Ok,
            result matches Ok(found) ==> ({
                let selection = first_selected::<CastMember>(
                    self.stored(),
                    self.hides_deleted(),
                    match cast_member_id {
                        Some(id) => Some(id.0.id),
                        None => None,
                    },
                    cast_member_type,
                );
                match found {
                    Some(c) => selection == Some(c@),
                    None => selection is None,
                }
            }),
    ;

    fn find_by(
        &self,
        cast_member_id: Option<&CastMemberId>,
        cast_member_type: Option<CastMemberType>,
        order: Option<&SortOrder>,
    ) -> (result: Result<Vec<CastMember>, Self::Error>)
        ensures
            self.reliable() ==> result is Ok,
            result matches Ok(found) ==> views_of(found@) == listed::<CastMember>(
                self.stored(),
                self.hides_deleted(),
                match cast_member_id {
                    Some(id) => Some(id.0.id),
                    None => None,
                },
                cast_member_type,
                cast_member_order(
                    match order {
                        Some(o) => Some(*o),
                        None => None,
                    },
                ).0,
                cast_member_order(
                    match order {
                        Some(o) => Some(*o),
                        None => None,
                    },
                ).1,
            ),
    ;

    fn find_all(&self) -> (result: Result<Vec<CastMember>, Self::Error>)
        ensures
            self.reliable() ==> result is Ok,
            result matches Ok(all) ==> views_of(all@) == kept(
                self.stored(),
                |v: CastMemberView| shown::<CastMember>(self.hides_deleted(), v),
            ),
    ;

    fn find_by_ids(&self, ids: &[CastMemberId]) -> (result: Result<FindByIdsResult<CastMember>, Self::Error>)
        ensures
            self.reliable() ==> result is Ok,
            result matches Ok(r) ==> views_of(r.exists@) == found_for_ids::<CastMember>(
                self.stored(),
                self.hides_deleted(),
                cast_member_uuids(ids@),
            ) && uuid_values(r.not_exists@) == missing_ids::<CastMember>(
                self.stored(),
                self.hides_deleted(),
                cast_member_uuids(ids@),
            ),
    ;

    fn exists_by_id(&self, ids: &[CastMemberId]) -> (result: Result<ExistsByIdResult, Self::Error>)
        ensures
            self.reliable() ==> result is Ok,
            result matches Ok(r) ==> uuid_values(r.exists@) == kept(
                cast_member_uuids(ids@),
                |k: u128| stores_id::<CastMember>(self.stored(), k),
            ) && uuid_values(r.not_exists@) == kept(
                cast_member_uuids(ids@),
                |k: u128| !stores_id::<CastMember>(self.stored(), k),
            ),
    ;

    fn update(&mut self, entity: &CastMember) -> (result: Result<(), Self::Error>)
        ensures
            old(self).reliable() ==> (result is Ok <==> position_of_id::<CastMember>(
                old(self).stored(),
                entity@.cast_member_id.0.id,
            ) >= 0),
            final(self).reliable() == old(self).reliable(),
            result is Ok ==> position_of_id::<CastMember>(old(self).stored(), entity@.cast_member_id.0.id) >= 0
                && final(self).stored() == old(self).stored().update(
                position_of_id::<CastMember>(old(self).stored(), entity@.cast_member_id.0.id),
                entity@,
            ) && final(self).hides_deleted() == old(self).hides_deleted(),
    ;

    fn delete(&mut self, id: &CastMemberId) -> (result: Result<(), Self::Error>)
        ensures
            old(self).reliable() ==> (result is Ok <==> position_of_id::<CastMember>(
                old(self).stored(),
                id.0.id,
            ) >= 0),
            final(self).reliable() == old(self).reliable(),
            result is Ok ==> position_of_id::<CastMember>(old(self).stored(), id.0.id) >= 0
                && final(self).stored() == old(self).stored().remove(
                position_of_id::<CastMember>(old(self).stored(), id.0.id),
            ) && final(self).hides_deleted() == old(self).hides_deleted(),
    ;
}

} // verus!

verus! {

/// A read keeps a cast member: it is not soft-deleted where those are left out, and
/// it has the id asked (if one is) and the type asked (if one is).
pub open spec fn cast_member_kept_by_read(
    hides_deleted: bool,
    id: Option<u128>,
    cast_member_type: Option<CastMemberType>,
    value: CastMemberView,
) -> bool {
    &&& !hides_deleted || value.deleted_at is None
    &&& id matches Some(k) ==> value.cast_member_id.0.id == k
    &&& cast_member_type matches Some(f) ==> value.cast_member_type == f
}

/// The cast members run by name: in the byte order of the UTF-8 text ascending, and
/// in its reverse descending.
pub open spec fn cast_members_by_name(values: Seq<CastMemberView>, direction: SortDirection) -> bool {
    forall|i: int, j: int|
        0 <= i < j < values.len() ==> match direction {
            SortDirection::Asc => !text_less((#[trigger] values[j]).name, (#[trigger] values[i]).name),
            SortDirection::Desc => !text_less(values[i].name, values[j].name),
        }
}

/// The cast members run by creation time: earliest first ascending, latest first
/// descending.
pub open spec fn cast_members_by_creation(values: Seq<CastMemberView>, direction: SortDirection) -> bool {
    forall|i: int, j: int|
        0 <= i < j < values.len() ==> match direction {
            SortDirection::Asc => (#[trigger] values[i]).created_at <= (#[trigger] values[j]).created_at,
            SortDirection::Desc => values[i].created_at >= values[j].created_at,
        }
}

/// What a listing of cast members holds and in which order: each listed cast member is
/// a stored one that the read keeps, and each stored cast member that the read
/// keeps is listed; ordered by `name` or by `created_at` in the requested
/// direction when one of those fields is asked, in storage order for any other
/// field, newest first when no order is asked.
pub proof fn lemma_cast_member_listing(
    stored: Seq<CastMemberView>,
    hides_deleted: bool,
    id: Option<u128>,
    cast_member_type: Option<CastMemberType>,
    order: Option<SortOrder>,
)
    ensures
        forall|i: int|
            0 <= i < listing::<CastMember>(stored, hides_deleted, id, cast_member_type, cast_member_order(order)).len() ==> cast_member_kept_by_read(
                hides_deleted,
                id,
                cast_member_type,
                #[trigger] listing::<CastMember>(stored, hides_deleted, id, cast_member_type, cast_member_order(order))[i],
            ) && stored.contains(listing::<CastMember>(stored, hides_deleted, id, cast_member_type, cast_member_order(order))[i]),
        forall|i: int|
            0 <= i < stored.len() && cast_member_kept_by_read(hides_deleted, id, cast_member_type, #[trigger] stored[i])
                ==> listing::<CastMember>(stored, hides_deleted, id, cast_member_type, cast_member_order(order)).contains(stored[i]),
        order matches Some(o) ==> (o.field@ == "name"@) ==> cast_members_by_name(listing::<CastMember>(stored, hides_deleted, id, cast_member_type, cast_member_order(order)), o.direction),
        order matches Some(o) ==> (o.field@ == "created_at"@) ==> cast_members_by_creation(listing::<CastMember>(stored, hides_deleted, id, cast_member_type, cast_member_order(order)), o.direction),
        order matches Some(o) ==> (o.field@ != "name"@ && o.field@ != "created_at"@) ==> listing::<CastMember>(stored, hides_deleted, id, cast_member_type, cast_member_order(order)) == kept(
            stored,
            |x: CastMemberView| cast_member_kept_by_read(hides_deleted, id, cast_member_type, x),
        ),
        order is None ==> cast_members_by_creation(listing::<CastMember>(stored, hides_deleted, id, cast_member_type, cast_member_order(order)), SortDirection::Desc),
{
    reveal_strlit("name");
    reveal_strlit("created_at");
    assert("name"@.len() == 4 && "created_at"@.len() == 10);
    let (key, direction) = cast_member_order(order);
    lemma_listed_members::<CastMember>(stored, hides_deleted, id, cast_member_type, key, direction);
    lemma_listed_by_text::<CastMember>(stored, hides_deleted, id, cast_member_type, direction);
    lemma_listed_by_creation::<CastMember>(stored, hides_deleted, id, cast_member_type, direction);
    lemma_listed_unordered::<CastMember>(stored, hides_deleted, id, cast_member_type, direction);
    let keep = |x: CastMemberView| cast_member_kept_by_read(hides_deleted, id, cast_member_type, x);
    let read_keep = |v: CastMemberView| shown::<CastMember>(hides_deleted, v) && meets_filter::<CastMember>(id, cast_member_type, v);
    assert(read_keep =~= keep);
    assert(selected::<CastMember>(stored, hides_deleted, id, cast_member_type) == kept(stored, keep));
}

/// A cast member a read finds is a stored one that the read keeps, and the
/// read finds one whenever some stored cast member is kept.
pub proof fn lemma_cast_member_found_by_read(
    stored: Seq<CastMemberView>,
    hides_deleted: bool,
    id: Option<u128>,
    cast_member_type: Option<CastMemberType>,
)
    ensures
        first_selected::<CastMember>(stored, hides_deleted, id, cast_member_type) matches Some(x) ==> cast_member_kept_by_read(
            hides_deleted,
            id,
            cast_member_type,
            x,
        ) && stored.contains(x),
        forall|i: int|
            0 <= i < stored.len() && cast_member_kept_by_read(hides_deleted, id, cast_member_type, #[trigger] stored[i])
                ==> first_selected::<CastMember>(stored, hides_deleted, id, cast_member_type) is Some,
{
    lemma_first_selected_member::<CastMember>(stored, hides_deleted, id, cast_member_type);
}

} // verus!
