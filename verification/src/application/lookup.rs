use vstd::prelude::*;

use crate::domain::cast_member::aggregate::CastMemberView;
use crate::domain::cast_member::nested_cast_member::{created_nested_cast_member, NestedCastMemberView};
use crate::domain::category::aggregate::CategoryView;
use crate::domain::category::category_repository::uuid_values;
use crate::domain::category::nested_category::{created_nested_category, NestedCategoryView};
use crate::domain::genre::aggregate::GenreView;
use crate::domain::genre::nested_genre::{created_nested_genre, NestedGenreView};
use crate::domain::shared::listing::{first_index, lemma_first_index_absent, lemma_first_index_found};
use crate::domain::shared::value_object::{invalid_uuid_message, uuid_parse, uuid_text, UuidVo};

verus! {

/// The position of the first text that is no UUID, or -1.
pub open spec fn first_non_uuid(texts: Seq<Seq<char>>) -> int {
    first_index(texts, |t: Seq<char>| uuid_parse(t) is None)
}

/// The UUIDs that the texts read as.
pub open spec fn uuids_of(texts: Seq<Seq<char>>) -> Seq<u128> {
    texts.map_values(
        |t: Seq<char>|
            match uuid_parse(t) {
                Some(v) => v,
                None => 0,
            },
    )
}

/// The texts of a list of UUIDs.
pub open spec fn uuid_texts_of(ids: Seq<u128>) -> Seq<Seq<char>> {
    ids.map_values(|k: u128| uuid_text(k))
}

/// The nested categories that copy stored categories.
pub open spec fn nested_from_categories(categories: Seq<CategoryView>) -> Seq<NestedCategoryView> {
    categories.map_values(
        |c: CategoryView| created_nested_category(c.category_id, c.name, c.is_active, c.deleted_at),
    )
}

/// The nested genres that copy stored genres.
pub open spec fn nested_from_genres(genres: Seq<GenreView>) -> Seq<NestedGenreView> {
    genres.map_values(|g: GenreView| created_nested_genre(g.genre_id, g.name, g.is_active, g.deleted_at))
}

/// The nested cast members that copy stored cast members.
pub open spec fn nested_from_cast_members(members: Seq<CastMemberView>) -> Seq<NestedCastMemberView> {
    members.map_values(
        |m: CastMemberView|
            created_nested_cast_member(m.cast_member_id, m.name, m.cast_member_type, m.deleted_at),
    )
}

/// Reads every text as a UUID, in order. The first text that is no UUID stops
/// the reading: the error is `Invalid UUID: <text>`.
pub fn parse_uuids(texts: &Vec<String>) -> (result: Result<Vec<UuidVo>, String>)
    ensures
        ({
            let bad = first_non_uuid(texts.deep_view());
            match result {
                Ok(ids) => bad < 0 && uuid_values(ids@) == uuids_of(texts.deep_view()),
                Err(m) => bad >= 0 && m@ == invalid_uuid_message(texts.deep_view()[bad]),
            }
        }),
{
    let ghost all = texts.deep_view();
    let ghost is_bad = |t: Seq<char>| uuid_parse(t) is None;
    let mut ids: Vec<UuidVo> = Vec::new();
    for i in 0..texts.len()
        invariant
            all == texts.deep_view(),
            is_bad == (|t: Seq<char>| uuid_parse(t) is None),
            ids@.len() == i,
            forall|k: int| 0 <= k < i ==> !is_bad(#[trigger] all[k]),
            forall|k: int| 0 <= k < i ==> uuid_parse(all[k]) == Some(#[trigger] ids@[k].id),
    {
        match UuidVo::from(texts[i].as_str()) {
            Ok(id) => {
                ids.push(id);
            },
            Err(e) => {
                proof {
                    assert(all[i as int] == texts@[i as int]@);
                    lemma_first_index_found(all, is_bad, i as int);
                }
                return Err(e.to_string());
            },
        }
    }
    proof {
        lemma_first_index_absent(all, is_bad);
        assert(uuid_values(ids@) =~= uuids_of(all));
    }
    Ok(ids)
}

/// The hyphenated texts of a list of UUIDs, in order.
pub fn uuid_texts(ids: &Vec<UuidVo>) -> (texts: Vec<String>)
    ensures
        texts.deep_view() == uuid_texts_of(uuid_values(ids@)),
{
    let mut texts: Vec<String> = Vec::new();
    for i in 0..ids.len()
        invariant
            texts@.len() == i,
            forall|k: int| 0 <= k < i ==> (#[trigger] texts@[k])@ == uuid_text(ids@[k].id),
    {
        texts.push(ids[i].to_string());
    }
    assert(texts.deep_view() =~= uuid_texts_of(uuid_values(ids@)));
    texts
}

} // verus!
