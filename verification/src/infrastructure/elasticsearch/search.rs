use vstd::prelude::*;

use crate::domain::category::category_repository::uuid_values;
use crate::domain::shared::errors::NotFoundError;
use crate::domain::shared::listing::{kept, lemma_kept_step};
use crate::domain::shared::repository::{ExistsByIdResult, SortDirection, SortOrder};
use crate::domain::shared::text::text_eq;
use crate::domain::shared::value_object::{uuid_text, UuidVo};

verus! {

/// What a search asks of the index: documents of one `type`, optionally with
/// one id and one value of a flag field, optionally without a deletion time.
#[derive(Debug, Clone)]
pub struct SearchFilter {
    pub doc_type: String,
    pub id: Option<String>,
    pub flag: Option<(String, bool)>,
    pub exclude_deleted: bool,
}

/// A field of the documents to order by, and the direction.
#[derive(Debug, Clone)]
pub struct SearchSort {
    pub field: String,
    pub direction: SortDirection,
}

impl SearchFilter {
    /// The filter for documents of `doc_type`, with the id and the value of
    /// the flag `flag_field` when given, leaving out deleted ones when asked.
    pub fn new(doc_type: &str, id: Option<String>, flag_field: &str, flag: Option<bool>, exclude_deleted: bool) -> (filter:
        Self)
        ensures
            filter.doc_type@ == doc_type@,
            filter.id == id,
            match flag {
                Some(b) => filter.flag matches Some(f) && f.0@ == flag_field@ && f.1 == b,
                None => filter.flag is None,
            },
            filter.exclude_deleted == exclude_deleted,
    {
        let flag_match = match flag {
            Some(b) => Some((String::from_str(flag_field), b)),
            None => None,
        };
        SearchFilter { doc_type: String::from_str(doc_type), id, flag: flag_match, exclude_deleted }
    }
}

/// The index field a requested order maps to: the second of the first pair
/// whose first is the requested field; none for another field or no order.
pub open spec fn mapped_sort_field(fields: Seq<(Seq<char>, Seq<char>)>, order: Option<SortOrder>) -> Option<
    Seq<char>,
>
    decreases fields.len(),
{
    match order {
        None => None,
        Some(o) => if fields.len() == 0 {
            None
        } else if fields[0].0 == o.field@ {
            Some(fields[0].1)
        } else {
            mapped_sort_field(fields.drop_first(), order)
        },
    }
}

/// The texts of pairs of texts.
pub open spec fn pair_texts(fields: Seq<(&str, &str)>) -> Seq<(Seq<char>, Seq<char>)> {
    fields.map_values(|p: (&str, &str)| (p.0@, p.1@))
}

/// The order of the index that a requested order maps to.
pub fn sort_for(fields: &[(&str, &str)], order: Option<&SortOrder>) -> (sort: Option<SearchSort>)
    ensures
        match order {
            None => sort is None,
            Some(o) => match mapped_sort_field(pair_texts(fields@), Some(*o)) {
                None => sort is None,
                Some(f) => sort matches Some(s) && s.field@ == f && s.direction == o.direction,
            },
        },
{
    let o = match order {
        Some(o) => o,
        None => {
            return None;
        },
    };
    let ghost requested = Some(*o);
    let ghost pairs = pair_texts(fields@);
    assert(pairs.skip(0) =~= pairs);
    let mut i: usize = 0;
    while i < fields.len()
        invariant
            i <= fields.len(),
            requested == Some(*o),
            order == Some(o),
            pairs == pair_texts(fields@),
            pairs.len() == fields@.len(),
            mapped_sort_field(pairs, requested) == mapped_sort_field(pairs.skip(i as int), requested),
        decreases fields.len() - i,
    {
        assert(pairs.skip(i as int)[0] == (fields@[i as int].0@, fields@[i as int].1@));
        assert(pairs.skip(i as int).len() > 0);
        if text_eq(fields[i].0, o.field.as_str()) {
            assert(mapped_sort_field(pairs.skip(i as int), requested) == Some(fields@[i as int].1@));
            return Some(SearchSort { field: String::from_str(fields[i].1), direction: o.direction });
        }
        assert(pairs.skip(i as int).drop_first() =~= pairs.skip(i + 1));
        i = i + 1;
    }
    None
}

/// Whether some text of the list is `text`.
fn contains_text(texts: &Vec<String>, text: &str) -> (found: bool)
    ensures
        found == texts.deep_view().contains(text@),
{
    let mut i: usize = 0;
    while i < texts.len()
        invariant
            i <= texts.len(),
            forall|k: int| 0 <= k < i ==> texts.deep_view()[k] != text@,
        decreases texts.len() - i,
    {
        if text_eq(texts[i].as_str(), text) {
            assert(texts.deep_view()[i as int] == text@);
            return true;
        }
        i = i + 1;
    }
    false
}

/// The ids of a list whose text is among the ids found, and those whose
/// text is not, each in order.
pub fn split_by_found(ids: &Vec<UuidVo>, found_ids: &Vec<String>) -> (result: ExistsByIdResult)
    ensures
        uuid_values(result.exists@) == kept(
            uuid_values(ids@),
            |k: u128| found_ids.deep_view().contains(uuid_text(k)),
        ),
        uuid_values(result.not_exists@) == kept(
            uuid_values(ids@),
            |k: u128| !found_ids.deep_view().contains(uuid_text(k)),
        ),
{
    let ghost all = uuid_values(ids@);
    let ghost found_keep = |k: u128| found_ids.deep_view().contains(uuid_text(k));
    let ghost missing_keep = |k: u128| !found_ids.deep_view().contains(uuid_text(k));
    let mut exists: Vec<UuidVo> = Vec::new();
    let mut not_exists: Vec<UuidVo> = Vec::new();
    for i in 0..ids.len()
        invariant
            all == uuid_values(ids@),
            found_keep == (|k: u128| found_ids.deep_view().contains(uuid_text(k))),
            missing_keep == (|k: u128| !found_ids.deep_view().contains(uuid_text(k))),
            uuid_values(exists@) == kept(all.take(i as int), found_keep),
            uuid_values(not_exists@) == kept(all.take(i as int), missing_keep),
    {
        let id = ids[i];
        let text = id.to_string();
        proof {
            lemma_kept_step(all, found_keep, i as int);
            lemma_kept_step(all, missing_keep, i as int);
        }
        if contains_text(found_ids, text.as_str()) {
            assert(uuid_values(exists@.push(id)) =~= uuid_values(exists@).push(id.id));
            exists.push(id);
        } else {
            assert(uuid_values(not_exists@.push(id)) =~= uuid_values(not_exists@).push(id.id));
            not_exists.push(id);
        }
    }
    assert(all.take(ids.len() as int) =~= all);
    ExistsByIdResult { exists, not_exists }
}

/// The ids of search hits, in order.
pub open spec fn hit_id_texts<D>(hits: Seq<(String, D)>) -> Seq<Seq<char>> {
    hits.map_values(|h: (String, D)| h.0@)
}

/// The ids of search hits, in order.
pub fn hit_ids<D>(hits: &Vec<(String, D)>) -> (ids: Vec<String>)
    ensures
        ids.deep_view() == hit_id_texts(hits@),
{
    let mut ids: Vec<String> = Vec::new();
    for i in 0..hits.len()
        invariant
            ids.deep_view() == hit_id_texts(hits@).take(i as int),
    {
        let ghost before = ids.deep_view();
        let id = hits[i].0.clone();
        assert(id@ == hits@[i as int].0@);
        ids.push(id);
        assert(ids.deep_view() =~= before.push(hits@[i as int].0@));
        assert(hit_id_texts(hits@).take(i + 1) =~= hit_id_texts(hits@).take(i as int).push(hits@[i as int].0@));
    }
    assert(hit_id_texts(hits@).take(hits.len() as int) =~= hit_id_texts(hits@));
    ids
}

/// An update or delete by id touched no document: the entity is not found.
pub fn check_affected(count: u64, id: &str, entity_name: &str) -> (result: Result<(), NotFoundError>)
    ensures
        count > 0 <==> result is Ok,
        result matches Err(e) ==> e.id@ == id@ && e.entity_name@ == entity_name@,
{
    if count == 0 {
        Err(NotFoundError::new(id, entity_name))
    } else {
        Ok(())
    }
}

} // verus!
