use vstd::prelude::*;

use crate::application::lookup::{
    first_non_uuid, nested_from_categories, parse_uuids, uuid_texts, uuid_texts_of, uuids_of,
};
use crate::application::messages::{invalid_id, invalid_id_prefix};
use crate::domain::shared::value_object::invalid_uuid_message;
use crate::domain::category::aggregate::{Category, CategoryView};
use crate::domain::category::category_id::CategoryId;
use crate::domain::category::category_repository::{category_uuids, uuid_values, ICategoryRepository};
use crate::domain::category::nested_category::{
    create_nested_categories, lemma_created_nested_categories_keyed_by_id, nested_categories_of, NestedCategory,
    NestedCategoryCreateCommand, NestedCategoryView,
};
use crate::domain::genre::aggregate::{Genre, GenreCreateCommand, GenreView};
use crate::domain::genre::genre_id::GenreId;
use crate::domain::genre::genre_repository::IGenreRepository;
use crate::domain::shared::entity::Entity;
use crate::domain::shared::errors::{EntityValidationError, ErrorMessage};
use crate::domain::shared::nested_map::{collected, views_of};
use crate::domain::shared::query::{
    first_selected, found_for_ids, lemma_find_after_insert, lemma_find_after_update,
    lemma_selected_has_position, missing_ids, position_of_id,
};
use crate::domain::shared::text::{debug_strings, debug_strings_text};
use crate::domain::shared::timestamp::Timestamp;
use crate::domain::shared::validation::checked_length;
use crate::domain::shared::value_object::{uuid_parse, uuid_text, UuidVo};

verus! {

/// The values a genre is created or updated with; its categories by id.
#[derive(Debug, Clone)]
pub struct SaveGenreInput {
    pub genre_id: String,
    pub name: String,
    pub categories_id: Vec<String>,
    pub is_active: bool,
    pub created_at: Timestamp,
}

/// The id saved under, and whether the genre was new.
#[derive(Debug, Clone)]
pub struct SaveGenreOutput {
    pub id: String,
    pub created: bool,
}

/// Why a genre could not be saved.
#[derive(Debug)]
pub enum SaveGenreError<GE, CE> {
    Validation(EntityValidationError),
    InvalidId(String),
    CategoriesNotFound(Vec<String>),
    GenreRepository(GE),
    CategoryRepository(CE),
}

impl<GE: ErrorMessage, CE: ErrorMessage> SaveGenreError<GE, CE> {
    /// The error's message; a genre repository error gives its own.
    pub fn to_string(&self) -> (message: String)
        ensures
            self is Validation ==> message@ == "Entity Validation Error"@,
            self matches SaveGenreError::InvalidId(m) ==> message@ == invalid_id_prefix("genre"@) + m@,
            self matches SaveGenreError::CategoriesNotFound(ids) ==> message@ == "categories not found: "@
                + debug_strings_text(ids.deep_view()),
            self matches SaveGenreError::GenreRepository(e) ==> message@ == e.message_text(),
            self matches SaveGenreError::CategoryRepository(e) ==> message@ == "category repository error: "@
                + e.message_text(),
    {
        match self {
            SaveGenreError::Validation(e) => e.to_string(),
            SaveGenreError::InvalidId(m) => invalid_id("genre", m.as_str()),
            SaveGenreError::CategoriesNotFound(ids) => {
                let mut message = String::from_str("categories not found: ");
                let listed = debug_strings(ids);
                message.append(listed.as_str());
                message
            },
            SaveGenreError::GenreRepository(e) => e.message(),
            SaveGenreError::CategoryRepository(e) => {
                let mut message = String::from_str("category repository error: ");
                let inner = e.message();
                message.append(inner.as_str());
                message
            },
        }
    }
}

/// The genre an input creates under the UUID `v`, with copies of the categories found.
pub open spec fn genre_from_input(v: u128, input: SaveGenreInput, found: Seq<CategoryView>) -> GenreView {
    GenreView {
        genre_id: GenreId(UuidVo { id: v }),
        name: input.name@,
        categories: collected::<NestedCategory>(nested_from_categories(found)),
        is_active: input.is_active,
        created_at: input.created_at,
        deleted_at: None,
        notification: checked_length(Seq::empty(), "name"@, input.name@),
    }
}

/// A stored genre after an input was applied: renamed (its name checked
/// again), its categories replaced by copies of those found, its activity and
/// creation time replaced.
pub open spec fn genre_with_input(existing: GenreView, input: SaveGenreInput, found: Seq<CategoryView>) -> GenreView {
    GenreView {
        name: input.name@,
        notification: checked_length(existing.notification, "name"@, input.name@),
        categories: collected::<NestedCategory>(nested_from_categories(found)),
        is_active: input.is_active,
        created_at: input.created_at,
        ..existing
    }
}

/// What looking up an input's categories gives: the commands for the nested
/// categories, or the error, in the order the checks are made.
pub open spec fn categories_lookup_ok<GE, CE>(
    texts: Seq<Seq<char>>,
    stored: Seq<CategoryView>,
    hides_deleted: bool,
    reliable: bool,
    result: Result<Vec<NestedCategoryCreateCommand>, SaveGenreError<GE, CE>>,
) -> bool {
    let bad = first_non_uuid(texts);
    let ids = uuids_of(texts);
    let found = found_for_ids::<Category>(stored, hides_deleted, ids);
    let missing = missing_ids::<Category>(stored, hides_deleted, ids);
    &&& !(result matches Err(SaveGenreError::Validation(_)))
    &&& !(result matches Err(SaveGenreError::GenreRepository(_)))
    &&& (bad >= 0 <==> (result matches Err(SaveGenreError::InvalidId(_))))
    &&& result matches Err(SaveGenreError::InvalidId(m)) ==> m@ == invalid_uuid_message(texts[bad])
    &&& result matches Err(SaveGenreError::CategoriesNotFound(t)) ==> (bad < 0 && missing.len() > 0
        && t.deep_view() == uuid_texts_of(missing))
    &&& result matches Ok(props) ==> (bad < 0 && missing.len() == 0 && nested_categories_of(props@)
        == nested_from_categories(found))
    &&& (reliable && bad < 0) ==> (result is Ok <==> missing.len() == 0)
    &&& reliable ==> !(result matches Err(SaveGenreError::CategoryRepository(_)))
}

/// What saving an input does to the genre repository, the categories being
/// read from `cats`, and what it reports: an id that is no UUID is refused and
/// nothing is written; otherwise the stages of [`SaveGenreUseCase::execute`]
/// are passed in order, the first that fails giving its error with nothing
/// written, and success stores the saved genre in place of the one stored
/// under its id, or after the others when there was none.
pub open spec fn genre_saved<GR: IGenreRepository, CR: ICategoryRepository>(
    before: GR,
    after: GR,
    cats: CR,
    input: SaveGenreInput,
    result: Result<SaveGenreOutput, SaveGenreError<GR::Error, CR::Error>>,
) -> bool {
    match uuid_parse(input.genre_id@) {
        None => {
            &&& result matches Err(SaveGenreError::InvalidId(m)) && m@ == invalid_uuid_message(input.genre_id@)
            &&& after == before
        },
        Some(v) => {
            let texts = input.categories_id.deep_view();
            let bad = first_non_uuid(texts);
            let ids = uuids_of(texts);
            let found = found_for_ids::<Category>(cats.stored(), cats.hides_deleted(), ids);
            let missing = missing_ids::<Category>(cats.stored(), cats.hides_deleted(), ids);
            let existing = first_selected::<Genre>(before.stored(), before.hides_deleted(), Some(v), None);
            let saved = match existing {
                Some(g) => genre_with_input(g, input, found),
                None => genre_from_input(v, input, found),
            };
            &&& result matches Err(SaveGenreError::InvalidId(m)) ==> (bad >= 0 && m@
                == invalid_uuid_message(texts[bad]) && after == before)
            &&& result matches Err(SaveGenreError::CategoriesNotFound(t)) ==> (bad < 0
                && missing.len() > 0 && t.deep_view() == uuid_texts_of(missing) && after == before)
            &&& result matches Err(SaveGenreError::Validation(e)) ==> (bad < 0 && missing.len()
                == 0 && saved.notification.len() > 0 && e.notification@ == saved.notification
                && after == before)
            &&& result matches Err(SaveGenreError::CategoryRepository(_)) ==> (bad < 0 && after
                == before)
            &&& (bad >= 0 || missing.len() > 0 || saved.notification.len() > 0) ==> after == before
            &&& (before.reliable() && cats.reliable()) ==> {
                &&& bad >= 0 ==> (result matches Err(SaveGenreError::InvalidId(_)))
                &&& (bad < 0 && missing.len() > 0) ==> (result matches Err(
                    SaveGenreError::CategoriesNotFound(_),
                ))
                &&& (bad < 0 && missing.len() == 0) ==> (result is Ok <==> saved.notification.len()
                    == 0)
            }
            &&& result matches Ok(out) ==> {
                &&& bad < 0 && missing.len() == 0 && saved.notification.len() == 0
                &&& out.id@ == uuid_text(v)
                &&& out.created == existing is None
                &&& after.hides_deleted() == before.hides_deleted()
                &&& after.stored() == match existing {
                    Some(g) => before.stored().update(position_of_id::<Genre>(before.stored(), v), saved),
                    None => before.stored().push(saved),
                }
            }
        },
    }
}

/// Creates a genre, or updates the one stored under the same id; its
/// categories are looked up by id and copied into it.
pub struct SaveGenreUseCase<GR: IGenreRepository, CR: ICategoryRepository> {
    genre_repo: GR,
    category_repo: CR,
}

impl<GR: IGenreRepository, CR: ICategoryRepository> SaveGenreUseCase<GR, CR> {
    /// The repository genres are written to.
    pub closed spec fn genre_repository(&self) -> GR {
        self.genre_repo
    }

    /// The repository categories are read from.
    pub closed spec fn category_repository(&self) -> CR {
        self.category_repo
    }

    pub fn new(genre_repo: GR, category_repo: CR) -> (use_case: Self)
        ensures
            use_case.genre_repository() == genre_repo,
            use_case.category_repository() == category_repo,
    {
        SaveGenreUseCase { genre_repo, category_repo }
    }

    /// Saves the input. The genre id is read first, then the stored genre is
    /// looked up; then every category id is read (the first that is no UUID is
    /// refused), the categories are looked up and those not found are reported
    /// together. A genre with validation errors is refused. Nothing is written
    /// unless everything passed.
    pub fn execute(&mut self, input: SaveGenreInput) -> (result: Result<
        SaveGenreOutput,
        SaveGenreError<GR::Error, CR::Error>,
    >)
        ensures
            final(self).genre_repository().reliable() == old(self).genre_repository().reliable(),
            final(self).category_repository() == old(self).category_repository(),
            genre_saved(
                old(self).genre_repository(),
                final(self).genre_repository(),
                old(self).category_repository(),
                input,
                result,
            ),
    {
        let genre_id = match GenreId::from(input.genre_id.as_str()) {
            Ok(id) => id,
            Err(e) => {
                return Err(SaveGenreError::InvalidId(e.to_string()));
            },
        };
        let ghost v = genre_id.0.id;
        match self.genre_repo.find_by_id(&genre_id) {
            Err(e) => Err(SaveGenreError::GenreRepository(e)),
            Ok(Some(genre)) => {
                proof {
                    lemma_selected_has_position::<Genre>(
                        self.genre_repo.stored(),
                        self.genre_repo.hides_deleted(),
                        v,
                        None,
                    );
                }
                self.update_genre(input, genre)
            },
            Ok(None) => self.create_genre(input, genre_id),
        }
    }

    fn create_genre(&mut self, input: SaveGenreInput, genre_id: GenreId) -> (result: Result<
        SaveGenreOutput,
        SaveGenreError<GR::Error, CR::Error>,
    >)
        ensures
            final(self).category_repository() == old(self).category_repository(),
            ({
                let before = old(self).genre_repository();
                let after = final(self).genre_repository();
                let cats = old(self).category_repository();
                let texts = input.categories_id.deep_view();
                let bad = first_non_uuid(texts);
                let ids = uuids_of(texts);
                let found = found_for_ids::<Category>(cats.stored(), cats.hides_deleted(), ids);
                let missing = missing_ids::<Category>(cats.stored(), cats.hides_deleted(), ids);
                let saved = genre_from_input(genre_id.0.id, input, found);
                &&& after.reliable() == before.reliable()
                &&& result matches Err(SaveGenreError::InvalidId(m)) ==> (bad >= 0 && m@
                    == invalid_uuid_message(texts[bad]) && after == before)
                &&& result matches Err(SaveGenreError::CategoriesNotFound(t)) ==> (bad < 0 && missing.len()
                    > 0 && t.deep_view() == uuid_texts_of(missing) && after == before)
                &&& result matches Err(SaveGenreError::Validation(e)) ==> (bad < 0 && missing.len() == 0
                    && saved.notification.len() > 0 && e.notification@ == saved.notification && after
                    == before)
                &&& result matches Err(SaveGenreError::CategoryRepository(_)) ==> (bad < 0 && after
                    == before)
                &&& (bad >= 0 || missing.len() > 0 || saved.notification.len() > 0) ==> after == before
                &&& (before.reliable() && cats.reliable()) ==> {
                    &&& bad >= 0 ==> (result matches Err(SaveGenreError::InvalidId(_)))
                    &&& (bad < 0 && missing.len() > 0) ==> (result matches Err(
                        SaveGenreError::CategoriesNotFound(_),
                    ))
                    &&& (bad < 0 && missing.len() == 0) ==> (result is Ok <==> saved.notification.len()
                        == 0)
                }
                &&& result matches Ok(out) ==> {
                    &&& bad < 0 && missing.len() == 0 && saved.notification.len() == 0
                    &&& out.id@ == uuid_text(genre_id.0.id)
                    &&& out.created
                    &&& after.hides_deleted() == before.hides_deleted()
                    &&& after.stored() == before.stored().push(saved)
                }
            }),
    {
        let props = match self.categories_props(&input.categories_id) {
            Ok(props) => props,
            Err(e) => {
                return Err(e);
            },
        };
        let ghost nested_views = nested_categories_of(props@);
        let entity = Genre::create(
            GenreCreateCommand {
                genre_id,
                name: input.name,
                categories_props: props,
                is_active: input.is_active,
                created_at: input.created_at,
            },
        );
        if entity.notification().has_errors() {
            return Err(SaveGenreError::Validation(EntityValidationError::new(entity.notification().clone())));
        }
        match self.genre_repo.insert(&entity) {
            Err(e) => Err(SaveGenreError::GenreRepository(e)),
            Ok(()) => Ok(SaveGenreOutput { id: entity.genre_id().to_string(), created: true }),
        }
    }

    fn update_genre(&mut self, input: SaveGenreInput, genre: Genre) -> (result: Result<
        SaveGenreOutput,
        SaveGenreError<GR::Error, CR::Error>,
    >)
        requires
            position_of_id::<Genre>(old(self).genre_repository().stored(), genre@.genre_id.0.id) >= 0,
        ensures
            final(self).category_repository() == old(self).category_repository(),
            ({
                let before = old(self).genre_repository();
                let after = final(self).genre_repository();
                let cats = old(self).category_repository();
                let id = genre@.genre_id.0.id;
                let texts = input.categories_id.deep_view();
                let bad = first_non_uuid(texts);
                let ids = uuids_of(texts);
                let found = found_for_ids::<Category>(cats.stored(), cats.hides_deleted(), ids);
                let missing = missing_ids::<Category>(cats.stored(), cats.hides_deleted(), ids);
                let saved = genre_with_input(genre@, input, found);
                &&& after.reliable() == before.reliable()
                &&& result matches Err(SaveGenreError::InvalidId(m)) ==> (bad >= 0 && m@
                    == invalid_uuid_message(texts[bad]) && after == before)
                &&& result matches Err(SaveGenreError::CategoriesNotFound(t)) ==> (bad < 0 && missing.len()
                    > 0 && t.deep_view() == uuid_texts_of(missing) && after == before)
                &&& result matches Err(SaveGenreError::Validation(e)) ==> (bad < 0 && missing.len() == 0
                    && saved.notification.len() > 0 && e.notification@ == saved.notification && after
                    == before)
                &&& result matches Err(SaveGenreError::CategoryRepository(_)) ==> (bad < 0 && after
                    == before)
                &&& (bad >= 0 || missing.len() > 0 || saved.notification.len() > 0) ==> after == before
                &&& (before.reliable() && cats.reliable()) ==> {
                    &&& bad >= 0 ==> (result matches Err(SaveGenreError::InvalidId(_)))
                    &&& (bad < 0 && missing.len() > 0) ==> (result matches Err(
                        SaveGenreError::CategoriesNotFound(_),
                    ))
                    &&& (bad < 0 && missing.len() == 0) ==> (result is Ok <==> saved.notification.len()
                        == 0)
                }
                &&& result matches Ok(out) ==> {
                    &&& bad < 0 && missing.len() == 0 && saved.notification.len() == 0
                    &&& out.id@ == uuid_text(id)
                    &&& !out.created
                    &&& after.hides_deleted() == before.hides_deleted()
                    &&& after.stored() == before.stored().update(position_of_id::<Genre>(before.stored(), id), saved)
                }
            }),
    {
        let props = match self.categories_props(&input.categories_id) {
            Ok(props) => props,
            Err(e) => {
                return Err(e);
            },
        };
        let mut genre = genre;
        genre.change_name(input.name);
        proof {
            lemma_created_nested_categories_keyed_by_id(props@);
        }
        let nested = create_nested_categories(props);
        genre.sync_nested_categories(nested);
        if input.is_active {
            genre.activate();
        } else {
            genre.deactivate();
        }
        genre.change_created_at(input.created_at);
        if genre.notification().has_errors() {
            return Err(SaveGenreError::Validation(EntityValidationError::new(genre.notification().clone())));
        }
        match self.genre_repo.update(&genre) {
            Err(e) => Err(SaveGenreError::GenreRepository(e)),
            Ok(()) => Ok(SaveGenreOutput { id: genre.genre_id().to_string(), created: false }),
        }
    }

    /// Reads the category ids, looks the categories up and turns those found
    /// into commands for nested categories.
    fn categories_props(&self, categories_id: &Vec<String>) -> (result: Result<
        Vec<NestedCategoryCreateCommand>,
        SaveGenreError<GR::Error, CR::Error>,
    >)
        ensures
            categories_lookup_ok(
                categories_id.deep_view(),
                self.category_repository().stored(),
                self.category_repository().hides_deleted(),
                self.category_repository().reliable(),
                result,
            ),
            result matches Err(SaveGenreError::CategoryRepository(_)) ==> first_non_uuid(
                categories_id.deep_view(),
            ) < 0,
    {
        let uuids = match parse_uuids(categories_id) {
            Ok(ids) => ids,
            Err(m) => {
                return Err(SaveGenreError::InvalidId(m));
            },
        };
        let mut category_ids: Vec<CategoryId> = Vec::new();
        for i in 0..uuids.len()
            invariant
                category_ids@.len() == i,
                forall|k: int| 0 <= k < i ==> (#[trigger] category_ids@[k]).0 == uuids@[k],
        {
            category_ids.push(CategoryId(uuids[i]));
        }
        assert(category_uuids(category_ids@) =~= uuid_values(uuids@));
        let found = match self.category_repo.find_by_ids(category_ids.as_slice()) {
            Ok(r) => r,
            Err(e) => {
                return Err(SaveGenreError::CategoryRepository(e));
            },
        };
        if found.not_exists.len() > 0 {
            return Err(SaveGenreError::CategoriesNotFound(uuid_texts(&found.not_exists)));
        }
        let mut props: Vec<NestedCategoryCreateCommand> = Vec::new();
        let exists = &found.exists;
        for i in 0..exists.len()
            invariant
                props@.len() == i,
                forall|k: int|
                    0 <= k < i ==> nested_categories_of(props@)[k] == #[trigger] nested_from_categories(
                        views_of(exists@),
                    )[k],
        {
            let category = &exists[i];
            let p = NestedCategoryCreateCommand {
                category_id: *category.category_id(),
                name: String::from_str(category.name()),
                is_active: category.is_active(),
                deleted_at: category.deleted_at(),
            };
            props.push(p);
        }
        proof {
            assert(nested_categories_of(props@) =~= nested_from_categories(views_of(exists@)));
        }
        Ok(props)
    }
}

} // verus!

verus! {

/// Once a genre is saved, a read of its id finds it, with the name, activity
/// and creation time of the input and copies of the categories found for it.
pub proof fn lemma_genre_found_after_save<GR: IGenreRepository, CR: ICategoryRepository>(
    before: GR,
    after: GR,
    cats: CR,
    input: SaveGenreInput,
    result: Result<SaveGenreOutput, SaveGenreError<GR::Error, CR::Error>>,
)
    requires
        genre_saved(before, after, cats, input, result),
        result is Ok,
    ensures
        uuid_parse(input.genre_id@) matches Some(v) && first_selected::<Genre>(
            after.stored(),
            after.hides_deleted(),
            Some(v),
            None,
        ) matches Some(g) && g.genre_id.0.id == v && g.name == input.name@ && g.is_active
            == input.is_active && g.created_at == input.created_at && g.categories == collected::<
            NestedCategory,
        >(
            nested_from_categories(
                found_for_ids::<Category>(
                    cats.stored(),
                    cats.hides_deleted(),
                    uuids_of(input.categories_id.deep_view()),
                ),
            ),
        ),
{
    let v = uuid_parse(input.genre_id@)->0;
    let found = found_for_ids::<Category>(
        cats.stored(),
        cats.hides_deleted(),
        uuids_of(input.categories_id.deep_view()),
    );
    let existing = first_selected::<Genre>(before.stored(), before.hides_deleted(), Some(v), None);
    match existing {
        Some(g) => {
            lemma_selected_has_position::<Genre>(before.stored(), before.hides_deleted(), v, None);
            lemma_find_after_update::<Genre>(before.stored(), before.hides_deleted(), genre_with_input(g, input, found));
        },
        None => {
            lemma_find_after_insert::<Genre>(before.stored(), before.hides_deleted(), genre_from_input(v, input, found));
        },
    }
}

} // verus!
