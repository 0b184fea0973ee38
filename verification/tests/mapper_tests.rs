use video_catalog::infrastructure::elasticsearch::es_mapping::{es_mapping, FieldKind};
use video_catalog::domain::cast_member::aggregate::{CastMember, CastMemberCreateCommand};
use video_catalog::domain::cast_member::cast_member_id::CastMemberId;
use video_catalog::domain::cast_member::cast_member_type::CastMemberType;
use video_catalog::domain::cast_member::nested_cast_member::NestedCastMemberCreateCommand;
use video_catalog::domain::category::aggregate::{Category, CategoryCreateCommand};
use video_catalog::domain::category::category_id::CategoryId;
use video_catalog::domain::category::nested_category::NestedCategoryCreateCommand;
use video_catalog::domain::genre::aggregate::{Genre, GenreCreateCommand};
use video_catalog::domain::genre::genre_id::GenreId;
use video_catalog::domain::genre::nested_genre::NestedGenreCreateCommand;
use video_catalog::domain::video::aggregate::{Video, VideoCreateCommand};
use video_catalog::domain::video::rating::Rating;
use video_catalog::domain::video::video_id::VideoId;
use video_catalog::infrastructure::elasticsearch::cast_member_mapper::{
    CastMemberDocument, CastMemberElasticSearchMapper, CAST_MEMBER_DOCUMENT_TYPE,
};
use video_catalog::infrastructure::elasticsearch::category_mapper::{
    CategoryDocument, CategoryElasticSearchMapper, CATEGORY_DOCUMENT_TYPE,
};
use video_catalog::infrastructure::elasticsearch::genre_mapper::{
    GenreDocument, GenreElasticSearchMapper, NestedCategoryDocument, GENRE_DOCUMENT_TYPE,
};
use video_catalog::infrastructure::elasticsearch::video_mapper::{
    NestedCastMemberDocument, NestedGenreDocument, VideoDocument, VideoElasticSearchMapper, VIDEO_DOCUMENT_TYPE,
};

/// The current time, in microseconds since the epoch.
fn now() -> i64 {
    chrono::Utc::now().timestamp_micros()
}

#[test]
fn category_mapper_should_convert_entity_to_document() {
    let category = Category::create(CategoryCreateCommand {
        category_id: CategoryId::new(),
        name: "Movie".to_string(),
        description: Some("desc".to_string()),
        is_active: true,
        created_at: now(),
    });
    let doc = CategoryElasticSearchMapper::to_document(&category);
    assert_eq!(doc.category_name, "Movie");
    assert_eq!(doc.category_description, Some("desc".to_string()));
    assert!(doc.is_active);
    assert!(doc.deleted_at.is_none());
    assert_eq!(doc.doc_type, "Category");
}

#[test]
fn category_mapper_should_convert_document_to_entity() {
    let id = CategoryId::new();
    let doc = CategoryDocument {
        category_name: "Movie".to_string(),
        category_description: Some("desc".to_string()),
        is_active: true,
        created_at: now(),
        deleted_at: None,
        doc_type: CATEGORY_DOCUMENT_TYPE.to_string(),
    };
    let entity = CategoryElasticSearchMapper::to_entity(&id.to_string(), &doc).expect("should map");
    assert_eq!(entity.name(), "Movie");
    assert_eq!(entity.description(), Some("desc"));
    assert!(entity.is_active());
    assert_eq!(entity.category_id(), &id);
}

#[test]
fn category_mapper_should_fail_with_invalid_type() {
    let doc = CategoryDocument {
        category_name: "Movie".to_string(),
        category_description: None,
        is_active: true,
        created_at: now(),
        deleted_at: None,
        doc_type: "Invalid".to_string(),
    };
    let result = CategoryElasticSearchMapper::to_entity("some-id", &doc);
    assert!(result.is_err());
    assert_eq!(result.unwrap_err().errors, vec!["Invalid document type".to_string()]);
}

#[test]
fn category_mapper_refuses_invalid_id() {
    let doc = CategoryDocument {
        category_name: "Movie".to_string(),
        category_description: None,
        is_active: true,
        created_at: now(),
        deleted_at: None,
        doc_type: CATEGORY_DOCUMENT_TYPE.to_string(),
    };
    let error = CategoryElasticSearchMapper::to_entity("some-id", &doc).unwrap_err();
    assert_eq!(error.errors, vec!["Invalid UUID: some-id".to_string()]);
    assert_eq!(error.to_string(), "Load Entity Error");
}

#[test]
fn category_document_round_trip() {
    let mut category = Category::create(CategoryCreateCommand {
        category_id: CategoryId::new(),
        name: "Movie".to_string(),
        description: None,
        is_active: false,
        created_at: 42,
    });
    category.mark_as_deleted();
    let doc = CategoryElasticSearchMapper::to_document(&category);
    let restored = CategoryElasticSearchMapper::to_entity(&category.category_id().to_string(), &doc).unwrap();
    assert_eq!(restored.category_id(), category.category_id());
    assert_eq!(restored.name(), category.name());
    assert_eq!(restored.description(), category.description());
    assert_eq!(restored.is_active(), category.is_active());
    assert_eq!(restored.created_at(), 42);
    assert_eq!(restored.deleted_at(), category.deleted_at());
}

#[test]
fn cast_member_mapper_should_convert_entity_to_document() {
    let cast_member = CastMember::create(CastMemberCreateCommand {
        cast_member_id: CastMemberId::new(),
        name: "John Doe".to_string(),
        cast_member_type: CastMemberType::Actor,
        created_at: now(),
    });
    let doc = CastMemberElasticSearchMapper::to_document(&cast_member);
    assert_eq!(doc.cast_member_name, "John Doe");
    assert_eq!(doc.cast_member_type, 2);
    assert!(doc.deleted_at.is_none());
    assert_eq!(doc.doc_type, "CastMember");
}

#[test]
fn cast_member_mapper_should_convert_document_to_entity() {
    let id = CastMemberId::new();
    let doc = CastMemberDocument {
        cast_member_name: "John Doe".to_string(),
        cast_member_type: 2,
        created_at: now(),
        deleted_at: None,
        doc_type: CAST_MEMBER_DOCUMENT_TYPE.to_string(),
    };
    let entity = CastMemberElasticSearchMapper::to_entity(&id.to_string(), &doc).expect("should map");
    assert_eq!(entity.name(), "John Doe");
    assert_eq!(entity.cast_member_type(), CastMemberType::Actor);
}

#[test]
fn cast_member_mapper_should_fail_with_invalid_type() {
    let doc = CastMemberDocument {
        cast_member_name: "John Doe".to_string(),
        cast_member_type: 2,
        created_at: now(),
        deleted_at: None,
        doc_type: "Invalid".to_string(),
    };
    let result = CastMemberElasticSearchMapper::to_entity("some-id", &doc);
    assert!(result.is_err());
}

#[test]
fn cast_member_mapper_refuses_unknown_type_number() {
    let doc = CastMemberDocument {
        cast_member_name: "John Doe".to_string(),
        cast_member_type: 5,
        created_at: now(),
        deleted_at: None,
        doc_type: CAST_MEMBER_DOCUMENT_TYPE.to_string(),
    };
    let error = CastMemberElasticSearchMapper::to_entity(&CastMemberId::new().to_string(), &doc).unwrap_err();
    assert_eq!(
        error.errors,
        vec!["Invalid cast member type: 5. Valid values are 1 (Director) or 2 (Actor)".to_string()]
    );
}

fn make_genre() -> Genre {
    Genre::create(GenreCreateCommand {
        genre_id: GenreId::new(),
        name: "Action".to_string(),
        categories_props: vec![NestedCategoryCreateCommand {
            category_id: CategoryId::new(),
            name: "Movie".to_string(),
            is_active: true,
            deleted_at: None,
        }],
        is_active: true,
        created_at: now(),
    })
}

#[test]
fn genre_mapper_should_convert_entity_to_document() {
    let genre = make_genre();
    let doc = GenreElasticSearchMapper::to_document(&genre);
    assert_eq!(doc.genre_name, "Action");
    assert!(doc.is_active);
    assert!(doc.deleted_at.is_none());
    assert_eq!(doc.doc_type, "Genre");
    assert_eq!(doc.categories.len(), 1);
    assert_eq!(doc.categories[0].category_name, "Movie");
    assert!(doc.categories[0].is_active);
    assert!(!doc.categories[0].is_deleted);
}

#[test]
fn genre_mapper_should_convert_document_to_entity() {
    let category_id = CategoryId::new();
    let doc = GenreDocument {
        genre_name: "Action".to_string(),
        categories: vec![NestedCategoryDocument {
            category_id: category_id.to_string(),
            category_name: "Movie".to_string(),
            is_active: true,
            deleted_at: None,
            is_deleted: false,
        }],
        is_active: true,
        created_at: now(),
        deleted_at: None,
        doc_type: GENRE_DOCUMENT_TYPE.to_string(),
    };
    let genre_id = GenreId::new();
    let entity = GenreElasticSearchMapper::to_entity(&genre_id.to_string(), &doc).expect("should map");
    assert_eq!(entity.name(), "Action");
    assert!(entity.is_active());
    assert_eq!(entity.categories().len(), 1);
}

#[test]
fn genre_mapper_should_fail_with_invalid_type() {
    let doc = GenreDocument {
        genre_name: "Action".to_string(),
        categories: vec![],
        is_active: true,
        created_at: now(),
        deleted_at: None,
        doc_type: "Invalid".to_string(),
    };
    let result = GenreElasticSearchMapper::to_entity("some-id", &doc);
    assert!(result.is_err());
}

#[test]
fn should_handle_deleted_nested_category() {
    let category_id = CategoryId::new();
    let deleted_at = now();
    let doc = GenreDocument {
        genre_name: "Drama".to_string(),
        categories: vec![NestedCategoryDocument {
            category_id: category_id.to_string(),
            category_name: "Series".to_string(),
            is_active: false,
            deleted_at: Some(deleted_at),
            is_deleted: true,
        }],
        is_active: true,
        created_at: now(),
        deleted_at: None,
        doc_type: GENRE_DOCUMENT_TYPE.to_string(),
    };
    let genre_id = GenreId::new();
    let entity = GenreElasticSearchMapper::to_entity(&genre_id.to_string(), &doc).expect("should map");
    let cat = entity.categories().values().iter().next().unwrap();
    assert!(!cat.is_active());
    assert!(cat.deleted_at().is_some());
}

#[test]
fn genre_mapper_refuses_invalid_nested_id() {
    let doc = GenreDocument {
        genre_name: "Drama".to_string(),
        categories: vec![NestedCategoryDocument {
            category_id: "broken".to_string(),
            category_name: "Series".to_string(),
            is_active: true,
            deleted_at: None,
            is_deleted: false,
        }],
        is_active: true,
        created_at: now(),
        deleted_at: None,
        doc_type: GENRE_DOCUMENT_TYPE.to_string(),
    };
    let error = GenreElasticSearchMapper::to_entity(&GenreId::new().to_string(), &doc).unwrap_err();
    assert_eq!(error.errors, vec!["Invalid UUID: broken".to_string()]);
}

#[test]
fn genre_document_round_trip() {
    let genre = make_genre();
    let doc = GenreElasticSearchMapper::to_document(&genre);
    let restored = GenreElasticSearchMapper::to_entity(&genre.genre_id().to_string(), &doc).unwrap();
    assert_eq!(restored.genre_id(), genre.genre_id());
    assert_eq!(restored.name(), genre.name());
    assert_eq!(restored.categories().len(), genre.categories().len());
    let nested = &genre.categories().values()[0];
    let back = &restored.categories().values()[0];
    assert_eq!(back.category_id(), nested.category_id());
    assert_eq!(back.name(), nested.name());
}

fn make_video() -> Video {
    Video::create(VideoCreateCommand {
        video_id: VideoId::new(),
        title: "Test Video".to_string(),
        description: "A test description".to_string(),
        year_launched: 2024,
        duration: 120,
        rating: Rating::R12,
        is_opened: false,
        is_published: true,
        banner_url: Some("http://banner.jpg".to_string()),
        thumbnail_url: None,
        thumbnail_half_url: None,
        trailer_url: "http://trailer.mp4".to_string(),
        video_url: "http://video.mp4".to_string(),
        categories_props: vec![NestedCategoryCreateCommand {
            category_id: CategoryId::new(),
            name: "Movie".to_string(),
            is_active: true,
            deleted_at: None,
        }],
        genres_props: vec![NestedGenreCreateCommand {
            genre_id: GenreId::new(),
            name: "Action".to_string(),
            is_active: true,
            deleted_at: None,
        }],
        cast_members_props: vec![NestedCastMemberCreateCommand {
            cast_member_id: CastMemberId::new(),
            name: "John Doe".to_string(),
            cast_member_type: CastMemberType::Actor,
            deleted_at: None,
        }],
        created_at: now(),
    })
}

#[test]
fn video_mapper_should_convert_entity_to_document() {
    let video = make_video();
    let doc = VideoElasticSearchMapper::to_document(&video);
    assert_eq!(doc.video_title, "Test Video");
    assert_eq!(doc.video_description, "A test description");
    assert_eq!(doc.year_launched, 2024);
    assert_eq!(doc.duration, 120);
    assert_eq!(doc.rating, "12");
    assert!(!doc.is_opened);
    assert!(doc.is_published);
    assert_eq!(doc.banner_url, Some("http://banner.jpg".to_string()));
    assert!(doc.thumbnail_url.is_none());
    assert_eq!(doc.trailer_url, "http://trailer.mp4");
    assert_eq!(doc.video_url, "http://video.mp4");
    assert!(doc.deleted_at.is_none());
    assert_eq!(doc.doc_type, "Video");
    assert_eq!(doc.categories.len(), 1);
    assert_eq!(doc.categories[0].category_name, "Movie");
    assert!(doc.categories[0].is_active);
    assert!(!doc.categories[0].is_deleted);
    assert_eq!(doc.genres.len(), 1);
    assert_eq!(doc.genres[0].genre_name, "Action");
    assert_eq!(doc.cast_members.len(), 1);
    assert_eq!(doc.cast_members[0].cast_member_name, "John Doe");
    assert_eq!(doc.cast_members[0].cast_member_type, 2);
}

fn video_document(doc_type: &str) -> VideoDocument {
    VideoDocument {
        video_title: "Test Video".to_string(),
        video_description: "A test description".to_string(),
        year_launched: 2024,
        duration: 120,
        rating: "12".to_string(),
        is_opened: false,
        is_published: true,
        banner_url: Some("http://banner.jpg".to_string()),
        thumbnail_url: None,
        thumbnail_half_url: None,
        trailer_url: "http://trailer.mp4".to_string(),
        video_url: "http://video.mp4".to_string(),
        categories: vec![NestedCategoryDocument {
            category_id: CategoryId::new().to_string(),
            category_name: "Movie".to_string(),
            is_active: true,
            deleted_at: None,
            is_deleted: false,
        }],
        genres: vec![NestedGenreDocument {
            genre_id: GenreId::new().to_string(),
            genre_name: "Action".to_string(),
            is_active: true,
            deleted_at: None,
            is_deleted: false,
        }],
        cast_members: vec![NestedCastMemberDocument {
            cast_member_id: CastMemberId::new().to_string(),
            cast_member_name: "John Doe".to_string(),
            cast_member_type: 2,
            deleted_at: None,
            is_deleted: false,
        }],
        created_at: now(),
        deleted_at: None,
        doc_type: doc_type.to_string(),
    }
}

#[test]
fn video_mapper_should_convert_document_to_entity() {
    let doc = video_document(VIDEO_DOCUMENT_TYPE);
    let video_id = VideoId::new();
    let entity = VideoElasticSearchMapper::to_entity(&video_id.to_string(), &doc).expect("should map");
    assert_eq!(entity.title(), "Test Video");
    assert_eq!(entity.description(), "A test description");
    assert_eq!(entity.year_launched(), 2024);
    assert_eq!(entity.duration(), 120);
    assert_eq!(entity.rating(), &Rating::R12);
    assert!(!entity.is_opened());
    assert!(entity.is_published());
    assert_eq!(entity.categories().len(), 1);
    assert_eq!(entity.genres().len(), 1);
    assert_eq!(entity.cast_members().len(), 1);
}

#[test]
fn video_mapper_should_fail_with_invalid_type() {
    let doc = VideoDocument { categories: vec![], genres: vec![], cast_members: vec![], ..video_document("Invalid") };
    let result = VideoElasticSearchMapper::to_entity("some-id", &doc);
    assert!(result.is_err());
}

#[test]
fn video_mapper_refuses_invalid_rating() {
    let doc = VideoDocument { rating: "PG".to_string(), ..video_document(VIDEO_DOCUMENT_TYPE) };
    let error = VideoElasticSearchMapper::to_entity(&VideoId::new().to_string(), &doc).unwrap_err();
    assert_eq!(error.errors, vec!["Invalid rating: PG. Valid values are L, 10, 12, 14, 16, 18".to_string()]);
}

#[test]
fn video_mapper_refuses_invalid_nested_cast_member_type() {
    let mut doc = video_document(VIDEO_DOCUMENT_TYPE);
    doc.cast_members[0].cast_member_type = 0;
    let error = VideoElasticSearchMapper::to_entity(&VideoId::new().to_string(), &doc).unwrap_err();
    assert_eq!(
        error.errors,
        vec!["Invalid cast member type: 0. Valid values are 1 (Director) or 2 (Actor)".to_string()]
    );
}

#[test]
fn should_roundtrip_entity_through_document() {
    let video = make_video();
    let doc = VideoElasticSearchMapper::to_document(&video);
    let restored = VideoElasticSearchMapper::to_entity(&video.video_id().to_string(), &doc).expect("should roundtrip");
    assert_eq!(restored.title(), video.title());
    assert_eq!(restored.description(), video.description());
    assert_eq!(restored.year_launched(), video.year_launched());
    assert_eq!(restored.duration(), video.duration());
    assert_eq!(restored.rating(), video.rating());
    assert_eq!(restored.is_opened(), video.is_opened());
    assert_eq!(restored.is_published(), video.is_published());
    assert_eq!(restored.categories().len(), video.categories().len());
    assert_eq!(restored.genres().len(), video.genres().len());
    assert_eq!(restored.cast_members().len(), video.cast_members().len());
}

#[test]
fn category_document_with_a_long_name_is_refused() {
    let doc = CategoryDocument {
        category_name: "a".repeat(256),
        category_description: None,
        is_active: true,
        created_at: now(),
        deleted_at: None,
        doc_type: CATEGORY_DOCUMENT_TYPE.to_string(),
    };
    let error = CategoryElasticSearchMapper::to_entity(&CategoryId::new().to_string(), &doc).expect_err("too long");
    assert_eq!(error.errors, vec!["name: name must be shorter than or equal to 255 characters".to_string()]);
}

#[test]
fn cast_member_document_with_a_long_name_is_refused() {
    let doc = CastMemberDocument {
        cast_member_name: "a".repeat(256),
        cast_member_type: 1,
        created_at: now(),
        deleted_at: None,
        doc_type: CAST_MEMBER_DOCUMENT_TYPE.to_string(),
    };
    let error = CastMemberElasticSearchMapper::to_entity(&CastMemberId::new().to_string(), &doc).expect_err("too long");
    assert_eq!(error.errors.len(), 1);
}

#[test]
fn genre_document_with_a_long_name_is_refused() {
    let doc = GenreDocument {
        genre_name: "a".repeat(256),
        categories: vec![],
        is_active: true,
        created_at: now(),
        deleted_at: None,
        doc_type: GENRE_DOCUMENT_TYPE.to_string(),
    };
    let error = GenreElasticSearchMapper::to_entity(&GenreId::new().to_string(), &doc).expect_err("too long");
    assert_eq!(error.errors, vec!["name: name must be shorter than or equal to 255 characters".to_string()]);
}

#[test]
fn video_document_with_a_long_title_is_refused() {
    let mut doc = video_document(VIDEO_DOCUMENT_TYPE);
    doc.video_title = "a".repeat(256);
    let error = VideoElasticSearchMapper::to_entity(&VideoId::new().to_string(), &doc).expect_err("too long");
    assert_eq!(error.errors, vec!["title: title must be shorter than or equal to 255 characters".to_string()]);
}

#[test]
fn nested_items_are_kept_under_their_id_texts() {
    let category_id = CategoryId::new().to_string();
    let nested = |id: String, name: &str| NestedCategoryDocument {
        category_id: id,
        category_name: name.to_string(),
        is_active: true,
        deleted_at: None,
        is_deleted: false,
    };
    let doc = GenreDocument {
        genre_name: "Action".to_string(),
        categories: vec![
            nested(category_id.clone(), "First"),
            nested(category_id.to_uppercase(), "Second"),
            nested(category_id.clone(), "Third"),
        ],
        is_active: true,
        created_at: now(),
        deleted_at: None,
        doc_type: GENRE_DOCUMENT_TYPE.to_string(),
    };
    let genre = GenreElasticSearchMapper::to_entity(&GenreId::new().to_string(), &doc).expect("loads");
    assert_eq!(genre.categories().len(), 2);
    assert_eq!(genre.categories().get(&category_id).expect("lower case").name(), "Third");
    assert_eq!(genre.categories().get(&category_id.to_uppercase()).expect("upper case").name(), "Second");
}

#[test]
fn index_mapping_lists_every_document_field() {
    let fields = es_mapping();
    assert_eq!(fields.len(), 24);
    assert_eq!(fields[0].name, "type");
    assert!(fields[0].kind == FieldKind::Keyword);
    assert!(fields[0].items.is_empty());
    let title = fields.iter().find(|f| f.name == "video_title").unwrap();
    assert!(title.kind == FieldKind::TextWithKeyword);
    let categories = fields.iter().find(|f| f.name == "categories").unwrap();
    assert!(categories.kind == FieldKind::Nested);
    let names: Vec<&str> = categories.items.iter().map(|i| i.name.as_str()).collect();
    assert_eq!(names, vec!["category_id", "category_name", "is_active", "deleted_at", "is_deleted"]);
    let cast_members = fields.iter().find(|f| f.name == "cast_members").unwrap();
    let member_type = cast_members.items.iter().find(|i| i.name == "cast_member_type").unwrap();
    assert!(member_type.kind == FieldKind::Integer);
    assert_eq!(fields[23].name, "deleted_at");
    assert!(fields[23].kind == FieldKind::Date);
}

#[test]
fn video_nested_items_are_kept_under_their_id_texts() {
    let genre_id = GenreId::new().to_string();
    let member_id = CastMemberId::new().to_string();
    let genre = |id: String, name: &str| NestedGenreDocument {
        genre_id: id,
        genre_name: name.to_string(),
        is_active: true,
        deleted_at: None,
        is_deleted: false,
    };
    let member = |id: String, name: &str| NestedCastMemberDocument {
        cast_member_id: id,
        cast_member_name: name.to_string(),
        cast_member_type: 1,
        deleted_at: None,
        is_deleted: false,
    };
    let doc = VideoDocument {
        genres: vec![genre(genre_id.clone(), "Drama"), genre(genre_id.to_uppercase(), "Comedy")],
        cast_members: vec![
            member(member_id.to_uppercase(), "Ann"),
            member(member_id.clone(), "Bob"),
            member(member_id.to_uppercase(), "Cid"),
        ],
        ..video_document(VIDEO_DOCUMENT_TYPE)
    };
    let video = VideoElasticSearchMapper::to_entity(&VideoId::new().to_string(), &doc).expect("loads");
    assert_eq!(video.genres().len(), 2);
    assert_eq!(video.genres().get(&genre_id).expect("lower case").name(), "Drama");
    assert_eq!(video.genres().get(&genre_id.to_uppercase()).expect("upper case").name(), "Comedy");
    assert_eq!(video.cast_members().len(), 2);
    assert_eq!(video.cast_members().get(&member_id).expect("lower case").name(), "Bob");
    assert_eq!(video.cast_members().get(&member_id.to_uppercase()).expect("upper case").name(), "Cid");
}
