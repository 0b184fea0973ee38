use video_catalog::domain::genre::genre_id::GenreId;
use video_catalog::domain::shared::repository::{SortDirection, SortOrder};
use video_catalog::domain::shared::value_object::UuidVo;
use video_catalog::domain::video::video_id::VideoId;
use video_catalog::infrastructure::elasticsearch::genre_es_repository::{
    first_genre_from_hits, genre_filter, genre_sort, genres_found_by_ids, genres_from_hits, GenreEsRepositoryError,
};
use video_catalog::infrastructure::elasticsearch::genre_mapper::{GenreDocument, GENRE_DOCUMENT_TYPE};
use video_catalog::infrastructure::elasticsearch::search::{check_affected, hit_ids, split_by_found, SearchFilter};
use video_catalog::infrastructure::elasticsearch::video_es_repository::{
    video_filter, video_sort, VideoEsRepositoryError,
};

fn genre_document(name: &str, doc_type: &str) -> GenreDocument {
    GenreDocument {
        genre_name: name.to_string(),
        categories: vec![],
        is_active: true,
        created_at: 1_700_000_000_000_000,
        deleted_at: None,
        doc_type: doc_type.to_string(),
    }
}

fn order(field: &str, direction: SortDirection) -> SortOrder {
    SortOrder { field: field.to_string(), direction }
}

#[test]
fn search_filter_keeps_what_it_is_given() {
    let filter = SearchFilter::new("Genre", Some("abc".to_string()), "is_active", Some(false), true);
    assert_eq!(filter.doc_type, "Genre");
    assert_eq!(filter.id, Some("abc".to_string()));
    assert_eq!(filter.flag, Some(("is_active".to_string(), false)));
    assert!(filter.exclude_deleted);
    let bare = SearchFilter::new("Video", None, "is_published", None, false);
    assert_eq!(bare.id, None);
    assert_eq!(bare.flag, None);
    assert!(!bare.exclude_deleted);
}

#[test]
fn genre_filter_searches_genres_by_activity() {
    let id = GenreId::new();
    let filter = genre_filter(Some(&id), Some(true), false);
    assert_eq!(filter.doc_type, "Genre");
    assert_eq!(filter.id, Some(id.to_string()));
    assert_eq!(filter.flag, Some(("is_active".to_string(), true)));
    assert!(!filter.exclude_deleted);
}

#[test]
fn video_filter_searches_videos_by_publication() {
    let filter = video_filter(None, Some(true), true);
    assert_eq!(filter.doc_type, "Video");
    assert_eq!(filter.id, None);
    assert_eq!(filter.flag, Some(("is_published".to_string(), true)));
    assert!(filter.exclude_deleted);
    let id = VideoId::new();
    assert_eq!(video_filter(Some(&id), None, false).id, Some(id.to_string()));
}

#[test]
fn genre_sort_maps_name_to_the_index_field() {
    let by_name = genre_sort(Some(&order("name", SortDirection::Desc))).expect("name sorts");
    assert_eq!(by_name.field, "genre_name");
    assert_eq!(by_name.direction, SortDirection::Desc);
    let by_creation = genre_sort(Some(&order("created_at", SortDirection::Asc))).expect("created_at sorts");
    assert_eq!(by_creation.field, "created_at");
    assert!(genre_sort(Some(&order("title", SortDirection::Asc))).is_none());
    assert!(genre_sort(None).is_none());
}

#[test]
fn video_sort_maps_title_to_the_index_field() {
    let by_title = video_sort(Some(&order("title", SortDirection::Asc))).expect("title sorts");
    assert_eq!(by_title.field, "video_title");
    assert_eq!(by_title.direction, SortDirection::Asc);
    assert!(video_sort(Some(&order("name", SortDirection::Asc))).is_none());
}

#[test]
fn genres_load_from_hits_in_order() {
    let first = GenreId::new();
    let second = GenreId::new();
    let hits = vec![
        (first.to_string(), genre_document("Action", GENRE_DOCUMENT_TYPE)),
        (second.to_string(), genre_document("Drama", GENRE_DOCUMENT_TYPE)),
    ];
    let genres = genres_from_hits(&hits).expect("loads");
    assert_eq!(genres.len(), 2);
    assert_eq!(genres[0].name(), "Action");
    assert_eq!(genres[1].genre_id().to_string(), second.to_string());
    let one = first_genre_from_hits(&hits).expect("loads").expect("a hit");
    assert_eq!(one.genre_id().to_string(), first.to_string());
    assert!(first_genre_from_hits(&vec![]).expect("no hit").is_none());
}

#[test]
fn a_hit_of_another_type_fails_the_read() {
    let hits = vec![(GenreId::new().to_string(), genre_document("Action", "Video"))];
    match genres_from_hits(&hits) {
        Err(e @ GenreEsRepositoryError::Mapping(_)) => assert_eq!(e.to_string(), "mapping error: Load Entity Error"),
        _ => panic!("expected a mapping error"),
    }
}

#[test]
fn genres_found_by_ids_reports_the_missing_ids() {
    let found = GenreId::new();
    let missing = GenreId::new();
    let hits = vec![(found.to_string(), genre_document("Action", GENRE_DOCUMENT_TYPE))];
    let result = genres_found_by_ids(&[found, missing], &hits).expect("loads");
    assert_eq!(result.exists.len(), 1);
    assert_eq!(result.exists[0].genre_id().to_string(), found.to_string());
    assert_eq!(result.not_exists.len(), 1);
    assert_eq!(result.not_exists[0].to_string(), missing.to_string());
}

#[test]
fn hit_ids_lists_the_ids_in_order() {
    let hits = vec![
        ("a".to_string(), genre_document("Action", GENRE_DOCUMENT_TYPE)),
        ("b".to_string(), genre_document("Drama", GENRE_DOCUMENT_TYPE)),
    ];
    assert_eq!(hit_ids(&hits), vec!["a".to_string(), "b".to_string()]);
}

#[test]
fn split_by_found_keeps_the_order_of_the_ids() {
    let a = GenreId::new().0;
    let b = GenreId::new().0;
    let c = GenreId::new().0;
    let ids: Vec<UuidVo> = vec![a, b, c];
    let result = split_by_found(&ids, &vec![c.to_string(), a.to_string()]);
    assert_eq!(result.exists, vec![a, c]);
    assert_eq!(result.not_exists, vec![b]);
}

#[test]
fn check_affected_reports_not_found_when_nothing_changed() {
    assert!(check_affected(1, "x", "Genre").is_ok());
    let error = check_affected(0, "abc", "Genre").expect_err("nothing changed");
    assert_eq!(error.to_string(), "Genre Not Found using ID abc");
    let wrapped = VideoEsRepositoryError::NotFound(check_affected(0, "abc", "Video").expect_err("nothing changed"));
    assert_eq!(wrapped.to_string(), "Video Not Found using ID abc");
    assert_eq!(VideoEsRepositoryError::Elasticsearch("down".to_string()).to_string(), "elasticsearch error: down");
}
