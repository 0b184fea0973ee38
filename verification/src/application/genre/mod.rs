pub mod delete_genre;
pub mod genre_output;
pub mod get_genre;
pub mod list_all_genres;
pub mod save_genre;
