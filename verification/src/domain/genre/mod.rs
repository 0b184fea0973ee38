pub mod aggregate;
pub mod genre_id;
pub mod genre_repository;
pub mod nested_genre;
