//! A catalog of categories, genres, cast members and videos: the domain model,
//! its validation rules, in-memory repositories, use cases, document mappers
//! and the decisions taken when change-data-capture events arrive.
pub mod application;
pub mod config;
pub mod domain;
pub mod infrastructure;
pub mod kafka;
