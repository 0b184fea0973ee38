pub mod criteria;
pub mod entity;
pub mod errors;
pub mod listing;
pub mod named;
pub mod nested_map;
pub mod notification;
pub mod ordering;
pub mod query;
pub mod repository;
pub mod text;
pub mod timestamp;
pub mod validation;
pub mod value_object;
