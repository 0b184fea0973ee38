pub mod aggregate;
pub mod rating;
pub mod video_id;
pub mod video_repository;
