pub mod cast_member;
pub mod category;
pub mod genre;
pub mod shared;
pub mod video;
