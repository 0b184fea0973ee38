pub mod cast_member;
pub mod category;
pub mod genre;
pub mod lookup;
pub mod messages;
pub mod use_case;
pub mod video;
