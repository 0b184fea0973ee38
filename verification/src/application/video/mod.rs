pub mod delete_video;
pub mod get_video;
pub mod list_videos;
pub mod save_video;
pub mod video_output;
