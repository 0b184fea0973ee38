pub mod category_output;
pub mod delete_category;
pub mod get_category;
pub mod list_all_categories;
pub mod save_category;
