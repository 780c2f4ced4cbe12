pub mod edit_mode_modal_view_model;
pub mod todo_view_model;
