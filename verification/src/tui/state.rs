pub mod edit_buffer;
pub mod field_buffer;
