pub mod todo_list;
