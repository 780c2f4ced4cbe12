pub mod cli;
pub mod commands;
pub mod storage;
pub mod text;
pub mod tui;
