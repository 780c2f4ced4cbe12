pub mod app;
pub mod events;
pub mod order;
pub mod state;
pub mod ui;
pub mod view_model;
pub mod view_models;
pub mod views;
