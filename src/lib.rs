pub mod action;
pub mod app;
pub mod input;
pub mod ui;
pub mod view;
