//! The terminal front end's navigation, connection page and layout rules,
//! without drawing or sockets.
pub mod app;
pub mod pages;
pub mod screens;
pub mod ui;
