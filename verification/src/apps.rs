pub mod app;
pub mod launcher;
pub mod main_menu;
pub mod spotify;
