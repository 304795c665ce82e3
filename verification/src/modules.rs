pub mod date;
pub mod image;
pub mod module;
pub mod time;
