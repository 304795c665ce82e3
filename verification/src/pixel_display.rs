pub mod input_handler;
pub mod pixel_display;
