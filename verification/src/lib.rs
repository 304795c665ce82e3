//! Drives a pixel-matrix display, hardware LED panel or simulated,
//! by rotating through a small set of full-screen apps: an idle
//! screen of clock, calendar and background art, and a now-playing
//! music widget fed by a background sync worker that never stalls
//! the render loop. Debounced rotary-encoder input switches and
//! steers the apps.

pub mod apps;
pub mod modules;
pub mod pixel_display;
