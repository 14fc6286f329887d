pub mod app;
pub mod json;
pub mod laws;
pub mod mpv;
pub mod output;
pub mod screen;
pub mod search;
pub mod text;
pub mod types;
