pub mod app;
pub mod hotkey;
pub mod icon;
pub mod input;
pub mod text;
