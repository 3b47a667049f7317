pub mod editor;
pub mod status_bar;
