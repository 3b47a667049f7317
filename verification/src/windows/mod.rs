pub mod build_info_window;
pub mod editor_window;
