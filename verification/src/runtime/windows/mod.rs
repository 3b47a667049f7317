pub mod editor;
pub mod splash;
pub mod workspace;

