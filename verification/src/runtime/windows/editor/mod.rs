pub mod buffer;
pub mod messaging;
pub mod settings;
