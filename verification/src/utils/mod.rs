pub mod components;
pub mod cryptography;
pub mod links;
pub mod path;
pub mod text;
pub mod time;
pub mod state_table;
