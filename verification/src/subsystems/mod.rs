pub mod cryptography;
pub mod discord;
pub mod events;
pub mod resolver;
