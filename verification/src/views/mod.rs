pub mod landing;
pub mod settings;
