pub mod workspace;
pub mod process;
