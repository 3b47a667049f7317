//! Noot: the verified core of a note-taking workspace application.
//!
//! The modules follow the layout of the application: `runtime` holds the
//! decisions of the window runtime and its workers, `storage` the workspace
//! data model, the document model and layout of rendered buffers and the
//! seed settings of the stores, `subsystems` cryptography (hashing, key
//! derivation, ciphers and the on-disk framing), rich presence, the event
//! queue and media resolution, `ui` the choice of theme, `utils` text, path,
//! time and hashing helpers, the component registry and widget state, and
//! `views` and `windows` the plain view state and editor decisions.

pub mod runtime;
pub mod storage;
pub mod subsystems;
pub mod ui;
pub mod utils;
pub mod views;
pub mod windows;
