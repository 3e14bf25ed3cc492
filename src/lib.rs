//! Scaffolding for a workspace of source repositories, each wrapped in a
//! generated container definition.
//!
//! The library decides and renders; the caller performs the effects. Every
//! operation is split into a check (a pure decision over what already exists
//! on disk) and a plan (the exact list of directories, files and processes to
//! create), so that what would be written is known, and proved, before
//! anything touches the filesystem.
pub mod identity;
pub mod layout;
pub mod plan;
pub mod prompt;
pub mod render;
pub mod text;
