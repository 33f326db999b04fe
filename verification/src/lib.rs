//! The decisions of a particle-effect editor and of the plugin that plays its exports:
//! which files are projects and what their exports are called, how list rows are edited,
//! which effect follows which when effects are spawned, in which steps an effect asset is
//! put together, and the names and labels of the editor's settings and attributes.

pub mod assembly;
pub mod attributes;
pub mod files;
pub mod lists;
pub mod settings;
pub mod spawn;
pub mod text;
