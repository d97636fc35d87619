//! The commands that change a repository: save, update and delete.

pub mod delete;
pub mod save;
pub mod update;
