//! Template repository storage engine: namespaces, directory snapshots and
//! the collection of templates a repository holds.

pub mod account;
pub mod codec;
pub mod commands;
pub mod error;
pub mod laws;
pub mod manager;
pub mod methods;
pub mod maker;
pub mod namespace;
pub mod path_utils;
pub mod paths;
pub mod repository;
pub mod template;
pub mod text;
