//! The scenes of the program and the manager that moves between them.

pub mod gamefreak;
pub mod manager;
pub mod scenes;
