//! A notebook manager: named plain files in one flat root directory, reached
//! through a small storage capability so that the command logic can be run
//! and proved against an in-memory storage as well as a disk.

pub mod app;
pub mod config;
pub mod error;
pub mod file_operations;
pub mod guarantees;
pub mod message;
pub mod mock_fs;
pub mod name;
pub mod path;
pub mod utils;
