//! Decision logic of a small image redirect service.
//!
//! The service answers two questions about a directory tree of images, "give
//! me any image" and "give me the newest image", with a temporary redirect to
//! the chosen file. This crate holds everything the service decides: how the
//! configuration is assembled, which pattern is searched, which file is
//! selected and what is answered. Reading the file system and speaking HTTP
//! are left to the program around it.

pub mod config;
pub mod paths;
pub mod reply;
pub mod search;
pub mod select;
