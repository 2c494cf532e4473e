//! The command-line variant: its repository hands out images as data URIs.

pub mod file_repository;
pub mod image;
