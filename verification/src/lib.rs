//! Picks an avatar image from a directory of pictures and changes the
//! profile picture on chat services with it.

pub mod path;
pub mod file_repository;
pub mod image;
pub mod errors;
pub mod image_storage;

pub mod avatar_providers;
pub mod avatar_pipeline;
pub mod codecs;
pub mod data_uri;
pub mod discord_client;
pub mod telegram_client;
pub mod cli;
