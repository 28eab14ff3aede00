//! The dialogs for opening datasets and for deleting converted copies.
pub mod delete_artifacts;
pub mod open_hf;
pub mod open_tos;
pub mod server_config;
