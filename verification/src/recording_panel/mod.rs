//! The panel that lists the servers, datasets and recordings that are open.
pub mod app_rows;
pub mod data;
pub mod expand;
pub mod sections;
pub mod server_rows;
pub mod shift;
