//! A small local file-sharing library: the record model, the metadata
//! store behind the file manager, and the decisions taken around storing
//! and serving uploaded files.
pub mod assets;
pub mod cli;
pub mod config;
pub mod errors;
pub mod laws;
pub mod manager;
pub mod record;

pub use assets::{Assets, StaticFile};
pub use cli::{port_in_range, Cli, CliLogLevel, PortError};
pub use config::AppConfig;
pub use errors::{AppError, FetchError, IngestError, InitError};
pub use manager::{FileManager, PathState};
pub use record::{FileId, FileRecord, Timestamp};
