//! Schemas, database value conversions and request-handling rules of the
//! Lockinspiel timekeeper and user services.
pub mod jiff_bridge;
pub mod sql_types;
pub mod time_split;
pub mod api;
pub mod timekeeper;
pub mod user;
pub mod uuid_bridge;
pub mod profile;
pub mod config;
