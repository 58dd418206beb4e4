//! A typed configuration loader.
//!
//! The library populates a strongly-typed configuration value from the text
//! of environment variables carrying a fixed name prefix.  A closed set of
//! named variants is parsed case-insensitively, a missing optional field
//! falls back to its declared default, and every failure is reported as a
//! structured error naming the field, the offending text and the accepted
//! literals.

pub mod config;
pub mod error;
pub mod part;

pub use config::config_from_vars;
pub use config::get_config;
pub use config::load_config;
pub use config::Config;
pub use error::ConfigError;
pub use part::parse_part;
pub use part::Part;
