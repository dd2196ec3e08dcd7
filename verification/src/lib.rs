//! Scan configuration resolution for a command-line ARP discovery tool.
//!
//! Raw textual command-line input is turned into one fully validated,
//! internally consistent configuration: multi-source defaulting
//! (explicit value > profile-implied default > global default),
//! cross-field validation, mutually exclusive input enforcement, and a
//! typed error for every way a resolution can fail.

pub mod duration;
pub mod errors;
pub mod ipv4;
pub mod mac;
pub mod network;
pub mod numbers;
pub mod options;
pub mod output;
pub mod profile;
pub mod text;
