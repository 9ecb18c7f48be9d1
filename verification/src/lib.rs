//! Deduces how file names are displayed from matched command-line flags and
//! environment variables: type indicators, icons and hyperlinks.

pub mod error;
pub mod file_name;
pub mod flags;
pub mod laws;
pub mod number;
pub mod token;
pub mod vars;
