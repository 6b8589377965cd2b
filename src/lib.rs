//! Result values for the `command` and HTTP template functions.
//!
//! Every failure is carried inside the returned value (a sentinel exit code
//! or status and a message), so a template can branch on the fields instead
//! of handling an error.
pub mod text;
pub mod command;
pub mod headers;
pub mod fetch;
