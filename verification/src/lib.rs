//! Resolves a date/time request against the open traffic-data API:
//! parsing a digit string into a precision-tagged date/time value,
//! resolving boolean fetch options, and expanding the result into an
//! ordered list of (file name, query URL) targets.

pub mod datetime;
pub mod execution_option;
pub mod run_option;
pub mod types;
pub mod url;
