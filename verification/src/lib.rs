//! A verified URL-cleaning pipeline: a validator that matches candidate
//! strings against a fixed URL pattern, a classifier that turns an HTTP
//! status code into an annotated outcome, and a driver core that filters
//! input lines, chooses the run mode, tallies outcomes and renders output
//! lines. The surrounding program supplies the file and network I/O.

pub mod checker;
pub mod driver;
pub mod validator;
