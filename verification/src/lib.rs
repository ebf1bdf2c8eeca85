//! Decision logic, validation and index plans of a library of periodic cash-flow functions.

pub mod models;
pub mod periodic;
pub mod utils;

pub use models::{InvalidPaymentsError, Sign, validate};
