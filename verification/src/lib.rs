//! Classification and rendering of the status codes that a Bluetooth Low
//! Energy host stack returns.
//!
//! A status code is either a success or a failure. `BLEError` is the value of
//! a failure; it renders as the description that the status-code table gives
//! for its code, or as the code in hexadecimal where the table has none.

pub mod codes;
pub mod diag;
pub mod digits;
pub mod error;
pub mod table;

pub use error::BLEError;
pub use table::return_code_to_string;
