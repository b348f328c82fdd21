//! Searching a vehicle-manufacturer registry listing by keyword.
//!
//! The listing arrives as the bytes of a JSON document. The library decodes it
//! into manufacturer records, keeps the records in which a keyword occurs, and
//! renders them for display. Fetching the listing and printing the lines is
//! left to the caller.

pub mod cli;
pub mod decode;
pub mod json;
pub mod record;
pub mod report;
pub mod select;
pub mod text;

pub use cli::{plan, Command};
pub use decode::DecodeError;
pub use record::Manufacturer;
pub use report::{search, SearchError};
