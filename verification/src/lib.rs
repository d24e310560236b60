//! A model of the operating system's search path: an ordered list of
//! entries, each either a literal directory or a reference to an
//! environment variable that is kept unexpanded.
//!
//! A [`Platform`] says how a path is written: which character stands
//! between two entries, and how a reference to a variable is marked.
//! [`Path::from_str`] divides a text into entries, [`PathItem::from_str`]
//! tells a reference from a directory, and [`Variable::from_str`] reads a
//! reference. Each is verified against a function over sequences of
//! characters that says what a text denotes.

pub mod path;
pub mod path_item;
pub mod platform;
pub mod segments;
pub mod text;
pub mod variable;

pub use path::{LookupError, Path};
pub use path_item::{Entry, ParsePathItemError, PathItem};
pub use platform::{Platform, TagConvention};
pub use variable::{ParseVariableError, Variable};
