//! What can go wrong when a tag is read, converted or written.

use crate::fields::Field;
use vstd::prelude::*;

verus! {

/// The failures that a caller may meet.
#[derive(Debug)]
pub enum Error {
    /// A file could not be opened, read or written. Holds what the system
    /// reported.
    Io(String),
    /// The bytes of a file are not a tag of the expected format. Holds what
    /// the parser reported.
    Parse(String),
    /// No format is known for a file. Holds the extension that was asked
    /// for.
    UnsupportedFormat(String),
    /// A field is stored as text that does not read as a value of the
    /// field's type. Holds the field and the stored text.
    MalformedField(Field, String),
}

} // verus!
