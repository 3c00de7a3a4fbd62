//! The ways in which decoding a capture can fail.

use vstd::prelude::*;

verus! {

/// The specific kind of error that can occur in this crate.
///
/// The variants carry no data: the kind alone says what went wrong.
#[derive(Clone, Copy, Debug, PartialEq, Eq, Structural)]
pub enum ErrorKind {
    /// A read ran past the end of the data while the header was being parsed.
    IoError,
    /// The capture ends before a field or a vendor section that its header announces.
    IncompleteError,
    /// The given data is shorter than the length that the header declares.
    InvalidLength,
    /// The bytes of a field are not a valid encoding of that field.
    InvalidFormat,
    /// The header carries a version other than zero.
    UnsupportedVersion,
    /// A presence bit names a field that its namespace does not define, or a modulation has no
    /// entry in the rate tables.
    UnsupportedField,
}

impl ErrorKind {
    /// What the kind says in words.
    pub open spec fn text(self) -> Seq<char> {
        match self {
            ErrorKind::IoError => "the internal cursor over the data returned an IO error"@,
            ErrorKind::IncompleteError => "the given data is not a complete Radiotap capture"@,
            ErrorKind::InvalidLength => "the given data is shorter than the amount specified in the Radiotap header"@,
            ErrorKind::InvalidFormat => "the given data is not a valid Radiotap capture"@,
            ErrorKind::UnsupportedVersion => "unsupported Radiotap header version"@,
            ErrorKind::UnsupportedField => "unsupported Radiotap field"@,
        }
    }

    /// Returns what the kind says in words, for a message to the user.
    pub fn message(&self) -> (text: &'static str)
        ensures
            text@ == self.text(),
    {
        match self {
            ErrorKind::IoError => "the internal cursor over the data returned an IO error",
            ErrorKind::IncompleteError => "the given data is not a complete Radiotap capture",
            ErrorKind::InvalidLength => "the given data is shorter than the amount specified in the Radiotap header",
            ErrorKind::InvalidFormat => "the given data is not a valid Radiotap capture",
            ErrorKind::UnsupportedVersion => "unsupported Radiotap header version",
            ErrorKind::UnsupportedField => "unsupported Radiotap field",
        }
    }
}

} // verus!
