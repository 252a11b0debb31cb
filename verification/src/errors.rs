use vstd::prelude::*;

verus! {

/// Classification of an I/O failure. "Not found" is kept distinct from every
/// other failure so a caller can apply a bounded retry policy while a file is
/// momentarily missing during rotation.
#[derive(Clone, Copy, Debug, PartialEq, Eq, Structural)]
pub enum IoErrorKind {
    NotFound,
    Other,
}

/// Errors surfaced while following a file.
///
/// `IO` covers open, metadata, seek and read failures; `Utf8` reports the
/// number of leading bytes that still decoded cleanly when a textual display
/// of the bytes was attempted; `IntError` reports a byte count that cannot be
/// represented in the 64-bit offset.
#[derive(Clone, Copy, Debug, PartialEq, Eq, Structural)]
pub enum StaartError {
    IO(IoErrorKind),
    Utf8(usize),
    IntError,
}

impl StaartError {
    /// A short description of the error kind.
    pub fn message(&self) -> (r: &'static str)
        ensures
            *self is IO ==> r@ == "encountered IO error"@,
            *self is Utf8 ==> r@ == "encountered UTF8 error"@,
            *self is IntError ==> r@ == "encountered integer conversion error"@,
    {
        match *self {
            StaartError::IO(_) => "encountered IO error",
            StaartError::Utf8(_) => "encountered UTF8 error",
            StaartError::IntError => "encountered integer conversion error",
        }
    }

    /// Whether this error reports that the followed path was missing, the one
    /// I/O failure a poll driver should treat as transient.
    pub fn is_not_found(&self) -> (r: bool)
        ensures
            r == (*self == StaartError::IO(IoErrorKind::NotFound)),
    {
        match *self {
            StaartError::IO(kind) => kind == IoErrorKind::NotFound,
            _ => false,
        }
    }
}

} // verus!
