use vstd::prelude::*;

verus! {

#[verifier::external_type_specification]
#[verifier::external_body]
pub struct ExIoError(std::io::Error);

#[verifier::external_type_specification]
#[verifier::external_body]
pub struct ExErrorKind(bincode::ErrorKind);

/// The error of the reading adapter: either the transport failed, or the
/// bytes it delivered did not decode.
#[derive(Debug)]
pub enum Error {
    Io(std::io::Error),
    Serde(bincode::Error),
}

impl From<std::io::Error> for Error {
    fn from(src: std::io::Error) -> (r: Error) {
        Error::Io(src)
    }
}

impl vstd::std_specs::convert::FromSpecImpl<std::io::Error> for Error {
    open spec fn obeys_from_spec() -> bool {
        true
    }

    open spec fn from_spec(src: std::io::Error) -> Error {
        Error::Io(src)
    }
}

/// Relies on std::io::Error::new: wraps a bincode error as an I/O error of
/// kind `Other`.
#[verifier::external_body]
pub(crate) fn other_io_error(e: bincode::Error) -> std::io::Error {
    std::io::Error::new(std::io::ErrorKind::Other, e)
}

} // verus!
