use vstd::prelude::*;

verus! {

/// Relies on std::io::Error only as an opaque value that a failed read hands
/// on; nothing here looks inside it.
#[verifier::external_type_specification]
#[verifier::external_body]
pub struct ExIoError(std::io::Error);

/// Why an instruction could not be decoded.
#[derive(Debug)]
pub enum DecodeError {
    /// The opcode byte is not assigned in the active dialect.
    UnknownOpcode(u8),
    /// The byte source itself failed.
    IoError(std::io::Error),
    /// The byte source held fewer bytes than the instruction needs.
    InvalidBytesRead,
}

impl From<std::io::Error> for DecodeError {
    fn from(e: std::io::Error) -> (r: Self)
        ensures
            r == DecodeError::IoError(e),
    {
        DecodeError::IoError(e)
    }
}

impl vstd::std_specs::convert::FromSpecImpl<std::io::Error> for DecodeError {
    open spec fn obeys_from_spec() -> bool {
        true
    }

    open spec fn from_spec(v: std::io::Error) -> DecodeError {
        DecodeError::IoError(v)
    }
}

} // verus!
