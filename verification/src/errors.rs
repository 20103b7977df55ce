use vstd::prelude::*;

verus! {

/// Every failure the library reports falls under one of these kinds.  All but
/// `InstructionConstructionFailure` fault the request itself; that last kind
/// marks an instruction encoder rejecting input that looked well-formed.
#[derive(Clone, Copy, Debug, PartialEq, Eq)]
pub enum ErrorKind {
    InvalidEncoding,
    InvalidKeyMaterial,
    InvalidSignatureLength,
    MissingField,
    ZeroAmount,
    InstructionConstructionFailure,
}

/// An error handed back to the caller: a kind for dispatch and a
/// human-readable message.
#[derive(Debug)]
pub struct ApiError {
    pub kind: ErrorKind,
    pub message: String,
}

impl ApiError {
    pub fn new(kind: ErrorKind, message: String) -> (r: Self)
        ensures
            r.kind == kind,
            r.message@ == message@,
    {
        ApiError { kind, message }
    }

    /// Whether the fault lies with the request (a client error) rather than
    /// with instruction construction itself.
    pub fn is_client_error(&self) -> (r: bool)
        ensures
            r == !(self.kind is InstructionConstructionFailure),
    {
        !matches!(self.kind, ErrorKind::InstructionConstructionFailure)
    }
}

} // verus!
