//! Error kinds surfaced by the transaction handler and the state layer.

use vstd::prelude::*;

verus! {

/// View of an [`ApplyError`]: the kind together with the message text.
pub ghost enum ApplyErrorV {
    InvalidTransaction(Seq<char>),
    InternalError(Seq<char>),
}

/// Error returned by every fallible operation of the crate.
///
/// `InvalidTransaction` blames the transaction (missing fields, failed
/// authorization, duplicate or absent entities); `InternalError` blames the
/// environment (state corruption, a fault of the sandboxed module).  Both
/// abort the transaction; the caller decides about redelivery.
#[derive(Debug, Clone, PartialEq)]
pub enum ApplyError {
    InvalidTransaction(String),
    InternalError(String),
}

impl View for ApplyError {
    type V = ApplyErrorV;

    open spec fn view(&self) -> ApplyErrorV {
        match self {
            ApplyError::InvalidTransaction(m) => ApplyErrorV::InvalidTransaction(m@),
            ApplyError::InternalError(m) => ApplyErrorV::InternalError(m@),
        }
    }
}

impl ApplyError {
    /// The message carried by the error.
    pub fn message(&self) -> (r: &String)
        ensures
            self@ matches ApplyErrorV::InvalidTransaction(m) ==> r@ == m,
            self@ matches ApplyErrorV::InternalError(m) ==> r@ == m,
    {
        match self {
            ApplyError::InvalidTransaction(m) => m,
            ApplyError::InternalError(m) => m,
        }
    }

    /// True when the error blames the transaction rather than the environment.
    pub fn is_invalid_transaction(&self) -> (r: bool)
        ensures
            r == (self@ matches ApplyErrorV::InvalidTransaction(_)),
    {
        match self {
            ApplyError::InvalidTransaction(_) => true,
            ApplyError::InternalError(_) => false,
        }
    }
}

} // verus!
