use vstd::prelude::*;

verus! {

/// The ways an operation of this layer can fail.
///
/// Every fallible operation reports its failure synchronously through this
/// type; nothing is logged or swallowed internally.
#[derive(Clone, Copy, Debug, PartialEq, Eq, Structural)]
pub enum CassError {
    /// A query string, keyspace name, or parameter name cannot be
    /// represented in the resource layer's text encoding (it contains an
    /// embedded terminator).
    InvalidText,
    /// A position-addressed operation named a slot at or past the declared
    /// parameter count.
    IndexOutOfRange,
    /// A name-addressed operation named a parameter the statement does not
    /// have; ad-hoc statements carry no name metadata, so name-addressed
    /// binds on them always fail this way.
    NameNotFound,
    /// A bound value cannot be represented in the wire form required by its
    /// slot.
    ValueEncoding,
    /// The operation reached a handle that was already released.
    Released,
}

/// Folds an optional failure into the result every fallible statement
/// operation returns.
pub open spec fn to_result(e: Option<CassError>) -> Result<(), CassError> {
    match e {
        None => Ok(()),
        Some(err) => Err(err),
    }
}

} // verus!
