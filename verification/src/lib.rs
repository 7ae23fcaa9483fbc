//! A client-side query-construction layer for a CQL database driver:
//! building executable statements (ad-hoc or derived from a prepared
//! template), binding typed values into parameter slots by position or by
//! name, introspecting prepared-statement parameter metadata, and managing
//! the lifecycle of the resource backing each statement.
//!
//! The native resource behind a statement is modelled as plain data: the
//! declared parameter slots, the per-slot bound values, the query options,
//! and a liveness flag that makes release idempotent.

pub mod error;
pub mod prepared;
pub mod statement;
pub mod value;

pub use error::CassError;
pub use prepared::{DataType, PreparedStatement, PreparedView};
pub use statement::{
    stmt, BindRustType, CassResult, Consistency, CustomPayload, ParameterAddress, RetryPolicy,
    Statement, StmtView, PAGING_DISABLED,
};
pub use value::{
    Inet, ListHandle, MapHandle, SetHandle, TupleHandle, TypedValue, UserTypeHandle, Uuid,
    ValueView,
};
