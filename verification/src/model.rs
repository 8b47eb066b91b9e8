use vstd::prelude::*;

verus! {

/// The tagged value carried between callers and either backend.
///
/// Every scalar variant is independently nullable: a SQL NULL is the
/// variant's own `None`, never a missing entry in a decoded record.
/// `Real` carries the IEEE-754 bit pattern of a 64-bit float; the library
/// never interprets the bits, it only moves them between the caller and
/// the backend. `Date` is a day number, `Time` seconds within a day, and
/// `Datetime` a Unix timestamp in seconds; the conversion from a backend's
/// native temporal type happens outside the library. `Array` and `Object`
/// are placeholders for composite values no backend supports yet: binding
/// one is reported as a bind fault, never attempted.
#[derive(Debug, Clone, PartialEq)]
pub enum ColType {
    Integer(Option<i64>),
    Real(Option<u64>),
    String(Option<String>),
    Bool(Option<bool>),
    Date(Option<i64>),
    Time(Option<i64>),
    Datetime(Option<i64>),
    Array,
    Object,
}

/// The decode dispatch targets: one entry per family of reported column
/// type names the decoder understands.
#[derive(Debug, Clone, Copy, PartialEq, Eq, Structural)]
pub enum ColKind {
    Text,
    Int,
    Real,
    Bool,
    Date,
    Time,
    Datetime,
}

/// Schema metadata for one table column, as introspection reports it:
/// ordinal position, name, declared type string, not-null flag, default
/// literal, and primary-key flag, in the backend's declaration order.
#[derive(Debug, Clone, PartialEq)]
pub struct ColInfo {
    pub cid: i64,
    pub name: String,
    pub ctype: String,
    pub notnull: bool,
    pub dflt_value: Option<String>,
    pub pk: bool,
}

/// One backend-native result cell, reduced to plain values: the reported
/// column name, the backend-reported native type name, and the raw value
/// in the shape the driver handed it over.
#[derive(Debug, Clone, PartialEq)]
pub struct RawCell {
    pub name: String,
    pub reported_type: String,
    pub value: RawValue,
}

/// The shapes a backend driver can hand a cell's payload in, before the
/// decoder tags it. Temporal values of every flavour arrive as one signed
/// count (days, seconds of day, or Unix seconds, per the reported type).
#[derive(Debug, Clone, PartialEq)]
pub enum RawValue {
    Int(Option<i64>),
    Real(Option<u64>),
    Text(Option<String>),
    Bool(Option<bool>),
    Temporal(Option<i64>),
}

/// Why a bind request was refused before anything was sent to a backend.
#[derive(Debug, Clone, PartialEq)]
pub enum BindFault {
    /// The statement's placeholder count differs from the argument count.
    Arity { placeholders: usize, supplied: usize },
    /// The argument at `position` is a variant the backend cannot bind.
    Unsupported { position: usize },
}

/// The error taxonomy of the abstraction layer. Every failure is returned
/// as a value of this type to the immediate caller; no operation aborts.
#[derive(Debug, Clone, PartialEq)]
pub enum DbError {
    /// The DSN was invalid, the host unreachable, or the backing file
    /// could not be created.
    Connection { code: String, message: String },
    /// The backend driver reported the statement as malformed or as
    /// violating a constraint.
    Query { message: String },
    /// The arguments could not be bound to the statement.
    Bind(BindFault),
    /// A result column's reported native type has no entry in the decode
    /// table, or its payload does not fit that entry.
    Parse { column: String, reported_type: String },
    /// A table-introspection query failed or returned an unexpected shape.
    Schema { message: String },
}

impl DbError {
    /// A short, fixed name for the error's kind, for display alongside
    /// the error's own details.
    pub fn kind_name(&self) -> (s: &'static str)
        ensures
            s@ == match self {
                DbError::Connection { .. } => "connection"@,
                DbError::Query { .. } => "query"@,
                DbError::Bind(_) => "bind"@,
                DbError::Parse { .. } => "parse"@,
                DbError::Schema { .. } => "schema"@,
            },
    {
        match self {
            DbError::Connection { .. } => "connection",
            DbError::Query { .. } => "query",
            DbError::Bind(_) => "bind",
            DbError::Parse { .. } => "parse",
            DbError::Schema { .. } => "schema",
        }
    }
}

} // verus!
