use vstd::prelude::*;

verus! {

/// The logical type of a value or of a column.
#[derive(Debug, Clone, Copy, PartialEq, Eq, Structural)]
pub enum DataType {
    Null,
    Boolean,
    Utf8,
    Binary,
    Int32,
    UInt32,
    Int64,
    UInt64,
    Float64,
}

} // verus!
