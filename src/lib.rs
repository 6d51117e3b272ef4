//! Literal values of a typed expression language: a closed set of scalar
//! kinds, their logical types, their one-row columns and the conversion of
//! host scalars into literal expression leaves.

pub mod datatypes;
pub mod decimal;
pub mod laws;
pub mod lit;
pub mod scalar;
pub mod series;

pub use datatypes::DataType;
pub use lit::{lit, null_lit, Expr, Literal};
pub use scalar::{LiteralValue, MaterializeError};
pub use series::{ColumnData, Series};
