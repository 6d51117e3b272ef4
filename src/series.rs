//! Named, typed columns of values.

use vstd::prelude::*;

use crate::datatypes::DataType;
use crate::scalar::{LiteralValue, LiteralView};

verus! {

/// The values of a column, one vector per logical type.
/// A null column holds only its length; a `Float64` column holds bit patterns.
#[derive(Debug, Clone, PartialEq)]
pub enum ColumnData {
    Null(usize),
    Boolean(Vec<bool>),
    Utf8(Vec<String>),
    Int32(Vec<i32>),
    UInt32(Vec<u32>),
    Int64(Vec<i64>),
    UInt64(Vec<u64>),
    Float64(Vec<u64>),
}

/// The mathematical value of a column: its name, its type and its values in order.
#[verifier::ext_equal]
pub struct SeriesView {
    pub name: Seq<char>,
    pub dtype: DataType,
    pub values: Seq<LiteralView>,
}

/// The name of the column that holds an anonymous literal: `lit`.
pub open spec fn literal_column_name() -> Seq<char> {
    seq!['l', 'i', 't']
}

/// The one-row column of a literal: named `lit`, of the literal's logical
/// type, holding the literal and nothing else.
pub open spec fn literal_column(v: LiteralView) -> SeriesView {
    SeriesView { name: literal_column_name(), dtype: v.data_type(), values: seq![v] }
}

impl ColumnData {
    pub open spec fn data_type_spec(&self) -> DataType {
        match self {
            ColumnData::Null(_) => DataType::Null,
            ColumnData::Boolean(_) => DataType::Boolean,
            ColumnData::Utf8(_) => DataType::Utf8,
            ColumnData::Int32(_) => DataType::Int32,
            ColumnData::UInt32(_) => DataType::UInt32,
            ColumnData::Int64(_) => DataType::Int64,
            ColumnData::UInt64(_) => DataType::UInt64,
            ColumnData::Float64(_) => DataType::Float64,
        }
    }

    pub open spec fn values_spec(&self) -> Seq<LiteralView> {
        match self {
            ColumnData::Null(n) => Seq::new(*n as nat, |i: int| LiteralView::Null),
            ColumnData::Boolean(v) => v@.map_values(|x: bool| LiteralView::Boolean(x)),
            ColumnData::Utf8(v) => v@.map_values(|x: String| LiteralView::Utf8(x@)),
            ColumnData::Int32(v) => v@.map_values(|x: i32| LiteralView::Int32(x)),
            ColumnData::UInt32(v) => v@.map_values(|x: u32| LiteralView::UInt32(x)),
            ColumnData::Int64(v) => v@.map_values(|x: i64| LiteralView::Int64(x)),
            ColumnData::UInt64(v) => v@.map_values(|x: u64| LiteralView::UInt64(x)),
            ColumnData::Float64(v) => v@.map_values(|x: u64| LiteralView::Float64(x)),
        }
    }
}

/// A named column of values of one logical type.
#[derive(Debug, Clone, PartialEq)]
pub struct Series {
    name: String,
    data: ColumnData,
}

impl View for Series {
    type V = SeriesView;

    closed spec fn view(&self) -> SeriesView {
        SeriesView {
            name: self.name@,
            dtype: self.data.data_type_spec(),
            values: self.data.values_spec(),
        }
    }
}

impl Series {
    /// A column with the given name and values.
    pub fn new(name: String, data: ColumnData) -> (r: Series)
        ensures
            r@.name == name@,
            r@.dtype == data.data_type_spec(),
            r@.values == data.values_spec(),
    {
        Series { name, data }
    }

    /// The name of the column.
    pub fn name(&self) -> (r: &str)
        ensures
            r@ == self@.name,
    {
        self.name.as_str()
    }

    /// The logical type of the column.
    pub fn data_type(&self) -> (r: DataType)
        ensures
            r == self@.dtype,
    {
        match &self.data {
            ColumnData::Null(_) => DataType::Null,
            ColumnData::Boolean(_) => DataType::Boolean,
            ColumnData::Utf8(_) => DataType::Utf8,
            ColumnData::Int32(_) => DataType::Int32,
            ColumnData::UInt32(_) => DataType::UInt32,
            ColumnData::Int64(_) => DataType::Int64,
            ColumnData::UInt64(_) => DataType::UInt64,
            ColumnData::Float64(_) => DataType::Float64,
        }
    }

    /// The number of values in the column.
    pub fn len(&self) -> (r: usize)
        ensures
            r == self@.values.len(),
    {
        match &self.data {
            ColumnData::Null(n) => *n,
            ColumnData::Boolean(v) => v.len(),
            ColumnData::Utf8(v) => v.len(),
            ColumnData::Int32(v) => v.len(),
            ColumnData::UInt32(v) => v.len(),
            ColumnData::Int64(v) => v.len(),
            ColumnData::UInt64(v) => v.len(),
            ColumnData::Float64(v) => v.len(),
        }
    }

    /// The value at position `i`, or `None` past the end.
    pub fn get(&self, i: usize) -> (r: Option<LiteralValue>)
        ensures
            r is None <==> i >= self@.values.len(),
            r matches Some(v) ==> v@ == self@.values[i as int],
    {
        match &self.data {
            ColumnData::Null(n) => {
                if i < *n { Some(LiteralValue::Null) } else { None }
            },
            ColumnData::Boolean(v) => {
                if i < v.len() { Some(LiteralValue::Boolean(v[i])) } else { None }
            },
            ColumnData::Utf8(v) => {
                if i < v.len() { Some(LiteralValue::Utf8(v[i].clone())) } else { None }
            },
            ColumnData::Int32(v) => {
                if i < v.len() { Some(LiteralValue::Int32(v[i])) } else { None }
            },
            ColumnData::UInt32(v) => {
                if i < v.len() { Some(LiteralValue::UInt32(v[i])) } else { None }
            },
            ColumnData::Int64(v) => {
                if i < v.len() { Some(LiteralValue::Int64(v[i])) } else { None }
            },
            ColumnData::UInt64(v) => {
                if i < v.len() { Some(LiteralValue::UInt64(v[i])) } else { None }
            },
            ColumnData::Float64(v) => {
                if i < v.len() { Some(LiteralValue::Float64(v[i])) } else { None }
            },
        }
    }
}

} // verus!
