//! The closed set of literal scalars, their logical types and their text.

use vstd::prelude::*;

use crate::datatypes::DataType;
use crate::decimal::{int_text, nat_text, push_signed, push_unsigned};
use crate::series::{literal_column, ColumnData, Series};

verus! {

/// A literal value of a query or a computation.
///
/// The set of kinds is closed: every consumer matches all of them.
/// A `Float64` holds the IEEE-754 bit pattern of its 64-bit float.
#[derive(Debug, Clone, PartialEq)]
pub enum LiteralValue {
    Null,
    /// A binary true or false.
    Boolean(bool),
    /// A UTF-8 encoded string.
    Utf8(String),
    /// A raw byte array.
    Binary(Vec<u8>),
    /// A 32-bit signed integer.
    Int32(i32),
    /// A 32-bit unsigned integer.
    UInt32(u32),
    /// A 64-bit signed integer.
    Int64(i64),
    /// A 64-bit unsigned integer.
    UInt64(u64),
    /// A 64-bit floating point number, by its bit pattern.
    Float64(u64),
}

/// The mathematical value of a `LiteralValue`: text as characters, bytes as a sequence.
pub enum LiteralView {
    Null,
    Boolean(bool),
    Utf8(Seq<char>),
    Binary(Seq<u8>),
    Int32(i32),
    UInt32(u32),
    Int64(i64),
    UInt64(u64),
    Float64(u64),
}

impl View for LiteralValue {
    type V = LiteralView;

    open spec fn view(&self) -> LiteralView {
        match self {
            LiteralValue::Null => LiteralView::Null,
            LiteralValue::Boolean(b) => LiteralView::Boolean(*b),
            LiteralValue::Utf8(s) => LiteralView::Utf8(s@),
            LiteralValue::Binary(b) => LiteralView::Binary(b@),
            LiteralValue::Int32(x) => LiteralView::Int32(*x),
            LiteralValue::UInt32(x) => LiteralView::UInt32(*x),
            LiteralValue::Int64(x) => LiteralView::Int64(*x),
            LiteralValue::UInt64(x) => LiteralView::UInt64(*x),
            LiteralValue::Float64(x) => LiteralView::Float64(*x),
        }
    }
}

/// The text `Null`.
pub open spec fn null_text() -> Seq<char> {
    seq!['N', 'u', 'l', 'l']
}

/// The text of a boolean: `true` or `false`.
pub open spec fn bool_text(b: bool) -> Seq<char> {
    if b {
        seq!['t', 'r', 'u', 'e']
    } else {
        seq!['f', 'a', 'l', 's', 'e']
    }
}

/// The summary of a byte array of `len` bytes: `Binary[<len>]`.
pub open spec fn binary_text(len: nat) -> Seq<char> {
    seq!['B', 'i', 'n', 'a', 'r', 'y', '['] + nat_text(len) + seq![']']
}

impl LiteralView {
    /// The logical type of each kind of value.
    pub open spec fn data_type(self) -> DataType {
        match self {
            LiteralView::Null => DataType::Null,
            LiteralView::Boolean(_) => DataType::Boolean,
            LiteralView::Utf8(_) => DataType::Utf8,
            LiteralView::Binary(_) => DataType::Binary,
            LiteralView::Int32(_) => DataType::Int32,
            LiteralView::UInt32(_) => DataType::UInt32,
            LiteralView::Int64(_) => DataType::Int64,
            LiteralView::UInt64(_) => DataType::UInt64,
            LiteralView::Float64(_) => DataType::Float64,
        }
    }

    /// The text of a value: text verbatim, a summary of bytes, integers in
    /// decimal. The text of a float is left to the float formatter.
    pub open spec fn text(self) -> Seq<char>
        recommends
            !(self is Float64),
    {
        match self {
            LiteralView::Null => null_text(),
            LiteralView::Boolean(b) => bool_text(b),
            LiteralView::Utf8(s) => s,
            LiteralView::Binary(b) => binary_text(b.len()),
            LiteralView::Int32(x) => int_text(x as int),
            LiteralView::UInt32(x) => nat_text(x as nat),
            LiteralView::Int64(x) => int_text(x as int),
            LiteralView::UInt64(x) => nat_text(x as nat),
            LiteralView::Float64(_) => Seq::empty(),
        }
    }
}

/// Why a literal has no column.
#[derive(Debug, Clone, Copy, PartialEq, Eq, Structural)]
pub enum MaterializeError {
    /// Byte arrays have no column kind.
    UnsupportedBinary,
}

impl LiteralValue {
    /// The logical type of this value.
    pub fn get_type(&self) -> (r: DataType)
        ensures
            r == self@.data_type(),
    {
        match self {
            LiteralValue::Null => DataType::Null,
            LiteralValue::Boolean(_) => DataType::Boolean,
            LiteralValue::Utf8(_) => DataType::Utf8,
            LiteralValue::Binary(_) => DataType::Binary,
            LiteralValue::Int32(_) => DataType::Int32,
            LiteralValue::UInt32(_) => DataType::UInt32,
            LiteralValue::Int64(_) => DataType::Int64,
            LiteralValue::UInt64(_) => DataType::UInt64,
            LiteralValue::Float64(_) => DataType::Float64,
        }
    }

    /// The text of this value; `None` for a `Float64`, whose decimal form
    /// only a float formatter can give.
    pub fn to_text(&self) -> (r: Option<String>)
        ensures
            r is None <==> self is Float64,
            r matches Some(t) ==> t@ == self@.text(),
    {
        let mut s = String::new();
        match self {
            LiteralValue::Null => {
                proof {
                    reveal_strlit("Null");
                }
                s.append("Null");
            },
            LiteralValue::Boolean(b) => {
                proof {
                    reveal_strlit("true");
                    reveal_strlit("false");
                }
                if *b {
                    s.append("true");
                } else {
                    s.append("false");
                }
            },
            LiteralValue::Utf8(t) => {
                s.append(t.as_str());
            },
            LiteralValue::Binary(bytes) => {
                proof {
                    reveal_strlit("Binary[");
                    reveal_strlit("]");
                }
                s.append("Binary[");
                push_unsigned(&mut s, bytes.len() as u64);
                s.append("]");
            },
            LiteralValue::Int32(x) => {
                push_signed(&mut s, *x as i64);
            },
            LiteralValue::UInt32(x) => {
                push_unsigned(&mut s, *x as u64);
            },
            LiteralValue::Int64(x) => {
                push_signed(&mut s, *x);
            },
            LiteralValue::UInt64(x) => {
                push_unsigned(&mut s, *x);
            },
            LiteralValue::Float64(_) => {
                return None;
            },
        }
        assert(s@ =~= self@.text());
        Some(s)
    }

    /// The one-row column named `lit` that holds this value.
    /// A byte array has no column kind and gives `UnsupportedBinary`.
    pub fn to_series(&self) -> (r: Result<Series, MaterializeError>)
        ensures
            r is Err <==> self is Binary,
            r matches Ok(s) ==> s@ == literal_column(self@),
            r matches Err(e) ==> e == MaterializeError::UnsupportedBinary,
    {
        proof {
            reveal_strlit("lit");
        }
        let name = String::from_str("lit");
        let data = match self {
            LiteralValue::Null => ColumnData::Null(1),
            LiteralValue::Boolean(x) => {
                let mut v = Vec::new();
                v.push(*x);
                ColumnData::Boolean(v)
            },
            LiteralValue::Utf8(x) => {
                let mut v = Vec::new();
                v.push(x.clone());
                ColumnData::Utf8(v)
            },
            LiteralValue::Binary(_) => {
                return Err(MaterializeError::UnsupportedBinary);
            },
            LiteralValue::Int32(x) => {
                let mut v = Vec::new();
                v.push(*x);
                ColumnData::Int32(v)
            },
            LiteralValue::UInt32(x) => {
                let mut v = Vec::new();
                v.push(*x);
                ColumnData::UInt32(v)
            },
            LiteralValue::Int64(x) => {
                let mut v = Vec::new();
                v.push(*x);
                ColumnData::Int64(v)
            },
            LiteralValue::UInt64(x) => {
                let mut v = Vec::new();
                v.push(*x);
                ColumnData::UInt64(v)
            },
            LiteralValue::Float64(x) => {
                let mut v = Vec::new();
                v.push(*x);
                ColumnData::Float64(v)
            },
        };
        assert(data.values_spec() =~= seq![self@]);
        let s = Series::new(name, data);
        assert(s@ =~= literal_column(self@));
        Ok(s)
    }
}

} // verus!
