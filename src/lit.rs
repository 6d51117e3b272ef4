//! Turning host scalars into literal expression leaves.

use vstd::prelude::*;

use crate::scalar::{LiteralValue, LiteralView};

verus! {

/// An expression of the query language, as far as this library builds one:
/// a leaf that holds a literal value.
#[derive(Debug, Clone, PartialEq)]
pub enum Expr {
    Literal(LiteralValue),
}

impl Expr {
    /// The literal value that the leaf holds.
    pub open spec fn literal_spec(self) -> LiteralValue {
        match self {
            Expr::Literal(v) => v,
        }
    }

    /// The literal value that the leaf holds.
    pub fn as_literal(&self) -> (r: &LiteralValue)
        ensures
            *r == self.literal_spec(),
    {
        match self {
            Expr::Literal(v) => v,
        }
    }
}

/// A host scalar that can become a literal expression.
pub trait Literal: Sized {
    /// The literal value that the scalar becomes.
    spec fn literal_view(self) -> LiteralView;

    /// A literal leaf that holds this scalar.
    fn lit(self) -> (r: Expr)
        ensures
            r.literal_spec()@ == self.literal_view(),
    ;
}

impl Literal for String {
    open spec fn literal_view(self) -> LiteralView {
        LiteralView::Utf8(self@)
    }

    fn lit(self) -> (r: Expr) {
        Expr::Literal(LiteralValue::Utf8(self))
    }
}

impl<'a> Literal for &'a str {
    open spec fn literal_view(self) -> LiteralView {
        LiteralView::Utf8(self@)
    }

    fn lit(self) -> (r: Expr) {
        Expr::Literal(LiteralValue::Utf8(self.to_owned()))
    }
}

impl Literal for bool {
    open spec fn literal_view(self) -> LiteralView {
        LiteralView::Boolean(self)
    }

    fn lit(self) -> (r: Expr) {
        Expr::Literal(LiteralValue::Boolean(self))
    }
}

impl Literal for i32 {
    open spec fn literal_view(self) -> LiteralView {
        LiteralView::Int32(self)
    }

    fn lit(self) -> (r: Expr) {
        Expr::Literal(LiteralValue::Int32(self))
    }
}

impl Literal for u32 {
    open spec fn literal_view(self) -> LiteralView {
        LiteralView::UInt32(self)
    }

    fn lit(self) -> (r: Expr) {
        Expr::Literal(LiteralValue::UInt32(self))
    }
}

impl Literal for i64 {
    open spec fn literal_view(self) -> LiteralView {
        LiteralView::Int64(self)
    }

    fn lit(self) -> (r: Expr) {
        Expr::Literal(LiteralValue::Int64(self))
    }
}

impl Literal for u64 {
    open spec fn literal_view(self) -> LiteralView {
        LiteralView::UInt64(self)
    }

    fn lit(self) -> (r: Expr) {
        Expr::Literal(LiteralValue::UInt64(self))
    }
}

/// A literal leaf that holds `t`.
pub fn lit<L: Literal>(t: L) -> (r: Expr)
    ensures
        r.literal_spec()@ == t.literal_view(),
{
    t.lit()
}

/// A literal leaf that holds `Null`.
pub fn null_lit() -> (r: Expr)
    ensures
        r.literal_spec()@ == LiteralView::Null,
{
    Expr::Literal(LiteralValue::Null)
}

} // verus!
