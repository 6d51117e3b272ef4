//! Laws that relate the operations of the library.

use vstd::prelude::*;

use crate::datatypes::DataType;
use crate::lit::{Expr, Literal};
use crate::scalar::{LiteralValue, LiteralView};
use crate::series::literal_column;

verus! {

/// For every value but a byte array, its column holds exactly one value,
/// reading that value back gives the literal again, and the column's type is
/// the literal's logical type.
pub proof fn lemma_column_reads_back(v: LiteralValue)
    requires
        !(v is Binary),
    ensures
        literal_column(v@).values.len() == 1,
        literal_column(v@).values[0] == v@,
        literal_column(v@).dtype == v@.data_type(),
{
}

/// Equal values have equal text.
pub proof fn lemma_text_deterministic(a: LiteralValue, b: LiteralValue)
    requires
        a@ == b@,
    ensures
        a@.text() == b@.text(),
{
}

/// Every host scalar, made a literal, is held unchanged in the kind that matches its type.
pub proof fn lemma_lit_round_trip(s: String, t: &str, b: bool, i: i32, u: u32, l: i64, w: u64)
    ensures
        s.literal_view() matches LiteralView::Utf8(x) && x == s@,
        t.literal_view() matches LiteralView::Utf8(x) && x == t@,
        b.literal_view() matches LiteralView::Boolean(x) && x == b,
        i.literal_view() matches LiteralView::Int32(x) && x == i,
        u.literal_view() matches LiteralView::UInt32(x) && x == u,
        l.literal_view() matches LiteralView::Int64(x) && x == l,
        w.literal_view() matches LiteralView::UInt64(x) && x == w,
{
}

/// A leaf that holds the null literal, as `null_lit` gives, is of the null
/// type and reads `Null`.
pub proof fn lemma_null_literal(e: Expr)
    requires
        e.literal_spec()@ == LiteralView::Null,
    ensures
        e.literal_spec()@.data_type() == DataType::Null,
        e.literal_spec()@.text() == "Null"@,
{
    reveal_strlit("Null");
    assert(LiteralView::Null.text() =~= "Null"@);
}

} // verus!
