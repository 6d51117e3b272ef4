use literal_expr::{lit, null_lit, ColumnData, DataType, Expr, LiteralValue, MaterializeError, Series};

fn text(v: &LiteralValue) -> String {
    v.to_text().expect("a value that is not a float has a text")
}

#[test]
fn bool_literal_scenario() {
    let e = lit(true);
    assert_eq!(e, Expr::Literal(LiteralValue::Boolean(true)));
    let v = e.as_literal();
    assert_eq!(v.get_type(), DataType::Boolean);
    assert_eq!(text(v), "true");
}

#[test]
fn str_literal_scenario() {
    let e = lit("hi");
    assert_eq!(e, Expr::Literal(LiteralValue::Utf8("hi".to_string())));
    let s = e.as_literal().to_series().unwrap();
    assert_eq!(s.len(), 1);
    assert_eq!(s.name(), "lit");
    assert_eq!(s.data_type(), DataType::Utf8);
    assert_eq!(s.get(0), Some(LiteralValue::Utf8("hi".to_string())));
    assert_eq!(s, Series::new("lit".to_string(), ColumnData::Utf8(vec!["hi".to_string()])));
}

#[test]
fn i64_literal_scenario() {
    let e = lit(7i64);
    assert_eq!(e, Expr::Literal(LiteralValue::Int64(7)));
    assert_eq!(text(e.as_literal()), "7");
}

#[test]
fn null_literal_scenario() {
    let e = null_lit();
    assert_eq!(e, Expr::Literal(LiteralValue::Null));
    let v = e.as_literal();
    assert_eq!(v.get_type(), DataType::Null);
    assert_eq!(text(v), "Null");
    let s = v.to_series().unwrap();
    assert_eq!(s.len(), 1);
    assert_eq!(s.data_type(), DataType::Null);
    assert_eq!(s.get(0), Some(LiteralValue::Null));
    assert_eq!(s.get(1), None);
}

#[test]
fn binary_has_no_column() {
    let v = LiteralValue::Binary(vec![1, 2, 3]);
    assert_eq!(v.to_series(), Err(MaterializeError::UnsupportedBinary));
    assert_eq!(v.get_type(), DataType::Binary);
}

#[test]
fn binary_text_is_a_summary() {
    assert_eq!(text(&LiteralValue::Binary(vec![0, 255, 10])), "Binary[3]");
    assert_eq!(text(&LiteralValue::Binary(vec![])), "Binary[0]");
    assert_eq!(text(&LiteralValue::Binary(vec![7; 1234])), "Binary[1234]");
}

#[test]
fn text_of_each_kind() {
    assert_eq!(text(&LiteralValue::Boolean(false)), "false");
    assert_eq!(text(&LiteralValue::Utf8(String::new())), "");
    assert_eq!(text(&LiteralValue::Utf8("a \"q\" é".to_string())), "a \"q\" é");
    assert_eq!(text(&LiteralValue::Int32(-42)), "-42");
    assert_eq!(text(&LiteralValue::Int32(0)), "0");
    assert_eq!(text(&LiteralValue::UInt32(4_000_000_000)), "4000000000");
    assert_eq!(text(&LiteralValue::Int64(-1)), "-1");
    assert_eq!(text(&LiteralValue::UInt64(10)), "10");
}

#[test]
fn text_of_extreme_integers() {
    assert_eq!(text(&LiteralValue::Int32(i32::MIN)), i32::MIN.to_string());
    assert_eq!(text(&LiteralValue::Int32(i32::MAX)), i32::MAX.to_string());
    assert_eq!(text(&LiteralValue::UInt32(u32::MAX)), u32::MAX.to_string());
    assert_eq!(text(&LiteralValue::Int64(i64::MIN)), "-9223372036854775808");
    assert_eq!(text(&LiteralValue::Int64(i64::MAX)), "9223372036854775807");
    assert_eq!(text(&LiteralValue::UInt64(u64::MAX)), "18446744073709551615");
}

#[test]
fn float_text_is_left_to_the_formatter() {
    assert_eq!(LiteralValue::Float64(1.5f64.to_bits()).to_text(), None);
}

#[test]
fn text_is_deterministic() {
    let a = LiteralValue::Utf8("same".to_string());
    let b = a.clone();
    assert_eq!(a.to_text(), b.to_text());
    assert_eq!(a.to_text(), a.to_text());
}

#[test]
fn type_of_each_kind() {
    assert_eq!(LiteralValue::Utf8("x".to_string()).get_type(), DataType::Utf8);
    assert_eq!(LiteralValue::Int32(1).get_type(), DataType::Int32);
    assert_eq!(LiteralValue::UInt32(1).get_type(), DataType::UInt32);
    assert_eq!(LiteralValue::Int64(1).get_type(), DataType::Int64);
    assert_eq!(LiteralValue::UInt64(1).get_type(), DataType::UInt64);
    assert_eq!(LiteralValue::Float64(0).get_type(), DataType::Float64);
}

#[test]
fn column_reads_back_each_kind() {
    let values = vec![
        LiteralValue::Null,
        LiteralValue::Boolean(false),
        LiteralValue::Utf8("text".to_string()),
        LiteralValue::Int32(-5),
        LiteralValue::UInt32(5),
        LiteralValue::Int64(i64::MIN),
        LiteralValue::UInt64(u64::MAX),
        LiteralValue::Float64(2.25f64.to_bits()),
    ];
    for v in values {
        let s = v.to_series().unwrap();
        assert_eq!(s.name(), "lit");
        assert_eq!(s.len(), 1);
        assert_eq!(s.data_type(), v.get_type());
        assert_eq!(s.get(0), Some(v.clone()));
        assert_eq!(s.get(1), None);
    }
}

#[test]
fn float_column_holds_the_bits() {
    let s = LiteralValue::Float64((-0.5f64).to_bits()).to_series().unwrap();
    assert_eq!(s, Series::new("lit".to_string(), ColumnData::Float64(vec![(-0.5f64).to_bits()])));
}

#[test]
fn lit_round_trips_each_host_type() {
    assert_eq!(*lit(String::from("owned")).as_literal(), LiteralValue::Utf8("owned".to_string()));
    assert_eq!(*lit("").as_literal(), LiteralValue::Utf8(String::new()));
    assert_eq!(*lit(false).as_literal(), LiteralValue::Boolean(false));
    assert_eq!(*lit(-3i32).as_literal(), LiteralValue::Int32(-3));
    assert_eq!(*lit(3u32).as_literal(), LiteralValue::UInt32(3));
    assert_eq!(*lit(i64::MAX).as_literal(), LiteralValue::Int64(i64::MAX));
    assert_eq!(*lit(u64::MAX).as_literal(), LiteralValue::UInt64(u64::MAX));
}

#[test]
fn series_new_and_getters() {
    let s = Series::new("c".to_string(), ColumnData::Int32(vec![1, 2, 3]));
    assert_eq!(s.name(), "c");
    assert_eq!(s.len(), 3);
    assert_eq!(s.data_type(), DataType::Int32);
    assert_eq!(s.get(2), Some(LiteralValue::Int32(3)));
    assert_eq!(s.get(3), None);
    let n = Series::new("n".to_string(), ColumnData::Null(4));
    assert_eq!(n.len(), 4);
    assert_eq!(n.get(3), Some(LiteralValue::Null));
    assert_eq!(n.get(4), None);
}

#[test]
fn decimal_text_appends() {
    let mut s = String::from("n=");
    literal_expr::decimal::push_unsigned(&mut s, 907);
    assert_eq!(s, "n=907");
    let mut t = String::new();
    literal_expr::decimal::push_signed(&mut t, -100);
    assert_eq!(t, "-100");
}
