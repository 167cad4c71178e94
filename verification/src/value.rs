//! The dynamic value type: the common currency between execution backends
//! and the column materializer.
//!
//! Floating-point numbers cannot be reasoned about here, so a float is
//! carried fully decomposed: its IEEE-754 bit pattern, its decimal rendering,
//! and its truncation to a 64-bit integer. All three are produced at the
//! trusted boundary that converts backend output; the routing and coercion
//! logic only ever moves these plain values around.

use vstd::prelude::*;
use vstd::string::StringExecFns;

verus! {

/// A 64-bit float, decomposed into the plain values the pipeline reads of it:
/// the IEEE-754 bit pattern (handed through to numeric host columns), the
/// decimal text (used when the value is materialized as text), and the
/// truncation toward zero (used when the value is materialized as an
/// integer, saturating at the `i64` range as the `as` cast does).
#[derive(Clone, Debug, PartialEq)]
pub struct FloatValue {
    pub bits: u64,
    pub text: String,
    pub trunc: i64,
}

/// Normalized output value of any execution backend.
#[derive(Clone, Debug, PartialEq)]
pub enum DynamicValue {
    String(String),
    Float(FloatValue),
    Integer(i64),
    Boolean(bool),
    Null,
}

/// Mathematical model of a `DynamicValue`.
pub enum ValueModel {
    Text(Seq<char>),
    Float { bits: u64, text: Seq<char>, trunc: i64 },
    Int(i64),
    Bool(bool),
    Null,
}

impl View for FloatValue {
    type V = ValueModel;

    open spec fn view(&self) -> ValueModel {
        ValueModel::Float { bits: self.bits, text: self.text@, trunc: self.trunc }
    }
}

impl View for DynamicValue {
    type V = ValueModel;

    open spec fn view(&self) -> ValueModel {
        match self {
            DynamicValue::String(s) => ValueModel::Text(s@),
            DynamicValue::Float(f) => f@,
            DynamicValue::Integer(i) => ValueModel::Int(*i),
            DynamicValue::Boolean(b) => ValueModel::Bool(*b),
            DynamicValue::Null => ValueModel::Null,
        }
    }
}

/// The character for one decimal digit.
pub open spec fn digit_char(d: int) -> char {
    if d == 0 { '0' }
    else if d == 1 { '1' }
    else if d == 2 { '2' }
    else if d == 3 { '3' }
    else if d == 4 { '4' }
    else if d == 5 { '5' }
    else if d == 6 { '6' }
    else if d == 7 { '7' }
    else if d == 8 { '8' }
    else { '9' }
}

/// The decimal text of a natural number, most significant digit first.
pub open spec fn dec_text(n: nat) -> Seq<char>
    decreases n,
{
    if n < 10 {
        seq![digit_char(n as int)]
    } else {
        dec_text(n / 10).push(digit_char((n % 10) as int))
    }
}

/// The decimal text of an integer, with a leading minus sign if negative.
pub open spec fn int_text(i: int) -> Seq<char> {
    if i >= 0 {
        dec_text(i as nat)
    } else {
        seq!['-'] + dec_text((-i) as nat)
    }
}

/// The text of a boolean, as the standard library renders it.
pub open spec fn bool_text(b: bool) -> Seq<char> {
    if b { "true"@ } else { "false"@ }
}

/// The universal stringification rule: the text any value falls back to when
/// it is materialized into a textual column.
pub open spec fn value_text(v: ValueModel) -> Seq<char> {
    match v {
        ValueModel::Text(s) => s,
        ValueModel::Float { text, .. } => text,
        ValueModel::Int(i) => int_text(i as int),
        ValueModel::Bool(b) => bool_text(b),
        ValueModel::Null => Seq::<char>::empty(),
    }
}

/// One decimal digit as a string slice.
fn digit_str(d: u64) -> (r: &'static str)
    requires
        d < 10,
    ensures
        r@ =~= seq![digit_char(d as int)],
{
    proof {
        reveal_strlit("0");
        reveal_strlit("1");
        reveal_strlit("2");
        reveal_strlit("3");
        reveal_strlit("4");
        reveal_strlit("5");
        reveal_strlit("6");
        reveal_strlit("7");
        reveal_strlit("8");
        reveal_strlit("9");
    }
    match d {
        0 => "0",
        1 => "1",
        2 => "2",
        3 => "3",
        4 => "4",
        5 => "5",
        6 => "6",
        7 => "7",
        8 => "8",
        _ => "9",
    }
}

/// Decimal rendering of an unsigned 64-bit number.
pub fn u64_text(n: u64) -> (r: String)
    ensures
        r@ == dec_text(n as nat),
    decreases n,
{
    if n < 10 {
        digit_str(n).to_owned()
    } else {
        let mut s = u64_text(n / 10);
        s.append(digit_str(n % 10));
        proof {
            assert(s@ =~= dec_text((n / 10) as nat).push(digit_char((n % 10) as int)));
        }
        s
    }
}

/// Decimal rendering of a signed 64-bit integer, as the standard library
/// renders it.
pub fn integer_text(i: i64) -> (r: String)
    ensures
        r@ == int_text(i as int),
{
    if i >= 0 {
        u64_text(i as u64)
    } else {
        let m: u64 = ((-(i + 1)) as u64) + 1;
        proof {
            reveal_strlit("-");
            assert(m as int == -(i as int));
        }
        let mut s = "-".to_owned();
        let digits = u64_text(m);
        s.append(digits.as_str());
        proof {
            assert(s@ =~= seq!['-'] + dec_text((-(i as int)) as nat));
        }
        s
    }
}

/// Applies the universal stringification rule.
pub fn value_to_text(v: &DynamicValue) -> (r: String)
    ensures
        r@ == value_text(v@),
{
    match v {
        DynamicValue::String(s) => s.clone(),
        DynamicValue::Float(f) => f.text.clone(),
        DynamicValue::Integer(i) => integer_text(*i),
        DynamicValue::Boolean(b) => if *b {
            "true".to_owned()
        } else {
            "false".to_owned()
        },
        DynamicValue::Null => String::new(),
    }
}

} // verus!
