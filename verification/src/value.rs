//! The tagged runtime value of the bytecode machine.
use vstd::prelude::*;

use crate::float_bits::{float_eq, float_eq_bits, float_is_zero, float_text, float_text_of,
    is_zero_bits};
use crate::text::{int_str, push_i64_text};
use vstd::string::StringExecFns;

verus! {

/// A runtime value: a closed tagged union.  Floating-point values are
/// carried as the bit pattern of an IEEE-754 double.
#[derive(Debug, Clone, PartialEq)]
pub enum Value {
    Null,
    Boolean(bool),
    Integer(i64),
    Float(u64),
    Str(String),
}

/// The mathematical model of a value: the same tags, with a string carried
/// as its character sequence.
pub ghost enum ValueModel {
    Null,
    Boolean(bool),
    Integer(i64),
    Float(u64),
    Str(Seq<char>),
}

impl View for Value {
    type V = ValueModel;

    open spec fn view(&self) -> ValueModel {
        match self {
            Value::Null => ValueModel::Null,
            Value::Boolean(b) => ValueModel::Boolean(*b),
            Value::Integer(i) => ValueModel::Integer(*i),
            Value::Float(b) => ValueModel::Float(*b),
            Value::Str(s) => ValueModel::Str(s@),
        }
    }
}

/// Truthiness: `Null` is false, a boolean is itself, numbers are true when
/// non-zero, strings are true when non-empty.
pub open spec fn truthy(v: ValueModel) -> bool {
    match v {
        ValueModel::Null => false,
        ValueModel::Boolean(b) => b,
        ValueModel::Integer(i) => i != 0,
        ValueModel::Float(b) => !is_zero_bits(b),
        ValueModel::Str(s) => s.len() != 0,
    }
}

/// Structural equality per variant, with no cross-variant equality;
/// two floats compare by IEEE-754 equality.
pub open spec fn eq_value(a: ValueModel, b: ValueModel) -> bool {
    match (a, b) {
        (ValueModel::Null, ValueModel::Null) => true,
        (ValueModel::Boolean(x), ValueModel::Boolean(y)) => x == y,
        (ValueModel::Integer(x), ValueModel::Integer(y)) => x == y,
        (ValueModel::Float(x), ValueModel::Float(y)) => float_eq_bits(x, y),
        (ValueModel::Str(x), ValueModel::Str(y)) => x == y,
        _ => false,
    }
}

/// The printed form of a value: `null`, `true`/`false`, decimal integers,
/// the decimal rendering of a float, and a string's own characters.
pub open spec fn text_of(v: ValueModel) -> Seq<char> {
    match v {
        ValueModel::Null => seq!['n', 'u', 'l', 'l'],
        ValueModel::Boolean(b) => if b {
            seq!['t', 'r', 'u', 'e']
        } else {
            seq!['f', 'a', 'l', 's', 'e']
        },
        ValueModel::Integer(i) => int_str(i as int),
        ValueModel::Float(b) => float_text_of(b),
        ValueModel::Str(s) => s,
    }
}

impl Value {
    /// Whether the value counts as true in a logical operator.
    pub fn is_truthy(&self) -> (r: bool)
        ensures
            r == truthy(self@),
    {
        match self {
            Value::Null => false,
            Value::Boolean(b) => *b,
            Value::Integer(i) => *i != 0,
            Value::Float(b) => !float_is_zero(*b),
            Value::Str(s) => !s.as_str().is_empty(),
        }
    }
}

/// Structural equality of two values, IEEE-754 equality on floats.
pub fn values_equal(a: &Value, b: &Value) -> (r: bool)
    ensures
        r == eq_value(a@, b@),
{
    match (a, b) {
        (Value::Null, Value::Null) => true,
        (Value::Boolean(x), Value::Boolean(y)) => *x == *y,
        (Value::Integer(x), Value::Integer(y)) => *x == *y,
        (Value::Float(x), Value::Float(y)) => float_eq(*x, *y),
        (Value::Str(x), Value::Str(y)) => *x == *y,
        _ => false,
    }
}

/// Appends the printed form of a value to `s`.
pub fn push_value_text(s: &mut String, v: &Value)
    ensures
        final(s)@ == old(s)@ + text_of(v@),
{
    match v {
        Value::Null => {
            s.append("null");
            proof {
                reveal_strlit("null");
                assert(old(s)@ + "null"@ =~= old(s)@ + text_of(v@));
            }
        },
        Value::Boolean(b) => {
            if *b {
                s.append("true");
                proof {
                    reveal_strlit("true");
                    assert(old(s)@ + "true"@ =~= old(s)@ + text_of(v@));
                }
            } else {
                s.append("false");
                proof {
                    reveal_strlit("false");
                    assert(old(s)@ + "false"@ =~= old(s)@ + text_of(v@));
                }
            }
        },
        Value::Integer(i) => {
            push_i64_text(s, *i);
        },
        Value::Float(b) => {
            let t = float_text(*b);
            s.append(t.as_str());
        },
        Value::Str(st) => {
            s.append(st.as_str());
        },
    }
}

/// The printed form of a value as a fresh string.
pub fn value_text(v: &Value) -> (s: String)
    ensures
        s@ == text_of(v@),
{
    let mut s = String::new();
    push_value_text(&mut s, v);
    proof {
        assert(Seq::<char>::empty() + text_of(v@) =~= text_of(v@));
    }
    s
}

/// A copy of a value equal to the original.
pub fn clone_value(v: &Value) -> (r: Value)
    ensures
        r == *v,
{
    match v {
        Value::Null => Value::Null,
        Value::Boolean(b) => Value::Boolean(*b),
        Value::Integer(i) => Value::Integer(*i),
        Value::Float(b) => Value::Float(*b),
        Value::Str(s) => Value::Str(s.clone()),
    }
}

} // verus!
