//! Integers wide enough for every discriminant type.

use vstd::prelude::*;

verus! {

/// An integer between `-2^128` and `2^128 - 1`, which covers `i128` and `u128`.
///
/// `Negative(m)` stands for `-(m + 1)`, so every integer has one representation
/// and two values are equal exactly when their views are.
#[derive(Clone, Copy, Debug, PartialEq, Eq, Structural)]
pub enum Value {
    NonNegative(u128),
    Negative(u128),
}

impl View for Value {
    type V = int;

    open spec fn view(&self) -> int {
        match *self {
            Value::NonNegative(m) => m as int,
            Value::Negative(m) => -(m as int) - 1,
        }
    }
}

impl Value {
    /// The value of an unsigned integer.
    pub fn from_u128(v: u128) -> (r: Value)
        ensures
            r@ == v,
    {
        Value::NonNegative(v)
    }

    /// The value of a signed integer.
    pub fn from_i128(v: i128) -> (r: Value)
        ensures
            r@ == v,
    {
        if v >= 0 {
            Value::NonNegative(v as u128)
        } else {
            Value::Negative((-(v + 1)) as u128)
        }
    }

    /// The value as a `u128`, where it is one.
    pub fn to_u128(&self) -> (r: Option<u128>)
        ensures
            r == (if 0 <= self@ { Some(self@ as u128) } else { None }),
    {
        match *self {
            Value::NonNegative(m) => Some(m),
            Value::Negative(_) => None,
        }
    }

    /// The value as an `i128`, where it is one.
    pub fn to_i128(&self) -> (r: Option<i128>)
        ensures
            r == (if i128::MIN <= self@ <= i128::MAX { Some(self@ as i128) } else { None }),
    {
        match *self {
            Value::NonNegative(m) => if m <= i128::MAX as u128 {
                Some(m as i128)
            } else {
                None
            },
            Value::Negative(m) => if m <= i128::MAX as u128 {
                Some(-(m as i128) - 1)
            } else {
                None
            },
        }
    }

    /// Whether the value is below zero.
    pub fn is_negative(&self) -> (r: bool)
        ensures
            r == (self@ < 0),
    {
        match *self {
            Value::NonNegative(_) => false,
            Value::Negative(_) => true,
        }
    }

    /// Whether `self` is at most `other`.
    pub fn le(&self, other: &Value) -> (r: bool)
        ensures
            r == (self@ <= other@),
    {
        match (*self, *other) {
            (Value::NonNegative(a), Value::NonNegative(b)) => a <= b,
            (Value::NonNegative(_), Value::Negative(_)) => false,
            (Value::Negative(_), Value::NonNegative(_)) => true,
            (Value::Negative(a), Value::Negative(b)) => a >= b,
        }
    }
}

/// The integer that an optional value stands for, if there is one.
pub open spec fn option_view(v: Option<Value>) -> Option<int> {
    match v {
        Some(v) => Some(v@),
        None => None,
    }
}

/// Two values are the same value exactly when they stand for the same integer.
pub proof fn lemma_value_equal_iff_view_equal(a: Value, b: Value)
    ensures
        (a == b) <==> (a@ == b@),
{
}

} // verus!
