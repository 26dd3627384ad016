//! The integer types that can store a discriminant.

use crate::value::option_view;
use crate::value::Value;
use vstd::prelude::*;
use vstd::string::StringExecFns;

verus! {

/// The integer type chosen to store an enum's discriminant.
#[derive(Clone, Copy, Debug, PartialEq, Eq, Structural)]
pub enum ReprType {
    U8,
    U16,
    U32,
    U64,
    U128,
    Usize,
    I8,
    I16,
    I32,
    I64,
    I128,
    Isize,
}

impl ReprType {
    /// The type's name as it is written in source.
    pub open spec fn name_text(self) -> Seq<char> {
        match self {
            ReprType::U8 => "u8"@,
            ReprType::U16 => "u16"@,
            ReprType::U32 => "u32"@,
            ReprType::U64 => "u64"@,
            ReprType::U128 => "u128"@,
            ReprType::Usize => "usize"@,
            ReprType::I8 => "i8"@,
            ReprType::I16 => "i16"@,
            ReprType::I32 => "i32"@,
            ReprType::I64 => "i64"@,
            ReprType::I128 => "i128"@,
            ReprType::Isize => "isize"@,
        }
    }

    /// The type that `text` names, if it names one.
    pub open spec fn named(text: Seq<char>) -> Option<ReprType> {
        if text == "u8"@ {
            Some(ReprType::U8)
        } else if text == "u16"@ {
            Some(ReprType::U16)
        } else if text == "u32"@ {
            Some(ReprType::U32)
        } else if text == "u64"@ {
            Some(ReprType::U64)
        } else if text == "u128"@ {
            Some(ReprType::U128)
        } else if text == "usize"@ {
            Some(ReprType::Usize)
        } else if text == "i8"@ {
            Some(ReprType::I8)
        } else if text == "i16"@ {
            Some(ReprType::I16)
        } else if text == "i32"@ {
            Some(ReprType::I32)
        } else if text == "i64"@ {
            Some(ReprType::I64)
        } else if text == "i128"@ {
            Some(ReprType::I128)
        } else if text == "isize"@ {
            Some(ReprType::Isize)
        } else {
            None
        }
    }

    /// Whether the type has negative values.
    pub open spec fn signed(self) -> bool {
        match self {
            ReprType::I8
            | ReprType::I16
            | ReprType::I32
            | ReprType::I64
            | ReprType::I128
            | ReprType::Isize => true,
            _ => false,
        }
    }

    /// The least integer of the type.
    pub open spec fn min_int(self) -> int {
        match self {
            ReprType::I8 => i8::MIN as int,
            ReprType::I16 => i16::MIN as int,
            ReprType::I32 => i32::MIN as int,
            ReprType::I64 => i64::MIN as int,
            ReprType::I128 => i128::MIN as int,
            ReprType::Isize => isize::MIN as int,
            _ => 0,
        }
    }

    /// The greatest integer of the type.
    pub open spec fn max_int(self) -> int {
        match self {
            ReprType::U8 => u8::MAX as int,
            ReprType::U16 => u16::MAX as int,
            ReprType::U32 => u32::MAX as int,
            ReprType::U64 => u64::MAX as int,
            ReprType::U128 => u128::MAX as int,
            ReprType::Usize => usize::MAX as int,
            ReprType::I8 => i8::MAX as int,
            ReprType::I16 => i16::MAX as int,
            ReprType::I32 => i32::MAX as int,
            ReprType::I64 => i64::MAX as int,
            ReprType::I128 => i128::MAX as int,
            ReprType::Isize => isize::MAX as int,
        }
    }

    /// Whether the integer `v` is a value of the type.
    pub open spec fn holds(self, v: int) -> bool {
        self.min_int() <= v <= self.max_int()
    }

    /// The type's name as it is written in source.
    pub fn name(&self) -> (r: &'static str)
        ensures
            r@ == self.name_text(),
    {
        match self {
            ReprType::U8 => "u8",
            ReprType::U16 => "u16",
            ReprType::U32 => "u32",
            ReprType::U64 => "u64",
            ReprType::U128 => "u128",
            ReprType::Usize => "usize",
            ReprType::I8 => "i8",
            ReprType::I16 => "i16",
            ReprType::I32 => "i32",
            ReprType::I64 => "i64",
            ReprType::I128 => "i128",
            ReprType::Isize => "isize",
        }
    }

    /// The type that `name` names: one of the twelve names, spelled exactly.
    pub fn from_name(name: &str) -> (r: Option<ReprType>)
        ensures
            r == Self::named(name@),
    {
        let name = String::from_str(name);
        if name == String::from_str("u8") {
            Some(ReprType::U8)
        } else if name == String::from_str("u16") {
            Some(ReprType::U16)
        } else if name == String::from_str("u32") {
            Some(ReprType::U32)
        } else if name == String::from_str("u64") {
            Some(ReprType::U64)
        } else if name == String::from_str("u128") {
            Some(ReprType::U128)
        } else if name == String::from_str("usize") {
            Some(ReprType::Usize)
        } else if name == String::from_str("i8") {
            Some(ReprType::I8)
        } else if name == String::from_str("i16") {
            Some(ReprType::I16)
        } else if name == String::from_str("i32") {
            Some(ReprType::I32)
        } else if name == String::from_str("i64") {
            Some(ReprType::I64)
        } else if name == String::from_str("i128") {
            Some(ReprType::I128)
        } else if name == String::from_str("isize") {
            Some(ReprType::Isize)
        } else {
            None
        }
    }

    /// Whether the type has negative values.
    pub fn is_signed(&self) -> (r: bool)
        ensures
            r == self.signed(),
    {
        match self {
            ReprType::I8
            | ReprType::I16
            | ReprType::I32
            | ReprType::I64
            | ReprType::I128
            | ReprType::Isize => true,
            _ => false,
        }
    }

    /// The least value of the type.
    pub fn min_value(&self) -> (r: Value)
        ensures
            r@ == self.min_int(),
    {
        match self {
            ReprType::I8 => Value::from_i128(i8::MIN as i128),
            ReprType::I16 => Value::from_i128(i16::MIN as i128),
            ReprType::I32 => Value::from_i128(i32::MIN as i128),
            ReprType::I64 => Value::from_i128(i64::MIN as i128),
            ReprType::I128 => Value::from_i128(i128::MIN),
            ReprType::Isize => Value::from_i128(isize::MIN as i128),
            _ => Value::from_u128(0),
        }
    }

    /// The greatest value of the type.
    pub fn max_value(&self) -> (r: Value)
        ensures
            r@ == self.max_int(),
    {
        match self {
            ReprType::U8 => Value::from_u128(u8::MAX as u128),
            ReprType::U16 => Value::from_u128(u16::MAX as u128),
            ReprType::U32 => Value::from_u128(u32::MAX as u128),
            ReprType::U64 => Value::from_u128(u64::MAX as u128),
            ReprType::U128 => Value::from_u128(u128::MAX),
            ReprType::Usize => Value::from_u128(usize::MAX as u128),
            ReprType::I8 => Value::from_u128(i8::MAX as u128),
            ReprType::I16 => Value::from_u128(i16::MAX as u128),
            ReprType::I32 => Value::from_u128(i32::MAX as u128),
            ReprType::I64 => Value::from_u128(i64::MAX as u128),
            ReprType::I128 => Value::from_u128(i128::MAX as u128),
            ReprType::Isize => Value::from_u128(isize::MAX as u128),
        }
    }

    /// Whether `v` is a value of the type.
    pub fn contains(&self, v: &Value) -> (r: bool)
        ensures
            r == self.holds(v@),
    {
        self.min_value().le(v) && v.le(&self.max_value())
    }
}

impl ReprType {
    /// The integer `v` where it is a value of the type: what an operation of
    /// the type gives when its exact result is `v`.
    pub open spec fn checked(self, v: int) -> Option<int> {
        if self.holds(v) {
            Some(v)
        } else {
            None
        }
    }

    /// Negation in the type. The unsigned types have no negation.
    pub open spec fn negated(self, a: int) -> Option<int> {
        if self.signed() && self.holds(a) {
            self.checked(-a)
        } else {
            None
        }
    }

    /// Addition in the type.
    pub open spec fn sum(self, a: int, b: int) -> Option<int> {
        if self.holds(a) && self.holds(b) {
            self.checked(a + b)
        } else {
            None
        }
    }

    /// Subtraction in the type.
    pub open spec fn difference(self, a: int, b: int) -> Option<int> {
        if self.holds(a) && self.holds(b) {
            self.checked(a - b)
        } else {
            None
        }
    }

    /// Multiplication in the type.
    pub open spec fn product(self, a: int, b: int) -> Option<int> {
        if self.holds(a) && self.holds(b) {
            self.checked(a * b)
        } else {
            None
        }
    }

    /// `v` where it is a value of the type.
    pub fn check(&self, v: Value) -> (r: Option<Value>)
        ensures
            option_view(r) == self.checked(v@),
    {
        if self.contains(&v) {
            Some(v)
        } else {
            None
        }
    }

    /// `-a` computed in the type: `None` where the type is unsigned, where `a`
    /// is no value of it, or where the result is none.
    pub fn checked_neg(&self, a: Value) -> (r: Option<Value>)
        ensures
            option_view(r) == self.negated(a@),
    {
        if !self.is_signed() || !self.contains(&a) {
            return None;
        }
        match a {
            Value::NonNegative(x) => if x == 0 {
                Some(a)
            } else {
                self.check(Value::Negative(x - 1))
            },
            Value::Negative(x) => self.check(Value::NonNegative(x + 1)),
        }
    }

    /// `a + b` computed in the type: `None` where an operand or the result is
    /// no value of it.
    pub fn checked_add(&self, a: Value, b: Value) -> (r: Option<Value>)
        ensures
            option_view(r) == self.sum(a@, b@),
    {
        if !self.contains(&a) || !self.contains(&b) {
            return None;
        }
        match (a, b) {
            (Value::NonNegative(x), Value::NonNegative(y)) => match x.checked_add(y) {
                Some(s) => self.check(Value::NonNegative(s)),
                None => None,
            },
            (Value::NonNegative(x), Value::Negative(y)) => if x > y {
                self.check(Value::NonNegative(x - y - 1))
            } else {
                self.check(Value::Negative(y - x))
            },
            (Value::Negative(x), Value::NonNegative(y)) => if y > x {
                self.check(Value::NonNegative(y - x - 1))
            } else {
                self.check(Value::Negative(x - y))
            },
            (Value::Negative(x), Value::Negative(y)) => self.check(Value::Negative(x + y + 1)),
        }
    }

    /// `a - b` computed in the type: `None` where an operand or the result is
    /// no value of it.
    pub fn checked_sub(&self, a: Value, b: Value) -> (r: Option<Value>)
        ensures
            option_view(r) == self.difference(a@, b@),
    {
        if !self.contains(&a) || !self.contains(&b) {
            return None;
        }
        match (a, b) {
            (Value::NonNegative(x), Value::NonNegative(y)) => if x >= y {
                self.check(Value::NonNegative(x - y))
            } else {
                self.check(Value::Negative(y - x - 1))
            },
            (Value::NonNegative(x), Value::Negative(y)) => match x.checked_add(y) {
                Some(s) => match s.checked_add(1) {
                    Some(t) => self.check(Value::NonNegative(t)),
                    None => None,
                },
                None => None,
            },
            (Value::Negative(x), Value::NonNegative(y)) => self.check(Value::Negative(x + y)),
            (Value::Negative(x), Value::Negative(y)) => if y >= x {
                self.check(Value::NonNegative(y - x))
            } else {
                self.check(Value::Negative(x - y - 1))
            },
        }
    }

    /// `a * b` computed in the type: `None` where an operand or the result is
    /// no value of it.
    pub fn checked_mul(&self, a: Value, b: Value) -> (r: Option<Value>)
        ensures
            option_view(r) == self.product(a@, b@),
    {
        if !self.contains(&a) || !self.contains(&b) {
            return None;
        }
        let x: u128 = match a {
            Value::NonNegative(x) => x,
            Value::Negative(x) => x + 1,
        };
        let y: u128 = match b {
            Value::NonNegative(y) => y,
            Value::Negative(y) => y + 1,
        };
        let negative = a.is_negative() != b.is_negative();
        proof {
            lemma_product_of_magnitudes(a@, b@, x as int, y as int);
        }
        match x.checked_mul(y) {
            Some(p) => if negative && p > 0 {
                self.check(Value::Negative(p - 1))
            } else {
                self.check(Value::NonNegative(p))
            },
            None => None,
        }
    }
}

/// The product of two integers from the product of their magnitudes.
proof fn lemma_product_of_magnitudes(a: int, b: int, x: int, y: int)
    requires
        x == (if a < 0 { -a } else { a }),
        y == (if b < 0 { -b } else { b }),
    ensures
        (a < 0) != (b < 0) ==> a * b == -(x * y),
        (a < 0) == (b < 0) ==> a * b == x * y,
        x * y >= 0,
{
    assert((-a) * b == -(a * b)) by (nonlinear_arith);
    assert(a * (-b) == -(a * b)) by (nonlinear_arith);
    assert((-a) * (-b) == a * b) by (nonlinear_arith);
    assert(x * y >= 0) by (nonlinear_arith)
        requires
            x >= 0,
            y >= 0,
    ;
}

/// Every type is found again by its name, and a text names at most the type
/// whose name it is.
pub proof fn lemma_name_round_trip(repr: ReprType, text: Seq<char>)
    ensures
        ReprType::named(repr.name_text()) == Some(repr),
        ReprType::named(text) == Some(repr) <==> text == repr.name_text(),
{
    reveal_strlit("u8");
    reveal_strlit("u16");
    reveal_strlit("u32");
    reveal_strlit("u64");
    reveal_strlit("u128");
    reveal_strlit("usize");
    reveal_strlit("i8");
    reveal_strlit("i16");
    reveal_strlit("i32");
    reveal_strlit("i64");
    reveal_strlit("i128");
    reveal_strlit("isize");
    assert("u8"@.len() == 2 && "u8"@[0] == 'u' && "u8"@[1] == '8');
    assert("u16"@.len() == 3 && "u16"@[0] == 'u' && "u16"@[1] == '1');
    assert("u32"@.len() == 3 && "u32"@[0] == 'u' && "u32"@[1] == '3');
    assert("u64"@.len() == 3 && "u64"@[0] == 'u' && "u64"@[1] == '6');
    assert("u128"@.len() == 4 && "u128"@[0] == 'u' && "u128"@[1] == '1');
    assert("usize"@.len() == 5 && "usize"@[0] == 'u' && "usize"@[1] == 's');
    assert("i8"@.len() == 2 && "i8"@[0] == 'i' && "i8"@[1] == '8');
    assert("i16"@.len() == 3 && "i16"@[0] == 'i' && "i16"@[1] == '1');
    assert("i32"@.len() == 3 && "i32"@[0] == 'i' && "i32"@[1] == '3');
    assert("i64"@.len() == 3 && "i64"@[0] == 'i' && "i64"@[1] == '6');
    assert("i128"@.len() == 4 && "i128"@[0] == 'i' && "i128"@[1] == '1');
    assert("isize"@.len() == 5 && "isize"@[0] == 'i' && "isize"@[1] == 's');
}

/// Zero is a value of every type, and the signed types are those with `-1`.
pub proof fn lemma_repr_ranges(repr: ReprType)
    ensures
        repr.holds(0),
        repr.holds(1),
        repr.signed() <==> repr.holds(-1),
        repr.min_int() >= i128::MIN,
        repr.max_int() <= u128::MAX,
        repr.signed() ==> repr.max_int() == -repr.min_int() - 1,
{
}

} // verus!
