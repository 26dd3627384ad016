//! Discriminant expressions: constant expressions over integer literals, kept
//! as written, with their source text and their value in a given type.

use crate::repr::lemma_repr_ranges;
use crate::repr::ReprType;
use crate::value::option_view;
use crate::value::Value;
use vstd::prelude::*;
use vstd::string::StringExecFns;

verus! {

/// A constant expression that gives a variant its discriminant.
#[derive(Debug, PartialEq, Eq)]
pub enum Expr {
    /// An integer literal.
    Literal(u128),
    /// `-e`
    Neg(Box<Expr>),
    /// `a + b`
    Add(Box<Expr>, Box<Expr>),
    /// `a - b`
    Sub(Box<Expr>, Box<Expr>),
    /// `a * b`
    Mul(Box<Expr>, Box<Expr>),
    /// `(e)`
    Paren(Box<Expr>),
    /// Any other expression, as source text. It is carried into generated code
    /// as it is and has no value here.
    Opaque(String),
}

impl Clone for Expr {
    fn clone(&self) -> (r: Expr)
        ensures
            r == *self,
    {
        self.duplicate()
    }
}

/// The character of a decimal digit.
pub open spec fn digit_char(d: nat) -> char {
    if d == 0 {
        '0'
    } else if d == 1 {
        '1'
    } else if d == 2 {
        '2'
    } else if d == 3 {
        '3'
    } else if d == 4 {
        '4'
    } else if d == 5 {
        '5'
    } else if d == 6 {
        '6'
    } else if d == 7 {
        '7'
    } else if d == 8 {
        '8'
    } else {
        '9'
    }
}

/// The decimal digits of `n`, without leading zeros.
pub open spec fn decimal_text(n: nat) -> Seq<char>
    decreases n,
{
    if n < 10 {
        seq![digit_char(n)]
    } else {
        decimal_text(n / 10).push(digit_char(n % 10))
    }
}

/// The text of one decimal digit.
fn digit_str(d: u8) -> (r: &'static str)
    requires
        d < 10,
    ensures
        r@ == seq![digit_char(d as nat)],
{
    proof {
        reveal_strlit("0");
        reveal_strlit("1");
        reveal_strlit("2");
        reveal_strlit("3");
        reveal_strlit("4");
        reveal_strlit("5");
        reveal_strlit("6");
        reveal_strlit("7");
        reveal_strlit("8");
        reveal_strlit("9");
    }
    let r = if d == 0 {
        "0"
    } else if d == 1 {
        "1"
    } else if d == 2 {
        "2"
    } else if d == 3 {
        "3"
    } else if d == 4 {
        "4"
    } else if d == 5 {
        "5"
    } else if d == 6 {
        "6"
    } else if d == 7 {
        "7"
    } else if d == 8 {
        "8"
    } else {
        "9"
    };
    assert(r@ =~= seq![digit_char(d as nat)]);
    r
}

/// Appends the decimal digits of `n` to `out`.
pub fn write_decimal(out: &mut String, n: u128)
    ensures
        final(out)@ == old(out)@ + decimal_text(n as nat),
    decreases n,
{
    if n >= 10 {
        write_decimal(out, n / 10);
    }
    out.append(digit_str((n % 10) as u8));
    assert(out@ =~= old(out)@ + decimal_text(n as nat));
}

impl Expr {
    /// Whether the expression can stand as an operand without parentheses.
    pub open spec fn atomic(self) -> bool {
        self is Literal || self is Paren
    }

    /// The expression as source text.
    pub open spec fn text(self) -> Seq<char>
        decreases self, 0nat,
    {
        match self {
            Expr::Literal(v) => decimal_text(v as nat),
            Expr::Neg(e) => "-"@ + e.operand_text(),
            Expr::Add(a, b) => a.operand_text() + " + "@ + b.operand_text(),
            Expr::Sub(a, b) => a.operand_text() + " - "@ + b.operand_text(),
            Expr::Mul(a, b) => a.operand_text() + " * "@ + b.operand_text(),
            Expr::Paren(e) => "("@ + e.text() + ")"@,
            Expr::Opaque(s) => s@,
        }
    }

    /// The expression as source text for a place where an operator follows or
    /// precedes: in parentheses unless it is a literal or has its own.
    pub open spec fn operand_text(self) -> Seq<char>
        decreases self, 1nat,
    {
        if self.atomic() {
            self.text()
        } else {
            "("@ + self.text() + ")"@
        }
    }

    /// The expression without the parentheses around it.
    pub open spec fn bare(self) -> Expr
        decreases self,
    {
        match self {
            Expr::Paren(e) => e.bare(),
            _ => self,
        }
    }

    /// The value of the expression computed in the type `repr`, as a compiler
    /// computes a discriminant: every literal and every intermediate result is
    /// a value of the type, a negated literal counts as one literal, with or
    /// without parentheses around the literal, and the unsigned types have no
    /// negation. `None` where that fails, and for an expression that is
    /// carried as text.
    pub open spec fn value_in(self, repr: ReprType) -> Option<int>
        decreases self,
    {
        match self {
            Expr::Literal(v) => repr.checked(v as int),
            Expr::Neg(e) => match e.bare() {
                Expr::Literal(v) => if repr.signed() {
                    repr.checked(-(v as int))
                } else {
                    None
                },
                _ => match e.value_in(repr) {
                    Some(x) => repr.negated(x),
                    None => None,
                },
            },
            Expr::Add(a, b) => match (a.value_in(repr), b.value_in(repr)) {
                (Some(x), Some(y)) => repr.sum(x, y),
                _ => None,
            },
            Expr::Sub(a, b) => match (a.value_in(repr), b.value_in(repr)) {
                (Some(x), Some(y)) => repr.difference(x, y),
                _ => None,
            },
            Expr::Mul(a, b) => match (a.value_in(repr), b.value_in(repr)) {
                (Some(x), Some(y)) => repr.product(x, y),
                _ => None,
            },
            Expr::Paren(e) => e.value_in(repr),
            Expr::Opaque(_) => None,
        }
    }

    /// The successor of `self`: the expression `1 + self`.
    pub open spec fn successor(self) -> Expr {
        Expr::Add(Box::new(Expr::Literal(1)), Box::new(self))
    }

    /// A copy of the expression.
    pub fn duplicate(&self) -> (r: Expr)
        ensures
            r == *self,
        decreases *self,
    {
        match self {
            Expr::Literal(v) => Expr::Literal(*v),
            Expr::Neg(e) => Expr::Neg(Box::new(e.duplicate())),
            Expr::Add(a, b) => Expr::Add(Box::new(a.duplicate()), Box::new(b.duplicate())),
            Expr::Sub(a, b) => Expr::Sub(Box::new(a.duplicate()), Box::new(b.duplicate())),
            Expr::Mul(a, b) => Expr::Mul(Box::new(a.duplicate()), Box::new(b.duplicate())),
            Expr::Paren(e) => Expr::Paren(Box::new(e.duplicate())),
            Expr::Opaque(s) => Expr::Opaque(s.clone()),
        }
    }

    /// Appends the expression's source text to `out`.
    pub fn write(&self, out: &mut String)
        ensures
            final(out)@ == old(out)@ + self.text(),
        decreases *self, 0nat,
    {
        match self {
            Expr::Literal(v) => {
                write_decimal(out, *v);
            },
            Expr::Neg(e) => {
                out.append("-");
                e.write_operand(out);
                assert(out@ =~= old(out)@ + self.text());
            },
            Expr::Add(a, b) => {
                a.write_operand(out);
                out.append(" + ");
                b.write_operand(out);
                assert(out@ =~= old(out)@ + self.text());
            },
            Expr::Sub(a, b) => {
                a.write_operand(out);
                out.append(" - ");
                b.write_operand(out);
                assert(out@ =~= old(out)@ + self.text());
            },
            Expr::Mul(a, b) => {
                a.write_operand(out);
                out.append(" * ");
                b.write_operand(out);
                assert(out@ =~= old(out)@ + self.text());
            },
            Expr::Paren(e) => {
                out.append("(");
                e.write(out);
                out.append(")");
                assert(out@ =~= old(out)@ + self.text());
            },
            Expr::Opaque(s) => {
                out.append(s.as_str());
            },
        }
    }

    /// Appends the expression's source text as an operand to `out`.
    pub fn write_operand(&self, out: &mut String)
        ensures
            final(out)@ == old(out)@ + self.operand_text(),
        decreases *self, 1nat,
    {
        match self {
            Expr::Literal(_) | Expr::Paren(_) => {
                self.write(out);
            },
            _ => {
                out.append("(");
                self.write(out);
                out.append(")");
                assert(out@ =~= old(out)@ + self.operand_text());
            },
        }
    }

    /// The expression as source text.
    pub fn render(&self) -> (r: String)
        ensures
            r@ == self.text(),
    {
        let mut out = String::new();
        self.write(&mut out);
        assert(out@ =~= self.text());
        out
    }

    /// The expression without the parentheses around it.
    pub fn without_parentheses(&self) -> (r: &Expr)
        ensures
            *r == self.bare(),
        decreases *self,
    {
        match self {
            Expr::Paren(e) => e.without_parentheses(),
            _ => self,
        }
    }

    /// The value of the expression computed in the type `repr`.
    pub fn evaluate(&self, repr: ReprType) -> (r: Option<Value>)
        ensures
            option_view(r) == self.value_in(repr),
        decreases *self,
    {
        match self {
            Expr::Literal(v) => repr.check(Value::NonNegative(*v)),
            Expr::Neg(e) => match e.without_parentheses() {
                Expr::Literal(v) => if !repr.is_signed() {
                    None
                } else if *v == 0 {
                    repr.check(Value::NonNegative(0))
                } else {
                    repr.check(Value::Negative(*v - 1))
                },
                _ => match e.evaluate(repr) {
                    Some(x) => repr.checked_neg(x),
                    None => None,
                },
            },
            Expr::Add(a, b) => match (a.evaluate(repr), b.evaluate(repr)) {
                (Some(x), Some(y)) => repr.checked_add(x, y),
                _ => None,
            },
            Expr::Sub(a, b) => match (a.evaluate(repr), b.evaluate(repr)) {
                (Some(x), Some(y)) => repr.checked_sub(x, y),
                _ => None,
            },
            Expr::Mul(a, b) => match (a.evaluate(repr), b.evaluate(repr)) {
                (Some(x), Some(y)) => repr.checked_mul(x, y),
                _ => None,
            },
            Expr::Paren(e) => e.evaluate(repr),
            Expr::Opaque(_) => None,
        }
    }
}

/// A value of an expression in a type is a value of that type.
pub proof fn lemma_value_in_range(e: Expr, repr: ReprType)
    ensures
        e.value_in(repr) matches Some(v) ==> repr.holds(v),
    decreases e,
{
    match e {
        Expr::Neg(inner) => {
            lemma_value_in_range(*inner, repr);
        },
        Expr::Paren(inner) => {
            lemma_value_in_range(*inner, repr);
        },
        _ => {},
    }
}

impl Expr {
    /// Whether the expression is an integer literal, negated or not.
    pub open spec fn is_literal(self) -> bool {
        match self {
            Expr::Literal(_) => true,
            Expr::Neg(e) => *e is Literal,
            _ => false,
        }
    }

    /// The integer that a literal, negated or not, stands for.
    pub open spec fn literal_value(self) -> int {
        match self {
            Expr::Literal(v) => v as int,
            Expr::Neg(e) => match *e {
                Expr::Literal(v) => -(v as int),
                _ => 0,
            },
            _ => 0,
        }
    }
}

/// A literal that has a value in a type has the value that it stands for.
pub proof fn lemma_literal_value(e: Expr, repr: ReprType)
    requires
        e.is_literal(),
        e.value_in(repr) is Some,
    ensures
        e.value_in(repr) == Some(e.literal_value()),
{
}

/// Negative discriminants: in every signed type, the negation of a literal
/// `v` is `-v` wherever `-v` is a value of the type.
pub proof fn lemma_negative_literal(v: u128, repr: ReprType)
    requires
        repr.signed(),
        repr.holds(-(v as int)),
    ensures
        Expr::Neg(Box::new(Expr::Literal(v))).value_in(repr) == Some(-(v as int)),
{
}

/// The successor of an expression with the value `v` has the value `v + 1`
/// wherever that is a value of the type.
pub proof fn lemma_successor_value(e: Expr, repr: ReprType)
    ensures
        e.successor().value_in(repr) == match e.value_in(repr) {
            Some(v) => repr.checked(v + 1),
            None => None,
        },
{
    reveal_with_fuel(Expr::value_in, 2);
    lemma_value_in_range(e, repr);
    lemma_repr_ranges(repr);
}

} // verus!
