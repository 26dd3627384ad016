//! An enum definition as the analysis sees it.

use crate::expr::Expr;
use proc_macro2::TokenStream;
use vstd::prelude::*;

verus! {

/// What a variant carries.
#[derive(Clone, Copy, Debug, PartialEq, Eq, Structural)]
pub enum Shape {
    /// No payload: `A`.
    Unit,
    /// Unnamed fields: `A(u32)`.
    Tuple,
    /// Named fields: `A { x: u32 }`.
    Record,
}

/// One declared variant.
#[derive(Debug)]
pub struct Variant {
    pub name: String,
    pub shape: Shape,
    /// The discriminant expression written after `=`, if there is one.
    pub discriminant: Option<Expr>,
}

/// One attribute on the enum.
#[derive(Debug)]
pub struct Attribute {
    /// Whether it stands before the item (`#[..]`) and not inside it (`#![..]`).
    pub outer: bool,
    /// The attribute's name where its path is one plain identifier.
    pub name: Option<String>,
    /// The tokens between the parentheses where it has the form `#[name(..)]`.
    pub arguments: Option<TokenStream>,
}

/// An enum definition: its name, its attributes, its variants in declaration
/// order, and the tokens it was written with.
#[derive(Debug)]
pub struct EnumDefinition {
    pub name: String,
    pub attributes: Vec<Attribute>,
    pub variants: Vec<Variant>,
    pub tokens: TokenStream,
}

/// The characters of each of a list of strings.
pub open spec fn texts(strings: Seq<String>) -> Seq<Seq<char>> {
    strings.map_values(|s: String| s@)
}

/// The expression that variant `i` resolves to: its own where it has one, `0`
/// for a first variant without, and else one plus what the variant before it
/// resolves to, whatever that variant's shape.
pub open spec fn resolved_expr(variants: Seq<Variant>, i: int) -> Expr
    decreases i,
{
    match variants[i].discriminant {
        Some(e) => e,
        None => if i <= 0 {
            Expr::Literal(0)
        } else {
            resolved_expr(variants, i - 1).successor()
        },
    }
}

/// The positions of the unit variants, in declaration order.
pub open spec fn unit_positions(variants: Seq<Variant>) -> Seq<int>
    decreases variants.len(),
{
    if variants.len() == 0 {
        Seq::empty()
    } else {
        let before = unit_positions(variants.drop_last());
        if variants.last().shape == Shape::Unit {
            before.push(variants.len() - 1)
        } else {
            before
        }
    }
}

/// The names of the variants at the given positions.
pub open spec fn names_at(variants: Seq<Variant>, positions: Seq<int>) -> Seq<Seq<char>> {
    positions.map_values(|i: int| variants[i].name@)
}

/// The resolved expressions of the variants at the given positions.
pub open spec fn exprs_at(variants: Seq<Variant>, positions: Seq<int>) -> Seq<Expr> {
    positions.map_values(|i: int| resolved_expr(variants, i))
}

/// The unit positions are exactly the positions of unit variants, each once
/// and in increasing order.
pub proof fn lemma_unit_positions(variants: Seq<Variant>)
    ensures
        forall|k: int|
            0 <= k < unit_positions(variants).len() ==> {
                let i = #[trigger] unit_positions(variants)[k];
                0 <= i < variants.len() && variants[i].shape == Shape::Unit
            },
        forall|j: int, k: int|
            0 <= j < k < unit_positions(variants).len() ==> unit_positions(variants)[j]
                < unit_positions(variants)[k],
        forall|i: int|
            0 <= i < variants.len() && (#[trigger] variants[i]).shape == Shape::Unit
                ==> unit_positions(variants).contains(i),
        unit_positions(variants).len() <= variants.len(),
    decreases variants.len(),
{
    if variants.len() > 0 {
        let shorter = variants.drop_last();
        let before = unit_positions(shorter);
        lemma_unit_positions(shorter);
        let last = variants.len() - 1;
        assert forall|i: int|
            0 <= i < variants.len() && (#[trigger] variants[i]).shape
                == Shape::Unit implies unit_positions(variants).contains(i) by {
            if i < last {
                assert(shorter[i] == variants[i]);
                assert(before.contains(i));
                let k = choose|k: int| 0 <= k < before.len() && before[k] == i;
                assert(unit_positions(variants)[k] == i);
            } else {
                assert(unit_positions(variants)[before.len() as int] == i);
            }
        }
        assert forall|k: int| 0 <= k < unit_positions(variants).len() implies {
            let i = #[trigger] unit_positions(variants)[k];
            0 <= i < variants.len() && variants[i].shape == Shape::Unit
        } by {
            if k < before.len() {
                assert(shorter[before[k]] == variants[before[k]]);
            }
        }
    }
}

} // verus!
