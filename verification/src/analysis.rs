//! The variant analyzer: which expression every variant resolves to.

use crate::definition::exprs_at;
use crate::definition::names_at;
use crate::definition::resolved_expr;
use crate::definition::texts;
use crate::definition::unit_positions;
use crate::definition::EnumDefinition;
use crate::definition::Shape;
use crate::definition::Variant;
use crate::expr::Expr;
use vstd::prelude::*;

verus! {

/// The expression that a variant resolves to, given what the variant before
/// it resolved to.
fn resolve_next(variant: &Variant, previous: &Option<Expr>) -> (r: Expr)
    ensures
        r == match variant.discriminant {
            Some(e) => e,
            None => match *previous {
                Some(p) => p.successor(),
                None => Expr::Literal(0),
            },
        },
{
    match &variant.discriminant {
        Some(e) => e.duplicate(),
        None => match previous {
            Some(p) => Expr::Add(Box::new(Expr::Literal(1)), Box::new(p.duplicate())),
            None => Expr::Literal(0),
        },
    }
}

/// The resolved expression of every variant, in declaration order.
pub fn resolved_discriminants(enum_item: &EnumDefinition) -> (exprs: Vec<Expr>)
    ensures
        exprs@.len() == enum_item.variants@.len(),
        forall|i: int|
            0 <= i < exprs@.len() ==> #[trigger] exprs@[i] == resolved_expr(
                enum_item.variants@,
                i,
            ),
{
    let mut exprs: Vec<Expr> = Vec::new();
    let mut previous: Option<Expr> = None;
    let mut i: usize = 0;
    while i < enum_item.variants.len()
        invariant
            i <= enum_item.variants@.len(),
            exprs@.len() == i,
            forall|k: int|
                0 <= k < i ==> #[trigger] exprs@[k] == resolved_expr(enum_item.variants@, k),
            previous == (if i == 0 {
                None
            } else {
                Some(resolved_expr(enum_item.variants@, i - 1))
            }),
        decreases enum_item.variants@.len() - i,
    {
        let expr = resolve_next(&enum_item.variants[i], &previous);
        exprs.push(expr.duplicate());
        previous = Some(expr);
        i += 1;
    }
    exprs
}

/// The name of every variant, whatever its shape, in declaration order.
pub fn all_variants(enum_item: &EnumDefinition) -> (names: Vec<String>)
    ensures
        names@.len() == enum_item.variants@.len(),
        forall|i: int|
            0 <= i < names@.len() ==> (#[trigger] names@[i])@ == enum_item.variants@[i].name@,
{
    let mut names: Vec<String> = Vec::new();
    let mut i: usize = 0;
    while i < enum_item.variants.len()
        invariant
            i <= enum_item.variants@.len(),
            names@.len() == i,
            forall|k: int|
                0 <= k < i ==> (#[trigger] names@[k])@ == enum_item.variants@[k].name@,
        decreases enum_item.variants@.len() - i,
    {
        names.push(enum_item.variants[i].name.clone());
        i += 1;
    }
    names
}

/// The names and the resolved expressions of the unit variants, in
/// declaration order. Every variant takes its place in the count, so a variant
/// with a payload moves the expressions of those after it; only the unit
/// variants are handed out.
pub fn enum_unit_variants(enum_item: &EnumDefinition) -> (r: (Vec<String>, Vec<Expr>))
    ensures
        texts(r.0@) == names_at(enum_item.variants@, unit_positions(enum_item.variants@)),
        r.1@ == exprs_at(enum_item.variants@, unit_positions(enum_item.variants@)),
{
    let ghost all = enum_item.variants@;
    let mut names: Vec<String> = Vec::new();
    let mut exprs: Vec<Expr> = Vec::new();
    let mut previous: Option<Expr> = None;
    let mut i: usize = 0;
    assert(all.take(0) =~= Seq::empty());
    while i < enum_item.variants.len()
        invariant
            all == enum_item.variants@,
            i <= all.len(),
            texts(names@) =~= names_at(all, unit_positions(all.take(i as int))),
            exprs@ =~= exprs_at(all, unit_positions(all.take(i as int))),
            previous == (if i == 0 {
                None
            } else {
                Some(resolved_expr(all, i - 1))
            }),
        decreases all.len() - i,
    {
        let variant = &enum_item.variants[i];
        let expr = resolve_next(variant, &previous);
        let ghost before = unit_positions(all.take(i as int));
        let ghost names_before = names@;
        proof {
            let seen = all.take(i + 1);
            assert(seen.drop_last() =~= all.take(i as int));
            assert(seen.last() == all[i as int]);
        }
        match variant.shape {
            Shape::Unit => {
                names.push(variant.name.clone());
                exprs.push(expr.duplicate());
                proof {
                    let after = before.push(i as int);
                    assert(unit_positions(all.take(i + 1)) == after);
                    assert(texts(names@) =~= texts(names_before).push(variant.name@));
                    assert(names_at(all, after) =~= names_at(all, before).push(variant.name@));
                }
            },
            _ => {},
        }
        previous = Some(expr);
        i += 1;
    }
    assert(all.take(i as int) =~= all);
    (names, exprs)
}

} // verus!
