//! The discriminants as numbers: what the generated functions compute once
//! every resolved expression has been given its value in the representation
//! type.

use crate::analysis::resolved_discriminants;
use crate::definition::exprs_at;
use crate::definition::lemma_unit_positions;
use crate::definition::resolved_expr;
use crate::definition::unit_positions;
use crate::definition::EnumDefinition;
use crate::definition::Shape;
use crate::definition::Variant;
use crate::expr::lemma_literal_value;
use crate::expr::lemma_successor_value;
use crate::expr::lemma_value_in_range;
use crate::expr::Expr;
use crate::repr::lemma_repr_ranges;
use crate::repr::ReprType;
use crate::resolver::first_repr_type;
use crate::resolver::lemma_first_repr_type_push;
use crate::resolver::recognize;
use crate::resolver::recognized;
use crate::token::read_stream;
use crate::token::stream_tokens;
use crate::token::token_views;
use crate::token::Token;
use crate::token::TokenView;
use crate::value::option_view;
use crate::value::Value;
use proc_macro2::TokenStream;
use vstd::prelude::*;

verus! {

/// Why an enum with its representation annotation is no valid definition.
#[derive(Clone, Copy, Debug, PartialEq, Eq, Structural)]
pub enum LayoutError {
    /// No configuration token names an integer type.
    MissingRepresentationType,
    /// More than one configuration token names an integer type.
    ConflictingRepresentationTypes,
    /// The resolved expression of `variant` has no value in the type.
    NoValue { variant: usize },
    /// The variants `first` and `second` have the same discriminant.
    DuplicateDiscriminant { first: usize, second: usize },
}

/// The value that variant `i` resolves to in the type `repr`.
pub open spec fn value_of(repr: ReprType, variants: Seq<Variant>, i: int) -> Option<int> {
    resolved_expr(variants, i).value_in(repr)
}

/// Whether the first `n` variants all have a value in `repr`, no two of them
/// the same.
pub open spec fn valid_prefix(repr: ReprType, variants: Seq<Variant>, n: int) -> bool {
    &&& forall|i: int| 0 <= i < n ==> (#[trigger] value_of(repr, variants, i)) is Some
    &&& forall|i: int, j: int|
        0 <= i < j < n ==> #[trigger] value_of(repr, variants, i) != #[trigger] value_of(
            repr,
            variants,
            j,
        )
}

/// How many of the tokens name an integer type.
pub open spec fn recognized_count(tokens: Seq<TokenView>) -> nat
    decreases tokens.len(),
{
    if tokens.len() == 0 {
        0
    } else {
        recognized_count(tokens.drop_last()) + (if recognized(tokens.last()) is Some {
            1nat
        } else {
            0nat
        })
    }
}

/// The discriminant of every variant and which variants are units.
pub struct TableView {
    pub repr: ReprType,
    pub values: Seq<int>,
    pub units: Seq<bool>,
}

impl TableView {
    /// One value of the type for each variant, no two the same.
    pub open spec fn wf(self) -> bool {
        &&& self.values.len() == self.units.len()
        &&& forall|i: int| 0 <= i < self.values.len() ==> self.repr.holds(#[trigger] self.values[i])
        &&& forall|i: int, j: int|
            0 <= i < j < self.values.len() ==> #[trigger] self.values[i] != #[trigger] self.values[j]
    }

    /// The first unit variant at or after `start` whose discriminant is `v`.
    pub open spec fn lookup_from(self, v: int, start: int) -> Option<int>
        decreases self.values.len() - start,
    {
        if start < 0 || start >= self.values.len() {
            None
        } else if self.units[start] && self.values[start] == v {
            Some(start)
        } else {
            self.lookup_from(v, start + 1)
        }
    }

    /// The first unit variant whose discriminant is `v`.
    pub open spec fn lookup(self, v: int) -> Option<int> {
        self.lookup_from(v, 0)
    }
}

/// The table of an enum whose variants all have a value in `repr`.
pub open spec fn table_of(repr: ReprType, variants: Seq<Variant>) -> TableView {
    TableView {
        repr,
        values: Seq::new(variants.len(), |i: int| value_of(repr, variants, i).unwrap()),
        units: Seq::new(variants.len(), |i: int| variants[i].shape == Shape::Unit),
    }
}

/// The discriminants of an enum, computed in its representation type.
#[derive(Debug)]
pub struct DiscriminantTable {
    repr: ReprType,
    values: Vec<Value>,
    units: Vec<bool>,
}

impl View for DiscriminantTable {
    type V = TableView;

    closed spec fn view(&self) -> TableView {
        TableView {
            repr: self.repr,
            values: self.values@.map_values(|v: Value| v@),
            units: self.units@,
        }
    }
}

/// Whether `r` is the outcome of giving every variant its value in `repr`, in
/// declaration order: the table of all values, or the first variant whose
/// expression has no value in the type, or the first variant whose value an
/// earlier variant has, with that earlier variant.
pub open spec fn is_evaluation(
    repr: ReprType,
    variants: Seq<Variant>,
    r: Result<DiscriminantTable, LayoutError>,
) -> bool {
    match r {
        Ok(table) => {
            &&& valid_prefix(repr, variants, variants.len() as int)
            &&& table@ == table_of(repr, variants)
            &&& table@.wf()
        },
        Err(LayoutError::NoValue { variant }) => {
            &&& variant < variants.len()
            &&& valid_prefix(repr, variants, variant as int)
            &&& value_of(repr, variants, variant as int) is None
        },
        Err(LayoutError::DuplicateDiscriminant { first, second }) => {
            &&& first < second < variants.len()
            &&& valid_prefix(repr, variants, second as int)
            &&& value_of(repr, variants, second as int) is Some
            &&& value_of(repr, variants, first as int) == value_of(repr, variants, second as int)
        },
        Err(_) => false,
    }
}

impl DiscriminantTable {
    #[verifier::type_invariant]
    closed spec fn well_formed(self) -> bool {
        self@.wf()
    }

    /// The discriminants of `item` in the type `repr`. Each variant's resolved
    /// expression is given its value in declaration order; the first variant
    /// whose expression has none, or whose value an earlier variant has, is
    /// the error.
    pub fn evaluate(repr: ReprType, item: &EnumDefinition) -> (r: Result<
        DiscriminantTable,
        LayoutError,
    >)
        ensures
            is_evaluation(repr, item.variants@, r),
    {
        let ghost all = item.variants@;
        let exprs = resolved_discriminants(item);
        let mut values: Vec<Value> = Vec::new();
        let mut units: Vec<bool> = Vec::new();
        let mut i: usize = 0;
        while i < exprs.len()
            invariant
                all == item.variants@,
                exprs@.len() == all.len(),
                forall|k: int| 0 <= k < exprs@.len() ==> #[trigger] exprs@[k] == resolved_expr(all, k),
                i <= exprs@.len(),
                values@.len() == i,
                units@.len() == i,
                forall|k: int|
                    0 <= k < i ==> #[trigger] value_of(repr, all, k) == Some(values@[k]@),
                forall|k: int| 0 <= k < i ==> #[trigger] units@[k] == (all[k].shape == Shape::Unit),
                valid_prefix(repr, all, i as int),
            decreases exprs@.len() - i,
        {
            let value = match exprs[i].evaluate(repr) {
                Some(value) => value,
                None => {
                    return Err(LayoutError::NoValue { variant: i });
                },
            };
            let mut j: usize = 0;
            while j < i
                invariant
                    all == item.variants@,
                    j <= i < all.len(),
                    values@.len() == i,
                    valid_prefix(repr, all, i as int),
                    value_of(repr, all, i as int) == Some(value@),
                    forall|k: int|
                        0 <= k < i ==> #[trigger] value_of(repr, all, k) == Some(values@[k]@),
                    forall|k: int| 0 <= k < j ==> values@[k]@ != value@,
                decreases i - j,
            {
                if values[j] == value {
                    return Err(LayoutError::DuplicateDiscriminant { first: j, second: i });
                }
                j += 1;
            }
            values.push(value);
            let is_unit = match item.variants[i].shape {
                Shape::Unit => true,
                _ => false,
            };
            units.push(is_unit);
            i += 1;
        }
        proof {
            let view = TableView {
                repr,
                values: values@.map_values(|v: Value| v@),
                units: units@,
            };
            assert(view.values =~= table_of(repr, all).values);
            assert(view.units =~= table_of(repr, all).units);
            assert forall|k: int| 0 <= k < view.values.len() implies repr.holds(
                #[trigger] view.values[k],
            ) by {
                assert(value_of(repr, all, k) is Some);
                lemma_value_in_range(resolved_expr(all, k), repr);
            }
            assert forall|a: int, b: int| 0 <= a < b < view.values.len() implies #[trigger] view.values[a]
                != #[trigger] view.values[b] by {
                assert(value_of(repr, all, a) != value_of(repr, all, b));
            }
            assert(view.wf());
        }
        Ok(DiscriminantTable { repr, values, units })
    }

    /// The representation type.
    pub fn repr(&self) -> (r: ReprType)
        ensures
            r == self@.repr,
    {
        self.repr
    }

    /// The number of variants.
    pub fn len(&self) -> (r: usize)
        ensures
            r == self@.values.len(),
    {
        self.values.len()
    }

    /// Whether `variant` is a unit variant.
    pub fn is_unit(&self, variant: usize) -> (r: bool)
        ensures
            r == (variant < self@.units.len() && self@.units[variant as int]),
    {
        proof {
            use_type_invariant(self);
        }
        variant < self.units.len() && self.units[variant]
    }

    /// The numeric read: the discriminant of an instance of `variant`,
    /// whatever the variant's shape. `None` where the enum has no such variant.
    pub fn discriminant(&self, variant: usize) -> (r: Option<Value>)
        ensures
            self@.wf(),
            option_view(r) == (if variant < self@.values.len() {
                Some(self@.values[variant as int])
            } else {
                None
            }),
    {
        proof {
            use_type_invariant(self);
        }
        if variant < self.values.len() {
            Some(self.values[variant])
        } else {
            None
        }
    }

    /// The reverse lookup: the first unit variant in declaration order whose
    /// discriminant is `value`. Absence is an ordinary outcome: no unit variant
    /// has that discriminant.
    pub fn from_discriminant(&self, value: Value) -> (r: Option<usize>)
        ensures
            self@.wf(),
            match r {
                Some(variant) => self@.lookup(value@) == Some(variant as int),
                None => self@.lookup(value@) is None,
            },
    {
        proof {
            use_type_invariant(self);
        }
        let mut i: usize = 0;
        while i < self.values.len()
            invariant
                self@.wf(),
                i <= self@.values.len(),
                self@.lookup(value@) == self@.lookup_from(value@, i as int),
            decreases self@.values.len() - i,
        {
            if self.units[i] && self.values[i] == value {
                return Some(i);
            }
            i += 1;
        }
        None
    }
}

/// The number of `tokens` that name an integer type, and the first type named.
fn count_repr_types(tokens: &Vec<Token>) -> (r: (usize, Option<ReprType>))
    ensures
        r.0 == recognized_count(token_views(tokens@)),
        r.1 == first_repr_type(token_views(tokens@)),
{
    let ghost views = token_views(tokens@);
    let mut count: usize = 0;
    let mut first: Option<ReprType> = None;
    let mut i: usize = 0;
    assert(views.take(0) =~= Seq::empty());
    while i < tokens.len()
        invariant
            views == token_views(tokens@),
            i <= tokens@.len(),
            count <= i,
            count == recognized_count(views.take(i as int)),
            first == first_repr_type(views.take(i as int)),
        decreases tokens@.len() - i,
    {
        proof {
            assert(views.take(i + 1).drop_last() =~= views.take(i as int));
            assert(views.take(i + 1).last() == tokens@[i as int]@);
            assert(views.take(i + 1) =~= views.take(i as int).push(tokens@[i as int]@));
            lemma_first_repr_type_push(views.take(i as int), tokens@[i as int]@);
        }
        match recognize(&tokens[i]) {
            Some(repr) => {
                count += 1;
                if first.is_none() {
                    first = Some(repr);
                }
            },
            None => {},
        }
        i += 1;
    }
    assert(views.take(i as int) =~= views);
    (count, first)
}

/// Whether `r` is the compiler's verdict on an enum with the configuration
/// `tokens`: the configuration has to name exactly one integer type, and every
/// variant has to resolve to a value of that type that no other variant has.
pub open spec fn is_verdict(
    tokens: Seq<TokenView>,
    variants: Seq<Variant>,
    r: Result<DiscriminantTable, LayoutError>,
) -> bool {
    if recognized_count(tokens) == 0 {
        r == Err::<DiscriminantTable, LayoutError>(LayoutError::MissingRepresentationType)
    } else if recognized_count(tokens) > 1 {
        r == Err::<DiscriminantTable, LayoutError>(LayoutError::ConflictingRepresentationTypes)
    } else {
        &&& first_repr_type(tokens) matches Some(repr)
        &&& is_evaluation(repr, variants, r)
    }
}

/// The enum as the compiler takes it once the annotation stands on it, from
/// the configuration as a list of tokens.
pub fn validate_tokens(tokens: &Vec<Token>, item: &EnumDefinition) -> (r: Result<
    DiscriminantTable,
    LayoutError,
>)
    ensures
        is_verdict(token_views(tokens@), item.variants@, r),
{
    let (count, first) = count_repr_types(tokens);
    proof {
        lemma_counted_type_exists(token_views(tokens@));
    }
    if count == 0 {
        return Err(LayoutError::MissingRepresentationType);
    }
    if count > 1 {
        return Err(LayoutError::ConflictingRepresentationTypes);
    }
    match first {
        Some(repr) => DiscriminantTable::evaluate(repr, item),
        None => Err(LayoutError::MissingRepresentationType),
    }
}

/// The enum as the compiler takes it once the annotation stands on it: the
/// configuration has to name exactly one integer type, and every variant has
/// to resolve to a value of that type that no other variant has.
pub fn validate(arguments: &TokenStream, item: &EnumDefinition) -> (r: Result<
    DiscriminantTable,
    LayoutError,
>)
    ensures
        is_verdict(stream_tokens(*arguments), item.variants@, r),
{
    let tokens = read_stream(arguments);
    validate_tokens(&tokens, item)
}

/// A type is resolved exactly where some token names one.
pub proof fn lemma_counted_type_exists(tokens: Seq<TokenView>)
    ensures
        recognized_count(tokens) > 0 <==> first_repr_type(tokens) is Some,
    decreases tokens.len(),
{
    if tokens.len() > 0 {
        let shorter = tokens.drop_last();
        lemma_counted_type_exists(shorter);
        assert(tokens =~= shorter.push(tokens.last()));
        lemma_first_repr_type_push(shorter, tokens.last());
    }
}

/// A variant with an explicit literal has that literal as its discriminant,
/// wherever it has one at all.
pub proof fn lemma_explicit_literal(repr: ReprType, variants: Seq<Variant>, i: int)
    requires
        0 <= i < variants.len(),
        variants[i].discriminant matches Some(e) && e.is_literal(),
        value_of(repr, variants, i) is Some,
    ensures
        value_of(repr, variants, i) == Some(variants[i].discriminant.unwrap().literal_value()),
{
    lemma_literal_value(variants[i].discriminant.unwrap(), repr);
}

/// Where no variant up to `i` has an explicit discriminant, variant `i` has
/// the discriminant `i`, whatever the shapes of the variants: they count
/// 0, 1, 2 and so on, as far as the type reaches.
pub proof fn lemma_implicit_sequence(repr: ReprType, variants: Seq<Variant>, i: int)
    requires
        0 <= i < variants.len(),
        forall|k: int| 0 <= k <= i ==> (#[trigger] variants[k]).discriminant is None,
        repr.holds(i),
    ensures
        value_of(repr, variants, i) == Some(i),
    decreases i,
{
    lemma_repr_ranges(repr);
    if i > 0 {
        lemma_implicit_sequence(repr, variants, i - 1);
        lemma_successor_value(resolved_expr(variants, i - 1), repr);
    }
}

/// A variant without an explicit discriminant follows the variant before it:
/// its discriminant is one more, whether that variant had an explicit
/// discriminant or not and whatever its shape.
pub proof fn lemma_auto_increment(repr: ReprType, variants: Seq<Variant>, i: int)
    requires
        0 < i < variants.len(),
        variants[i].discriminant is None,
    ensures
        value_of(repr, variants, i) == match value_of(repr, variants, i - 1) {
            Some(v) => repr.checked(v + 1),
            None => None,
        },
{
    lemma_successor_value(resolved_expr(variants, i - 1), repr);
}

/// A first variant without an explicit discriminant has the discriminant 0.
pub proof fn lemma_first_is_zero(repr: ReprType, variants: Seq<Variant>)
    requires
        0 < variants.len(),
        variants[0].discriminant is None,
    ensures
        value_of(repr, variants, 0) == Some(0int),
{
    lemma_repr_ranges(repr);
}

/// What the reverse lookup from `start` on finds: a unit variant at or after
/// `start` with the discriminant `v`, before which no such variant stands.
pub proof fn lemma_lookup_from(table: TableView, v: int, start: int)
    requires
        table.values.len() == table.units.len(),
        0 <= start,
    ensures
        match table.lookup_from(v, start) {
            Some(i) => {
                &&& start <= i < table.values.len()
                &&& table.units[i]
                &&& table.values[i] == v
                &&& forall|k: int| start <= k < i ==> !(table.units[k] && #[trigger] table.values[k] == v)
            },
            None => forall|k: int|
                start <= k < table.values.len() ==> !(table.units[k] && #[trigger] table.values[k]
                    == v),
        },
    decreases table.values.len() - start,
{
    if start < table.values.len() && !(table.units[start] && table.values[start] == v) {
        lemma_lookup_from(table, v, start + 1);
    }
}

/// The round trip: the discriminant of a unit variant leads back to that
/// variant.
pub proof fn lemma_round_trip(table: TableView, variant: int)
    requires
        table.wf(),
        0 <= variant < table.values.len(),
        table.units[variant],
    ensures
        table.lookup(table.values[variant]) == Some(variant),
{
    lemma_lookup_from(table, table.values[variant], 0);
}

/// A value that no unit variant has leads to no variant.
pub proof fn lemma_absent(table: TableView, v: int)
    requires
        table.wf(),
        forall|i: int| 0 <= i < table.values.len() && table.units[i] ==> #[trigger] table.values[i] != v,
    ensures
        table.lookup(v) is None,
{
    lemma_lookup_from(table, v, 0);
}

/// The discriminant of a variant with a payload leads to no variant.
pub proof fn lemma_payload_variant_absent(table: TableView, variant: int)
    requires
        table.wf(),
        0 <= variant < table.values.len(),
        !table.units[variant],
    ensures
        table.lookup(table.values[variant]) is None,
{
    lemma_lookup_from(table, table.values[variant], 0);
}

/// An enum of one unit variant with an explicit literal, in any of the twelve
/// types that holds the literal: the variant's discriminant is the literal, and
/// the literal leads back to the variant.
pub proof fn lemma_single_variant(repr: ReprType, variant: Variant)
    requires
        variant.shape == Shape::Unit,
        variant.discriminant matches Some(e) && e.is_literal() && e.value_in(repr) is Some,
    ensures
        valid_prefix(repr, seq![variant], 1),
        table_of(repr, seq![variant]).wf(),
        table_of(repr, seq![variant]).values[0] == variant.discriminant.unwrap().literal_value(),
        table_of(repr, seq![variant]).lookup(variant.discriminant.unwrap().literal_value()) == Some(
            0int,
        ),
{
    let variants = seq![variant];
    let table = table_of(repr, variants);
    lemma_explicit_literal(repr, variants, 0);
    lemma_value_in_range(variant.discriminant.unwrap(), repr);
    assert(table.wf());
    lemma_round_trip(table, 0);
}

/// The first arm at or after `start` whose expression has the value `v`: the
/// arm that the generated reverse lookup takes for `v`.
pub open spec fn first_arm_from(repr: ReprType, exprs: Seq<Expr>, v: int, start: int) -> Option<int>
    decreases exprs.len() - start,
{
    if start < 0 || start >= exprs.len() {
        None
    } else if exprs[start].value_in(repr) == Some(v) {
        Some(start)
    } else {
        first_arm_from(repr, exprs, v, start + 1)
    }
}

/// What the search for an arm from `start` on finds.
pub proof fn lemma_first_arm_from(repr: ReprType, exprs: Seq<Expr>, v: int, start: int)
    requires
        0 <= start,
    ensures
        match first_arm_from(repr, exprs, v, start) {
            Some(k) => {
                &&& start <= k < exprs.len()
                &&& exprs[k].value_in(repr) == Some(v)
                &&& forall|j: int| start <= j < k ==> (#[trigger] exprs[j]).value_in(repr) != Some(v)
            },
            None => forall|j: int|
                start <= j < exprs.len() ==> (#[trigger] exprs[j]).value_in(repr) != Some(v),
        },
    decreases exprs.len() - start,
{
    if start < exprs.len() && exprs[start].value_in(repr) != Some(v) {
        lemma_first_arm_from(repr, exprs, v, start + 1);
    }
}

/// The generated reverse lookup computes the table's lookup: for an enum whose
/// variants all have a value, the arm that the generated function takes for
/// `v` is the arm of the variant that the table finds for `v`, and it takes
/// the arm for absence exactly where the table finds none.
pub proof fn lemma_arms_compute_lookup(repr: ReprType, variants: Seq<Variant>, v: int)
    requires
        forall|i: int| 0 <= i < variants.len() ==> (#[trigger] value_of(repr, variants, i)) is Some,
    ensures
        table_of(repr, variants).lookup(v) == match first_arm_from(
            repr,
            exprs_at(variants, unit_positions(variants)),
            v,
            0,
        ) {
            Some(k) => Some(unit_positions(variants)[k]),
            None => None,
        },
{
    let table = table_of(repr, variants);
    let positions = unit_positions(variants);
    let exprs = exprs_at(variants, positions);
    lemma_unit_positions(variants);
    lemma_lookup_from(table, v, 0);
    lemma_first_arm_from(repr, exprs, v, 0);
    assert forall|k: int| 0 <= k < positions.len() implies (#[trigger] exprs[k]).value_in(repr)
        == Some(table.values[positions[k]]) && table.units[positions[k]] by {
        let i = positions[k];
        assert(0 <= i < variants.len() && variants[i].shape == Shape::Unit);
        assert(value_of(repr, variants, i) is Some);
    }
    match table.lookup(v) {
        Some(i) => {
            assert(variants[i].shape == Shape::Unit);
            assert(positions.contains(i));
            let at = choose|k: int| 0 <= k < positions.len() && positions[k] == i;
            assert(exprs[at].value_in(repr) == Some(v));
            let k = first_arm_from(repr, exprs, v, 0).unwrap();
            if k < at {
                assert(positions[k] < positions[at]);
                assert(exprs[k].value_in(repr) == Some(table.values[positions[k]]));
                assert(table.units[positions[k]] && table.values[positions[k]] == v);
            }
        },
        None => {
            if first_arm_from(repr, exprs, v, 0) is Some {
                let k = first_arm_from(repr, exprs, v, 0).unwrap();
                assert(exprs[k].value_in(repr) == Some(table.values[positions[k]]));
                assert(table.units[positions[k]] && table.values[positions[k]] == v);
            }
        },
    }
}

} // verus!
