//! The code synthesizer: the source text of the two generated functions and
//! of the blocks that hold them.

use crate::analysis::enum_unit_variants;
use crate::definition::exprs_at;
use crate::definition::names_at;
use crate::definition::texts;
use crate::definition::unit_positions;
use crate::definition::EnumDefinition;
use crate::expr::Expr;
use crate::repr::ReprType;
use crate::token::token_views;
use crate::token::Token;
use crate::token::TokenKind;
use crate::token::TokenView;
use vstd::prelude::*;
use vstd::string::StringExecFns;

verus! {

/// The text of the first `count` tokens as they are written in source: one
/// space after each token but the last, and none after punctuation that the
/// next token follows immediately.
pub open spec fn tokens_text(tokens: Seq<TokenView>, count: nat) -> Seq<char>
    decreases count,
{
    if count == 0 {
        Seq::empty()
    } else {
        let token = tokens[count - 1];
        let gap = if count == tokens.len() || token.kind == TokenKind::JointPunct {
            Seq::empty()
        } else {
            " "@
        };
        tokens_text(tokens, (count - 1) as nat) + token.text + gap
    }
}

/// The representation annotation: `#[repr(..)]` around the configuration
/// tokens, all of them, as they were written.
pub open spec fn annotation_text(tokens: Seq<TokenView>) -> Seq<char> {
    "#[repr("@ + tokens_text(tokens, tokens.len()) + ")]"@
}

/// The generated function that reads the discriminant of any variant.
pub open spec fn discriminant_function_text(repr: ReprType) -> Seq<char> {
    "    /// Returns the discriminant numeric value of an enum variant.\n    fn discriminant(&self) -> "@
        + repr.name_text() + " {\n        unsafe { *<*const _>::from(self).cast::<"@
        + repr.name_text() + ">() }\n    }\n"@
}

/// One arm of the generated reverse lookup: an equality test against the
/// variant's resolved expression, which yields the variant.
pub open spec fn arm_text(enum_name: Seq<char>, variant_name: Seq<char>, expr: Expr) -> Seq<char> {
    "            discriminant if discriminant == "@ + expr.operand_text() + " => Some("@
        + enum_name + "::"@ + variant_name + "),\n"@
}

/// The first `count` arms of the generated reverse lookup, in order.
pub open spec fn arms_text(
    enum_name: Seq<char>,
    names: Seq<Seq<char>>,
    exprs: Seq<Expr>,
    count: nat,
) -> Seq<char>
    decreases count,
{
    if count == 0 {
        Seq::empty()
    } else {
        arms_text(enum_name, names, exprs, (count - 1) as nat) + arm_text(
            enum_name,
            names[count - 1],
            exprs[count - 1],
        )
    }
}

/// The generated function that finds the unit variant of a discriminant: one
/// arm for each unit variant in declaration order, then the arm for absence.
pub open spec fn from_discriminant_function_text(repr: ReprType, item: EnumDefinition) -> Seq<
    char,
> {
    let positions = unit_positions(item.variants@);
    "    /// Creates an enum variant from a discriminant numeric value if there is a unit\n    /// type variant with that value.\n    fn from_discriminant(discriminant: "@
        + repr.name_text() + ") -> Option<Self> {\n        match discriminant {\n"@ + arms_text(
        item.name@,
        names_at(item.variants@, positions),
        exprs_at(item.variants@, positions),
        positions.len(),
    ) + "            _ => None,\n        }\n    }\n"@
}

/// The block that gives the enum both functions as its own.
pub open spec fn inherent_impl_text(repr: ReprType, item: EnumDefinition) -> Seq<char> {
    "impl "@ + item.name@ + " {\n"@ + from_discriminant_function_text(repr, item) + "\n"@
        + discriminant_function_text(repr) + "}\n"@
}

/// The block that implements `IntoDiscriminant` for the enum.
pub open spec fn into_discriminant_impl_text(repr: ReprType, item: EnumDefinition) -> Seq<char> {
    "impl IntoDiscriminant for "@ + item.name@ + " {\n    type DiscriminantType = "@
        + repr.name_text() + ";\n\n"@ + discriminant_function_text(repr) + "}\n"@
}

/// The block that implements `FromDiscriminant` for the enum.
pub open spec fn from_discriminant_impl_text(repr: ReprType, item: EnumDefinition) -> Seq<char> {
    "impl FromDiscriminant for "@ + item.name@ + " {\n    type DiscriminantType = "@
        + repr.name_text() + ";\n\n"@ + from_discriminant_function_text(repr, item) + "}\n"@
}

/// The configuration tokens as they are written in source.
pub fn render_tokens(tokens: &Vec<Token>) -> (r: String)
    ensures
        r@ == tokens_text(token_views(tokens@), tokens@.len()),
{
    let ghost views = token_views(tokens@);
    let mut out = String::new();
    let mut i: usize = 0;
    while i < tokens.len()
        invariant
            views == token_views(tokens@),
            i <= tokens@.len(),
            out@ == tokens_text(views, i as nat),
        decreases tokens@.len() - i,
    {
        let ghost before = out@;
        let token = &tokens[i];
        out.append(token.text.as_str());
        match token.kind {
            TokenKind::JointPunct => {},
            _ => {
                if i + 1 < tokens.len() {
                    out.append(" ");
                }
            },
        }
        i += 1;
        proof {
            assert(views[i - 1] == tokens@[i - 1]@);
            assert(out@ =~= tokens_text(views, i as nat));
        }
    }
    out
}

/// The representation annotation for the configuration tokens. Every token is
/// carried over, so a layout hint beside the integer type stays.
pub fn repr_annotation(tokens: &Vec<Token>) -> (r: String)
    ensures
        r@ == annotation_text(token_views(tokens@)),
{
    let mut out = String::from_str("#[repr(");
    let inner = render_tokens(tokens);
    out.append(inner.as_str());
    out.append(")]");
    assert(out@ =~= annotation_text(token_views(tokens@)));
    out
}

/// The source of the generated `discriminant` function for an enum with the
/// representation `repr_type`.
///
/// The function reads the enum's first bytes as a `repr_type`. That is the
/// discriminant only if the enum carries the representation annotation for
/// this same type, which nothing checks when the generated code runs.
pub fn generate_discriminant_function(repr_type: ReprType) -> (r: String)
    ensures
        r@ == discriminant_function_text(repr_type),
{
    let mut out = String::from_str(
        "    /// Returns the discriminant numeric value of an enum variant.\n    fn discriminant(&self) -> ",
    );
    out.append(repr_type.name());
    out.append(" {\n        unsafe { *<*const _>::from(self).cast::<");
    out.append(repr_type.name());
    out.append(">() }\n    }\n");
    assert(out@ =~= discriminant_function_text(repr_type));
    out
}

/// Appends one arm of the reverse lookup to `out`.
fn write_arm(out: &mut String, enum_name: &String, variant_name: &String, expr: &Expr)
    ensures
        final(out)@ == old(out)@ + arm_text(enum_name@, variant_name@, *expr),
{
    out.append("            discriminant if discriminant == ");
    expr.write_operand(out);
    out.append(" => Some(");
    out.append(enum_name.as_str());
    out.append("::");
    out.append(variant_name.as_str());
    out.append("),\n");
    assert(out@ =~= old(out)@ + arm_text(enum_name@, variant_name@, *expr));
}

/// The source of the generated `from_discriminant` function for the enum: for
/// each unit variant in declaration order an equality test against its
/// resolved expression, and absence where none matches. Variants with a
/// payload get no arm.
pub fn generate_from_discriminant_function(repr_type: ReprType, enum_item: &EnumDefinition) -> (r:
    String)
    ensures
        r@ == from_discriminant_function_text(repr_type, *enum_item),
{
    let (variant_names, discriminants) = enum_unit_variants(enum_item);
    let ghost positions = unit_positions(enum_item.variants@);
    let ghost names = names_at(enum_item.variants@, positions);
    let ghost exprs = exprs_at(enum_item.variants@, positions);
    let mut out = String::from_str(
        "    /// Creates an enum variant from a discriminant numeric value if there is a unit\n    /// type variant with that value.\n    fn from_discriminant(discriminant: ",
    );
    out.append(repr_type.name());
    out.append(") -> Option<Self> {\n        match discriminant {\n");
    let ghost head = out@;
    assert(texts(variant_names@).len() == variant_names@.len());
    let mut k: usize = 0;
    while k < variant_names.len()
        invariant
            k <= variant_names@.len(),
            variant_names@.len() == positions.len(),
            discriminants@.len() == positions.len(),
            texts(variant_names@) == names,
            discriminants@ == exprs,
            out@ == head + arms_text(enum_item.name@, names, exprs, k as nat),
        decreases variant_names@.len() - k,
    {
        let ghost before = out@;
        write_arm(&mut out, &enum_item.name, &variant_names[k], &discriminants[k]);
        proof {
            assert(texts(variant_names@)[k as int] == variant_names@[k as int]@);
            assert(out@ =~= head + arms_text(enum_item.name@, names, exprs, (k + 1) as nat));
        }
        k += 1;
    }
    out.append("            _ => None,\n        }\n    }\n");
    assert(out@ =~= from_discriminant_function_text(repr_type, *enum_item));
    out
}

/// The block that gives the enum both functions as its own.
pub fn inherent_impl(repr_type: ReprType, enum_item: &EnumDefinition) -> (r: String)
    ensures
        r@ == inherent_impl_text(repr_type, *enum_item),
{
    let mut out = String::from_str("impl ");
    out.append(enum_item.name.as_str());
    out.append(" {\n");
    out.append(generate_from_discriminant_function(repr_type, enum_item).as_str());
    out.append("\n");
    out.append(generate_discriminant_function(repr_type).as_str());
    out.append("}\n");
    assert(out@ =~= inherent_impl_text(repr_type, *enum_item));
    out
}

/// The block that implements `IntoDiscriminant` for the enum.
pub fn into_discriminant_impl(repr_type: ReprType, enum_item: &EnumDefinition) -> (r: String)
    ensures
        r@ == into_discriminant_impl_text(repr_type, *enum_item),
{
    let mut out = String::from_str("impl IntoDiscriminant for ");
    out.append(enum_item.name.as_str());
    out.append(" {\n    type DiscriminantType = ");
    out.append(repr_type.name());
    out.append(";\n\n");
    out.append(generate_discriminant_function(repr_type).as_str());
    out.append("}\n");
    assert(out@ =~= into_discriminant_impl_text(repr_type, *enum_item));
    out
}

/// The block that implements `FromDiscriminant` for the enum.
pub fn from_discriminant_impl(repr_type: ReprType, enum_item: &EnumDefinition) -> (r: String)
    ensures
        r@ == from_discriminant_impl_text(repr_type, *enum_item),
{
    let mut out = String::from_str("impl FromDiscriminant for ");
    out.append(enum_item.name.as_str());
    out.append(" {\n    type DiscriminantType = ");
    out.append(repr_type.name());
    out.append(";\n\n");
    out.append(generate_from_discriminant_function(repr_type, enum_item).as_str());
    out.append("}\n");
    assert(out@ =~= from_discriminant_impl_text(repr_type, *enum_item));
    out
}

} // verus!
