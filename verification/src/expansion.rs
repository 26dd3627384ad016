//! What each of the three macros expands to for a given enum.

use crate::definition::EnumDefinition;
use crate::error::Error;
use crate::resolver::find_repr_type;
use crate::resolver::first_repr_type;
use crate::resolver::first_representation;
use crate::resolver::get_repr_args;
use crate::resolver::get_repr_type;
use crate::synthesizer::annotation_text;
use crate::synthesizer::from_discriminant_impl;
use crate::synthesizer::from_discriminant_impl_text;
use crate::synthesizer::inherent_impl;
use crate::synthesizer::inherent_impl_text;
use crate::synthesizer::into_discriminant_impl;
use crate::synthesizer::into_discriminant_impl_text;
use crate::synthesizer::repr_annotation;
use crate::token::read_stream;
use crate::token::stream_tokens;
use crate::token::token_views;
use crate::token::Token;
use crate::token::TokenView;
use proc_macro2::TokenStream;
use vstd::prelude::*;

verus! {

/// What the attribute macro puts around an enum: the annotation that goes
/// before the definition and the block that goes after it, as source text.
#[derive(Debug, PartialEq, Eq)]
pub struct Expansion {
    pub annotation: String,
    pub implementation: String,
}

/// Whether `expansion` is what the attribute macro generates for the
/// configuration `tokens` and the enum `item`, given that the tokens name the
/// type `repr`.
pub open spec fn is_expansion_of(
    expansion: Expansion,
    repr: crate::repr::ReprType,
    tokens: Seq<TokenView>,
    item: EnumDefinition,
) -> bool {
    &&& expansion.annotation@ == annotation_text(tokens)
    &&& expansion.implementation@ == inherent_impl_text(repr, item)
}

/// What the attribute macro generates for the configuration `tokens` and the
/// enum `item`: nothing where no token names an integer type.
pub fn expand(tokens: &Vec<Token>, item: &EnumDefinition) -> (r: Option<Expansion>)
    ensures
        match first_repr_type(token_views(tokens@)) {
            Some(repr) => r matches Some(x) && is_expansion_of(x, repr, token_views(tokens@), *item),
            None => r is None,
        },
{
    match find_repr_type(tokens) {
        Some(repr) => Some(
            Expansion {
                annotation: repr_annotation(tokens),
                implementation: inherent_impl(repr, item),
            },
        ),
        None => None,
    }
}

/// The attribute macro: for the configuration tokens and an enum, the
/// representation annotation and the block with `from_discriminant` and
/// `discriminant`. Where the configuration names no integer type, nothing is
/// generated and the error holds the configuration tokens.
pub fn discriminant(arguments: &TokenStream, item: &EnumDefinition) -> (r: Result<Expansion, Error>)
    ensures
        match first_repr_type(stream_tokens(*arguments)) {
            Some(repr) => r matches Ok(x) && is_expansion_of(
                x,
                repr,
                stream_tokens(*arguments),
                *item,
            ),
            None => {
                &&& r matches Err(e)
                &&& e is MissingRepresentationType
                &&& stream_tokens(e.location()) == stream_tokens(*arguments)
            },
        },
{
    match get_repr_type(arguments) {
        Ok(repr) => {
            let tokens = read_stream(arguments);
            Ok(
                Expansion {
                    annotation: repr_annotation(&tokens),
                    implementation: inherent_impl(repr, item),
                },
            )
        },
        Err(e) => Err(e),
    }
}

/// The outcome of a derive macro on `item`, by the block that it generates
/// for a representation type: the enum needs an attribute that gives the
/// representation, and that attribute has to name an integer type.
pub open spec fn derive_outcome(
    macro_name: Seq<char>,
    item: EnumDefinition,
    block: spec_fn(crate::repr::ReprType) -> Seq<char>,
    r: Result<String, Error>,
) -> bool {
    match first_representation(item.attributes@) {
        None => {
            &&& r matches Err(Error::MissingRepresentationAnnotation { macro_name: name, item: at })
            &&& name@ == macro_name
            &&& stream_tokens(at) == stream_tokens(item.tokens)
        },
        Some(arguments) => match first_repr_type(stream_tokens(arguments)) {
            None => {
                &&& r matches Err(e)
                &&& e is MissingRepresentationType
                &&& stream_tokens(e.location()) == stream_tokens(arguments)
            },
            Some(repr) => r matches Ok(text) && text@ == block(repr),
        },
    }
}

/// The derive macro for `IntoDiscriminant`: the block that implements the
/// trait for the enum, with the representation type taken from the enum's
/// first `#[repr(..)]` or `#[discriminant(..)]` attribute.
pub fn derive_into_discriminant(item: &EnumDefinition) -> (r: Result<String, Error>)
    ensures
        derive_outcome(
            "IntoDiscriminant"@,
            *item,
            |repr: crate::repr::ReprType| into_discriminant_impl_text(repr, *item),
            r,
        ),
{
    let repr_args = match get_repr_args("IntoDiscriminant", item) {
        Ok(arguments) => arguments,
        Err(e) => {
            return Err(e);
        },
    };
    match get_repr_type(&repr_args) {
        Ok(repr) => Ok(into_discriminant_impl(repr, item)),
        Err(e) => Err(e),
    }
}

/// The derive macro for `FromDiscriminant`: the block that implements the
/// trait for the enum, with the representation type taken from the enum's
/// first `#[repr(..)]` or `#[discriminant(..)]` attribute.
pub fn derive_from_discriminant(item: &EnumDefinition) -> (r: Result<String, Error>)
    ensures
        derive_outcome(
            "FromDiscriminant"@,
            *item,
            |repr: crate::repr::ReprType| from_discriminant_impl_text(repr, *item),
            r,
        ),
{
    let repr_args = match get_repr_args("FromDiscriminant", item) {
        Ok(arguments) => arguments,
        Err(e) => {
            return Err(e);
        },
    };
    match get_repr_type(&repr_args) {
        Ok(repr) => Ok(from_discriminant_impl(repr, item)),
        Err(e) => Err(e),
    }
}

} // verus!
