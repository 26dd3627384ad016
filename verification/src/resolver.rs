//! The representation resolver: which integer type the configuration names.

use crate::definition::Attribute;
use crate::definition::EnumDefinition;
use crate::error::Error;
use crate::repr::ReprType;
use crate::token::read_stream;
use crate::token::stream_tokens;
use crate::token::token_views;
use crate::token::Token;
use crate::token::TokenKind;
use crate::token::TokenView;
use proc_macro2::TokenStream;
use vstd::prelude::*;
use vstd::string::StringExecFns;

verus! {

/// The integer type that a token names: the token is an identifier and its
/// text is one of the twelve names.
pub open spec fn recognized(token: TokenView) -> Option<ReprType> {
    if token.kind == TokenKind::Ident {
        ReprType::named(token.text)
    } else {
        None
    }
}

/// The type named by the first token that names one.
pub open spec fn first_repr_type(tokens: Seq<TokenView>) -> Option<ReprType>
    decreases tokens.len(),
{
    if tokens.len() == 0 {
        None
    } else {
        match recognized(tokens.first()) {
            Some(repr) => Some(repr),
            None => first_repr_type(tokens.drop_first()),
        }
    }
}

/// Whether an attribute gives the representation: an outer attribute of the
/// form `#[repr(..)]` or `#[discriminant(..)]`.
pub open spec fn gives_representation(attribute: Attribute) -> bool {
    &&& attribute.outer
    &&& attribute.name matches Some(name)
    &&& (name@ == "repr"@ || name@ == "discriminant"@)
    &&& attribute.arguments is Some
}

/// The arguments of the first attribute that gives the representation.
pub open spec fn first_representation(attributes: Seq<Attribute>) -> Option<TokenStream>
    decreases attributes.len(),
{
    if attributes.len() == 0 {
        None
    } else if gives_representation(attributes.first()) {
        attributes.first().arguments
    } else {
        first_representation(attributes.drop_first())
    }
}

/// The integer type that one token names, if it names one.
pub fn recognize(token: &Token) -> (r: Option<ReprType>)
    ensures
        r == recognized(token@),
{
    match token.kind {
        TokenKind::Ident => ReprType::from_name(token.text.as_str()),
        _ => None,
    }
}

/// The type named by the first of `tokens` that names one. Tokens that name
/// none are passed over, and so is every token after the first that does.
pub fn find_repr_type(tokens: &Vec<Token>) -> (r: Option<ReprType>)
    ensures
        r == first_repr_type(token_views(tokens@)),
{
    let ghost views = token_views(tokens@);
    let mut i: usize = 0;
    assert(views.skip(0) =~= views);
    while i < tokens.len()
        invariant
            views == token_views(tokens@),
            i <= tokens@.len(),
            first_repr_type(views) == first_repr_type(views.skip(i as int)),
        decreases tokens@.len() - i,
    {
        proof {
            assert(views.skip(i as int).first() == tokens@[i as int]@);
            assert(views.skip(i as int).drop_first() =~= views.skip(i + 1));
        }
        match recognize(&tokens[i]) {
            Some(repr) => {
                return Some(repr);
            },
            None => {},
        }
        i += 1;
    }
    None
}

/// The representation type that the configuration tokens name: the first
/// recognized integer type among the top-level tokens. Where none is named,
/// the error holds the configuration tokens.
pub fn get_repr_type(arguments: &TokenStream) -> (r: Result<ReprType, Error>)
    ensures
        match r {
            Ok(repr) => first_repr_type(stream_tokens(*arguments)) == Some(repr),
            Err(e) => {
                &&& first_repr_type(stream_tokens(*arguments)) is None
                &&& e is MissingRepresentationType
                &&& stream_tokens(e.location()) == stream_tokens(*arguments)
            },
        },
{
    let tokens = read_stream(arguments);
    match find_repr_type(&tokens) {
        Some(repr) => Ok(repr),
        None => Err(Error::MissingRepresentationType { arguments: arguments.clone() }),
    }
}

/// Whether an attribute gives the representation.
pub fn is_representation(attribute: &Attribute) -> (r: bool)
    ensures
        r == gives_representation(*attribute),
{
    if !attribute.outer || attribute.arguments.is_none() {
        return false;
    }
    match &attribute.name {
        Some(name) => *name == String::from_str("repr") || *name == String::from_str(
            "discriminant",
        ),
        None => false,
    }
}

/// The arguments of the first `#[repr(..)]` or `#[discriminant(..)]` attribute
/// of the enum. Where it has none, the error names the macro and holds the
/// enum's tokens.
pub fn get_repr_args(macro_name: &str, input: &EnumDefinition) -> (r: Result<TokenStream, Error>)
    ensures
        match r {
            Ok(arguments) => {
                &&& first_representation(input.attributes@) matches Some(found)
                &&& stream_tokens(arguments) == stream_tokens(found)
            },
            Err(e) => {
                &&& first_representation(input.attributes@) is None
                &&& e matches Error::MissingRepresentationAnnotation { macro_name: name, item }
                &&& name@ == macro_name@
                &&& stream_tokens(item) == stream_tokens(input.tokens)
            },
        },
{
    let ghost all = input.attributes@;
    let mut i: usize = 0;
    assert(all.skip(0) =~= all);
    while i < input.attributes.len()
        invariant
            all == input.attributes@,
            i <= all.len(),
            first_representation(all) == first_representation(all.skip(i as int)),
        decreases all.len() - i,
    {
        proof {
            assert(all.skip(i as int).first() == all[i as int]);
            assert(all.skip(i as int).drop_first() =~= all.skip(i + 1));
        }
        let attribute = &input.attributes[i];
        if is_representation(attribute) {
            match &attribute.arguments {
                Some(arguments) => {
                    return Ok(arguments.clone());
                },
                None => {},
            }
        }
        i += 1;
    }
    Err(
        Error::MissingRepresentationAnnotation {
            macro_name: String::from_str(macro_name),
            item: input.tokens.clone(),
        },
    )
}

/// The first recognized token decides: the resolved type is the type of some
/// token before which no token names a type, and where no token names a type
/// none is resolved.
pub proof fn lemma_first_repr_type(tokens: Seq<TokenView>)
    ensures
        match first_repr_type(tokens) {
            Some(repr) => exists|i: int|
                0 <= i < tokens.len() && #[trigger] recognized(tokens[i]) == Some(repr) && forall|
                    j: int,
                | 0 <= j < i ==> #[trigger] recognized(tokens[j]) is None,
            None => forall|i: int| 0 <= i < tokens.len() ==> #[trigger] recognized(tokens[i]) is None,
        },
    decreases tokens.len(),
{
    if tokens.len() > 0 {
        let rest = tokens.drop_first();
        lemma_first_repr_type(rest);
        match recognized(tokens.first()) {
            Some(repr) => {
                assert(recognized(tokens[0]) == Some(repr));
            },
            None => {
                assert(forall|i: int| 0 <= i < rest.len() ==> rest[i] == tokens[i + 1]);
                match first_repr_type(rest) {
                    Some(repr) => {
                        let i = choose|i: int|
                            0 <= i < rest.len() && #[trigger] recognized(rest[i]) == Some(repr)
                                && forall|j: int|
                                0 <= j < i ==> #[trigger] recognized(rest[j]) is None;
                        assert(recognized(tokens[i + 1]) == Some(repr));
                        assert forall|j: int| 0 <= j < i + 1 implies #[trigger] recognized(
                            tokens[j],
                        ) is None by {
                            if j > 0 {
                                assert(rest[j - 1] == tokens[j]);
                            }
                        }
                    },
                    None => {
                        assert forall|i: int| 0 <= i < tokens.len() implies #[trigger] recognized(
                            tokens[i],
                        ) is None by {
                            if i > 0 {
                                assert(rest[i - 1] == tokens[i]);
                            }
                        }
                    },
                }
            },
        }
    }
}

/// A token after the others decides only where none of the others names a
/// type.
pub proof fn lemma_first_repr_type_push(tokens: Seq<TokenView>, token: TokenView)
    ensures
        first_repr_type(tokens.push(token)) == match first_repr_type(tokens) {
            Some(repr) => Some(repr),
            None => recognized(token),
        },
    decreases tokens.len(),
{
    let longer = tokens.push(token);
    if tokens.len() == 0 {
        assert(longer.drop_first() =~= Seq::<TokenView>::empty());
        assert(first_repr_type(longer.drop_first()) is None);
    } else {
        assert(longer.first() == tokens.first());
        assert(longer.drop_first() =~= tokens.drop_first().push(token));
        lemma_first_repr_type_push(tokens.drop_first(), token);
    }
}

} // verus!
