//! Configuration tokens: what the analysis reads of a token stream.

use proc_macro2::TokenStream;
use vstd::prelude::*;

verus! {

/// What kind of token tree a token is.
#[derive(Clone, Copy, Debug, PartialEq, Eq, Structural)]
pub enum TokenKind {
    /// A delimited group, such as `(4)`.
    Group,
    /// An identifier, such as `u8` or `C`.
    Ident,
    /// A punctuation character followed by something else than punctuation.
    Punct,
    /// A punctuation character that the next one follows immediately.
    JointPunct,
    /// A literal, such as `4`.
    Literal,
}

/// One top-level token tree of a stream, as text.
#[derive(Debug, PartialEq, Eq)]
pub struct Token {
    pub kind: TokenKind,
    pub text: String,
}

impl Clone for Token {
    fn clone(&self) -> (r: Token)
        ensures
            r == *self,
    {
        Token { kind: self.kind, text: self.text.clone() }
    }
}

/// A token's kind and the characters of its text.
pub struct TokenView {
    pub kind: TokenKind,
    pub text: Seq<char>,
}

impl View for Token {
    type V = TokenView;

    open spec fn view(&self) -> TokenView {
        TokenView { kind: self.kind, text: self.text@ }
    }
}

/// The views of a list of tokens.
pub open spec fn token_views(tokens: Seq<Token>) -> Seq<TokenView> {
    tokens.map_values(|t: Token| t@)
}

#[verifier::external_type_specification]
#[verifier::external_body]
pub struct ExTokenStream(TokenStream);

/// The top-level token trees of a stream in order, each with its kind and with
/// the text that it displays as.
pub uninterp spec fn stream_tokens(stream: TokenStream) -> Seq<TokenView>;

/// Iterates over a `proc_macro2::TokenStream` and turns each `TokenTree` into a
/// `Token`: the kind is the tree's variant, with `Punct::spacing` telling the
/// two kinds of punctuation apart, and the text is the tree's `to_string`.
/// The contract names that list and claims nothing else of it.
#[verifier::external_body]
pub(crate) fn read_stream(stream: &TokenStream) -> (tokens: Vec<Token>)
    ensures
        token_views(tokens@) == stream_tokens(*stream),
{
    stream.clone().into_iter().map(|tree| Token {
        kind: match &tree {
            proc_macro2::TokenTree::Group(_) => TokenKind::Group,
            proc_macro2::TokenTree::Ident(_) => TokenKind::Ident,
            proc_macro2::TokenTree::Literal(_) => TokenKind::Literal,
            proc_macro2::TokenTree::Punct(p) => match p.spacing() {
                proc_macro2::Spacing::Alone => TokenKind::Punct,
                proc_macro2::Spacing::Joint => TokenKind::JointPunct,
            },
        },
        text: tree.to_string(),
    }).collect()
}

/// `Clone::clone` of a `proc_macro2::TokenStream`: the copy holds the same
/// token trees.
pub assume_specification[ <TokenStream as Clone>::clone ](stream: &TokenStream) -> (r: TokenStream)
    ensures
        stream_tokens(r) == stream_tokens(*stream),
;

/// The tokens `::core::compile_error!` that open a rendered diagnostic.
pub open spec fn compile_error_path() -> Seq<TokenView> {
    seq![
        TokenView { kind: TokenKind::JointPunct, text: seq![':'] },
        TokenView { kind: TokenKind::Punct, text: seq![':'] },
        TokenView { kind: TokenKind::Ident, text: "core"@ },
        TokenView { kind: TokenKind::JointPunct, text: seq![':'] },
        TokenView { kind: TokenKind::Punct, text: seq![':'] },
        TokenView { kind: TokenKind::Ident, text: "compile_error"@ },
        TokenView { kind: TokenKind::Punct, text: seq!['!'] },
    ]
}

/// The text of the braced group that holds a diagnostic's message as one
/// string literal.
pub uninterp spec fn compile_error_body(message: Seq<char>) -> Seq<char>;

/// Builds a `syn::Error` with `syn::Error::new_spanned`, which takes the
/// source location from `tokens` and the text from `message`, and renders it
/// with `syn::Error::to_compile_error`. The contract claims the shape of what
/// comes out: the seven tokens of `::core::compile_error!`, then one group,
/// whose text depends on the message alone.
#[verifier::external_body]
pub(crate) fn render_diagnostic(tokens: &TokenStream, message: &str) -> (r: TokenStream)
    ensures
        stream_tokens(r) == compile_error_path().push(
            TokenView { kind: TokenKind::Group, text: compile_error_body(message@) },
        ),
{
    syn::Error::new_spanned(tokens, message).to_compile_error()
}

} // verus!
