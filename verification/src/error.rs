//! What can go wrong before any code is generated.

use crate::token::render_diagnostic;
use crate::token::compile_error_body;
use crate::token::compile_error_path;
use crate::token::stream_tokens;
use crate::token::TokenKind;
use crate::token::TokenView;
use proc_macro2::TokenStream;
use vstd::prelude::*;
use vstd::string::StringExecFns;

verus! {

/// Why no code was generated for an enum.
#[derive(Debug)]
pub enum Error {
    /// No configuration token names an integer type. `arguments` are the
    /// configuration tokens, at which the diagnostic points.
    MissingRepresentationType { arguments: TokenStream },
    /// The enum has no `#[repr(..)]` and no `#[discriminant(..)]` attribute.
    /// `item` are the enum's tokens, at which the diagnostic points.
    MissingRepresentationAnnotation { macro_name: String, item: TokenStream },
}

impl Error {
    /// The diagnostic's text.
    pub open spec fn message_text(self) -> Seq<char> {
        match self {
            Error::MissingRepresentationType { .. } =>
                "Valid enum representation type expected as argument to the discriminant macro, e.g., #[discriminant(u8)]"@,
            Error::MissingRepresentationAnnotation { macro_name, .. } => "When deriving "@
                + macro_name@
                + " on an enum, you also need to specify representation type with #[repr()] or #[discriminant()]"@,
        }
    }

    /// The tokens at which the diagnostic points.
    pub open spec fn location(self) -> TokenStream {
        match self {
            Error::MissingRepresentationType { arguments } => arguments,
            Error::MissingRepresentationAnnotation { item, .. } => item,
        }
    }

    /// The diagnostic's text.
    pub fn message(&self) -> (r: String)
        ensures
            r@ == self.message_text(),
    {
        match self {
            Error::MissingRepresentationType { .. } => String::from_str(
                "Valid enum representation type expected as argument to the discriminant macro, e.g., #[discriminant(u8)]",
            ),
            Error::MissingRepresentationAnnotation { macro_name, .. } => {
                let mut text = String::from_str("When deriving ");
                text.append(macro_name.as_str());
                text.append(
                    " on an enum, you also need to specify representation type with #[repr()] or #[discriminant()]",
                );
                text
            },
        }
    }

    /// The diagnostic as tokens that make the compiler report it: an
    /// invocation of `compile_error!` with the message, located at the tokens
    /// that the error holds.
    pub fn to_compile_error(&self) -> (r: TokenStream)
        ensures
            stream_tokens(r) == compile_error_path().push(
                TokenView {
                    kind: TokenKind::Group,
                    text: compile_error_body(self.message_text()),
                },
            ),
    {
        let message = self.message();
        match self {
            Error::MissingRepresentationType { arguments } => render_diagnostic(
                arguments,
                message.as_str(),
            ),
            Error::MissingRepresentationAnnotation { item, .. } => render_diagnostic(
                item,
                message.as_str(),
            ),
        }
    }
}

} // verus!
