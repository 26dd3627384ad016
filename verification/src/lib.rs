//! Discriminant analysis for enums: which integer type stores the tag, which
//! value every variant gets, and the two conversions between variants and tags.
//!
//! The resolver picks the representation type from the configuration tokens,
//! the analyzer resolves every variant's discriminant expression, and the
//! synthesizer writes the source of `from_discriminant` and `discriminant`.
//! The layout module says what those two compute, as numbers.

pub mod analysis;
pub mod definition;
pub mod error;
pub mod expansion;
pub mod expr;
pub mod layout;
pub mod repr;
pub mod resolver;
pub mod synthesizer;
pub mod token;
pub mod traits;
pub mod value;

pub use expansion::derive_from_discriminant;
pub use expansion::derive_into_discriminant;
pub use expansion::discriminant;
pub use traits::FromDiscriminant;
pub use traits::IntoDiscriminant;
