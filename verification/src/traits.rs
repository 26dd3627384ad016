//! The two conversions as traits, for code that handles enums by their
//! discriminants without knowing the enum.

use crate::definition::Shape;
use crate::repr::ReprType;
use vstd::prelude::*;

verus! {

/// Trait for converting enum variants to their discriminant values.
pub trait IntoDiscriminant {
    type DiscriminantType;

    /// Returns the discriminant numeric value of an enum variant.
    fn discriminant(&self) -> Self::DiscriminantType;
}

/// Trait for creating enum unit variants from their discriminant values.
pub trait FromDiscriminant {
    type DiscriminantType;

    /// Creates an enum variant from its discriminant numeric value.
    fn from_discriminant(discriminant: Self::DiscriminantType) -> Option<Self> where Self: Sized;
}

impl Shape {
    /// The discriminant of a shape: its place in the declaration.
    pub open spec fn discriminant_value(self) -> u8 {
        match self {
            Shape::Unit => 0,
            Shape::Tuple => 1,
            Shape::Record => 2,
        }
    }

    /// The shape with the given discriminant, if there is one.
    pub open spec fn variant_with(discriminant: u8) -> Option<Shape> {
        if discriminant == 0 {
            Some(Shape::Unit)
        } else if discriminant == 1 {
            Some(Shape::Tuple)
        } else if discriminant == 2 {
            Some(Shape::Record)
        } else {
            None
        }
    }
}

impl IntoDiscriminant for Shape {
    type DiscriminantType = u8;

    fn discriminant(&self) -> (d: u8)
        ensures
            d == self.discriminant_value(),
    {
        match self {
            Shape::Unit => 0,
            Shape::Tuple => 1,
            Shape::Record => 2,
        }
    }
}

impl FromDiscriminant for Shape {
    type DiscriminantType = u8;

    fn from_discriminant(discriminant: u8) -> (r: Option<Shape>)
        ensures
            r == Shape::variant_with(discriminant),
    {
        if discriminant == 0 {
            Some(Shape::Unit)
        } else if discriminant == 1 {
            Some(Shape::Tuple)
        } else if discriminant == 2 {
            Some(Shape::Record)
        } else {
            None
        }
    }
}

impl ReprType {
    /// The discriminant of a type: its place in the declaration.
    pub open spec fn discriminant_value(self) -> u8 {
        match self {
            ReprType::U8 => 0,
            ReprType::U16 => 1,
            ReprType::U32 => 2,
            ReprType::U64 => 3,
            ReprType::U128 => 4,
            ReprType::Usize => 5,
            ReprType::I8 => 6,
            ReprType::I16 => 7,
            ReprType::I32 => 8,
            ReprType::I64 => 9,
            ReprType::I128 => 10,
            ReprType::Isize => 11,
        }
    }

    /// The type with the given discriminant, if there is one.
    pub open spec fn variant_with(discriminant: u8) -> Option<ReprType> {
        if discriminant == 0 {
            Some(ReprType::U8)
        } else if discriminant == 1 {
            Some(ReprType::U16)
        } else if discriminant == 2 {
            Some(ReprType::U32)
        } else if discriminant == 3 {
            Some(ReprType::U64)
        } else if discriminant == 4 {
            Some(ReprType::U128)
        } else if discriminant == 5 {
            Some(ReprType::Usize)
        } else if discriminant == 6 {
            Some(ReprType::I8)
        } else if discriminant == 7 {
            Some(ReprType::I16)
        } else if discriminant == 8 {
            Some(ReprType::I32)
        } else if discriminant == 9 {
            Some(ReprType::I64)
        } else if discriminant == 10 {
            Some(ReprType::I128)
        } else if discriminant == 11 {
            Some(ReprType::Isize)
        } else {
            None
        }
    }
}

impl IntoDiscriminant for ReprType {
    type DiscriminantType = u8;

    fn discriminant(&self) -> (d: u8)
        ensures
            d == self.discriminant_value(),
    {
        match self {
            ReprType::U8 => 0,
            ReprType::U16 => 1,
            ReprType::U32 => 2,
            ReprType::U64 => 3,
            ReprType::U128 => 4,
            ReprType::Usize => 5,
            ReprType::I8 => 6,
            ReprType::I16 => 7,
            ReprType::I32 => 8,
            ReprType::I64 => 9,
            ReprType::I128 => 10,
            ReprType::Isize => 11,
        }
    }
}

impl FromDiscriminant for ReprType {
    type DiscriminantType = u8;

    fn from_discriminant(discriminant: u8) -> (r: Option<ReprType>)
        ensures
            r == ReprType::variant_with(discriminant),
    {
        if discriminant == 0 {
            Some(ReprType::U8)
        } else if discriminant == 1 {
            Some(ReprType::U16)
        } else if discriminant == 2 {
            Some(ReprType::U32)
        } else if discriminant == 3 {
            Some(ReprType::U64)
        } else if discriminant == 4 {
            Some(ReprType::U128)
        } else if discriminant == 5 {
            Some(ReprType::Usize)
        } else if discriminant == 6 {
            Some(ReprType::I8)
        } else if discriminant == 7 {
            Some(ReprType::I16)
        } else if discriminant == 8 {
            Some(ReprType::I32)
        } else if discriminant == 9 {
            Some(ReprType::I64)
        } else if discriminant == 10 {
            Some(ReprType::I128)
        } else if discriminant == 11 {
            Some(ReprType::Isize)
        } else {
            None
        }
    }
}

/// Both enums round-trip: the discriminant of a variant leads back to it, and
/// a discriminant that leads to a variant is that variant's.
pub proof fn lemma_own_enums_round_trip(shape: Shape, repr: ReprType, d: u8)
    ensures
        Shape::variant_with(shape.discriminant_value()) == Some(shape),
        ReprType::variant_with(repr.discriminant_value()) == Some(repr),
        Shape::variant_with(d) == Some(shape) ==> shape.discriminant_value() == d,
        ReprType::variant_with(d) == Some(repr) ==> repr.discriminant_value() == d,
{
}

} // verus!
