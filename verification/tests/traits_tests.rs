use enum_discriminant::definition::Shape;
use enum_discriminant::repr::ReprType;
use enum_discriminant::FromDiscriminant;
use enum_discriminant::IntoDiscriminant;

#[derive(Debug, PartialEq)]
enum Level {
    Low,
    High,
}

impl IntoDiscriminant for Level {
    type DiscriminantType = u8;

    fn discriminant(&self) -> u8 {
        match self {
            Level::Low => 1,
            Level::High => 9,
        }
    }
}

impl FromDiscriminant for Level {
    type DiscriminantType = u8;

    fn from_discriminant(discriminant: u8) -> Option<Self> {
        match discriminant {
            discriminant if discriminant == 1 => Some(Level::Low),
            discriminant if discriminant == 9 => Some(Level::High),
            _ => None,
        }
    }
}

#[test]
fn traits_can_be_implemented_by_hand() {
    assert_eq!(9, Level::High.discriminant());
    assert_eq!(Some(Level::Low), Level::from_discriminant(1));
    assert_eq!(None, Level::from_discriminant(2));
}

#[test]
fn shapes_round_trip_through_their_discriminants() {
    assert_eq!(0, Shape::Unit.discriminant());
    assert_eq!(1, Shape::Tuple.discriminant());
    assert_eq!(2, Shape::Record.discriminant());
    for shape in [Shape::Unit, Shape::Tuple, Shape::Record] {
        assert_eq!(Some(shape), Shape::from_discriminant(shape.discriminant()));
    }
    assert_eq!(None, Shape::from_discriminant(3));
}

#[test]
fn repr_types_round_trip_through_their_discriminants() {
    let all = [
        ReprType::U8,
        ReprType::U16,
        ReprType::U32,
        ReprType::U64,
        ReprType::U128,
        ReprType::Usize,
        ReprType::I8,
        ReprType::I16,
        ReprType::I32,
        ReprType::I64,
        ReprType::I128,
        ReprType::Isize,
    ];
    for (place, repr) in all.iter().enumerate() {
        assert_eq!(place as u8, repr.discriminant());
        assert_eq!(Some(*repr), ReprType::from_discriminant(place as u8));
    }
    assert_eq!(None, ReprType::from_discriminant(12));
}
