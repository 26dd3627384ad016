use enum_discriminant::expr::write_decimal;
use enum_discriminant::expr::Expr;
use enum_discriminant::repr::ReprType;
use enum_discriminant::value::Value;

fn lit(v: u128) -> Box<Expr> {
    Box::new(Expr::Literal(v))
}

fn decimal(n: u128) -> String {
    let mut out = String::from("=");
    write_decimal(&mut out, n);
    out
}

#[test]
fn decimal_digits_are_written_in_order() {
    assert_eq!("=0", decimal(0));
    assert_eq!("=7", decimal(7));
    assert_eq!("=10", decimal(10));
    assert_eq!("=65000", decimal(65000));
    assert_eq!(
        "=340282366920938463463374607431768211455",
        decimal(u128::MAX)
    );
}

#[test]
fn values_convert_from_and_to_integers() {
    assert_eq!(Value::NonNegative(17), Value::from_u128(17));
    assert_eq!(Value::NonNegative(17), Value::from_i128(17));
    assert_eq!(Value::Negative(16), Value::from_i128(-17));
    assert_eq!(Value::Negative(0), Value::from_i128(-1));
    assert_eq!(Value::NonNegative(0), Value::from_i128(0));
    assert_eq!(Value::Negative(i128::MAX as u128), Value::from_i128(i128::MIN));

    assert_eq!(Some(-17), Value::from_i128(-17).to_i128());
    assert_eq!(Some(i128::MIN), Value::from_i128(i128::MIN).to_i128());
    assert_eq!(Some(i128::MAX), Value::from_i128(i128::MAX).to_i128());
    assert_eq!(None, Value::from_u128(u128::MAX).to_i128());
    assert_eq!(None, Value::Negative(u128::MAX).to_i128());
    assert_eq!(Some(u128::MAX), Value::from_u128(u128::MAX).to_u128());
    assert_eq!(None, Value::from_i128(-1).to_u128());

    assert!(Value::from_i128(-1).is_negative());
    assert!(!Value::from_i128(0).is_negative());
    assert!(Value::from_i128(-2).le(&Value::from_i128(-1)));
    assert!(!Value::from_i128(-1).le(&Value::from_i128(-2)));
    assert!(Value::from_i128(-1).le(&Value::from_u128(0)));
    assert!(!Value::from_u128(0).le(&Value::from_i128(-1)));
    assert!(Value::from_u128(3).le(&Value::from_u128(3)));
}

#[test]
fn type_ranges_are_those_of_the_integer_types() {
    assert_eq!(Value::from_i128(-128), ReprType::I8.min_value());
    assert_eq!(Value::from_i128(127), ReprType::I8.max_value());
    assert_eq!(Value::from_i128(0), ReprType::U8.min_value());
    assert_eq!(Value::from_i128(255), ReprType::U8.max_value());
    assert_eq!(Value::from_i128(i16::MIN as i128), ReprType::I16.min_value());
    assert_eq!(Value::from_u128(u16::MAX as u128), ReprType::U16.max_value());
    assert_eq!(Value::from_i128(i32::MIN as i128), ReprType::I32.min_value());
    assert_eq!(Value::from_u128(u32::MAX as u128), ReprType::U32.max_value());
    assert_eq!(Value::from_i128(i64::MIN as i128), ReprType::I64.min_value());
    assert_eq!(Value::from_u128(u64::MAX as u128), ReprType::U64.max_value());
    assert_eq!(Value::from_i128(i128::MIN), ReprType::I128.min_value());
    assert_eq!(Value::from_i128(i128::MAX), ReprType::I128.max_value());
    assert_eq!(Value::from_u128(u128::MAX), ReprType::U128.max_value());
    assert_eq!(
        Value::from_i128(isize::MIN as i128),
        ReprType::Isize.min_value()
    );
    assert_eq!(
        Value::from_u128(usize::MAX as u128),
        ReprType::Usize.max_value()
    );
    assert!(ReprType::I8.contains(&Value::from_i128(-128)));
    assert!(!ReprType::I8.contains(&Value::from_i128(-129)));
    assert!(!ReprType::I8.contains(&Value::from_i128(128)));
    assert!(!ReprType::U8.contains(&Value::from_i128(-1)));
    assert!(ReprType::I8.is_signed());
    assert!(!ReprType::Usize.is_signed());
}

#[test]
fn arithmetic_is_checked_in_the_type() {
    let v = Value::from_i128;
    assert_eq!(Some(v(7)), ReprType::U8.checked_add(v(4), v(3)));
    assert_eq!(Some(v(255)), ReprType::U8.checked_add(v(200), v(55)));
    assert_eq!(None, ReprType::U8.checked_add(v(200), v(56)));
    assert_eq!(None, ReprType::U8.checked_add(v(256), v(0)));
    assert_eq!(Some(v(-128)), ReprType::I8.checked_add(v(-100), v(-28)));
    assert_eq!(None, ReprType::I8.checked_add(v(-100), v(-29)));
    assert_eq!(Some(v(-1)), ReprType::I8.checked_add(v(-100), v(99)));
    assert_eq!(Some(v(0)), ReprType::I8.checked_add(v(-100), v(100)));
    assert_eq!(Some(v(1)), ReprType::I8.checked_add(v(101), v(-100)));
    assert_eq!(Some(v(-1)), ReprType::I8.checked_add(v(99), v(-100)));
    assert_eq!(
        None,
        ReprType::U128.checked_add(Value::from_u128(u128::MAX), v(1))
    );
    assert_eq!(
        None,
        ReprType::I128.checked_add(v(i128::MIN), v(-1))
    );

    assert_eq!(Some(v(1)), ReprType::U8.checked_sub(v(4), v(3)));
    assert_eq!(None, ReprType::U8.checked_sub(v(3), v(4)));
    assert_eq!(Some(v(-1)), ReprType::I8.checked_sub(v(3), v(4)));
    assert_eq!(Some(v(127)), ReprType::I8.checked_sub(v(27), v(-100)));
    assert_eq!(None, ReprType::I8.checked_sub(v(28), v(-100)));
    assert_eq!(Some(v(-128)), ReprType::I8.checked_sub(v(-100), v(28)));
    assert_eq!(None, ReprType::I8.checked_sub(v(-100), v(29)));
    assert_eq!(Some(v(1)), ReprType::I8.checked_sub(v(-4), v(-5)));
    assert_eq!(Some(v(-1)), ReprType::I8.checked_sub(v(-5), v(-4)));
    assert_eq!(
        None,
        ReprType::I128.checked_sub(v(i128::MAX), v(-1))
    );

    assert_eq!(Some(v(12)), ReprType::U8.checked_mul(v(4), v(3)));
    assert_eq!(None, ReprType::U8.checked_mul(v(16), v(16)));
    assert_eq!(Some(v(-128)), ReprType::I8.checked_mul(v(-64), v(2)));
    assert_eq!(None, ReprType::I8.checked_mul(v(64), v(2)));
    assert_eq!(Some(v(12)), ReprType::I8.checked_mul(v(-4), v(-3)));
    assert_eq!(Some(v(0)), ReprType::I8.checked_mul(v(-4), v(0)));
    assert_eq!(
        None,
        ReprType::U128.checked_mul(Value::from_u128(u128::MAX), v(2))
    );

    assert_eq!(Some(v(-4)), ReprType::I8.checked_neg(v(4)));
    assert_eq!(Some(v(4)), ReprType::I8.checked_neg(v(-4)));
    assert_eq!(Some(v(0)), ReprType::I8.checked_neg(v(0)));
    assert_eq!(None, ReprType::I8.checked_neg(v(-128)));
    assert_eq!(None, ReprType::U8.checked_neg(v(4)));
    assert_eq!(None, ReprType::U8.checked_neg(v(0)));

    assert_eq!(Some(v(255)), ReprType::U8.check(v(255)));
    assert_eq!(None, ReprType::U8.check(v(256)));
}

#[test]
fn expressions_have_their_value_in_the_type() {
    let v = Value::from_i128;
    assert_eq!(Some(v(17)), Expr::Literal(17).evaluate(ReprType::U8));
    assert_eq!(Some(v(255)), Expr::Literal(255).evaluate(ReprType::U8));
    assert_eq!(None, Expr::Literal(256).evaluate(ReprType::U8));
    assert_eq!(Some(v(256)), Expr::Literal(256).evaluate(ReprType::U16));
    assert_eq!(
        Some(v(7)),
        Expr::Add(lit(4), lit(3)).evaluate(ReprType::U8)
    );
    assert_eq!(
        Some(v(1)),
        Expr::Sub(lit(4), lit(3)).evaluate(ReprType::U8)
    );
    assert_eq!(None, Expr::Sub(lit(3), lit(4)).evaluate(ReprType::U8));
    assert_eq!(
        Some(v(-1)),
        Expr::Sub(lit(3), lit(4)).evaluate(ReprType::I8)
    );
    assert_eq!(
        Some(v(12)),
        Expr::Mul(lit(4), lit(3)).evaluate(ReprType::U8)
    );
    assert_eq!(
        Some(v(14)),
        Expr::Mul(
            Box::new(Expr::Paren(Box::new(Expr::Add(lit(4), lit(3))))),
            lit(2)
        )
        .evaluate(ReprType::U8)
    );
    // An intermediate result outside the type has no value, as in the compiler.
    assert_eq!(
        None,
        Expr::Sub(Box::new(Expr::Add(lit(200), lit(100))), lit(100)).evaluate(ReprType::U8)
    );
    assert_eq!(
        None,
        Expr::Opaque("FIRST as u8".to_string()).evaluate(ReprType::U8)
    );
    assert_eq!(
        None,
        Expr::Add(lit(1), Box::new(Expr::Opaque("FIRST".to_string()))).evaluate(ReprType::U8)
    );
}

#[test]
fn negative_discriminants_work_for_all_signed_types() {
    let signed = [
        ReprType::I8,
        ReprType::I16,
        ReprType::I32,
        ReprType::I64,
        ReprType::I128,
        ReprType::Isize,
    ];
    for repr in signed {
        assert_eq!(
            Some(Value::from_i128(-17)),
            Expr::Neg(lit(17)).evaluate(repr)
        );
    }
    let unsigned = [
        ReprType::U8,
        ReprType::U16,
        ReprType::U32,
        ReprType::U64,
        ReprType::U128,
        ReprType::Usize,
    ];
    for repr in unsigned {
        assert_eq!(None, Expr::Neg(lit(17)).evaluate(repr));
        assert_eq!(None, Expr::Neg(lit(0)).evaluate(repr));
    }
    // The least value of a type is a negated literal that the type itself
    // does not hold.
    assert_eq!(
        Some(Value::from_i128(-128)),
        Expr::Neg(lit(128)).evaluate(ReprType::I8)
    );
    assert_eq!(None, Expr::Neg(lit(129)).evaluate(ReprType::I8));
    // Parentheses around the literal change nothing.
    assert_eq!(
        Some(Value::from_i128(-128)),
        Expr::Neg(Box::new(Expr::Paren(lit(128)))).evaluate(ReprType::I8)
    );
    assert_eq!(
        Some(Value::from_i128(-128)),
        Expr::Neg(Box::new(Expr::Paren(Box::new(Expr::Paren(lit(128)))))).evaluate(ReprType::I8)
    );
    assert_eq!(None, Expr::Paren(lit(128)).evaluate(ReprType::I8));
    // Negation of anything else is computed in the type.
    assert_eq!(
        None,
        Expr::Neg(Box::new(Expr::Add(lit(127), lit(1)))).evaluate(ReprType::I8)
    );
    assert_eq!(
        None,
        Expr::Neg(Box::new(Expr::Neg(lit(128)))).evaluate(ReprType::I8)
    );
    assert_eq!(
        Some(Value::from_i128(i128::MIN)),
        Expr::Neg(lit(1u128 << 127)).evaluate(ReprType::I128)
    );
    assert_eq!(
        Some(Value::from_i128(0)),
        Expr::Neg(lit(0)).evaluate(ReprType::I8)
    );
    assert_eq!(
        Some(Value::from_i128(3)),
        Expr::Neg(Box::new(Expr::Neg(lit(3)))).evaluate(ReprType::I8)
    );
}

#[test]
fn expressions_render_as_source() {
    assert_eq!("17", Expr::Literal(17).render());
    assert_eq!("-17", Expr::Neg(lit(17)).render());
    assert_eq!("4 + 3", Expr::Add(lit(4), lit(3)).render());
    assert_eq!("4 - 3", Expr::Sub(lit(4), lit(3)).render());
    assert_eq!("4 * 3", Expr::Mul(lit(4), lit(3)).render());
    assert_eq!("(4)", Expr::Paren(lit(4)).render());
    assert_eq!("FIRST as u8", Expr::Opaque("FIRST as u8".to_string()).render());
    assert_eq!(
        "1 + (4 + 3)",
        Expr::Add(lit(1), Box::new(Expr::Add(lit(4), lit(3)))).render()
    );
    assert_eq!(
        "1 + (-17)",
        Expr::Add(lit(1), Box::new(Expr::Neg(lit(17)))).render()
    );
    assert_eq!(
        "1 + (FIRST as u8)",
        Expr::Add(lit(1), Box::new(Expr::Opaque("FIRST as u8".to_string()))).render()
    );
    assert_eq!(
        "(4 + 3) * 2",
        Expr::Mul(
            Box::new(Expr::Paren(Box::new(Expr::Add(lit(4), lit(3))))),
            lit(2)
        )
        .render()
    );
    assert_eq!("-(4 + 3)", Expr::Neg(Box::new(Expr::Add(lit(4), lit(3)))).render());

    let mut out = String::from("x == ");
    Expr::Add(lit(4), lit(3)).write_operand(&mut out);
    assert_eq!("x == (4 + 3)", out);
}

#[test]
fn an_expression_is_copied_whole() {
    let e = Expr::Add(
        lit(1),
        Box::new(Expr::Neg(Box::new(Expr::Opaque("FIRST".to_string())))),
    );
    assert_eq!(e, e.duplicate());
    assert_eq!(e, e.clone());
}
