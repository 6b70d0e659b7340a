use plaia::ast::{BinOp, Lit, LiteralKind, Loc, Symbol, TypeBind, Type};
use plaia::concrete::{SimpleValue, Store, ValCompute, ValueList};
use plaia::semantics::ErrorKind;
use plaia::signed::SignedValue;

fn at() -> Loc {
    Loc::new(0, 0)
}

fn lint(v: i64) -> Lit {
    Lit { lit: LiteralKind::LInt(v), loc: at() }
}

fn lbool(b: bool) -> Lit {
    Lit { lit: LiteralKind::LBool(b), loc: at() }
}

fn vi(v: i64) -> SimpleValue {
    SimpleValue::VInt(v)
}

fn list(vs: Vec<SimpleValue>) -> ValueList {
    let mut l = ValueList::Nil;
    for v in vs.into_iter().rev() {
        l = ValueList::Cons(v, Box::new(l));
    }
    l
}

fn sign(v: i64) -> SignedValue {
    if v > 0 {
        SignedValue::VPos
    } else if v < 0 {
        SignedValue::VNeg
    } else {
        SignedValue::VZero
    }
}

#[test]
fn concrete_injection_of_literals() {
    assert_eq!(SimpleValue::from_lit(&lint(7)), vi(7));
    assert_eq!(SimpleValue::from_lit(&lbool(true)), vi(1));
    assert_eq!(SimpleValue::from_lit(&lbool(false)), vi(0));
}

#[test]
fn concrete_truth_is_the_integer_one() {
    assert!(SimpleValue::is_true(&vi(1)));
    assert!(!SimpleValue::is_true(&vi(0)));
    assert!(!SimpleValue::is_true(&vi(2)));
    assert!(!SimpleValue::is_true(&SimpleValue::VAddr(1)));
}

#[test]
fn concrete_addition_wraps() {
    assert_eq!(
        SimpleValue::op(&BinOp::Add, vi(i64::MAX), vi(1)),
        Ok(vi(i64::MIN)),
    );
    assert_eq!(
        SimpleValue::op(&BinOp::Mul, vi(i64::MAX), vi(2)),
        Ok(vi(-2)),
    );
}

#[test]
fn concrete_division_truncates_toward_zero() {
    assert_eq!(SimpleValue::op(&BinOp::Div, vi(-7), vi(2)), Ok(vi(-3)));
    assert_eq!(SimpleValue::op(&BinOp::Div, vi(7), vi(-2)), Ok(vi(-3)));
    assert_eq!(SimpleValue::op(&BinOp::Div, vi(-7), vi(-2)), Ok(vi(3)));
    assert_eq!(
        SimpleValue::op(&BinOp::Div, vi(i64::MIN), vi(-1)),
        Ok(vi(i64::MIN)),
    );
}

#[test]
fn concrete_operands_must_be_integers() {
    assert_eq!(
        SimpleValue::op(&BinOp::Add, SimpleValue::VAddr(1), vi(1)),
        Err(ErrorKind::TypeMismatch),
    );
}

#[test]
fn projection_reads_tuple_and_vector_elements() {
    let t = SimpleValue::VTuple(Box::new(list(vec![vi(10), vi(20)])));
    assert_eq!(SimpleValue::op(&BinOp::Proj, t, vi(1)), Ok(vi(20)));
    let v = SimpleValue::VVector(Box::new(list(vec![vi(4), vi(5), vi(6)])));
    assert_eq!(SimpleValue::op(&BinOp::Proj, v, vi(0)), Ok(vi(4)));
}

#[test]
fn projection_checks_bounds_and_shape() {
    let t = SimpleValue::VTuple(Box::new(list(vec![vi(10)])));
    assert_eq!(
        SimpleValue::op(&BinOp::Proj, t, vi(3)),
        Err(ErrorKind::IndexOutOfRange),
    );
    let t2 = SimpleValue::VTuple(Box::new(list(vec![vi(10)])));
    assert_eq!(
        SimpleValue::op(&BinOp::Proj, t2, vi(-1)),
        Err(ErrorKind::IndexOutOfRange),
    );
    assert_eq!(
        SimpleValue::op(&BinOp::Proj, vi(3), vi(0)),
        Err(ErrorKind::TypeMismatch),
    );
}

#[test]
fn copies_of_values_are_deep() {
    let t = SimpleValue::VVector(Box::new(list(vec![vi(1), SimpleValue::VAddr(2)])));
    assert_eq!(SimpleValue::dup(&t), t);
}

#[test]
fn sign_table_for_addition() {
    assert_eq!(SignedValue::op(&BinOp::Add, SignedValue::VPos, SignedValue::VPos), Ok(SignedValue::VPos));
    assert_eq!(SignedValue::op(&BinOp::Add, SignedValue::VNeg, SignedValue::VNeg), Ok(SignedValue::VNeg));
    assert_eq!(SignedValue::op(&BinOp::Add, SignedValue::VZero, SignedValue::VNeg), Ok(SignedValue::VNeg));
    assert_eq!(SignedValue::op(&BinOp::Add, SignedValue::VPos, SignedValue::VNeg), Ok(SignedValue::VUnknown));
}

#[test]
fn sign_table_for_subtraction() {
    assert_eq!(SignedValue::op(&BinOp::Sub, SignedValue::VZero, SignedValue::VPos), Ok(SignedValue::VNeg));
    assert_eq!(SignedValue::op(&BinOp::Sub, SignedValue::VPos, SignedValue::VNeg), Ok(SignedValue::VPos));
    assert_eq!(SignedValue::op(&BinOp::Sub, SignedValue::VPos, SignedValue::VPos), Ok(SignedValue::VUnknown));
}

#[test]
fn sign_table_for_multiplication() {
    assert_eq!(SignedValue::op(&BinOp::Mul, SignedValue::VZero, SignedValue::VUnknown), Ok(SignedValue::VZero));
    assert_eq!(SignedValue::op(&BinOp::Mul, SignedValue::VNeg, SignedValue::VNeg), Ok(SignedValue::VPos));
    assert_eq!(SignedValue::op(&BinOp::Mul, SignedValue::VPos, SignedValue::VNeg), Ok(SignedValue::VNeg));
    assert_eq!(SignedValue::op(&BinOp::Mul, SignedValue::VUnknown, SignedValue::VPos), Ok(SignedValue::VUnknown));
}

#[test]
fn sign_table_for_division() {
    // truncation can collapse any quotient of nonzero operands to zero,
    // so only a zero dividend keeps a definite sign
    assert_eq!(SignedValue::op(&BinOp::Div, SignedValue::VPos, SignedValue::VUnknown), Ok(SignedValue::VUnknown));
    assert_eq!(SignedValue::op(&BinOp::Div, SignedValue::VZero, SignedValue::VNeg), Ok(SignedValue::VZero));
    assert_eq!(SignedValue::op(&BinOp::Div, SignedValue::VPos, SignedValue::VPos), Ok(SignedValue::VUnknown));
    assert_eq!(SignedValue::op(&BinOp::Div, SignedValue::VNeg, SignedValue::VPos), Ok(SignedValue::VUnknown));
    assert_eq!(SignedValue::op(&BinOp::Div, SignedValue::VPos, SignedValue::VNeg), Ok(SignedValue::VUnknown));
    assert_eq!(SignedValue::op(&BinOp::Div, SignedValue::VNeg, SignedValue::VNeg), Ok(SignedValue::VUnknown));
}

#[test]
fn relational_signs_are_unknown() {
    assert_eq!(SignedValue::op(&BinOp::Eq, SignedValue::VPos, SignedValue::VPos), Ok(SignedValue::VUnknown));
    assert_eq!(SignedValue::op(&BinOp::Lt, SignedValue::VZero, SignedValue::VPos), Ok(SignedValue::VUnknown));
}

#[test]
fn sign_of_result_agrees_with_sign_table() {
    // Over sample pairs, the table's answer is either unknown or the
    // exact sign of the concrete result.
    let pairs: Vec<(i64, i64)> = vec![
        (1, 2),
        (-1, -2),
        (-1, 2),
        (1, -2),
        (3, 4),
        (-3, 4),
        (3, -4),
        (-3, -4),
        (0, 5),
        (5, 0),
        (0, 0),
        (7, 7),
        (-9, -2),
        (9, 2),
    ];
    let ops = vec![BinOp::Add, BinOp::Sub, BinOp::Mul, BinOp::Div];
    for &(m, n) in &pairs {
        for op in &ops {
            if matches!(op, BinOp::Div) && n == 0 {
                continue;
            }
            let concrete = SimpleValue::op(op, vi(m), vi(n)).expect("concrete op aborted");
            let c = match concrete {
                SimpleValue::VInt(v) => v,
                other => panic!("not an integer: {:?}", other),
            };
            let abstracted =
                SignedValue::op(op, sign(m), sign(n)).expect("abstract op aborted");
            assert!(
                abstracted == SignedValue::VUnknown || abstracted == sign(c),
                "unsound for {:?} on ({}, {}): {:?} vs concrete {}",
                op,
                m,
                n,
                abstracted,
                c,
            );
        }
    }
}

#[test]
fn sign_injection_of_literals() {
    assert_eq!(SignedValue::from_lit(&lint(4)), SignedValue::VPos);
    assert_eq!(SignedValue::from_lit(&lint(-4)), SignedValue::VNeg);
    assert_eq!(SignedValue::from_lit(&lint(0)), SignedValue::VZero);
    assert_eq!(SignedValue::from_lit(&lbool(true)), SignedValue::VPos);
    assert_eq!(SignedValue::from_lit(&lbool(false)), SignedValue::VZero);
}

#[test]
fn both_domains_round_trip_locations() {
    assert_eq!(SimpleValue::unwrap_loc(SimpleValue::from_loc(&5)), Ok(5));
    assert_eq!(SignedValue::unwrap_loc(SignedValue::from_loc(&5)), Ok(5));
    assert_eq!(SignedValue::unwrap_loc(SignedValue::VPos), Err(ErrorKind::TypeMismatch));
}

#[test]
fn store_lookup_follows_the_newest_binding() {
    let mut st = Store::new();
    assert_eq!(st.lookup(&Symbol::new(String::from("x"))), None);
    st.bind(Symbol::new(String::from("x")), 4);
    st.bind(Symbol::new(String::from("y")), 5);
    st.bind(Symbol::new(String::from("x")), 6);
    assert_eq!(st.lookup(&Symbol::new(String::from("x"))), Some(6));
    assert_eq!(st.lookup(&Symbol::new(String::from("y"))), Some(5));
    let copy = st.dup();
    assert_eq!(copy.lookup(&Symbol::new(String::from("x"))), Some(6));
}

#[test]
fn binding_constructors_carry_their_parts() {
    let tb = TypeBind::new(Symbol::new(String::from("x")), Type::Bool, Loc::new(2, 9));
    assert_eq!(tb.name.name, "x");
    assert_eq!(tb.loc, Loc::new(2, 9));
    assert!(matches!(tb.bind_type, Type::Bool));
}
