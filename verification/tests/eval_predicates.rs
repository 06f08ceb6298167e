use newel::{BoolBinOpCode, Const, EvalCtx, EvalError, Operand, Slice, CHUNKBYTES};

fn ctx() -> EvalCtx {
    EvalCtx::new(
        vec![0u8; CHUNKBYTES * 16],
        vec![0u8; CHUNKBYTES * 16],
        vec![0u8; CHUNKBYTES * 16],
    )
}

#[test]
fn predicate_with_broadcast_const() {
    let n = 64 * 1024;
    let a: Vec<u16> = (0..n).map(|i| i as u16).collect();
    let r = ctx().bool_binop(
        BoolBinOpCode::Lt,
        &Operand::OperandSlice(Slice::SliceU16(a)),
        &Operand::OperandConst(Const::ConstU16(0x100)),
    );
    match r {
        Ok(Operand::OperandSlice(Slice::SliceBool(v))) => {
            assert_eq!(v.len(), n);
            for (i, x) in v.iter().enumerate() {
                assert_eq!(*x, i < 256);
            }
        }
        other => panic!("unexpected result: {:?}", other),
    }
}

#[test]
fn float_predicate_with_nan() {
    let n = 64 * 1024;
    let mut a: Vec<u64> = (0..n).map(|i| (i as f64).to_bits()).collect();
    let mut b: Vec<u64> = (0..n).map(|i| (i as f64).to_bits()).collect();
    a[0] = f64::NAN.to_bits();
    b[0] = 1.0f64.to_bits();
    a[1] = 1.0f64.to_bits();
    b[1] = f64::NAN.to_bits();
    let r = ctx().bool_binop(
        BoolBinOpCode::Eq,
        &Operand::OperandSlice(Slice::SliceF64(a)),
        &Operand::OperandSlice(Slice::SliceF64(b)),
    );
    match r {
        Ok(Operand::OperandSlice(Slice::SliceBool(v))) => {
            assert_eq!(v.len(), n);
            assert!(!v[0]);
            assert!(!v[1]);
            assert!(v[2..].iter().all(|x| *x));
        }
        other => panic!("unexpected result: {:?}", other),
    }
}

#[test]
fn float_zeros_compare_equal() {
    let r = ctx().bool_binop(
        BoolBinOpCode::Eq,
        &Operand::OperandConst(Const::ConstF64((-0.0f64).to_bits())),
        &Operand::OperandConst(Const::ConstF64(0.0f64.to_bits())),
    );
    match r {
        Ok(Operand::OperandConst(Const::ConstBool(v))) => assert!(v),
        other => panic!("unexpected result: {:?}", other),
    }
}

#[test]
fn float_ordering_follows_ieee() {
    let cases: [(f64, f64, bool, bool); 5] = [
        (1.0, 2.0, true, true),
        (2.0, 1.0, false, false),
        (f64::NAN, 1.0, false, false),
        (f64::NEG_INFINITY, -1.0e308, true, true),
        (3.0, 3.0, false, true),
    ];
    for (x, y, lt, le) in cases {
        let r = ctx().bool_binop(
            BoolBinOpCode::Lt,
            &Operand::OperandConst(Const::ConstF64(x.to_bits())),
            &Operand::OperandConst(Const::ConstF64(y.to_bits())),
        );
        match r {
            Ok(Operand::OperandConst(Const::ConstBool(v))) => assert_eq!(v, lt),
            other => panic!("unexpected result: {:?}", other),
        }
        let r = ctx().bool_binop(
            BoolBinOpCode::Le,
            &Operand::OperandConst(Const::ConstF64(x.to_bits())),
            &Operand::OperandConst(Const::ConstF64(y.to_bits())),
        );
        match r {
            Ok(Operand::OperandConst(Const::ConstBool(v))) => assert_eq!(v, le),
            other => panic!("unexpected result: {:?}", other),
        }
    }
}

#[test]
fn nan_is_ne_to_itself() {
    let nan = f64::NAN.to_bits();
    let r = ctx().bool_binop(
        BoolBinOpCode::Ne,
        &Operand::OperandConst(Const::ConstF64(nan)),
        &Operand::OperandConst(Const::ConstF64(nan)),
    );
    match r {
        Ok(Operand::OperandConst(Const::ConstBool(v))) => assert!(v),
        other => panic!("unexpected result: {:?}", other),
    }
}

#[test]
fn integer_comparisons() {
    let n = 64 * 1024;
    let a: Vec<i32> = (0..n as i32).map(|i| i - 100).collect();
    let r = ctx().bool_binop(
        BoolBinOpCode::Ge,
        &Operand::OperandSlice(Slice::SliceI32(a)),
        &Operand::OperandConst(Const::ConstI32(0)),
    );
    match r {
        Ok(Operand::OperandSlice(Slice::SliceBool(v))) => {
            for (i, x) in v.iter().enumerate() {
                assert_eq!(*x, i as i32 - 100 >= 0);
            }
        }
        other => panic!("unexpected result: {:?}", other),
    }
}

#[test]
fn comparison_on_bool_pair_is_unsupported() {
    let r = ctx().bool_binop(
        BoolBinOpCode::Eq,
        &Operand::OperandConst(Const::ConstBool(true)),
        &Operand::OperandConst(Const::ConstBool(true)),
    );
    assert!(matches!(r, Err(EvalError::UnsupportedOp)));
}

#[test]
fn cross_type_comparison_promotes() {
    // join(TU8, TI16) is TI16: 200 as u8 is greater than -5 as i16.
    let r = ctx().bool_binop(
        BoolBinOpCode::Gt,
        &Operand::OperandConst(Const::ConstU8(200)),
        &Operand::OperandConst(Const::ConstI16(-5)),
    );
    match r {
        Ok(Operand::OperandConst(Const::ConstBool(v))) => assert!(v),
        other => panic!("unexpected result: {:?}", other),
    }
}
