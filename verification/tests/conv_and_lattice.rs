use newel::{
    Const, EvalCtx, EvalError, Operand, ScalarTy, Slice, ValBinOpCode, CHUNKBYTES, VECBYTES,
};

fn ctx() -> EvalCtx {
    EvalCtx::new(
        vec![0u8; CHUNKBYTES * 16],
        vec![0u8; CHUNKBYTES * 16],
        vec![0u8; CHUNKBYTES * 16],
    )
}

#[test]
fn lattice_table() {
    let cases = [
        (ScalarTy::TU8, ScalarTy::TU16, ScalarTy::TU16),
        (ScalarTy::TU8, ScalarTy::TU128, ScalarTy::TU128),
        (ScalarTy::TI8, ScalarTy::TI64, ScalarTy::TI64),
        (ScalarTy::TU8, ScalarTy::TI8, ScalarTy::TI16),
        (ScalarTy::TU16, ScalarTy::TI16, ScalarTy::TI32),
        (ScalarTy::TU32, ScalarTy::TI32, ScalarTy::TI64),
        (ScalarTy::TU64, ScalarTy::TI64, ScalarTy::TI128),
        (ScalarTy::TU128, ScalarTy::TI128, ScalarTy::TF64),
        (ScalarTy::TU16, ScalarTy::TI8, ScalarTy::TI32),
        (ScalarTy::TU8, ScalarTy::TI32, ScalarTy::TI32),
        (ScalarTy::TF32, ScalarTy::TU32, ScalarTy::TF32),
        (ScalarTy::TF32, ScalarTy::TI16, ScalarTy::TF32),
        (ScalarTy::TF32, ScalarTy::TU64, ScalarTy::TF64),
        (ScalarTy::TF32, ScalarTy::TI128, ScalarTy::TF64),
        (ScalarTy::TF64, ScalarTy::TF32, ScalarTy::TF64),
        (ScalarTy::TF64, ScalarTy::TU8, ScalarTy::TF64),
        (ScalarTy::TBool, ScalarTy::TU8, ScalarTy::TU8),
        (ScalarTy::TBool, ScalarTy::TF64, ScalarTy::TF64),
        (ScalarTy::TBool, ScalarTy::TBool, ScalarTy::TBool),
        (ScalarTy::TU32, ScalarTy::TU32, ScalarTy::TU32),
    ];
    for (a, b, j) in cases {
        assert_eq!(a.join(b), j);
        assert_eq!(b.join(a), j);
    }
}

#[test]
fn size_constants() {
    assert_eq!(VECBYTES, 64);
    assert_eq!(CHUNKBYTES, 65536);
    assert_eq!(newel::consts::cmax(3, 5), 5);
    assert_eq!(newel::consts::stepsz_min(ScalarTy::TU32, ScalarTy::TU32), 16);
    assert_eq!(newel::consts::stepsz_min(ScalarTy::TU8, ScalarTy::TU128), 4);
    assert_eq!(newel::consts::chunksz_min(ScalarTy::TU64, ScalarTy::TBool), 8192);
    assert_eq!(newel::consts::chunksz_min(ScalarTy::TBool, ScalarTy::TBool), 65536);
}

#[test]
fn identity_conv_returns_value_unchanged() {
    let n = 64 * 1024;
    let a: Vec<u32> = (0..n as u32).collect();
    let r = ctx().conv(&Operand::OperandSlice(Slice::SliceU32(a.clone())), ScalarTy::TU32);
    match r {
        Ok(Operand::OperandSlice(Slice::SliceU32(v))) => assert_eq!(v, a),
        other => panic!("unexpected result: {:?}", other),
    }
}

#[test]
fn widening_conv_slice() {
    let n = 64 * 1024;
    let a: Vec<i8> = (0..n).map(|i| (i % 256) as u8 as i8).collect();
    let r = ctx().conv(&Operand::OperandSlice(Slice::SliceI8(a.clone())), ScalarTy::TI32);
    match r {
        Ok(Operand::OperandSlice(Slice::SliceI32(v))) => {
            for (x, y) in a.iter().zip(v.iter()) {
                assert_eq!(*x as i32, *y);
            }
        }
        other => panic!("unexpected result: {:?}", other),
    }
}

#[test]
fn truncating_conv_const() {
    let r = ctx().conv(&Operand::OperandConst(Const::ConstI16(-1)), ScalarTy::TU8);
    match r {
        Ok(Operand::OperandConst(Const::ConstU8(v))) => assert_eq!(v, 255),
        other => panic!("unexpected result: {:?}", other),
    }
}

#[test]
fn signed_unsigned_roundtrip() {
    // A value representable in both types of a signed/unsigned pair of
    // equal width survives the round trip.
    let r = ctx().conv(&Operand::OperandConst(Const::ConstU8(100)), ScalarTy::TI8);
    let mid = match r {
        Ok(Operand::OperandConst(c)) => c,
        other => panic!("unexpected result: {:?}", other),
    };
    assert_eq!(mid, Const::ConstI8(100));
    let back = ctx().conv(&Operand::OperandConst(mid), ScalarTy::TU8);
    match back {
        Ok(Operand::OperandConst(Const::ConstU8(v))) => assert_eq!(v, 100),
        other => panic!("unexpected result: {:?}", other),
    }
}

#[test]
fn bool_roundtrip() {
    // Numeric through TBool and back to a numeric type: zero stays
    // zero, anything else becomes one.
    for (x, expect) in [(0u32, 0i64), (7u32, 1i64), (u32::MAX, 1i64)] {
        let b = match ctx().conv(&Operand::OperandConst(Const::ConstU32(x)), ScalarTy::TBool) {
            Ok(Operand::OperandConst(c)) => c,
            other => panic!("unexpected result: {:?}", other),
        };
        assert_eq!(b, Const::ConstBool(x != 0));
        match ctx().conv(&Operand::OperandConst(b), ScalarTy::TI64) {
            Ok(Operand::OperandConst(Const::ConstI64(v))) => assert_eq!(v, expect),
            other => panic!("unexpected result: {:?}", other),
        }
    }
}

#[test]
fn float_to_bool_uses_ieee_zero() {
    let cases = [
        ((-0.0f64).to_bits(), false),
        (0.0f64.to_bits(), false),
        (1.0f64.to_bits(), true),
        (f64::NAN.to_bits(), true),
    ];
    for (bits, expect) in cases {
        match ctx().conv(&Operand::OperandConst(Const::ConstF64(bits)), ScalarTy::TBool) {
            Ok(Operand::OperandConst(Const::ConstBool(v))) => assert_eq!(v, expect),
            other => panic!("unexpected result: {:?}", other),
        }
    }
}

#[test]
fn bool_to_float_gives_ieee_zero_or_one() {
    match ctx().conv(&Operand::OperandConst(Const::ConstBool(true)), ScalarTy::TF32) {
        Ok(Operand::OperandConst(Const::ConstF32(v))) => assert_eq!(v, 1.0f32.to_bits()),
        other => panic!("unexpected result: {:?}", other),
    }
    match ctx().conv(&Operand::OperandConst(Const::ConstBool(false)), ScalarTy::TF64) {
        Ok(Operand::OperandConst(Const::ConstF64(v))) => assert_eq!(v, 0.0f64.to_bits()),
        other => panic!("unexpected result: {:?}", other),
    }
}

#[test]
fn int_to_float_conv_is_unsupported() {
    let r = ctx().conv(&Operand::OperandConst(Const::ConstU8(1)), ScalarTy::TF32);
    assert!(matches!(r, Err(EvalError::UnsupportedOp)));
    let r = ctx().conv(&Operand::OperandConst(Const::ConstF64(0)), ScalarTy::TI32);
    assert!(matches!(r, Err(EvalError::UnsupportedOp)));
    let r = ctx().conv(&Operand::OperandConst(Const::ConstF32(0)), ScalarTy::TF64);
    assert!(matches!(r, Err(EvalError::UnsupportedOp)));
}

#[test]
fn float_bitand_is_unsupported() {
    let n = 64 * 1024;
    let a: Vec<u64> = (0..n).map(|i| (i as f64).to_bits()).collect();
    let b: Vec<u64> = (0..n).map(|i| (i as f64).to_bits()).collect();
    let r = ctx().val_binop(
        ValBinOpCode::BitAnd,
        &Operand::OperandSlice(Slice::SliceF64(a)),
        &Operand::OperandSlice(Slice::SliceF64(b)),
    );
    assert!(matches!(r, Err(EvalError::UnsupportedOp)));
}

#[test]
fn float_min_takes_non_nan_side() {
    let r = ctx().val_binop(
        ValBinOpCode::Min,
        &Operand::OperandConst(Const::ConstF64(f64::NAN.to_bits())),
        &Operand::OperandConst(Const::ConstF64(2.0f64.to_bits())),
    );
    match r {
        Ok(Operand::OperandConst(Const::ConstF64(v))) => assert_eq!(v, 2.0f64.to_bits()),
        other => panic!("unexpected result: {:?}", other),
    }
    let r = ctx().val_binop(
        ValBinOpCode::Max,
        &Operand::OperandConst(Const::ConstF64((-1.0f64).to_bits())),
        &Operand::OperandConst(Const::ConstF64(3.0f64.to_bits())),
    );
    match r {
        Ok(Operand::OperandConst(Const::ConstF64(v))) => assert_eq!(v, 3.0f64.to_bits()),
        other => panic!("unexpected result: {:?}", other),
    }
}

#[test]
fn get_scalar_ty_reports_tags() {
    assert_eq!(Const::ConstU64(0).get_scalar_ty(), ScalarTy::TU64);
    assert_eq!(Slice::SliceF32(vec![0; 4]).get_scalar_ty(), ScalarTy::TF32);
    assert_eq!(
        Operand::OperandConst(Const::ConstI128(-1)).get_scalar_ty(),
        ScalarTy::TI128
    );
    assert_eq!(Slice::SliceI64(vec![1, 2, 3]).len(), 3);
}
