use newel::{BoolUnOpCode, Const, EvalCtx, EvalError, Operand, Slice, ValUnOpCode, CHUNKBYTES};

fn ctx() -> EvalCtx {
    EvalCtx::new(
        vec![0u8; CHUNKBYTES * 16],
        vec![0u8; CHUNKBYTES * 16],
        vec![0u8; CHUNKBYTES * 16],
    )
}

#[test]
fn neg_signed_slice() {
    let n = 16 * 1024;
    let a: Vec<i32> = (0..n as i32).collect();
    let r = ctx().val_unop(ValUnOpCode::Neg, &Operand::OperandSlice(Slice::SliceI32(a)));
    match r {
        Ok(Operand::OperandSlice(Slice::SliceI32(v))) => {
            for (i, x) in v.iter().enumerate() {
                assert_eq!(*x, -(i as i32));
            }
        }
        other => panic!("unexpected result: {:?}", other),
    }
}

#[test]
fn neg_wraps_at_minimum() {
    let r = ctx().val_unop(
        ValUnOpCode::Neg,
        &Operand::OperandConst(Const::ConstI8(i8::MIN)),
    );
    match r {
        Ok(Operand::OperandConst(Const::ConstI8(v))) => assert_eq!(v, i8::MIN),
        other => panic!("unexpected result: {:?}", other),
    }
}

#[test]
fn neg_float_flips_sign_bit() {
    let r = ctx().val_unop(
        ValUnOpCode::Neg,
        &Operand::OperandConst(Const::ConstF64(1.5f64.to_bits())),
    );
    match r {
        Ok(Operand::OperandConst(Const::ConstF64(v))) => assert_eq!(v, (-1.5f64).to_bits()),
        other => panic!("unexpected result: {:?}", other),
    }
}

#[test]
fn neg_unsigned_is_unsupported() {
    let r = ctx().val_unop(
        ValUnOpCode::Neg,
        &Operand::OperandConst(Const::ConstU32(1)),
    );
    assert!(matches!(r, Err(EvalError::UnsupportedOp)));
}

#[test]
fn bitnot_integers() {
    let r = ctx().val_unop(
        ValUnOpCode::BitNot,
        &Operand::OperandConst(Const::ConstU8(0x0F)),
    );
    match r {
        Ok(Operand::OperandConst(Const::ConstU8(v))) => assert_eq!(v, 0xF0),
        other => panic!("unexpected result: {:?}", other),
    }
    let r = ctx().val_unop(
        ValUnOpCode::BitNot,
        &Operand::OperandConst(Const::ConstI32(0)),
    );
    match r {
        Ok(Operand::OperandConst(Const::ConstI32(v))) => assert_eq!(v, -1),
        other => panic!("unexpected result: {:?}", other),
    }
}

#[test]
fn abs_float() {
    let r = ctx().val_unop(
        ValUnOpCode::Abs,
        &Operand::OperandConst(Const::ConstF32((-3.5f32).to_bits())),
    );
    match r {
        Ok(Operand::OperandConst(Const::ConstF32(v))) => assert_eq!(v, 3.5f32.to_bits()),
        other => panic!("unexpected result: {:?}", other),
    }
}

#[test]
fn abs_integer_is_unsupported() {
    let r = ctx().val_unop(
        ValUnOpCode::Abs,
        &Operand::OperandConst(Const::ConstI32(-3)),
    );
    assert!(matches!(r, Err(EvalError::UnsupportedOp)));
}

#[test]
fn transcendentals_are_unsupported() {
    for op in [
        ValUnOpCode::Ln,
        ValUnOpCode::Exp,
        ValUnOpCode::Sqrt,
        ValUnOpCode::Sin,
        ValUnOpCode::Cos,
    ] {
        let r = ctx().val_unop(op, &Operand::OperandConst(Const::ConstF64(4.0f64.to_bits())));
        assert!(matches!(r, Err(EvalError::UnsupportedOp)));
    }
}

#[test]
fn float_classification_slice() {
    let n = 64 * 1024;
    let mut a: Vec<u64> = (0..n).map(|i| (i as f64).to_bits()).collect();
    a[0] = f64::NAN.to_bits();
    a[1] = f64::INFINITY.to_bits();
    a[2] = f64::NEG_INFINITY.to_bits();
    let s = Operand::OperandSlice(Slice::SliceF64(a));
    match ctx().bool_unop(BoolUnOpCode::IsNaN, &s) {
        Ok(Operand::OperandSlice(Slice::SliceBool(v))) => {
            assert!(v[0]);
            assert!(!v[1]);
            assert!(!v[2]);
            assert!(!v[3]);
        }
        other => panic!("unexpected result: {:?}", other),
    }
    match ctx().bool_unop(BoolUnOpCode::IsInf, &s) {
        Ok(Operand::OperandSlice(Slice::SliceBool(v))) => {
            assert!(!v[0]);
            assert!(v[1]);
            assert!(v[2]);
            assert!(!v[3]);
        }
        other => panic!("unexpected result: {:?}", other),
    }
    match ctx().bool_unop(BoolUnOpCode::IsFin, &s) {
        Ok(Operand::OperandSlice(Slice::SliceBool(v))) => {
            assert!(!v[0]);
            assert!(!v[1]);
            assert!(!v[2]);
            assert!(v[3]);
        }
        other => panic!("unexpected result: {:?}", other),
    }
}

#[test]
fn classification_on_integers_is_unsupported() {
    let r = ctx().bool_unop(
        BoolUnOpCode::IsNaN,
        &Operand::OperandConst(Const::ConstU8(0)),
    );
    assert!(matches!(r, Err(EvalError::UnsupportedOp)));
}
