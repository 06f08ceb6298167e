use newel::{Const, EvalCtx, EvalError, Operand, Slice, ValBinOpCode, CHUNKBYTES};

fn ctx() -> EvalCtx {
    EvalCtx::new(
        vec![0u8; CHUNKBYTES * 16],
        vec![0u8; CHUNKBYTES * 16],
        vec![0u8; CHUNKBYTES * 16],
    )
}

#[test]
fn unsigned_same_type_add() {
    let n: u32 = 64 * 1024;
    let a: Vec<u32> = (1..=n).collect();
    let b: Vec<u32> = (1..=n).rev().collect();
    let r = ctx().val_binop(
        ValBinOpCode::Add,
        &Operand::OperandSlice(Slice::SliceU32(a)),
        &Operand::OperandSlice(Slice::SliceU32(b)),
    );
    match r {
        Ok(Operand::OperandSlice(Slice::SliceU32(v))) => {
            assert_eq!(v.len(), n as usize);
            for (i, x) in v.iter().enumerate() {
                assert_eq!(*x, (i as u32 + 1).wrapping_add(n - i as u32));
            }
        }
        other => panic!("unexpected result: {:?}", other),
    }
}

#[test]
fn cross_type_promotion() {
    // join(TU8, TI8) is TI16.  A `u8` column of 200s against an `i8`
    // column holding the same bit pattern (-56): each output is
    // 200 + (-56) = 144 as `i16`.
    let n = 64 * 1024;
    let a: Vec<u8> = vec![200; n];
    let b: Vec<i8> = vec![-56; n];
    let r = ctx().val_binop(
        ValBinOpCode::Add,
        &Operand::OperandSlice(Slice::SliceU8(a)),
        &Operand::OperandSlice(Slice::SliceI8(b)),
    );
    match r {
        Ok(Operand::OperandSlice(Slice::SliceI16(v))) => {
            assert_eq!(v.len(), n);
            assert!(v.iter().all(|x| *x == 144));
        }
        other => panic!("unexpected result: {:?}", other),
    }
}

#[test]
fn slice_const_add() {
    let n = 64 * 1024;
    let a: Vec<u32> = (0..n as u32).collect();
    let r = ctx().val_binop(
        ValBinOpCode::Add,
        &Operand::OperandSlice(Slice::SliceU32(a)),
        &Operand::OperandConst(Const::ConstU32(5)),
    );
    match r {
        Ok(Operand::OperandSlice(Slice::SliceU32(v))) => {
            assert_eq!(v.len(), n);
            for (i, x) in v.iter().enumerate() {
                assert_eq!(*x, i as u32 + 5);
            }
        }
        other => panic!("unexpected result: {:?}", other),
    }
}

#[test]
fn const_slice_sub() {
    let n = 64 * 1024;
    let b: Vec<u16> = vec![3; n];
    let r = ctx().val_binop(
        ValBinOpCode::Sub,
        &Operand::OperandConst(Const::ConstU16(10)),
        &Operand::OperandSlice(Slice::SliceU16(b)),
    );
    match r {
        Ok(Operand::OperandSlice(Slice::SliceU16(v))) => {
            assert!(v.iter().all(|x| *x == 7));
        }
        other => panic!("unexpected result: {:?}", other),
    }
}

#[test]
fn const_fold_add_wraps() {
    let r = ctx().val_binop(
        ValBinOpCode::Add,
        &Operand::OperandConst(Const::ConstU8(200)),
        &Operand::OperandConst(Const::ConstU8(100)),
    );
    match r {
        Ok(Operand::OperandConst(Const::ConstU8(v))) => assert_eq!(v, 44),
        other => panic!("unexpected result: {:?}", other),
    }
}

#[test]
fn const_fold_cross_type() {
    // join(TU32, TI32) is TI64.
    let r = ctx().val_binop(
        ValBinOpCode::Mul,
        &Operand::OperandConst(Const::ConstU32(3_000_000_000)),
        &Operand::OperandConst(Const::ConstI32(-2)),
    );
    match r {
        Ok(Operand::OperandConst(Const::ConstI64(v))) => assert_eq!(v, -6_000_000_000),
        other => panic!("unexpected result: {:?}", other),
    }
}

#[test]
fn signed_division_truncates() {
    let r = ctx().val_binop(
        ValBinOpCode::Div,
        &Operand::OperandConst(Const::ConstI32(-7)),
        &Operand::OperandConst(Const::ConstI32(2)),
    );
    match r {
        Ok(Operand::OperandConst(Const::ConstI32(v))) => assert_eq!(v, -3),
        other => panic!("unexpected result: {:?}", other),
    }
    let r = ctx().val_binop(
        ValBinOpCode::Rem,
        &Operand::OperandConst(Const::ConstI32(-7)),
        &Operand::OperandConst(Const::ConstI32(2)),
    );
    match r {
        Ok(Operand::OperandConst(Const::ConstI32(v))) => assert_eq!(v, -1),
        other => panic!("unexpected result: {:?}", other),
    }
}

#[test]
fn division_by_zero_is_unsupported() {
    let r = ctx().val_binop(
        ValBinOpCode::Div,
        &Operand::OperandConst(Const::ConstU32(7)),
        &Operand::OperandConst(Const::ConstU32(0)),
    );
    assert!(matches!(r, Err(EvalError::UnsupportedOp)));
    let r = ctx().val_binop(
        ValBinOpCode::Div,
        &Operand::OperandConst(Const::ConstI8(i8::MIN)),
        &Operand::OperandConst(Const::ConstI8(-1)),
    );
    assert!(matches!(r, Err(EvalError::UnsupportedOp)));
}

#[test]
fn division_by_zero_element_is_unsupported() {
    let n = 64 * 1024;
    let a: Vec<u32> = vec![6; n];
    let mut b: Vec<u32> = vec![3; n];
    b[n / 2] = 0;
    let r = ctx().val_binop(
        ValBinOpCode::Div,
        &Operand::OperandSlice(Slice::SliceU32(a)),
        &Operand::OperandSlice(Slice::SliceU32(b)),
    );
    assert!(matches!(r, Err(EvalError::UnsupportedOp)));
}

#[test]
fn min_max_integers() {
    let r = ctx().val_binop(
        ValBinOpCode::Min,
        &Operand::OperandConst(Const::ConstI16(-4)),
        &Operand::OperandConst(Const::ConstI16(3)),
    );
    match r {
        Ok(Operand::OperandConst(Const::ConstI16(v))) => assert_eq!(v, -4),
        other => panic!("unexpected result: {:?}", other),
    }
    let r = ctx().val_binop(
        ValBinOpCode::Max,
        &Operand::OperandConst(Const::ConstU64(9)),
        &Operand::OperandConst(Const::ConstU64(11)),
    );
    match r {
        Ok(Operand::OperandConst(Const::ConstU64(v))) => assert_eq!(v, 11),
        other => panic!("unexpected result: {:?}", other),
    }
}

#[test]
fn bitwise_ops() {
    let r = ctx().val_binop(
        ValBinOpCode::BitAnd,
        &Operand::OperandConst(Const::ConstU8(0b1100)),
        &Operand::OperandConst(Const::ConstU8(0b1010)),
    );
    match r {
        Ok(Operand::OperandConst(Const::ConstU8(v))) => assert_eq!(v, 0b1000),
        other => panic!("unexpected result: {:?}", other),
    }
    let r = ctx().val_binop(
        ValBinOpCode::BitXor,
        &Operand::OperandConst(Const::ConstI64(-1)),
        &Operand::OperandConst(Const::ConstI64(0)),
    );
    match r {
        Ok(Operand::OperandConst(Const::ConstI64(v))) => assert_eq!(v, -1),
        other => panic!("unexpected result: {:?}", other),
    }
}

#[test]
fn bool_operand_promotes_to_partner() {
    // join(TBool, TU8) is TU8: true counts as one.
    let n = 64 * 1024;
    let a: Vec<bool> = (0..n).map(|i| i % 2 == 0).collect();
    let r = ctx().val_binop(
        ValBinOpCode::Add,
        &Operand::OperandSlice(Slice::SliceBool(a)),
        &Operand::OperandConst(Const::ConstU8(5)),
    );
    match r {
        Ok(Operand::OperandSlice(Slice::SliceU8(v))) => {
            for (i, x) in v.iter().enumerate() {
                assert_eq!(*x, if i % 2 == 0 { 6 } else { 5 });
            }
        }
        other => panic!("unexpected result: {:?}", other),
    }
}

#[test]
fn add_on_bool_pair_is_unsupported() {
    let r = ctx().val_binop(
        ValBinOpCode::Add,
        &Operand::OperandConst(Const::ConstBool(true)),
        &Operand::OperandConst(Const::ConstBool(false)),
    );
    assert!(matches!(r, Err(EvalError::UnsupportedOp)));
}

#[test]
fn u128_i128_join_needs_float() {
    // join(TU128, TI128) is TF64; the integer-to-float conversion is not
    // defined, so the combination is reported as unsupported.
    let r = ctx().val_binop(
        ValBinOpCode::Add,
        &Operand::OperandConst(Const::ConstU128(1)),
        &Operand::OperandConst(Const::ConstI128(-1)),
    );
    assert!(matches!(r, Err(EvalError::UnsupportedOp)));
}
