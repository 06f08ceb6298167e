use newel::{Const, EvalCtx, EvalError, Operand, ScalarTy, Slice, ValBinOpCode, CHUNKBYTES};

fn buf() -> Vec<u8> {
    vec![0u8; CHUNKBYTES * 16]
}

fn ctx() -> EvalCtx {
    EvalCtx::new(buf(), buf(), buf())
}

#[test]
fn empty_columns_succeed() {
    let r = ctx().val_binop(
        ValBinOpCode::Add,
        &Operand::OperandSlice(Slice::SliceU32(Vec::new())),
        &Operand::OperandSlice(Slice::SliceU32(Vec::new())),
    );
    match r {
        Ok(Operand::OperandSlice(Slice::SliceU32(v))) => assert_eq!(v.len(), 0),
        other => panic!("unexpected result: {:?}", other),
    }
}

#[test]
fn length_not_chunk_multiple_is_bad_buffer() {
    let r = ctx().val_binop(
        ValBinOpCode::Add,
        &Operand::OperandSlice(Slice::SliceU32(vec![1; 100])),
        &Operand::OperandSlice(Slice::SliceU32(vec![2; 100])),
    );
    assert!(matches!(r, Err(EvalError::BadBuffer)));
}

#[test]
fn unequal_lengths_are_bad_buffer() {
    let n = 64 * 1024;
    let r = ctx().val_binop(
        ValBinOpCode::Add,
        &Operand::OperandSlice(Slice::SliceU32(vec![1; 2 * n])),
        &Operand::OperandSlice(Slice::SliceU32(vec![2; n])),
    );
    assert!(matches!(r, Err(EvalError::BadBuffer)));
}

#[test]
fn misaligned_tmp1_is_bad_buffer() {
    // The first arena starts one byte past natural alignment for `u64`.
    let c = EvalCtx {
        tmp1: buf(),
        tmp1_off: 1,
        tmp2: buf(),
        tmp2_off: 0,
        out: buf(),
        out_off: 0,
    };
    let n = 8 * 1024;
    let r = c.val_binop(
        ValBinOpCode::Add,
        &Operand::OperandSlice(Slice::SliceU64(vec![1; n])),
        &Operand::OperandSlice(Slice::SliceU64(vec![2; n])),
    );
    assert!(matches!(r, Err(EvalError::BadBuffer)));
}

#[test]
fn misaligned_out_is_bad_buffer() {
    let c = EvalCtx {
        tmp1: buf(),
        tmp1_off: 0,
        tmp2: buf(),
        tmp2_off: 0,
        out: buf(),
        out_off: 4,
    };
    let n = 8 * 1024;
    let r = c.val_binop(
        ValBinOpCode::Add,
        &Operand::OperandSlice(Slice::SliceU64(vec![1; n])),
        &Operand::OperandSlice(Slice::SliceU64(vec![2; n])),
    );
    assert!(matches!(r, Err(EvalError::BadBuffer)));
}

#[test]
fn aligned_offset_view_succeeds() {
    // A view carved 8 bytes into each arena keeps natural alignment.
    let c = EvalCtx {
        tmp1: buf(),
        tmp1_off: 8,
        tmp2: buf(),
        tmp2_off: 8,
        out: buf(),
        out_off: 8,
    };
    let n = 8 * 1024;
    let r = c.val_binop(
        ValBinOpCode::Add,
        &Operand::OperandSlice(Slice::SliceU64(vec![1; n])),
        &Operand::OperandSlice(Slice::SliceU64(vec![2; n])),
    );
    match r {
        Ok(Operand::OperandSlice(Slice::SliceU64(v))) => assert!(v.iter().all(|x| *x == 3)),
        other => panic!("unexpected result: {:?}", other),
    }
}

#[test]
fn short_output_buffer_is_bad_buffer() {
    let c = EvalCtx::new(buf(), buf(), vec![0u8; CHUNKBYTES]);
    let n = 64 * 1024;
    let r = c.val_binop(
        ValBinOpCode::Add,
        &Operand::OperandSlice(Slice::SliceU32(vec![1; n])),
        &Operand::OperandSlice(Slice::SliceU32(vec![2; n])),
    );
    assert!(matches!(r, Err(EvalError::BadBuffer)));
}

#[test]
fn short_tmp_buffer_is_bad_buffer() {
    let c = EvalCtx::new(vec![0u8; CHUNKBYTES], buf(), buf());
    let n = 64 * 1024;
    let r = c.val_binop(
        ValBinOpCode::Add,
        &Operand::OperandSlice(Slice::SliceU32(vec![1; n])),
        &Operand::OperandSlice(Slice::SliceU32(vec![2; n])),
    );
    assert!(matches!(r, Err(EvalError::BadBuffer)));
}

#[test]
fn bad_buffer_takes_precedence_over_unsupported() {
    // An unsupported opcode with a misaligned arena: validation runs
    // before kernel selection, so the error is BadBuffer.
    let c = EvalCtx {
        tmp1: buf(),
        tmp1_off: 1,
        tmp2: buf(),
        tmp2_off: 0,
        out: buf(),
        out_off: 0,
    };
    let n = 64 * 1024;
    let r = c.val_binop(
        ValBinOpCode::Pow,
        &Operand::OperandSlice(Slice::SliceU32(vec![1; n])),
        &Operand::OperandSlice(Slice::SliceU32(vec![2; n])),
    );
    assert!(matches!(r, Err(EvalError::BadBuffer)));
}

#[test]
fn constant_fold_ignores_scratch() {
    // The constant-constant shape never touches the arenas, so even
    // empty ones are fine.
    let c = EvalCtx::new(Vec::new(), Vec::new(), Vec::new());
    let r = c.val_binop(
        ValBinOpCode::Add,
        &Operand::OperandConst(Const::ConstU8(1)),
        &Operand::OperandConst(Const::ConstU8(2)),
    );
    match r {
        Ok(Operand::OperandConst(Const::ConstU8(v))) => assert_eq!(v, 3),
        other => panic!("unexpected result: {:?}", other),
    }
}

#[test]
fn u128_alignment_is_sixteen_bytes() {
    let c = EvalCtx {
        tmp1: buf(),
        tmp1_off: 8,
        tmp2: buf(),
        tmp2_off: 0,
        out: buf(),
        out_off: 0,
    };
    let n = 4 * 1024;
    let r = c.val_binop(
        ValBinOpCode::Add,
        &Operand::OperandSlice(Slice::SliceU128(vec![1; n])),
        &Operand::OperandSlice(Slice::SliceU128(vec![2; n])),
    );
    assert!(matches!(r, Err(EvalError::BadBuffer)));
}

#[test]
fn wide_integer_arithmetic() {
    let r = ctx().val_binop(
        ValBinOpCode::Add,
        &Operand::OperandConst(Const::ConstU128(u128::MAX)),
        &Operand::OperandConst(Const::ConstU128(2)),
    );
    match r {
        Ok(Operand::OperandConst(Const::ConstU128(v))) => assert_eq!(v, 1),
        other => panic!("unexpected result: {:?}", other),
    }
    let n = 4 * 1024;
    let a: Vec<i128> = vec![-3; n];
    let b: Vec<i128> = vec![5; n];
    let r = ctx().val_binop(
        ValBinOpCode::Min,
        &Operand::OperandSlice(Slice::SliceI128(a)),
        &Operand::OperandSlice(Slice::SliceI128(b)),
    );
    match r {
        Ok(Operand::OperandSlice(Slice::SliceI128(v))) => assert!(v.iter().all(|x| *x == -3)),
        other => panic!("unexpected result: {:?}", other),
    }
}

#[test]
fn conv_with_short_out_arena_is_bad_buffer() {
    let c = EvalCtx::new(buf(), buf(), vec![0u8; CHUNKBYTES]);
    let n = 64 * 1024;
    let r = c.conv(
        &Operand::OperandSlice(Slice::SliceU16(vec![1; n])),
        ScalarTy::TU32,
    );
    assert!(matches!(r, Err(EvalError::BadBuffer)));
}
