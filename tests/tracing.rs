use air_bytecode::instruction::{Instruction32, Opcode, MAX_OPCODE};
use air_bytecode::pool::EfValue;
use air_bytecode::symbolic_expr_ef::SymbolicExprEF;
use air_bytecode::symbolic_expr_f::SymbolicExprF;
use air_bytecode::symbolic_var_ef::SymbolicVarEF;
use air_bytecode::symbolic_var_f::SymbolicVarF;
use air_bytecode::tracer::{Tracer, CUDA_P3_EVAL_RESET, FIRST_ID};

#[test]
fn add_variable_and_constant_records_one_instruction() {
    let mut t = Tracer::new();
    let a = SymbolicVarF::main_local(0);
    let c = t.f_add_vc(a, 1);
    assert_eq!(c, SymbolicExprF(FIRST_ID));
    assert_eq!(t.code.len(), 1);
    let ins = t.code[0];
    assert_eq!(ins.opcode, Opcode::FAddVC.code());
    assert_eq!(ins.opcode, 4);
    assert_eq!(ins.a, c.0);
    assert_eq!(ins.b_variant, 4);
    assert_eq!(ins.b, 0);
    assert_eq!(ins.c_variant, 0);
    assert_eq!(ins.c, 0);
    assert_eq!(t.f_constants, vec![1]);
}

#[test]
fn every_traced_id_is_defined_once() {
    let mut t = Tracer::new();
    let x = t.f_assign_v(SymbolicVarF::main_local(3));
    let y = t.f_mul_ev(x, SymbolicVarF::preprocessed_next(1));
    let z = t.f_sub_ee(x, y);
    t.f_add_assign_e(z, x);
    let w = t.f_neg_e(z);
    t.f_assert_zero(w);
    let e = t.ef_from_e(w);
    let e2 = t.ef_mul_ee(e, x);
    t.ef_add_assign_e(e2, y);
    t.e_assert_zero(e2);
    assert_eq!([x.0, y.0, z.0, w.0], [1, 2, 3, 4]);
    assert_eq!([e.0, e2.0], [1, 2]);
    for id in [x.0, y.0, z.0, w.0] {
        let defs = t
            .code
            .iter()
            .filter(|ins| ins.a == id && matches!(ins.opcode, 2 | 22 | 16 | 25))
            .count();
        assert_eq!(defs, 1);
    }
    let in_place = t.code.iter().filter(|ins| ins.opcode == 10 && ins.a == z.0).count();
    assert_eq!(in_place, 1);
    assert_eq!(t.f_ctr, 5);
    assert_eq!(t.ef_ctr, 3);
}

#[test]
fn assertion_has_its_operand_in_slot_a_only() {
    let mut t = Tracer::new();
    let x = t.f_assign_v(SymbolicVarF::is_first_row());
    t.f_assert_zero(x);
    let ins = t.code[1];
    assert_eq!(ins, Instruction32 { opcode: 59, b_variant: 0, c_variant: 0, a: x.0, b: 0, c: 0 });
    let e = t.e_assign_v(SymbolicVarEF::permutation_challenge(1));
    t.e_assert_zero(e);
    assert_eq!(t.code[3], Instruction32 { opcode: 60, b_variant: 0, c_variant: 0, a: e.0, b: 0, c: 0 });
}

#[test]
fn constants_are_interned_per_domain() {
    let mut t = Tracer::new();
    let a = t.f_assign_c(5);
    let b = t.f_add_ec(a, 5);
    let c = t.f_mul_vc(SymbolicVarF::main_next(2), 9);
    assert_eq!(t.f_constants, vec![5, 9]);
    assert_eq!(t.code[0].b, 0);
    assert_eq!(t.code[1].c, 0);
    assert_eq!(t.code[2].c, 1);
    assert_eq!([a.0, b.0, c.0], [1, 2, 3]);
    let v = EfValue { c0: 5, c1: 0, c2: 0, c3: 0 };
    let e = t.e_assign_c(v);
    let e2 = t.e_sub_vc(SymbolicVarEF::cumulative_sum(0), v);
    assert_eq!(t.ef_constants, vec![v]);
    assert_eq!(t.code[3].b, 0);
    assert_eq!(t.code[4].c, 0);
    assert_eq!(t.code[4].b_variant, 4);
    assert_eq!([e.0, e2.0], [1, 2]);
}

#[test]
fn reset_restarts_counters_and_empties_pools() {
    let mut t = Tracer::new();
    let x = t.f_add_vc(SymbolicVarF::main_local(0), 3);
    let _ = t.e_add_vc(SymbolicVarEF::permutation_local(0), EfValue { c0: 1, c1: 2, c2: 3, c3: 4 });
    assert_eq!(x.0, FIRST_ID);
    CUDA_P3_EVAL_RESET(&mut t);
    assert!(t.code.is_empty());
    assert!(t.f_constants.is_empty());
    assert!(t.ef_constants.is_empty());
    assert_eq!(t.f_ctr, FIRST_ID);
    assert_eq!(t.ef_ctr, FIRST_ID);
    let y = t.f_add_vc(SymbolicVarF::main_local(0), 7);
    assert_eq!(y.0, FIRST_ID);
    assert_eq!(t.code[0].c, 0);
}

#[test]
fn variable_tags_and_fields() {
    let cases = [
        (SymbolicVarF::empty(), 0u8, 0u32),
        (SymbolicVarF::Constant(6), 1, 6),
        (SymbolicVarF::preprocessed_local(2), 2, 2),
        (SymbolicVarF::preprocessed_next(3), 3, 3),
        (SymbolicVarF::main_local(4), 4, 4),
        (SymbolicVarF::main_next(5), 5, 5),
        (SymbolicVarF::is_first_row(), 6, 0),
        (SymbolicVarF::is_last_row(), 7, 0),
        (SymbolicVarF::is_transition(), 8, 0),
        (SymbolicVarF::public_value(9), 9, 9),
        (SymbolicVarF::global_cumulative_sum(13), 10, 13),
    ];
    for (v, tag, data) in cases {
        assert_eq!(v.variant(), tag);
        assert_eq!(v.data(), data);
    }
    let ecases = [
        (SymbolicVarEF::empty(), 0u8, 0u32),
        (SymbolicVarEF::permutation_local(1), 1, 1),
        (SymbolicVarEF::permutation_next(2), 2, 2),
        (SymbolicVarEF::permutation_challenge(1), 3, 1),
        (SymbolicVarEF::cumulative_sum(0), 4, 0),
    ];
    for (v, tag, data) in ecases {
        assert_eq!(v.variant(), tag);
        assert_eq!(v.data(), data);
    }
    assert_eq!(SymbolicExprF::empty().data(), u32::MAX);
    assert_eq!(SymbolicExprEF::empty().variant(), 0);
}

#[test]
fn constant_variable_interns_into_pool() {
    let mut pool: Vec<u32> = vec![8];
    assert_eq!(SymbolicVarF::constant(&mut pool, 9), SymbolicVarF::Constant(1));
    assert_eq!(SymbolicVarF::constant(&mut pool, 8), SymbolicVarF::Constant(0));
    assert_eq!(pool, vec![8, 9]);
}

#[test]
fn allocate_counts_up() {
    let mut ctr: u32 = 7;
    assert_eq!(SymbolicExprF::allocate(&mut ctr), SymbolicExprF(7));
    assert_eq!(SymbolicExprEF::allocate(&mut ctr), SymbolicExprEF(8));
    assert_eq!(ctr, 9);
}

#[test]
fn opcode_decoding_rejects_unknown_bytes() {
    for b in 0..=MAX_OPCODE {
        let op = Opcode::from_code(b).unwrap();
        assert_eq!(op.code(), b);
    }
    assert_eq!(Opcode::from_code(MAX_OPCODE + 1), None);
    assert_eq!(Opcode::from_code(255), None);
}

#[test]
fn opcode_classification() {
    assert!(Opcode::FAssignC.is_f_assign());
    assert!(Opcode::FAssertZero.is_f_assign());
    assert!(!Opcode::FAssertZero.is_e_assign());
    assert!(Opcode::EFAsBaseSlice.is_e_assign());
    assert!(Opcode::EAssertZero.is_e_assign());
    assert!(!Opcode::Empty.is_f_assign() && !Opcode::Empty.is_e_assign());
    assert!(Opcode::EFFromE.is_f_arg1() && !Opcode::EFFromE.is_e_arg1());
    assert!(Opcode::EFMulEE.is_e_arg1() && Opcode::EFMulEE.is_f_arg2());
    assert!(Opcode::FAddVE.is_f_arg2() && !Opcode::FAddVE.is_f_arg1());
    assert!(Opcode::EMulEE.is_e_arg1() && Opcode::EMulEE.is_e_arg2());
    assert!(!Opcode::FAddVC.is_f_arg1() && !Opcode::FAddVC.is_f_arg2());
    assert!(Opcode::EFAddAssignE.is_f_arg1() && Opcode::EFAddAssignE.is_e_assign());
}

#[test]
fn instruction_constructors_fill_fields() {
    let a = SymbolicExprF(3);
    let b = SymbolicExprF(4);
    let ins = Instruction32::f_add_ve(a, SymbolicVarF::public_value(2), b);
    assert_eq!(ins, Instruction32 { opcode: 6, b_variant: 9, c_variant: 0, a: 3, b: 2, c: 4 });
    let e = SymbolicExprEF(5);
    let ins = Instruction32::ef_sub_ee(e, SymbolicExprEF(6), b);
    assert_eq!(ins, Instruction32 { opcode: 54, b_variant: 0, c_variant: 0, a: 5, b: 6, c: 4 });
    let ins = Instruction32::e_mul_ev(e, SymbolicExprEF(1), SymbolicVarEF::permutation_next(7));
    assert_eq!(ins, Instruction32 { opcode: 47, b_variant: 0, c_variant: 2, a: 5, b: 1, c: 7 });
    assert_eq!(Instruction32::default(), Instruction32 { opcode: 0, b_variant: 0, c_variant: 0, a: 0, b: 0, c: 0 });
}
