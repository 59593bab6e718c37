use std::collections::HashMap;

use air_bytecode::instruction::{Instruction16, Instruction32};
use air_bytecode::liveness::liveness;
use air_bytecode::optimizer::{
    optimize, CompileError, Domain, RegisterAllocator, EF_REGISTERS, F_REGISTERS,
};
use air_bytecode::symbolic_expr_f::SymbolicExprF;
use air_bytecode::symbolic_var_ef::SymbolicVarEF;
use air_bytecode::symbolic_var_f::SymbolicVarF;
use air_bytecode::tracer::{Compilation, Tracer};

fn ins(opcode: u8, a: u32, b: u32, c: u32) -> Instruction32 {
    Instruction32 { opcode, b_variant: 0, c_variant: 0, a, b, c }
}

/// Replays the execution form against a simulated register file: each slot remembers which
/// virtual register was last written to it, and every read must find the register that the
/// authoring form names.
fn replay(code: &[Instruction32], out: &[Instruction16]) {
    let f_defs = [1u8, 2, 3, 4, 5, 6, 7, 8, 9, 11, 12, 13, 14, 15, 16, 18, 19, 20, 21, 22, 23, 25];
    let f_b = [3u8, 7, 8, 9, 10, 14, 15, 16, 17, 21, 22, 23, 24, 25, 51, 53, 55, 57];
    let f_c = [6u8, 9, 13, 16, 20, 23, 52, 54, 56];
    let mut f_file: HashMap<u16, u32> = HashMap::new();
    for (w, n) in code.iter().zip(out.iter()) {
        if f_b.contains(&w.opcode) {
            assert_eq!(f_file.get(&n.b), Some(&w.b));
        }
        if f_c.contains(&w.opcode) {
            assert_eq!(f_file.get(&n.c), Some(&w.c));
        }
        if [10u8, 17, 24, 59].contains(&w.opcode) {
            assert_eq!(f_file.get(&n.a), Some(&w.a));
        }
        if f_defs.contains(&w.opcode) {
            f_file.insert(n.a, w.a);
        }
    }
}

#[test]
fn round_trip_of_one_addition() {
    let mut t = Tracer::new();
    let c = t.f_add_vc(SymbolicVarF::main_local(0), 1);
    let wide = t.code[0];
    assert_eq!(wide, Instruction32 { opcode: 4, b_variant: 4, c_variant: 0, a: c.0, b: 0, c: 0 });
    let out: Compilation = t.finish().unwrap();
    assert_eq!(out.code.len(), 1);
    let narrow = out.code[0];
    assert_eq!(narrow, Instruction16 { opcode: 4, b_variant: 4, c_variant: 0, a: 1, b: 0, c: 0 });
    assert_eq!(out.f_constants, vec![1]);
    assert_eq!(out.f_max, 1);
    assert_eq!(out.ef_max, 0);
}

#[test]
fn asserted_value_is_freed_after_its_assertion() {
    let mut t = Tracer::new();
    let x = t.f_assign_v(SymbolicVarF::main_local(1));
    let keep = t.f_assign_v(SymbolicVarF::main_local(2));
    t.f_assert_zero(x);
    let y = t.f_assign_v(SymbolicVarF::main_local(3));
    t.f_assert_zero(keep);
    t.f_assert_zero(y);
    let code = t.code.clone();
    let live = liveness(&code);
    assert_eq!(live.f_last.get(&x.0), Some(&2));
    let out = t.finish().unwrap();
    assert_eq!(out.code[0].a, 1);
    assert_eq!(out.code[1].a, 2);
    assert_eq!(out.code[2].a, 1);
    // x's slot is free again once its assertion has run
    assert_eq!(out.code[3].a, 1);
    assert_eq!(out.code[4].a, 2);
    assert_eq!(out.f_max, 2);
    replay(&code, &out.code);
}

#[test]
fn last_use_is_last_reference() {
    let code = vec![
        ins(2, 1, 0, 0),
        ins(2, 2, 0, 0),
        ins(9, 3, 1, 2),
        ins(10, 3, 1, 0),
        ins(59, 3, 0, 0),
        ins(51, 1, 2, 0),
        ins(60, 1, 0, 0),
    ];
    let live = liveness(&code);
    assert_eq!(live.f_first.get(&1), Some(&0));
    assert_eq!(live.f_last.get(&1), Some(&3));
    assert_eq!(live.f_last.get(&2), Some(&5));
    assert_eq!(live.f_first.get(&3), Some(&2));
    assert_eq!(live.f_last.get(&3), Some(&4));
    assert_eq!(live.ef_first.get(&1), Some(&5));
    assert_eq!(live.ef_last.get(&1), Some(&6));
    assert_eq!(live.f_last.get(&4), None);
    assert_eq!(live.ef_last.get(&2), None);
}

#[test]
fn no_slot_is_shared_by_live_registers() {
    let mut t = Tracer::new();
    let mut vals: Vec<SymbolicExprF> = Vec::new();
    for i in 0..6 {
        vals.push(t.f_assign_v(SymbolicVarF::main_local(i)));
    }
    let s1 = t.f_add_ee(vals[0], vals[1]);
    let s2 = t.f_mul_ee(s1, vals[2]);
    t.f_sub_assign_e(s2, vals[3]);
    let s3 = t.f_sub_ve(SymbolicVarF::is_transition(), s2);
    let s4 = t.f_add_ee(s3, vals[4]);
    let s5 = t.f_mul_ee(s4, vals[5]);
    let s6 = t.f_add_ee(s5, s1);
    t.f_assert_zero(s6);
    let e = t.ef_from_e(s6);
    let e2 = t.ef_mul_ee(e, s3);
    t.e_assert_zero(e2);
    let code = t.code.clone();
    let out = t.finish().unwrap();
    replay(&code, &out.code);
    assert!(out.f_max < 8);
    assert_eq!(out.ef_max, 2);
}

#[test]
fn slot_zero_is_kept_for_register_zero() {
    let code = vec![ins(2, 0, 0, 0), ins(2, 5, 0, 0), ins(9, 6, 0, 5), ins(59, 6, 0, 0), ins(59, 0, 0, 0)];
    let out = optimize(code).unwrap();
    assert_eq!(out.code[0].a, 0);
    assert_eq!(out.code[1].a, 1);
    assert_eq!(out.code[2].a, 2);
    assert_eq!(out.code[2].b, 0);
    assert_eq!(out.code[2].c, 1);
    assert_eq!(out.code[4].a, 0);
    for n in &out.code[1..4] {
        assert_ne!(n.a, 0);
    }
}

fn many_live(count: u32, ext: bool) -> Vec<Instruction32> {
    let (def, assert) = if ext { (27u8, 60u8) } else { (2u8, 59u8) };
    let mut code = Vec::new();
    for id in 1..=count {
        code.push(ins(def, id, 0, 0));
    }
    for id in 1..=count {
        code.push(ins(assert, id, 0, 0));
    }
    code
}

#[test]
fn base_file_holds_exactly_its_capacity() {
    let usable = (F_REGISTERS - 1) as u32;
    let out = optimize(many_live(usable, false)).unwrap();
    assert_eq!(out.f_max, F_REGISTERS - 1);
    assert_eq!(out.code.len(), 2 * usable as usize);
    let err = optimize(many_live(usable + 1, false)).err().unwrap();
    assert_eq!(
        err,
        CompileError::CapacityExceeded { domain: Domain::Base, index: usable, capacity: F_REGISTERS }
    );
}

#[test]
fn extension_file_holds_exactly_its_capacity() {
    let usable = (EF_REGISTERS - 1) as u32;
    let out = optimize(many_live(usable, true)).unwrap();
    assert_eq!(out.ef_max, EF_REGISTERS - 1);
    assert_eq!(out.f_max, 0);
    let err = optimize(many_live(usable + 1, true)).err().unwrap();
    assert_eq!(
        err,
        CompileError::CapacityExceeded {
            domain: Domain::Extension,
            index: usable,
            capacity: EF_REGISTERS
        }
    );
}

#[test]
fn unknown_opcode_is_rejected() {
    let code = vec![ins(2, 1, 0, 0), ins(61, 1, 0, 0), ins(200, 0, 0, 0)];
    let err = optimize(code).err().unwrap();
    assert_eq!(err, CompileError::UnknownOpcode { index: 1, opcode: 61 });
}

#[test]
fn operands_that_are_not_registers_keep_their_low_bits() {
    let code = vec![
        Instruction32 { opcode: 5, b_variant: 9, c_variant: 2, a: 1, b: 70000, c: 3 },
        ins(59, 1, 0, 0),
    ];
    let out = optimize(code).unwrap();
    assert_eq!(out.code[0], Instruction16 { opcode: 5, b_variant: 9, c_variant: 2, a: 1, b: 70000u32 as u16, c: 3 });
}

fn trace_sample(t: &mut Tracer) {
    let x = t.f_add_vc(SymbolicVarF::main_local(0), 1);
    let y = t.f_mul_ec(x, 3);
    t.f_assert_zero(y);
    let e = t.e_mul_vv(SymbolicVarEF::permutation_local(0), SymbolicVarEF::permutation_challenge(0));
    t.e_assert_zero(e);
}

#[test]
fn compilations_after_reset_are_independent() {
    let mut t = Tracer::new();
    trace_sample(&mut t);
    let first = t.finish().unwrap();
    assert!(t.code.is_empty());
    trace_sample(&mut t);
    let second = t.finish().unwrap();
    assert_eq!(first.code, second.code);
    assert_eq!(first.f_constants, vec![1, 3]);
    assert_eq!(second.f_constants, vec![1, 3]);
    assert_eq!(first.ef_constants, second.ef_constants);
    assert_eq!((first.f_max, first.ef_max), (second.f_max, second.ef_max));
}

#[test]
fn allocator_hands_out_lowest_free_slot() {
    let mut ra = RegisterAllocator::new();
    assert_eq!(ra.f_vreg2phys(0), Some(0));
    assert_eq!(ra.f_vreg2phys(5), Some(1));
    assert_eq!(ra.f_vreg2phys(5), Some(1));
    assert_eq!(ra.f_vreg2phys(6), Some(2));
    ra.f_free(5);
    assert_eq!(ra.f_vreg2phys(7), Some(1));
    ra.f_free(0);
    assert_eq!(ra.f_vreg2phys(0), Some(0));
    assert_eq!(ra.f_vreg2phys(8), Some(3));
    assert_eq!(ra.ef_vreg2phys(5), Some(1));
    ra.ef_free(5);
    ra.ef_free(5);
    assert_eq!(ra.ef_vreg2phys(9), Some(1));
    assert_eq!(ra.f_bank.max, 3);
    assert_eq!(ra.ef_bank.max, 1);
}

#[test]
fn full_file_refuses_a_new_register() {
    let mut ra = RegisterAllocator::new();
    for id in 1..EF_REGISTERS as u32 {
        assert_eq!(ra.ef_vreg2phys(id), Some(id));
    }
    assert_eq!(ra.ef_vreg2phys(5000), None);
    assert_eq!(ra.ef_vreg2phys(7), Some(7));
}

fn trace_live_values(t: &mut Tracer, count: u32) {
    let mut vals: Vec<SymbolicExprF> = Vec::new();
    for i in 0..count {
        vals.push(t.f_assign_v(SymbolicVarF::main_local(i)));
    }
    for v in vals {
        t.f_assert_zero(v);
    }
}

#[test]
fn finish_succeeds_exactly_up_to_capacity() {
    let mut t = Tracer::new();
    let usable = (F_REGISTERS - 1) as u32;
    trace_live_values(&mut t, usable);
    let out = t.finish().unwrap();
    assert_eq!(out.f_max, F_REGISTERS - 1);
    assert!(out.code.iter().all(|n| n.a >= 1 && (n.a as usize) < F_REGISTERS));
    trace_live_values(&mut t, usable + 1);
    let err = t.finish().err().unwrap();
    assert_eq!(
        err,
        CompileError::CapacityExceeded { domain: Domain::Base, index: usable, capacity: F_REGISTERS }
    );
    assert!(t.code.is_empty());
    assert_eq!(t.f_ctr, 1);
}

#[test]
fn high_water_mark_is_peak_live_count() {
    let mut t = Tracer::new();
    trace_live_values(&mut t, 3);
    let x = t.f_assign_v(SymbolicVarF::is_last_row());
    t.f_assert_zero(x);
    let out = t.finish().unwrap();
    assert_eq!(out.f_max, 3);
    assert_eq!(out.code[6].a, 1);
}
