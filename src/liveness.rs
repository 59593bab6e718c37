//! First and last use of every virtual register, per domain.

use std::collections::HashMap;

use vstd::prelude::*;

use crate::instruction::{
    e_slot_a, e_slot_b, e_slot_c, f_slot_a, f_slot_b, f_slot_c, Instruction32, Opcode, MAX_OPCODE,
};

verus! {

broadcast use vstd::std_specs::hash::group_hash_axioms;

/// Slot `s` (0 for `a`, 1 for `b`, 2 for `c`) of an instruction with opcode `op` holds a
/// register of the extension domain when `ext`, else of the base domain.
pub open spec fn reg_slot(ext: bool, op: u8, s: int) -> bool {
    if ext {
        if s == 0 {
            e_slot_a(op)
        } else if s == 1 {
            e_slot_b(op)
        } else if s == 2 {
            e_slot_c(op)
        } else {
            false
        }
    } else {
        if s == 0 {
            f_slot_a(op)
        } else if s == 1 {
            f_slot_b(op)
        } else if s == 2 {
            f_slot_c(op)
        } else {
            false
        }
    }
}

/// The operand field of slot `s`.
pub open spec fn field32(ins: Instruction32, s: int) -> u32 {
    if s == 0 {
        ins.a
    } else if s == 1 {
        ins.b
    } else {
        ins.c
    }
}

/// One of the first `s` slots of `ins` names register `x` of the domain.
pub open spec fn refs_in(ext: bool, ins: Instruction32, x: u32, s: int) -> bool {
    ||| (0 < s && reg_slot(ext, ins.opcode, 0) && ins.a == x)
    ||| (1 < s && reg_slot(ext, ins.opcode, 1) && ins.b == x)
    ||| (2 < s && reg_slot(ext, ins.opcode, 2) && ins.c == x)
}

/// `ins` names register `x` of the domain in one of its slots.
pub open spec fn refs(ext: bool, ins: Instruction32, x: u32) -> bool {
    refs_in(ext, ins, x, 3)
}

/// Some instruction before position `i` names register `x`.
pub open spec fn used_before(ext: bool, code: Seq<Instruction32>, x: u32, i: int) -> bool {
    exists|j: int| 0 <= j < i && #[trigger] refs(ext, code[j], x)
}

/// Position `i` is the first that names register `x`.
pub open spec fn is_first_use(ext: bool, code: Seq<Instruction32>, x: u32, i: int) -> bool {
    &&& 0 <= i < code.len()
    &&& refs(ext, code[i], x)
    &&& forall|j: int| 0 <= j < i ==> !#[trigger] refs(ext, code[j], x)
}

/// Position `i` is the last that names register `x`.
pub open spec fn is_last_use(ext: bool, code: Seq<Instruction32>, x: u32, i: int) -> bool {
    &&& 0 <= i < code.len()
    &&& refs(ext, code[i], x)
    &&& forall|j: int| i < j < code.len() ==> !#[trigger] refs(ext, code[j], x)
}

/// `first` and `last` give, for each register of the domain that `code` names, the first
/// and the last position naming it, and hold no other register.
pub open spec fn live_ranges(
    ext: bool,
    code: Seq<Instruction32>,
    first: Map<u32, u32>,
    last: Map<u32, u32>,
) -> bool {
    &&& forall|x: u32| #[trigger]
        first.contains_key(x) <==> used_before(ext, code, x, code.len() as int)
    &&& forall|x: u32| #[trigger] last.contains_key(x) <==> first.contains_key(x)
    &&& forall|x: u32|
        #[trigger] first.contains_key(x) ==> is_first_use(ext, code, x, first[x] as int)
            && is_last_use(ext, code, x, last[x] as int)
}

/// The first and last use of every register that a program names, per domain.
pub struct Liveness {
    pub f_first: HashMap<u32, u32>,
    pub f_last: HashMap<u32, u32>,
    pub ef_first: HashMap<u32, u32>,
    pub ef_last: HashMap<u32, u32>,
}

/// The state of the scan after the first `s` slots of position `i`.
spec fn scan_inv(
    ext: bool,
    code: Seq<Instruction32>,
    i: int,
    s: int,
    first: Map<u32, u32>,
    last: Map<u32, u32>,
) -> bool {
    &&& forall|x: u32| #[trigger]
        first.contains_key(x) <==> (used_before(ext, code, x, i) || refs_in(ext, code[i], x, s))
    &&& forall|x: u32| #[trigger] last.contains_key(x) <==> first.contains_key(x)
    &&& forall|x: u32| #[trigger]
        first.contains_key(x) ==> {
            &&& 0 <= first[x] <= i
            &&& refs(ext, code[first[x] as int], x)
            &&& forall|j: int| 0 <= j < first[x] ==> !#[trigger] refs(ext, code[j], x)
            &&& 0 <= last[x] <= i
            &&& refs(ext, code[last[x] as int], x)
            &&& forall|j: int| last[x] < j < i ==> !#[trigger] refs(ext, code[j], x)
            &&& refs_in(ext, code[i], x, s) ==> last[x] == i
        }
}

/// Records that slot `s` of position `i` names register `x`.
fn note_use(
    first: &mut HashMap<u32, u32>,
    last: &mut HashMap<u32, u32>,
    x: u32,
    i: u32,
    Ghost(ext): Ghost<bool>,
    Ghost(code): Ghost<Seq<Instruction32>>,
    Ghost(s): Ghost<int>,
)
    requires
        0 <= i < code.len(),
        0 <= s < 3,
        reg_slot(ext, code[i as int].opcode, s),
        field32(code[i as int], s) == x,
        scan_inv(ext, code, i as int, s, old(first)@, old(last)@),
    ensures
        scan_inv(ext, code, i as int, s + 1, final(first)@, final(last)@),
{
    if !first.contains_key(&x) {
        first.insert(x, i);
    }
    last.insert(x, i);
    proof {
        let ii = i as int;
        assert forall|y: u32| #[trigger]
            first@.contains_key(y) <==> (used_before(ext, code, y, ii) || refs_in(
                ext,
                code[ii],
                y,
                s + 1,
            )) by {
            if y == x {
                assert(refs_in(ext, code[ii], y, s + 1));
            }
        }
        assert forall|y: u32| #[trigger] first@.contains_key(y) implies {
            &&& 0 <= first@[y] <= ii
            &&& refs(ext, code[first@[y] as int], y)
            &&& forall|j: int| 0 <= j < first@[y] ==> !#[trigger] refs(ext, code[j], y)
            &&& 0 <= last@[y] <= ii
            &&& refs(ext, code[last@[y] as int], y)
            &&& forall|j: int| last@[y] < j < ii ==> !#[trigger] refs(ext, code[j], y)
            &&& refs_in(ext, code[ii], y, s + 1) ==> last@[y] == ii
        } by {
            if y == x {
                assert(refs(ext, code[ii], x));
                if !old(first)@.contains_key(x) {
                    assert forall|j: int| 0 <= j < ii implies !#[trigger] refs(ext, code[j], x) by {
                        if refs(ext, code[j], x) {
                            assert(used_before(ext, code, x, ii));
                        }
                    }
                }
            }
        }
    }
}

/// Computes, for each domain, the first and last position at which every register is named.
pub fn liveness(code: &Vec<Instruction32>) -> (r: Liveness)
    requires
        code.len() <= u32::MAX,
        forall|i: int| 0 <= i < code.len() ==> #[trigger] code@[i].opcode <= MAX_OPCODE,
    ensures
        live_ranges(false, code@, r.f_first@, r.f_last@),
        live_ranges(true, code@, r.ef_first@, r.ef_last@),
{
    let mut f_first: HashMap<u32, u32> = HashMap::new();
    let mut f_last: HashMap<u32, u32> = HashMap::new();
    let mut ef_first: HashMap<u32, u32> = HashMap::new();
    let mut ef_last: HashMap<u32, u32> = HashMap::new();
    let n = code.len();
    let mut i: usize = 0;
    while i < n
        invariant
            n == code.len(),
            n <= u32::MAX,
            0 <= i <= n,
            forall|j: int| 0 <= j < code.len() ==> #[trigger] code@[j].opcode <= MAX_OPCODE,
            i < n ==> scan_inv(false, code@, i as int, 0, f_first@, f_last@),
            i < n ==> scan_inv(true, code@, i as int, 0, ef_first@, ef_last@),
            i == n ==> live_ranges(false, code@, f_first@, f_last@),
            i == n ==> live_ranges(true, code@, ef_first@, ef_last@),
            i == 0 ==> f_first@ == Map::<u32, u32>::empty() && f_last@ == Map::<u32, u32>::empty(),
            i == 0 ==> ef_first@ == Map::<u32, u32>::empty() && ef_last@ == Map::<u32, u32>::empty(),
        decreases n - i,
    {
        let instr = code[i];
        let op = match Opcode::from_code(instr.opcode) {
            Some(op) => op,
            None => Opcode::Empty,
        };
        let pos = i as u32;
        let ghost c = code@;
        if op.is_f_assign() {
            note_use(&mut f_first, &mut f_last, instr.a, pos, Ghost(false), Ghost(c), Ghost(0));
        }
        assert(scan_inv(false, c, i as int, 1, f_first@, f_last@));
        if op.is_f_arg1() {
            note_use(&mut f_first, &mut f_last, instr.b, pos, Ghost(false), Ghost(c), Ghost(1));
        }
        assert(scan_inv(false, c, i as int, 2, f_first@, f_last@));
        if op.is_f_arg2() {
            note_use(&mut f_first, &mut f_last, instr.c, pos, Ghost(false), Ghost(c), Ghost(2));
        }
        assert(scan_inv(false, c, i as int, 3, f_first@, f_last@));
        if op.is_e_assign() {
            note_use(&mut ef_first, &mut ef_last, instr.a, pos, Ghost(true), Ghost(c), Ghost(0));
        }
        assert(scan_inv(true, c, i as int, 1, ef_first@, ef_last@));
        if op.is_e_arg1() {
            note_use(&mut ef_first, &mut ef_last, instr.b, pos, Ghost(true), Ghost(c), Ghost(1));
        }
        assert(scan_inv(true, c, i as int, 2, ef_first@, ef_last@));
        if op.is_e_arg2() {
            note_use(&mut ef_first, &mut ef_last, instr.c, pos, Ghost(true), Ghost(c), Ghost(2));
        }
        assert(scan_inv(true, c, i as int, 3, ef_first@, ef_last@));
        proof {
            lemma_scan_step(false, c, i as int, f_first@, f_last@);
            lemma_scan_step(true, c, i as int, ef_first@, ef_last@);
        }
        i = i + 1;
    }
    Liveness { f_first, f_last, ef_first, ef_last }
}

/// Moving from the end of one position to the start of the next, or to the end of the program.
proof fn lemma_scan_step(
    ext: bool,
    code: Seq<Instruction32>,
    i: int,
    first: Map<u32, u32>,
    last: Map<u32, u32>,
)
    requires
        0 <= i < code.len(),
        scan_inv(ext, code, i, 3, first, last),
    ensures
        i + 1 < code.len() ==> scan_inv(ext, code, i + 1, 0, first, last),
        i + 1 == code.len() ==> live_ranges(ext, code, first, last),
{
    assert forall|x: u32|
        (used_before(ext, code, x, i) || refs_in(ext, code[i], x, 3)) <==> used_before(
            ext,
            code,
            x,
            i + 1,
        ) by {
        if used_before(ext, code, x, i + 1) {
            let j = choose|j: int| 0 <= j < i + 1 && #[trigger] refs(ext, code[j], x);
            if j < i {
                assert(used_before(ext, code, x, i));
            }
        }
        if refs_in(ext, code[i], x, 3) {
            assert(refs(ext, code[i], x));
        }
    }
    assert forall|x: u32| #[trigger] first.contains_key(x) implies forall|j: int|
        last[x] < j < i + 1 ==> !#[trigger] refs(ext, code[j], x) by {
        assert forall|j: int| last[x] < j < i + 1 implies !#[trigger] refs(ext, code[j], x) by {
            if j == i && refs(ext, code[j], x) {
                assert(refs_in(ext, code[i], x, 3));
            }
        }
    }
}

} // verus!
