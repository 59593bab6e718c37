//! Linear-scan register allocation from virtual registers onto the two physical files.

use std::collections::HashMap;

use vstd::prelude::*;
use vstd::relations::injective_on;
use vstd::set_lib::{
    lemma_int_range, lemma_len_subset, lemma_map_size, lemma_map_size_bound, set_int_range,
};

use crate::bank::{bank_ok, Bank};
use crate::instruction::{Instruction16, Instruction32, Opcode, MAX_OPCODE};
use crate::liveness::{
    field32, is_first_use, is_last_use, liveness, live_ranges, reg_slot, refs, refs_in,
    used_before, Liveness,
};

verus! {

broadcast use vstd::std_specs::hash::group_hash_axioms;

/// Slots in the base-domain register file.
pub const F_REGISTERS: usize = 2048;

/// Slots in the extension-domain register file.
pub const EF_REGISTERS: usize = 1024;

/// The two register domains.
#[derive(Debug, Clone, Copy, PartialEq, Eq, Structural)]
pub enum Domain {
    Base,
    Extension,
}

/// Why a compilation fails.
#[derive(Debug, Clone, Copy, PartialEq, Eq, Structural)]
pub enum CompileError {
    /// The instruction at `index` carries an opcode byte that names no operation.
    UnknownOpcode { index: u32, opcode: u8 },
    /// At the instruction at `index`, a register of `domain` needed a slot while all
    /// `capacity` slots of its file were taken.
    CapacityExceeded { domain: Domain, index: u32, capacity: usize },
}

/// The allocator's output: the program in execution form and the high-water mark of each
/// domain.
pub struct Allocation {
    pub code: Vec<Instruction16>,
    /// The highest base-domain slot index in use. Slot 0 is reserved, so this is also the
    /// largest count of base registers live at once; the file needs `f_max + 1` slots.
    pub f_max: usize,
    /// The highest extension-domain slot index in use, counted as `f_max` is.
    pub ef_max: usize,
}

/// The operand field of slot `s` of an instruction in execution form.
pub open spec fn field16(ins: Instruction16, s: int) -> u16 {
    if s == 0 {
        ins.a
    } else if s == 1 {
        ins.b
    } else {
        ins.c
    }
}

/// Some instruction at position `j` or later names register `x`.
pub open spec fn used_from(ext: bool, code: Seq<Instruction32>, x: u32, j: int) -> bool {
    exists|m: int| j <= m < code.len() && #[trigger] refs(ext, code[m], x)
}

/// `out` is `code` in execution form: same opcodes and tags, and every operand that is no
/// register of either domain kept as its low 16 bits.
pub open spec fn narrowed(code: Seq<Instruction32>, out: Seq<Instruction16>) -> bool {
    &&& out.len() == code.len()
    &&& forall|i: int|
        0 <= i < code.len() ==> {
            &&& (#[trigger] out[i]).opcode == code[i].opcode
            &&& out[i].b_variant == code[i].b_variant
            &&& out[i].c_variant == code[i].c_variant
        }
    &&& forall|i: int, s: int|
        0 <= i < code.len() && 0 <= s < 3 && !reg_slot(false, code[i].opcode, s) && !reg_slot(
            true,
            code[i].opcode,
            s,
        ) ==> #[trigger] field16(out[i], s) == field32(code[i], s) as u16
}

/// Slot `q` of the domain is held at slot `s` of position `i` of `code`: some register other
/// than the one named there was given `q` in `out`, was named before that point and is named
/// again at or after position `i`.
pub open spec fn slot_taken(
    ext: bool,
    code: Seq<Instruction32>,
    out: Seq<Instruction16>,
    q: int,
    i: int,
    s: int,
) -> bool {
    exists|j: int, t: int|
        0 <= j < code.len() && 0 <= t < 3 && reg_slot(ext, code[j].opcode, t) && #[trigger] field16(
            out[j],
            t,
        ) == q && field32(code[j], t) != field32(code[i], s) && (used_before(
            ext,
            code,
            field32(code[j], t),
            i,
        ) || refs_in(ext, code[i], field32(code[j], t), s)) && used_from(
            ext,
            code,
            field32(code[j], t),
            i,
        )
}

/// The register operands of one domain in `out` are a sound allocation of those of `code`
/// onto `cap` physical slots, of which `max` is the highest in use.
pub open spec fn allocated(
    ext: bool,
    code: Seq<Instruction32>,
    out: Seq<Instruction16>,
    cap: int,
    max: int,
) -> bool {
    // Every reference gets a slot no higher than `max`, which is below `cap`; slot 0 goes
    // to register 0 and to no other.
    &&& 0 <= max < cap
    &&& forall|i: int, s: int|
        0 <= i < code.len() && 0 <= s < 3 && reg_slot(ext, code[i].opcode, s) ==> {
            &&& #[trigger] field16(out[i], s) <= max
            &&& (field16(out[i], s) == 0 <==> field32(code[i], s) == 0)
        }
        // A register keeps one slot for its whole life.
    &&& forall|i: int, s: int, j: int, t: int|
        0 <= i < code.len() && 0 <= j < code.len() && 0 <= s < 3 && 0 <= t < 3 && reg_slot(
            ext,
            code[i].opcode,
            s,
        ) && reg_slot(ext, code[j].opcode, t) && field32(code[i], s) == field32(code[j], t)
            ==> #[trigger] field16(out[i], s) == #[trigger] field16(out[j], t)
        // Two registers that share a slot are never live together: once the second is
        // named, the first is named no more.
    &&& forall|i: int, s: int, j: int, t: int|
        0 <= i <= j < code.len() && 0 <= s < 3 && 0 <= t < 3 && reg_slot(ext, code[i].opcode, s)
            && reg_slot(ext, code[j].opcode, t) && field32(code[i], s) != field32(code[j], t)
            && #[trigger] field16(out[i], s) == #[trigger] field16(out[j], t) ==> !used_from(
            ext,
            code,
            field32(code[i], s),
            j,
        )
        // First fit: where a register other than 0 is first named, every lower slot but 0 is
        // held by another live register.
    &&& forall|i: int, s: int, q: int|
        0 <= i < code.len() && 0 <= s < 3 && reg_slot(ext, code[i].opcode, s) && field32(code[i], s)
            != 0 && !used_before(ext, code, field32(code[i], s), i) && !refs_in(
            ext,
            code[i],
            field32(code[i], s),
            s,
        ) && 0 < q < field16(out[i], s) ==> #[trigger] slot_taken(ext, code, out, q, i, s)
        // `max` is a slot in use, or 0.
    &&& max == 0 || exists|i: int, s: int|
        0 <= i < code.len() && 0 <= s < 3 && reg_slot(ext, code[i].opcode, s) && #[trigger] field16(
            out[i],
            s,
        ) == max
}

/// The registers of the domain other than register 0 that are live at position `k`:
/// named at or before it and at or after it.
pub open spec fn live_at(ext: bool, code: Seq<Instruction32>, k: int) -> Set<u32> {
    Set::new(|x: u32| x != 0 && used_before(ext, code, x, k + 1) && used_from(ext, code, x, k))
}

proof fn lemma_u32_set_finite(s: Set<u32>)
    ensures
        s.finite(),
{
    let f = |i: int| i as u32;
    let range = set_int_range(0, 0x1_0000_0000);
    let full = range.map(f);
    lemma_int_range(0, 0x1_0000_0000);
    lemma_map_size_bound(range, full, f);
    assert forall|x: u32| s.contains(x) implies full.contains(x) by {
        assert(range.contains(x as int));
        assert(f(x as int) == x);
    }
    lemma_len_subset(s, full);
}

/// Register `x` has been named before slot `s` of position `k` (register 0 always counts).
pub open spec fn seen(
    ext: bool,
    code: Seq<Instruction32>,
    first: Map<u32, u32>,
    k: int,
    s: int,
    x: u32,
) -> bool {
    x == 0 || (first.contains_key(x) && (first[x] < k || (k < code.len() && refs_in(
        ext,
        code[k],
        x,
        s,
    ))))
}

/// Register `x` holds a slot once the first `s` slots of position `k` have been placed and
/// the first `f` freed.
pub open spec fn holds_slot(
    ext: bool,
    code: Seq<Instruction32>,
    first: Map<u32, u32>,
    last: Map<u32, u32>,
    k: int,
    s: int,
    f: int,
    x: u32,
) -> bool {
    x == 0 || (seen(ext, code, first, k, s, x) && last[x] >= k && !(last[x] == k && refs_in(
        ext,
        code[k],
        x,
        f,
    )))
}

/// The first slot of `ins` that names register `x`, when one does.
pub open spec fn first_slot(ext: bool, ins: Instruction32, x: u32) -> int {
    if reg_slot(ext, ins.opcode, 0) && ins.a == x {
        0
    } else if reg_slot(ext, ins.opcode, 1) && ins.b == x {
        1
    } else {
        2
    }
}

/// Register `y` was placed before register `x`: at an earlier position, or at the same
/// position in an earlier slot.
pub open spec fn placed_before(
    ext: bool,
    code: Seq<Instruction32>,
    first: Map<u32, u32>,
    y: u32,
    x: u32,
) -> bool {
    ||| first[y] < first[x]
    ||| (first[y] == first[x] && first_slot(ext, code[first[y] as int], y) < first_slot(
        ext,
        code[first[x] as int],
        x,
    ))
}

/// When register `x` was placed, slot `q` was held by a register placed earlier and still
/// live.
pub open spec fn held_below(
    ext: bool,
    code: Seq<Instruction32>,
    first: Map<u32, u32>,
    last: Map<u32, u32>,
    fa: Map<u32, u32>,
    x: u32,
    q: int,
) -> bool {
    exists|y: u32|
        #[trigger] fa.contains_key(y) && fa[y] == q && placed_before(ext, code, first, y, x)
            && last[y] >= first[x]
}

/// The allocation state of one domain in the middle of the pass; `fa` records the slot
/// given to every register seen so far.
pub open spec fn tracking(
    ext: bool,
    code: Seq<Instruction32>,
    first: Map<u32, u32>,
    last: Map<u32, u32>,
    k: int,
    s: int,
    f: int,
    used: Seq<bool>,
    map: Map<u32, u32>,
    max: int,
    fa: Map<u32, u32>,
) -> bool {
    &&& bank_ok(used, map)
    &&& 0 <= max < used.len()
    &&& forall|x: u32| #[trigger]
        map.contains_key(x) <==> holds_slot(ext, code, first, last, k, s, f, x)
    &&& forall|x: u32| #[trigger] fa.contains_key(x) <==> seen(ext, code, first, k, s, x)
    &&& forall|x: u32| #[trigger] map.contains_key(x) ==> fa.contains_key(x) && fa[x] == map[x]
    &&& forall|x: u32| #[trigger]
        fa.contains_key(x) ==> fa[x] < used.len() && (fa[x] == 0 <==> x == 0) && fa[x] <= max
    &&& forall|x: u32, y: u32|
        #[trigger] fa.contains_key(x) && #[trigger] fa.contains_key(y) && x != y && fa[x] == fa[y]
            ==> last[x] < first[y] || last[y] < first[x]
    &&& max == 0 || exists|x: u32| #[trigger] fa.contains_key(x) && fa[x] == max
    &&& forall|x: u32, q: int|
        fa.contains_key(x) && x != 0 && 0 < q < fa[x] ==> #[trigger] held_below(
            ext,
            code,
            first,
            last,
            fa,
            x,
            q,
        )
}

proof fn lemma_refs_in_step(ext: bool, ins: Instruction32, x: u32, s: int)
    requires
        0 <= s < 3,
    ensures
        refs_in(ext, ins, x, s + 1) == (refs_in(ext, ins, x, s) || (reg_slot(ext, ins.opcode, s)
            && field32(ins, s) == x)),
{
}

/// Placing slot `s` of position `k`: the register there keeps its slot or takes the one the
/// bank handed out.
proof fn lemma_place(
    ext: bool,
    code: Seq<Instruction32>,
    first: Map<u32, u32>,
    last: Map<u32, u32>,
    k: int,
    s: int,
    used: Seq<bool>,
    map: Map<u32, u32>,
    max: int,
    fa: Map<u32, u32>,
    used2: Seq<bool>,
    map2: Map<u32, u32>,
    max2: int,
    p: u32,
) -> (fa2: Map<u32, u32>)
    requires
        live_ranges(ext, code, first, last),
        0 <= k < code.len(),
        0 <= s < 3,
        reg_slot(ext, code[k].opcode, s),
        tracking(ext, code, first, last, k, s, 0, used, map, max, fa),
        bank_ok(used2, map2),
        0 <= max2 < used2.len(),
        used2.len() == used.len(),
        map.contains_key(field32(code[k], s)) ==> {
            &&& p == map[field32(code[k], s)]
            &&& used2 == used
            &&& map2 == map
            &&& max2 == max
        },
        !map.contains_key(field32(code[k], s)) ==> {
            &&& p < used.len()
            &&& !used[p as int]
            &&& forall|q: int| 0 <= q < p ==> used[q]
            &&& map2 == map.insert(field32(code[k], s), p)
            &&& used2 == used.update(p as int, true)
            &&& max2 == if p > max {
                p as int
            } else {
                max
            }
        },
    ensures
        tracking(ext, code, first, last, k, s + 1, 0, used2, map2, max2, fa2),
        fa2.contains_key(field32(code[k], s)),
        fa2[field32(code[k], s)] == p,
        forall|y: u32| #[trigger] fa.contains_key(y) ==> fa2.contains_key(y) && fa2[y] == fa[y],
{
    let x = field32(code[k], s);
    let fa2 = fa.insert(x, p);
    assert forall|y: u32| #[trigger] refs_in(ext, code[k], y, s + 1) == (refs_in(ext, code[k], y, s)
        || y == x) by {
        lemma_refs_in_step(ext, code[k], y, s);
    }
    assert(refs(ext, code[k], x));
    assert(used_before(ext, code, x, code.len() as int));
    assert(first.contains_key(x));
    assert(first[x] <= k <= last[x]);
    if map.contains_key(x) {
        assert(fa2 =~= fa);
        assert forall|y: u32| #[trigger]
            map2.contains_key(y) <==> holds_slot(ext, code, first, last, k, s + 1, 0, y) by {
            if y == x {
                assert(holds_slot(ext, code, first, last, k, s, 0, y));
            }
        }
        assert forall|y: u32| #[trigger] fa2.contains_key(y) <==> seen(
            ext,
            code,
            first,
            k,
            s + 1,
            y,
        ) by {
            if y == x {
                assert(holds_slot(ext, code, first, last, k, s, 0, y));
            }
        }
    } else {
        assert(x != 0);
        assert(!seen(ext, code, first, k, s, x));
        assert(!fa.contains_key(x));
        assert(first[x] == k);
        assert(p != 0);
        assert forall|y: u32| #[trigger]
            map2.contains_key(y) <==> holds_slot(ext, code, first, last, k, s + 1, 0, y) by {
        }
        assert forall|y: u32| #[trigger] fa2.contains_key(y) <==> seen(
            ext,
            code,
            first,
            k,
            s + 1,
            y,
        ) by {
        }
        assert forall|y: u32| #[trigger] map2.contains_key(y) implies fa2.contains_key(y) && fa2[y]
            == map2[y] by {
        }
        assert forall|y: u32| #[trigger] fa2.contains_key(y) implies fa2[y] < used2.len() && (fa2[y]
            == 0 <==> y == 0) && fa2[y] <= max2 by {
        }
        assert forall|y: u32, z: u32|
            #[trigger] fa2.contains_key(y) && #[trigger] fa2.contains_key(z) && y != z && fa2[y]
                == fa2[z] implies last[y] < first[z] || last[z] < first[y] by {
            if y == x {
                assert(fa.contains_key(z) && fa[z] == p);
                assert(!map.contains_key(z));
                assert(!holds_slot(ext, code, first, last, k, s, 0, z));
            } else if z == x {
                assert(fa.contains_key(y) && fa[y] == p);
                assert(!map.contains_key(y));
                assert(!holds_slot(ext, code, first, last, k, s, 0, y));
            }
        }
        assert(first_slot(ext, code[k], x) == s);
        assert forall|y: u32, q: int|
            fa2.contains_key(y) && y != 0 && 0 < q < fa2[y] implies #[trigger] held_below(
            ext,
            code,
            first,
            last,
            fa2,
            y,
            q,
        ) by {
            if y == x {
                assert(used[q]);
                let z = choose|z: u32| #[trigger] map.contains_key(z) && map[z] == q;
                assert(z != 0);
                assert(holds_slot(ext, code, first, last, k, s, 0, z));
                assert(fa2.contains_key(z) && fa2[z] == q);
                if first[z] >= k {
                    assert(refs_in(ext, code[k], z, s));
                    assert(refs(ext, code[k], z));
                    assert(used_before(ext, code, z, code.len() as int));
                    assert(is_first_use(ext, code, z, first[z] as int));
                    assert(first[z] == k);
                }
                assert(placed_before(ext, code, first, z, x));
            } else {
                assert(held_below(ext, code, first, last, fa, y, q));
                let z = choose|z: u32|
                    #[trigger] fa.contains_key(z) && fa[z] == q && placed_before(
                        ext,
                        code,
                        first,
                        z,
                        y,
                    )
                        && last[z] >= first[y];
                assert(fa2.contains_key(z) && fa2[z] == q);
            }
        }
        if max2 != 0 {
            if p > max {
                assert(fa2.contains_key(x) && fa2[x] == max2);
            } else {
                let w = choose|w: u32| #[trigger] fa.contains_key(w) && fa[w] == max;
                assert(fa2.contains_key(w) && fa2[w] == max2);
            }
        }
    }
    fa2
}

/// Slot `s` of position `k` holds no register of the domain.
proof fn lemma_skip(
    ext: bool,
    code: Seq<Instruction32>,
    first: Map<u32, u32>,
    last: Map<u32, u32>,
    k: int,
    s: int,
    used: Seq<bool>,
    map: Map<u32, u32>,
    max: int,
    fa: Map<u32, u32>,
)
    requires
        0 <= k < code.len(),
        0 <= s < 3,
        !reg_slot(ext, code[k].opcode, s),
        tracking(ext, code, first, last, k, s, 0, used, map, max, fa),
    ensures
        tracking(ext, code, first, last, k, s + 1, 0, used, map, max, fa),
{
    assert forall|y: u32| #[trigger] refs_in(ext, code[k], y, s + 1) == refs_in(
        ext,
        code[k],
        y,
        s,
    ) by {
        lemma_refs_in_step(ext, code[k], y, s);
    }
    assert forall|y: u32| #[trigger]
        map.contains_key(y) <==> holds_slot(ext, code, first, last, k, s + 1, 0, y) by {
    }
    assert forall|y: u32| #[trigger] fa.contains_key(y) <==> seen(
        ext,
        code,
        first,
        k,
        s + 1,
        y,
    ) by {
    }
}

/// Freeing after slot `f` of position `k`: the register there gives up its slot when this
/// is its last use.
proof fn lemma_free(
    ext: bool,
    code: Seq<Instruction32>,
    first: Map<u32, u32>,
    last: Map<u32, u32>,
    k: int,
    f: int,
    used: Seq<bool>,
    map: Map<u32, u32>,
    max: int,
    fa: Map<u32, u32>,
    used2: Seq<bool>,
    map2: Map<u32, u32>,
)
    requires
        live_ranges(ext, code, first, last),
        0 <= k < code.len(),
        0 <= f < 3,
        tracking(ext, code, first, last, k, 3, f, used, map, max, fa),
        bank_ok(used2, map2),
        used2.len() == used.len(),
        ({
            let x = field32(code[k], f);
            if reg_slot(ext, code[k].opcode, f) && last[x] == k && x != 0 && map.contains_key(x) {
                map2 == map.remove(x)
            } else {
                map2 == map && used2 == used
            }
        }),
    ensures
        tracking(ext, code, first, last, k, 3, f + 1, used2, map2, max, fa),
{
    let x = field32(code[k], f);
    assert forall|y: u32| #[trigger] refs_in(ext, code[k], y, f + 1) == (refs_in(ext, code[k], y, f)
        || (reg_slot(ext, code[k].opcode, f) && y == x)) by {
        lemma_refs_in_step(ext, code[k], y, f);
    }
    assert forall|y: u32| #[trigger]
        map2.contains_key(y) <==> holds_slot(ext, code, first, last, k, 3, f + 1, y) by {
        if y == x && reg_slot(ext, code[k].opcode, f) {
            assert(refs(ext, code[k], x));
            assert(used_before(ext, code, x, code.len() as int));
        }
    }
    assert forall|y: u32| #[trigger] map2.contains_key(y) implies fa.contains_key(y) && fa[y]
        == map2[y] by {
        assert(map.contains_key(y));
    }
}

/// Moving from the end of position `k` to the start of the next.
proof fn lemma_next(
    ext: bool,
    code: Seq<Instruction32>,
    first: Map<u32, u32>,
    last: Map<u32, u32>,
    k: int,
    used: Seq<bool>,
    map: Map<u32, u32>,
    max: int,
    fa: Map<u32, u32>,
)
    requires
        live_ranges(ext, code, first, last),
        0 <= k < code.len(),
        tracking(ext, code, first, last, k, 3, 3, used, map, max, fa),
    ensures
        tracking(ext, code, first, last, k + 1, 0, 0, used, map, max, fa),
{
    assert forall|y: u32| seen(ext, code, first, k, 3, y) == seen(
        ext,
        code,
        first,
        k + 1,
        0,
        y,
    ) by {
        if y != 0 && first.contains_key(y) {
            assert(is_first_use(ext, code, y, first[y] as int));
            if refs_in(ext, code[k], y, 3) {
                assert(refs(ext, code[k], y));
            }
        }
    }
    assert forall|y: u32| #[trigger]
        map.contains_key(y) <==> holds_slot(ext, code, first, last, k + 1, 0, 0, y) by {
        if y != 0 && first.contains_key(y) {
            assert(is_last_use(ext, code, y, last[y] as int));
            if last[y] == k {
                assert(refs(ext, code[k], y));
            }
        }
    }
    assert forall|y: u32| #[trigger] fa.contains_key(y) <==> seen(
        ext,
        code,
        first,
        k + 1,
        0,
        y,
    ) by {
        assert(seen(ext, code, first, k, 3, y) == seen(ext, code, first, k + 1, 0, y));
    }
}


/// The two register files during allocation.
pub struct RegisterAllocator {
    pub f_bank: Bank,
    pub ef_bank: Bank,
}

impl RegisterAllocator {
    pub open spec fn wf(&self) -> bool {
        &&& self.f_bank.wf()
        &&& self.ef_bank.wf()
        &&& self.f_bank.used@.len() == F_REGISTERS
        &&& self.ef_bank.used@.len() == EF_REGISTERS
    }

    /// The file of the extension domain when `ext`, else of the base domain.
    pub open spec fn bank(&self, ext: bool) -> Bank {
        if ext {
            self.ef_bank
        } else {
            self.f_bank
        }
    }

    /// Both files empty but for virtual register 0 in slot 0.
    pub fn new() -> (r: Self)
        ensures
            r.wf(),
            r.f_bank.map@ == map![0u32 => 0u32],
            r.ef_bank.map@ == map![0u32 => 0u32],
            r.f_bank.max == 0,
            r.ef_bank.max == 0,
            forall|p: int| 0 < p < F_REGISTERS ==> !r.f_bank.used@[p],
            forall|p: int| 0 < p < EF_REGISTERS ==> !r.ef_bank.used@[p],
    {
        RegisterAllocator { f_bank: Bank::new(F_REGISTERS), ef_bank: Bank::new(EF_REGISTERS) }
    }

    /// The base-domain slot of `vreg`, taking the lowest free one on its first reference.
    pub fn f_vreg2phys(&mut self, vreg: u32) -> (r: Option<u32>)
        requires
            old(self).wf(),
        ensures
            final(self).wf(),
            Bank::resolves(old(self).f_bank, final(self).f_bank, vreg, r),
            final(self).ef_bank == old(self).ef_bank,
    {
        self.f_bank.resolve(vreg)
    }

    /// The extension-domain slot of `vreg`, taking the lowest free one on its first reference.
    pub fn ef_vreg2phys(&mut self, vreg: u32) -> (r: Option<u32>)
        requires
            old(self).wf(),
        ensures
            final(self).wf(),
            Bank::resolves(old(self).ef_bank, final(self).ef_bank, vreg, r),
            final(self).f_bank == old(self).f_bank,
    {
        self.ef_bank.resolve(vreg)
    }

    /// Releases the base-domain slot of `vreg`.
    pub fn f_free(&mut self, vreg: u32)
        requires
            old(self).wf(),
        ensures
            final(self).wf(),
            Bank::frees(old(self).f_bank, final(self).f_bank, vreg),
            final(self).ef_bank == old(self).ef_bank,
    {
        self.f_bank.free(vreg)
    }

    /// Releases the extension-domain slot of `vreg`.
    pub fn ef_free(&mut self, vreg: u32)
        requires
            old(self).wf(),
        ensures
            final(self).wf(),
            Bank::frees(old(self).ef_bank, final(self).ef_bank, vreg),
            final(self).f_bank == old(self).f_bank,
    {
        self.ef_bank.free(vreg)
    }
}

/// Gives slot `s` of position `k` its operand in execution form: for a register of the
/// domain, its physical slot; else the field unchanged. `None` when no slot is free.
fn place(
    alloc: &mut RegisterAllocator,
    ext: bool,
    is_reg: bool,
    x: u32,
    Ghost(code): Ghost<Seq<Instruction32>>,
    Ghost(first): Ghost<Map<u32, u32>>,
    Ghost(last): Ghost<Map<u32, u32>>,
    Ghost(k): Ghost<int>,
    Ghost(s): Ghost<int>,
    Ghost(fa): Ghost<Map<u32, u32>>,
) -> (r: Option<(u32, Ghost<Map<u32, u32>>)>)
    requires
        old(alloc).wf(),
        live_ranges(ext, code, first, last),
        0 <= k < code.len(),
        0 <= s < 3,
        is_reg == reg_slot(ext, code[k].opcode, s),
        x == field32(code[k], s),
        tracking(
            ext,
            code,
            first,
            last,
            k,
            s,
            0,
            old(alloc).bank(ext).used@,
            old(alloc).bank(ext).map@,
            old(alloc).bank(ext).max as int,
            fa,
        ),
    ensures
        final(alloc).wf(),
        final(alloc).bank(!ext) == old(alloc).bank(!ext),
        match r {
            Some((v, fa2)) => {
                &&& tracking(
                    ext,
                    code,
                    first,
                    last,
                    k,
                    s + 1,
                    0,
                    final(alloc).bank(ext).used@,
                    final(alloc).bank(ext).map@,
                    final(alloc).bank(ext).max as int,
                    fa2@,
                )
                &&& is_reg ==> fa2@.contains_key(x) && fa2@[x] == v && v
                    < final(alloc).bank(ext).used@.len()
                &&& !is_reg ==> v == x && fa2@ == fa
                &&& forall|y: u32| #[trigger]
                    fa.contains_key(y) ==> fa2@.contains_key(y) && fa2@[y] == fa[y]
            },
            None => is_reg && live_at(ext, code, k).len() >= final(alloc).bank(ext).used@.len(),
        },
{
    if !is_reg {
        proof {
            lemma_skip(
                ext,
                code,
                first,
                last,
                k,
                s,
                alloc.bank(ext).used@,
                alloc.bank(ext).map@,
                alloc.bank(ext).max as int,
                fa,
            );
        }
        return Some((x, Ghost(fa)));
    }
    let ghost before = alloc.bank(ext);
    let res = if ext {
        alloc.ef_vreg2phys(x)
    } else {
        alloc.f_vreg2phys(x)
    };
    match res {
        Some(p) => {
            let ghost after = alloc.bank(ext);
            let ghost fa2 = lemma_place(
                ext,
                code,
                first,
                last,
                k,
                s,
                before.used@,
                before.map@,
                before.max as int,
                fa,
                after.used@,
                after.map@,
                after.max as int,
                p,
            );
            Some((p, Ghost(fa2)))
        },
        None => {
            proof {
                lemma_full_bank(
                    ext,
                    code,
                    first,
                    last,
                    k,
                    s,
                    before.used@,
                    before.map@,
                    before.max as int,
                    fa,
                );
            }
            None
        },
    }
}

/// After slot `f` of position `k`: releases the slot of the register there when this is
/// its last use.
fn release(
    alloc: &mut RegisterAllocator,
    ext: bool,
    is_reg: bool,
    x: u32,
    last_uses: &HashMap<u32, u32>,
    k: u32,
    Ghost(code): Ghost<Seq<Instruction32>>,
    Ghost(first): Ghost<Map<u32, u32>>,
    Ghost(f): Ghost<int>,
    Ghost(fa): Ghost<Map<u32, u32>>,
)
    requires
        old(alloc).wf(),
        live_ranges(ext, code, first, last_uses@),
        0 <= k < code.len(),
        0 <= f < 3,
        is_reg == reg_slot(ext, code[k as int].opcode, f),
        x == field32(code[k as int], f),
        tracking(
            ext,
            code,
            first,
            last_uses@,
            k as int,
            3,
            f,
            old(alloc).bank(ext).used@,
            old(alloc).bank(ext).map@,
            old(alloc).bank(ext).max as int,
            fa,
        ),
    ensures
        final(alloc).wf(),
        final(alloc).bank(!ext) == old(alloc).bank(!ext),
        final(alloc).bank(ext).max == old(alloc).bank(ext).max,
        tracking(
            ext,
            code,
            first,
            last_uses@,
            k as int,
            3,
            f + 1,
            final(alloc).bank(ext).used@,
            final(alloc).bank(ext).map@,
            final(alloc).bank(ext).max as int,
            fa,
        ),
{
    let ghost before = alloc.bank(ext);
    if is_reg {
        proof {
            assert(refs(ext, code[k as int], x));
            assert(used_before(ext, code, x, code.len() as int));
        }
        let dies = match last_uses.get(&x) {
            Some(l) => *l == k,
            None => false,
        };
        if dies {
            if ext {
                alloc.ef_free(x);
            } else {
                alloc.f_free(x);
            }
        }
    }
    proof {
        let after = alloc.bank(ext);
        lemma_free(
            ext,
            code,
            first,
            last_uses@,
            k as int,
            f,
            before.used@,
            before.map@,
            before.max as int,
            fa,
            after.used@,
            after.map@,
        );
    }
}


/// Slot `s` of position `i` of `out`, when it holds a register of the domain, holds the
/// slot that `fa` records for that register.
pub open spec fn recorded_at(
    ext: bool,
    code: Seq<Instruction32>,
    out: Seq<Instruction16>,
    fa: Map<u32, u32>,
    i: int,
    s: int,
) -> bool {
    reg_slot(ext, code[i].opcode, s) ==> fa.contains_key(field32(code[i], s)) && field16(out[i], s)
        == fa[field32(code[i], s)]
}

/// Every register operand of the first `k` positions of `out` holds the slot that `fa`
/// records for its register.
pub open spec fn recorded(
    ext: bool,
    code: Seq<Instruction32>,
    out: Seq<Instruction16>,
    k: int,
    fa: Map<u32, u32>,
) -> bool {
    forall|i: int, s: int| 0 <= i < k && 0 <= s < 3 ==> #[trigger] recorded_at(
        ext,
        code,
        out,
        fa,
        i,
        s,
    )
}

proof fn lemma_use_in_range(
    ext: bool,
    code: Seq<Instruction32>,
    first: Map<u32,
    u32>,
    last: Map<u32,
    u32>,
    x: u32,
    i: int,
)
    requires
        live_ranges(ext, code, first, last),
        0 <= i < code.len(),
        refs(ext, code[i], x),
    ensures
        first.contains_key(x),
        last.contains_key(x),
        first[x] <= i <= last[x],
{
    assert(used_before(ext, code, x, code.len() as int));
    assert(first.contains_key(x));
    assert(is_first_use(ext, code, x, first[x] as int));
    assert(is_last_use(ext, code, x, last[x] as int));
}

proof fn lemma_ref_at_slot(ext: bool, ins: Instruction32, x: u32)
    requires
        refs(ext, ins, x),
    ensures
        exists|s: int| 0 <= s < 3 && reg_slot(ext, ins.opcode, s) && field32(ins, s) == x,
{
    if reg_slot(ext, ins.opcode, 0) && ins.a == x {
        assert(field32(ins, 0) == x);
    } else if reg_slot(ext, ins.opcode, 1) && ins.b == x {
        assert(field32(ins, 1) == x);
    } else {
        assert(field32(ins, 2) == x);
    }
}

/// At the end of the pass, the recorded slots form a sound allocation.
proof fn lemma_conclude(
    ext: bool,
    code: Seq<Instruction32>,
    out: Seq<Instruction16>,
    first: Map<u32, u32>,
    last: Map<u32, u32>,
    used: Seq<bool>,
    map: Map<u32, u32>,
    max: int,
    fa: Map<u32, u32>,
)
    requires
        live_ranges(ext, code, first, last),
        out.len() == code.len(),
        tracking(ext, code, first, last, code.len() as int, 0, 0, used, map, max, fa),
        recorded(ext, code, out, code.len() as int, fa),
    ensures
        allocated(ext, code, out, used.len() as int, max),
{
    let n = code.len() as int;
    assert forall|i: int, s: int|
        0 <= i < code.len() && 0 <= s < 3 && reg_slot(ext, code[i].opcode, s) implies {
            &&& #[trigger] field16(out[i], s) <= max
            &&& (field16(out[i], s) == 0 <==> field32(code[i], s) == 0)
        } by {
        assert(recorded_at(ext, code, out, fa, i, s));
    }
    assert forall|i: int, s: int, j: int, t: int|
        0 <= i < code.len() && 0 <= j < code.len() && 0 <= s < 3 && 0 <= t < 3 && reg_slot(
            ext,
            code[i].opcode,
            s,
        ) && reg_slot(ext, code[j].opcode, t) && field32(code[i], s) == field32(code[j], t)
            implies #[trigger] field16(out[i], s) == #[trigger] field16(out[j], t) by {
        assert(recorded_at(ext, code, out, fa, i, s));
        assert(recorded_at(ext, code, out, fa, j, t));
    }
    assert forall|i: int, s: int, j: int, t: int|
        0 <= i <= j < code.len() && 0 <= s < 3 && 0 <= t < 3 && reg_slot(ext, code[i].opcode, s)
            && reg_slot(ext, code[j].opcode, t) && field32(code[i], s) != field32(code[j], t)
            && #[trigger] field16(out[i], s) == #[trigger] field16(out[j], t) implies !used_from(
        ext,
        code,
        field32(code[i], s),
        j,
    ) by {
        let x = field32(code[i], s);
        let y = field32(code[j], t);
        assert(recorded_at(ext, code, out, fa, i, s));
        assert(recorded_at(ext, code, out, fa, j, t));
        assert(refs(ext, code[i], x));
        assert(refs(ext, code[j], y));
        lemma_use_in_range(ext, code, first, last, x, i);
        lemma_use_in_range(ext, code, first, last, y, j);
        assert(fa.contains_key(x) && fa.contains_key(y) && fa[x] == fa[y]);
        if used_from(ext, code, x, j) {
            let m = choose|m: int| j <= m < code.len() && #[trigger] refs(ext, code[m], x);
            lemma_use_in_range(ext, code, first, last, x, m);
        }
    }
    assert forall|i: int, s: int, q: int|
        0 <= i < code.len() && 0 <= s < 3 && reg_slot(ext, code[i].opcode, s) && field32(code[i], s)
            != 0 && !used_before(ext, code, field32(code[i], s), i) && !refs_in(
            ext,
            code[i],
            field32(code[i], s),
            s,
        ) && 0 < q < field16(out[i], s) implies #[trigger] slot_taken(ext, code, out, q, i, s) by {
        let x = field32(code[i], s);
        assert(refs(ext, code[i], x));
        lemma_use_in_range(ext, code, first, last, x, i);
        assert(is_first_use(ext, code, x, first[x] as int));
        if first[x] < i {
            assert(used_before(ext, code, x, i));
        }
        assert(first[x] == i);
        assert(first_slot(ext, code[i], x) == s);
        assert(recorded_at(ext, code, out, fa, i, s));
        assert(held_below(ext, code, first, last, fa, x, q));
        let y = choose|y: u32|
            #[trigger] fa.contains_key(y) && fa[y] == q && placed_before(ext, code, first, y, x)
                && last[y] >= first[x];
        assert(y != 0);
        assert(first.contains_key(y));
        let j = first[y] as int;
        assert(is_first_use(ext, code, y, j));
        assert(is_last_use(ext, code, y, last[y] as int));
        let t = first_slot(ext, code[j], y);
        assert(reg_slot(ext, code[j].opcode, t) && field32(code[j], t) == y);
        assert(recorded_at(ext, code, out, fa, j, t));
        if j < i {
            assert(used_before(ext, code, y, i));
        } else {
            assert(refs_in(ext, code[i], y, s));
        }
        assert(refs(ext, code[last[y] as int], y));
        assert(used_from(ext, code, y, i));
        assert(field16(out[j], t) == q);
    }
    if max != 0 {
        let w = choose|w: u32| #[trigger] fa.contains_key(w) && fa[w] == max;
        assert(w != 0);
        assert(first.contains_key(w) && first[w] < n);
        let i = first[w] as int;
        assert(is_first_use(ext, code, w, i));
        lemma_ref_at_slot(ext, code[i], w);
        let s = choose|s: int| 0 <= s < 3 && reg_slot(ext, code[i].opcode, s) && field32(
            code[i],
            s,
        ) == w;
        assert(recorded_at(ext, code, out, fa, i, s));
        assert(field16(out[i], s) == max);
    }
}

/// When the pass completes, the registers live at any one position fit in the file beside
/// the reserved slot 0.
proof fn lemma_live_bound(
    ext: bool,
    code: Seq<Instruction32>,
    first: Map<u32, u32>,
    last: Map<u32, u32>,
    used: Seq<bool>,
    map: Map<u32, u32>,
    max: int,
    fa: Map<u32, u32>,
    k: int,
)
    requires
        live_ranges(ext, code, first, last),
        tracking(ext, code, first, last, code.len() as int, 0, 0, used, map, max, fa),
        0 <= k < code.len(),
    ensures
        live_at(ext, code, k).len() <= max,
        live_at(ext, code, k).len() < used.len(),
{
    let live = live_at(ext, code, k);
    lemma_u32_set_finite(live);
    let f = |x: u32| fa[x] as int;
    assert forall|x: u32| #[trigger] live.contains(x) implies fa.contains_key(x) && first[x] <= k
        <= last[x] by {
        let i = choose|i: int| 0 <= i < k + 1 && #[trigger] refs(ext, code[i], x);
        let m = choose|m: int| k <= m < code.len() && #[trigger] refs(ext, code[m], x);
        lemma_use_in_range(ext, code, first, last, x, i);
        lemma_use_in_range(ext, code, first, last, x, m);
    }
    assert forall|x: u32, y: u32| live.contains(x) && live.contains(y) && #[trigger] f(x) == #[trigger] f(
        y,
    ) implies x == y by {
        if x != y {
            assert(fa.contains_key(x) && fa.contains_key(y));
        }
    }
    assert(injective_on(f, live));
    lemma_map_size(live, live.map(f), f);
    let slots = set_int_range(1, max + 1);
    assert forall|p: int| live.map(f).contains(p) implies slots.contains(p) by {
        let x = choose|x: u32| live.contains(x) && f(x) == p;
        assert(fa.contains_key(x));
    }
    lemma_int_range(1, max + 1);
    lemma_len_subset(live.map(f), slots);
}

/// When the pass completes with highest slot `max`, at the position where the register given
/// `max` was first named, `max` registers were live: it and the holders of every slot below.
proof fn lemma_peak_reached(
    ext: bool,
    code: Seq<Instruction32>,
    first: Map<u32, u32>,
    last: Map<u32, u32>,
    used: Seq<bool>,
    map: Map<u32, u32>,
    max: int,
    fa: Map<u32, u32>,
)
    requires
        live_ranges(ext, code, first, last),
        tracking(ext, code, first, last, code.len() as int, 0, 0, used, map, max, fa),
        max != 0,
    ensures
        exists|k: int| 0 <= k < code.len() && #[trigger] live_at(ext, code, k).len() >= max,
{
    let w = choose|w: u32| #[trigger] fa.contains_key(w) && fa[w] == max;
    assert(w != 0);
    assert(first.contains_key(w));
    let i = first[w] as int;
    assert(is_first_use(ext, code, w, i));
    assert(is_last_use(ext, code, w, last[w] as int));
    let live = live_at(ext, code, i);
    let g = |q: int|
        if q == max {
            w
        } else {
            choose|y: u32|
                #[trigger] fa.contains_key(y) && fa[y] == q && placed_before(ext, code, first, y, w)
                    && last[y] >= first[w]
        };
    let qs = set_int_range(1, max + 1);
    lemma_int_range(1, max + 1);
    assert forall|q: int| #[trigger] qs.contains(q) implies fa.contains_key(g(q)) && fa[g(q)] == q
        && live.contains(g(q)) by {
        if q == max {
            assert(refs(ext, code[i], w));
            assert(refs(ext, code[last[w] as int], w));
        } else {
            assert(held_below(ext, code, first, last, fa, w, q));
            let y = g(q);
            assert(fa.contains_key(y) && fa[y] == q && placed_before(ext, code, first, y, w)
                && last[y] >= first[w]);
            assert(y != 0);
            assert(first.contains_key(y));
            assert(is_first_use(ext, code, y, first[y] as int));
            assert(is_last_use(ext, code, y, last[y] as int));
            assert(refs(ext, code[first[y] as int], y));
            assert(refs(ext, code[last[y] as int], y));
        }
    }
    assert forall|q1: int, q2: int| qs.contains(q1) && qs.contains(q2) && #[trigger] g(q1)
        == #[trigger] g(q2) implies q1 == q2 by {
        assert(fa[g(q1)] == q1 && fa[g(q2)] == q2);
    }
    assert(injective_on(g, qs));
    lemma_map_size(qs, qs.map(g), g);
    assert forall|y: u32| qs.map(g).contains(y) implies live.contains(y) by {
        let q = choose|q: int| qs.contains(q) && g(q) == y;
    }
    lemma_u32_set_finite(live);
    lemma_len_subset(qs.map(g), live);
    assert(live_at(ext, code, i).len() >= max);
}

/// When register `x` at slot `s` of position `k` finds every slot taken, the registers live
/// at position `k` outnumber the slots beside the reserved slot 0.
proof fn lemma_full_bank(
    ext: bool,
    code: Seq<Instruction32>,
    first: Map<u32, u32>,
    last: Map<u32, u32>,
    k: int,
    s: int,
    used: Seq<bool>,
    map: Map<u32, u32>,
    max: int,
    fa: Map<u32, u32>,
)
    requires
        live_ranges(ext, code, first, last),
        0 <= k < code.len(),
        0 <= s < 3,
        reg_slot(ext, code[k].opcode, s),
        tracking(ext, code, first, last, k, s, 0, used, map, max, fa),
        !map.contains_key(field32(code[k], s)),
        forall|q: int| 0 <= q < used.len() ==> used[q],
    ensures
        live_at(ext, code, k).len() >= used.len(),
{
    let x = field32(code[k], s);
    let cap = used.len() as int;
    let d = map.dom();
    lemma_u32_set_finite(d);
    let g = |y: u32| map[y] as int;
    assert forall|p: int| #[trigger] set_int_range(0, cap).contains(p) implies d.map(g).contains(p) by {
        assert(used[p]);
        let y = choose|y: u32| #[trigger] map.contains_key(y) && map[y] == p;
        assert(d.contains(y) && g(y) == p);
    }
    assert forall|y1: u32, y2: u32| d.contains(y1) && d.contains(y2) && #[trigger] g(y1) == #[trigger] g(
        y2,
    ) implies y1 == y2 by {
    }
    assert(injective_on(g, d));
    lemma_map_size(d, d.map(g), g);
    lemma_int_range(0, cap);
    lemma_len_subset(set_int_range(0, cap), d.map(g));
    assert(refs(ext, code[k], x));
    lemma_use_in_range(ext, code, first, last, x, k);
    let sub = d.remove(0).insert(x);
    assert(d.contains(0));
    assert(!d.contains(x));
    let live = live_at(ext, code, k);
    assert forall|y: u32| sub.contains(y) implies live.contains(y) by {
        if y == x {
            assert(refs(ext, code[k], x));
        } else {
            assert(map.contains_key(y) && y != 0);
            assert(holds_slot(ext, code, first, last, k, s, 0, y));
            assert(is_first_use(ext, code, y, first[y] as int));
            assert(is_last_use(ext, code, y, last[y] as int));
            if first[y] < k {
                assert(refs(ext, code[first[y] as int], y));
            } else {
                assert(refs_in(ext, code[k], y, s));
                assert(refs(ext, code[k], y));
            }
            assert(refs(ext, code[last[y] as int], y));
        }
    }
    lemma_u32_set_finite(live);
    lemma_len_subset(sub, live);
}

/// `m` is the largest number of registers of the domain, other than register 0, that are
/// live at any one position of `code` (0 when none ever is).
pub open spec fn peak_live(ext: bool, code: Seq<Instruction32>, m: int) -> bool {
    &&& forall|k: int| 0 <= k < code.len() ==> #[trigger] live_at(ext, code, k).len() <= m
    &&& m == 0 || exists|k: int| 0 <= k < code.len() && #[trigger] live_at(ext, code, k).len() == m
}

/// Every opcode byte of `code` names an operation.
pub open spec fn valid_opcodes(code: Seq<Instruction32>) -> bool {
    forall|i: int| 0 <= i < code.len() ==> #[trigger] code[i].opcode <= MAX_OPCODE
}

/// Lowers a program onto the two physical register files by linear scan: each register
/// takes the lowest free slot of its domain at its first reference and gives it up right
/// after its last; operands narrow to 16 bits.
pub fn optimize(instructions: Vec<Instruction32>) -> (r: Result<Allocation, CompileError>)
    requires
        instructions.len() <= u32::MAX,
    ensures
        r is Ok ==> valid_opcodes(instructions@),
        r matches Ok(a) ==> {
            &&& narrowed(instructions@, a.code@)
            &&& allocated(false, instructions@, a.code@, F_REGISTERS as int, a.f_max as int)
            &&& allocated(true, instructions@, a.code@, EF_REGISTERS as int, a.ef_max as int)
            &&& peak_live(false, instructions@, a.f_max as int)
            &&& peak_live(true, instructions@, a.ef_max as int)
        },
        r is Ok ==> forall|k: int|
            0 <= k < instructions.len() ==> #[trigger] live_at(false, instructions@, k).len()
                < F_REGISTERS && live_at(true, instructions@, k).len() < EF_REGISTERS,
        r matches Err(CompileError::UnknownOpcode { index, opcode }) ==> {
            &&& index < instructions.len()
            &&& instructions@[index as int].opcode == opcode
            &&& opcode > MAX_OPCODE
            &&& forall|j: int| 0 <= j < index ==> #[trigger] instructions@[j].opcode <= MAX_OPCODE
        },
        r matches Err(CompileError::CapacityExceeded { domain, index, capacity }) ==> {
            &&& valid_opcodes(instructions@)
            &&& index < instructions.len()
            &&& capacity == if domain == Domain::Base {
                F_REGISTERS
            } else {
                EF_REGISTERS
            }
            &&& live_at(domain == Domain::Extension, instructions@, index as int).len() >= capacity
        },
        !valid_opcodes(instructions@) ==> r matches Err(CompileError::UnknownOpcode { .. }),
{
    let n = instructions.len();
    let mut i: usize = 0;
    while i < n
        invariant
            n == instructions.len(),
            n <= u32::MAX,
            0 <= i <= n,
            forall|j: int| 0 <= j < i ==> #[trigger] instructions@[j].opcode <= MAX_OPCODE,
        decreases n - i,
    {
        let opcode = instructions[i].opcode;
        if opcode > MAX_OPCODE {
            return Err(CompileError::UnknownOpcode { index: i as u32, opcode });
        }
        i = i + 1;
    }
    let live: Liveness = liveness(&instructions);
    let ghost code = instructions@;
    let ghost f_first = live.f_first@;
    let ghost f_last = live.f_last@;
    let ghost e_first = live.ef_first@;
    let ghost e_last = live.ef_last@;
    let mut allocator = RegisterAllocator::new();
    let mut out: Vec<Instruction16> = Vec::new();
    let ghost mut fa_f: Map<u32, u32> = map![0u32 => 0u32];
    let ghost mut fa_e: Map<u32, u32> = map![0u32 => 0u32];
    proof {
        assert forall|x: u32| #[trigger]
            allocator.f_bank.map@.contains_key(x) <==> holds_slot(
                false,
                code,
                f_first,
                f_last,
                0,
                0,
                0,
                x,
            ) by {
            if x != 0 && f_first.contains_key(x) {
                assert(is_first_use(false, code, x, f_first[x] as int));
            }
        }
        assert forall|x: u32| #[trigger]
            allocator.ef_bank.map@.contains_key(x) <==> holds_slot(
                true,
                code,
                e_first,
                e_last,
                0,
                0,
                0,
                x,
            ) by {
            if x != 0 && e_first.contains_key(x) {
                assert(is_first_use(true, code, x, e_first[x] as int));
            }
        }
        assert forall|x: u32| #[trigger] fa_f.contains_key(x) <==> seen(
            false,
            code,
            f_first,
            0,
            0,
            x,
        ) by {
            if x != 0 && f_first.contains_key(x) {
                assert(is_first_use(false, code, x, f_first[x] as int));
            }
        }
        assert forall|x: u32| #[trigger] fa_e.contains_key(x) <==> seen(
            true,
            code,
            e_first,
            0,
            0,
            x,
        ) by {
            if x != 0 && e_first.contains_key(x) {
                assert(is_first_use(true, code, x, e_first[x] as int));
            }
        }
    }
    let mut k: usize = 0;
    while k < n
        invariant
            n == instructions.len(),
            n <= u32::MAX,
            code == instructions@,
            0 <= k <= n,
            valid_opcodes(code),
            live_ranges(false, code, f_first, f_last),
            live_ranges(true, code, e_first, e_last),
            f_last == live.f_last@,
            e_last == live.ef_last@,
            allocator.wf(),
            tracking(
                false,
                code,
                f_first,
                f_last,
                k as int,
                0,
                0,
                allocator.f_bank.used@,
                allocator.f_bank.map@,
                allocator.f_bank.max as int,
                fa_f,
            ),
            tracking(
                true,
                code,
                e_first,
                e_last,
                k as int,
                0,
                0,
                allocator.ef_bank.used@,
                allocator.ef_bank.map@,
                allocator.ef_bank.max as int,
                fa_e,
            ),
            out@.len() == k,
            narrowed(code.take(k as int), out@),
            recorded(false, code, out@, k as int, fa_f),
            recorded(true, code, out@, k as int, fa_e),
        decreases n - k,
    {
        let instr = instructions[k];
        let op = match Opcode::from_code(instr.opcode) {
            Some(op) => op,
            None => Opcode::Empty,
        };
        let ghost kk = k as int;
        let ghost fa_f0 = fa_f;
        let ghost fa_e0 = fa_e;
        let ghost out0 = out@;
        let fa_reg = op.is_f_assign();
        let fb_reg = op.is_f_arg1();
        let fc_reg = op.is_f_arg2();
        let ea_reg = op.is_e_assign();
        let eb_reg = op.is_e_arg1();
        let ec_reg = op.is_e_arg2();
        let (fa_v, g) = match place(
            &mut allocator,
            false,
            fa_reg,
            instr.a,
            Ghost(code),
            Ghost(f_first),
            Ghost(f_last),
            Ghost(kk),
            Ghost(0),
            Ghost(fa_f),
        ) {
            Some(res) => res,
            None => {
                return Err(
                    CompileError::CapacityExceeded {
                        domain: Domain::Base,
                        index: k as u32,
                        capacity: F_REGISTERS,
                    },
                );
            },
        };
        let ghost fa_f1 = g@;
        let (fb_v, g) = match place(
            &mut allocator,
            false,
            fb_reg,
            instr.b,
            Ghost(code),
            Ghost(f_first),
            Ghost(f_last),
            Ghost(kk),
            Ghost(1),
            Ghost(fa_f1),
        ) {
            Some(res) => res,
            None => {
                return Err(
                    CompileError::CapacityExceeded {
                        domain: Domain::Base,
                        index: k as u32,
                        capacity: F_REGISTERS,
                    },
                );
            },
        };
        let ghost fa_f2 = g@;
        let (fc_v, g) = match place(
            &mut allocator,
            false,
            fc_reg,
            instr.c,
            Ghost(code),
            Ghost(f_first),
            Ghost(f_last),
            Ghost(kk),
            Ghost(2),
            Ghost(fa_f2),
        ) {
            Some(res) => res,
            None => {
                return Err(
                    CompileError::CapacityExceeded {
                        domain: Domain::Base,
                        index: k as u32,
                        capacity: F_REGISTERS,
                    },
                );
            },
        };
        proof {
            fa_f = g@;
        }
        let (ea_v, g) = match place(
            &mut allocator,
            true,
            ea_reg,
            instr.a,
            Ghost(code),
            Ghost(e_first),
            Ghost(e_last),
            Ghost(kk),
            Ghost(0),
            Ghost(fa_e),
        ) {
            Some(res) => res,
            None => {
                return Err(
                    CompileError::CapacityExceeded {
                        domain: Domain::Extension,
                        index: k as u32,
                        capacity: EF_REGISTERS,
                    },
                );
            },
        };
        let ghost fa_e1 = g@;
        let (eb_v, g) = match place(
            &mut allocator,
            true,
            eb_reg,
            instr.b,
            Ghost(code),
            Ghost(e_first),
            Ghost(e_last),
            Ghost(kk),
            Ghost(1),
            Ghost(fa_e1),
        ) {
            Some(res) => res,
            None => {
                return Err(
                    CompileError::CapacityExceeded {
                        domain: Domain::Extension,
                        index: k as u32,
                        capacity: EF_REGISTERS,
                    },
                );
            },
        };
        let ghost fa_e2 = g@;
        let (ec_v, g) = match place(
            &mut allocator,
            true,
            ec_reg,
            instr.c,
            Ghost(code),
            Ghost(e_first),
            Ghost(e_last),
            Ghost(kk),
            Ghost(2),
            Ghost(fa_e2),
        ) {
            Some(res) => res,
            None => {
                return Err(
                    CompileError::CapacityExceeded {
                        domain: Domain::Extension,
                        index: k as u32,
                        capacity: EF_REGISTERS,
                    },
                );
            },
        };
        proof {
            fa_e = g@;
        }
        let a = if ea_reg { ea_v } else { fa_v };
        let b = if eb_reg { eb_v } else { fb_v };
        let c = if ec_reg { ec_v } else { fc_v };
        let narrow = Instruction16 {
            opcode: instr.opcode,
            b_variant: instr.b_variant,
            c_variant: instr.c_variant,
            a: #[verifier::truncate] (a as u16),
            b: #[verifier::truncate] (b as u16),
            c: #[verifier::truncate] (c as u16),
        };
        out.push(narrow);
        proof {
            let ins = code[kk];
            assert(ins == instr);
            assert(out@[kk] == narrow);
            assert forall|j: int| 0 <= j < kk implies #[trigger] out@[j] == out0[j] by {}
            // the register operands at position k
            assert forall|s: int| 0 <= s < 3 && reg_slot(
                false,
                ins.opcode,
                s,
            ) implies fa_f.contains_key(
                field32(ins, s),
            ) && #[trigger] field16(narrow, s) == fa_f[field32(ins, s)] by {
                if s == 0 {
                    assert(fa_f1.contains_key(instr.a));
                    assert(fa_f2.contains_key(instr.a));
                } else if s == 1 {
                    assert(fa_f2.contains_key(instr.b));
                }
            }
            assert forall|s: int| 0 <= s < 3 && reg_slot(
                true,
                ins.opcode,
                s,
            ) implies fa_e.contains_key(
                field32(ins, s),
            ) && #[trigger] field16(narrow, s) == fa_e[field32(ins, s)] by {
                if s == 0 {
                    assert(fa_e1.contains_key(instr.a));
                    assert(fa_e2.contains_key(instr.a));
                } else if s == 1 {
                    assert(fa_e2.contains_key(instr.b));
                }
            }
            assert forall|i: int, s: int| 0 <= i < kk + 1 && 0 <= s < 3 implies #[trigger] recorded_at(
                false,
                code,
                out@,
                fa_f,
                i,
                s,
            ) by {
                if i < kk {
                    assert(out@[i] == out0[i]);
                    assert(recorded_at(false, code, out0, fa_f0, i, s));
                    if reg_slot(false, code[i].opcode, s) {
                        assert(fa_f0.contains_key(field32(code[i], s)));
                        assert(fa_f1.contains_key(field32(code[i], s)));
                        assert(fa_f2.contains_key(field32(code[i], s)));
                    }
                }
            }
            assert forall|i: int, s: int| 0 <= i < kk + 1 && 0 <= s < 3 implies #[trigger] recorded_at(
                true,
                code,
                out@,
                fa_e,
                i,
                s,
            ) by {
                if i < kk {
                    assert(out@[i] == out0[i]);
                    assert(recorded_at(true, code, out0, fa_e0, i, s));
                    if reg_slot(true, code[i].opcode, s) {
                        assert(fa_e0.contains_key(field32(code[i], s)));
                        assert(fa_e1.contains_key(field32(code[i], s)));
                        assert(fa_e2.contains_key(field32(code[i], s)));
                    }
                }
            }
            assert(narrowed(code.take(kk + 1), out@));
            assert(recorded(false, code, out@, kk + 1, fa_f));
            assert(recorded(true, code, out@, kk + 1, fa_e));
        }
        let pos = k as u32;
        release(
            &mut allocator,
            false,
            fa_reg,
            instr.a,
            &live.f_last,
            pos,
            Ghost(code),
            Ghost(f_first),
            Ghost(0),
            Ghost(fa_f),
        );
        release(
            &mut allocator,
            false,
            fb_reg,
            instr.b,
            &live.f_last,
            pos,
            Ghost(code),
            Ghost(f_first),
            Ghost(1),
            Ghost(fa_f),
        );
        release(
            &mut allocator,
            false,
            fc_reg,
            instr.c,
            &live.f_last,
            pos,
            Ghost(code),
            Ghost(f_first),
            Ghost(2),
            Ghost(fa_f),
        );
        release(
            &mut allocator,
            true,
            ea_reg,
            instr.a,
            &live.ef_last,
            pos,
            Ghost(code),
            Ghost(e_first),
            Ghost(0),
            Ghost(fa_e),
        );
        release(
            &mut allocator,
            true,
            eb_reg,
            instr.b,
            &live.ef_last,
            pos,
            Ghost(code),
            Ghost(e_first),
            Ghost(1),
            Ghost(fa_e),
        );
        release(
            &mut allocator,
            true,
            ec_reg,
            instr.c,
            &live.ef_last,
            pos,
            Ghost(code),
            Ghost(e_first),
            Ghost(2),
            Ghost(fa_e),
        );
        proof {
            lemma_next(
                false,
                code,
                f_first,
                f_last,
                kk,
                allocator.f_bank.used@,
                allocator.f_bank.map@,
                allocator.f_bank.max as int,
                fa_f,
            );
            lemma_next(
                true,
                code,
                e_first,
                e_last,
                kk,
                allocator.ef_bank.used@,
                allocator.ef_bank.map@,
                allocator.ef_bank.max as int,
                fa_e,
            );
        }
        k = k + 1;
    }
    proof {
        assert(code.take(n as int) =~= code);
        lemma_conclude(
            false,
            code,
            out@,
            f_first,
            f_last,
            allocator.f_bank.used@,
            allocator.f_bank.map@,
            allocator.f_bank.max as int,
            fa_f,
        );
        lemma_conclude(
            true,
            code,
            out@,
            e_first,
            e_last,
            allocator.ef_bank.used@,
            allocator.ef_bank.map@,
            allocator.ef_bank.max as int,
            fa_e,
        );
        assert forall|k: int| 0 <= k < n implies #[trigger] live_at(false, code, k).len() < F_REGISTERS
            && live_at(true, code, k).len() < EF_REGISTERS && live_at(false, code, k).len()
            <= allocator.f_bank.max && live_at(true, code, k).len() <= allocator.ef_bank.max by {
            lemma_live_bound(
                false,
                code,
                f_first,
                f_last,
                allocator.f_bank.used@,
                allocator.f_bank.map@,
                allocator.f_bank.max as int,
                fa_f,
                k,
            );
            lemma_live_bound(
                true,
                code,
                e_first,
                e_last,
                allocator.ef_bank.used@,
                allocator.ef_bank.map@,
                allocator.ef_bank.max as int,
                fa_e,
                k,
            );
        }
        assert forall|k: int| 0 <= k < n implies #[trigger] live_at(true, code, k).len()
            <= allocator.ef_bank.max by {
            assert(live_at(false, code, k).len() < F_REGISTERS);
        }
        if allocator.f_bank.max != 0 {
            lemma_peak_reached(
                false,
                code,
                f_first,
                f_last,
                allocator.f_bank.used@,
                allocator.f_bank.map@,
                allocator.f_bank.max as int,
                fa_f,
            );
            let k = choose|k: int| 0 <= k < n && #[trigger] live_at(false, code, k).len() >= allocator.f_bank.max;
            assert(live_at(false, code, k).len() <= allocator.f_bank.max);
        }
        if allocator.ef_bank.max != 0 {
            lemma_peak_reached(
                true,
                code,
                e_first,
                e_last,
                allocator.ef_bank.used@,
                allocator.ef_bank.map@,
                allocator.ef_bank.max as int,
                fa_e,
            );
            let k = choose|k: int| 0 <= k < n && #[trigger] live_at(true, code, k).len() >= allocator.ef_bank.max;
            assert(live_at(true, code, k).len() <= allocator.ef_bank.max);
        }
        assert(peak_live(false, code, allocator.f_bank.max as int));
        assert(peak_live(true, code, allocator.ef_bank.max as int));
    }
    Ok(Allocation { code: out, f_max: allocator.f_bank.max, ef_max: allocator.ef_bank.max })
}

} // verus!
