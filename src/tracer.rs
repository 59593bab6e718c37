//! The compilation context: records each traced operation as one instruction, minting ids
//! and interning constants.

use vstd::prelude::*;

use crate::instruction::{defines_e, defines_f, Instruction16, Instruction32, MAX_OPCODE};
use crate::optimizer::{
    allocated, live_at, narrowed, optimize, peak_live, CompileError, Domain, EF_REGISTERS,
    F_REGISTERS,
};
use crate::pool::{ef_constant, f_constant, pool_after, pool_index, EfValue};
use crate::symbolic_expr_ef::SymbolicExprEF;
use crate::symbolic_expr_f::SymbolicExprF;
use crate::symbolic_var_ef::SymbolicVarEF;
use crate::symbolic_var_f::SymbolicVarF;

verus! {

/// The first id that each domain's counter hands out. Id 0 of each domain is the
/// placeholder that the register allocator pins to physical slot 0.
pub const FIRST_ID: u32 = 1;

/// The state of one compilation: the instruction log, the two constant pools and the two
/// id counters.
pub struct Tracer {
    pub code: Vec<Instruction32>,
    pub f_constants: Vec<u32>,
    pub ef_constants: Vec<EfValue>,
    pub f_ctr: u32,
    pub ef_ctr: u32,
}

/// What one compilation produces: the program in execution form, the high-water mark of
/// each domain, and the two constant pools.
pub struct Compilation {
    pub code: Vec<Instruction16>,
    /// The highest base-domain slot index in use. Slot 0 is reserved, so this is also the
    /// largest count of base registers live at once; the file needs `f_max + 1` slots.
    pub f_max: usize,
    /// The highest extension-domain slot index in use, counted as `f_max` is.
    pub ef_max: usize,
    pub f_constants: Vec<u32>,
    pub ef_constants: Vec<EfValue>,
}

/// Clears all compilation state: the log, both pools and both counters.
#[allow(non_snake_case)]
pub fn CUDA_P3_EVAL_RESET(tracer: &mut Tracer)
    ensures
        final(tracer).wf(),
        final(tracer).is_initial(),
{
    *tracer = Tracer::new();
}

/// A context after a reset is indistinguishable from any other in the initial state, fresh
/// or reset: its log and pools are empty and its counters stand at `FIRST_ID`, so what the
/// next compilation traces is numbered and pooled as if no compilation had run before it.
pub proof fn lemma_reset_isolation(a: Tracer, b: Tracer)
    requires
        a.is_initial(),
        b.is_initial(),
    ensures
        a.code@ == b.code@,
        a.f_constants@ == b.f_constants@,
        a.ef_constants@ == b.ef_constants@,
        a.f_ctr == b.f_ctr,
        a.ef_ctr == b.ef_ctr,
{
    assert(a.code@ =~= b.code@);
    assert(a.f_constants@ =~= b.f_constants@);
    assert(a.ef_constants@ =~= b.ef_constants@);
}

/// In a well-formed log every base or extension id that the counters have handed out is
/// defined by exactly one instruction, and no other id is defined at all.
pub proof fn lemma_single_definition(t: Tracer)
    requires
        t.wf(),
    ensures
        forall|id: u32| #[trigger] is_defined_f(t.code@, id) <==> FIRST_ID <= id < t.f_ctr,
        forall|id: u32| #[trigger] is_defined_e(t.code@, id) <==> FIRST_ID <= id < t.ef_ctr,
        forall|i: int, j: int|
            0 <= i < t.code.len() && 0 <= j < t.code.len() && #[trigger] defines_f(
                t.code@[i].opcode,
            ) && #[trigger] defines_f(t.code@[j].opcode) && t.code@[i].a == t.code@[j].a ==> i
                == j,
        forall|i: int, j: int|
            0 <= i < t.code.len() && 0 <= j < t.code.len() && #[trigger] defines_e(
                t.code@[i].opcode,
            ) && #[trigger] defines_e(t.code@[j].opcode) && t.code@[i].a == t.code@[j].a ==> i
                == j,
{
    let code = t.code@;
    assert forall|id: u32| #[trigger] is_defined_f(code, id) implies FIRST_ID <= id < t.f_ctr by {
        let i = choose|i: int| 0 <= i < code.len() && defines_f(code[i].opcode) && #[trigger] code[i].a == id;
    }
    assert forall|id: u32| #[trigger] is_defined_e(code, id) implies FIRST_ID <= id < t.ef_ctr by {
        let i = choose|i: int| 0 <= i < code.len() && defines_e(code[i].opcode) && #[trigger] code[i].a == id;
    }
    assert forall|i: int, j: int|
        0 <= i < code.len() && 0 <= j < code.len() && #[trigger] defines_f(code[i].opcode)
            && #[trigger] defines_f(code[j].opcode) && code[i].a == code[j].a implies i == j by {
        if i < j {
            assert(code[i].a < code[j].a);
        } else if j < i {
            assert(code[j].a < code[i].a);
        }
    }
    assert forall|i: int, j: int|
        0 <= i < code.len() && 0 <= j < code.len() && #[trigger] defines_e(code[i].opcode)
            && #[trigger] defines_e(code[j].opcode) && code[i].a == code[j].a implies i == j by {
        if i < j {
            assert(code[i].a < code[j].a);
        } else if j < i {
            assert(code[j].a < code[i].a);
        }
    }
}

/// The opcode byte names an operation that the tracer emits.
pub open spec fn emitted(code: u8) -> bool {
    1 <= code && code <= MAX_OPCODE && code != 58
}

/// Some instruction of `code` defines the base id `id`.
pub open spec fn is_defined_f(code: Seq<Instruction32>, id: u32) -> bool {
    exists|i: int| 0 <= i < code.len() && defines_f(code[i].opcode) && #[trigger] code[i].a == id
}

/// Some instruction of `code` defines the extension id `id`.
pub open spec fn is_defined_e(code: Seq<Instruction32>, id: u32) -> bool {
    exists|i: int| 0 <= i < code.len() && defines_e(code[i].opcode) && #[trigger] code[i].a == id
}

/// The base ids that `code` defines are exactly those in `[FIRST_ID, ctr)`, in increasing
/// order of position.
pub open spec fn ids_f(code: Seq<Instruction32>, ctr: u32) -> bool {
    &&& forall|i: int|
        0 <= i < code.len() && #[trigger] defines_f(code[i].opcode) ==> FIRST_ID <= code[i].a < ctr
    &&& forall|i: int, j: int|
        0 <= i < j < code.len() && #[trigger] defines_f(code[i].opcode) && #[trigger] defines_f(
            code[j].opcode,
        ) ==> code[i].a < code[j].a
    &&& forall|id: u32| FIRST_ID <= id < ctr ==> #[trigger] is_defined_f(code, id)
}

/// The extension ids that `code` defines are exactly those in `[FIRST_ID, ctr)`, in
/// increasing order of position.
pub open spec fn ids_e(code: Seq<Instruction32>, ctr: u32) -> bool {
    &&& forall|i: int|
        0 <= i < code.len() && #[trigger] defines_e(code[i].opcode) ==> FIRST_ID <= code[i].a < ctr
    &&& forall|i: int, j: int|
        0 <= i < j < code.len() && #[trigger] defines_e(code[i].opcode) && #[trigger] defines_e(
            code[j].opcode,
        ) ==> code[i].a < code[j].a
    &&& forall|id: u32| FIRST_ID <= id < ctr ==> #[trigger] is_defined_e(code, id)
}

impl Tracer {
    /// The invariant, with the counters given apart from the state.
    pub open spec fn inv(&self, f_ctr: u32, ef_ctr: u32) -> bool {
        &&& FIRST_ID <= f_ctr
        &&& FIRST_ID <= ef_ctr
        &&& self.f_constants@.no_duplicates()
        &&& self.ef_constants@.no_duplicates()
        &&& forall|i: int| 0 <= i < self.code.len() ==> emitted(#[trigger] self.code@[i].opcode)
        &&& ids_f(self.code@, f_ctr)
        &&& ids_e(self.code@, ef_ctr)
    }

    pub open spec fn wf(&self) -> bool {
        self.inv(self.f_ctr, self.ef_ctr)
    }

    /// The state in which each compilation starts.
    pub open spec fn is_initial(&self) -> bool {
        &&& self.code@.len() == 0
        &&& self.f_constants@.len() == 0
        &&& self.ef_constants@.len() == 0
        &&& self.f_ctr == FIRST_ID
        &&& self.ef_ctr == FIRST_ID
    }

    /// `self` follows `old` by minting the base id `r` and appending `instr`.
    pub open spec fn minted_f(&self, old: Tracer, r: SymbolicExprF, instr: Instruction32) -> bool {
        &&& r.0 == old.f_ctr
        &&& self.f_ctr == old.f_ctr + 1
        &&& self.ef_ctr == old.ef_ctr
        &&& self.code@ == old.code@.push(instr)
    }

    /// `self` follows `old` by minting the extension id `r` and appending `instr`.
    pub open spec fn minted_e(&self, old: Tracer, r: SymbolicExprEF, instr: Instruction32) -> bool {
        &&& r.0 == old.ef_ctr
        &&& self.ef_ctr == old.ef_ctr + 1
        &&& self.f_ctr == old.f_ctr
        &&& self.code@ == old.code@.push(instr)
    }

    /// `self` follows `old` by appending `instr`, with no id minted.
    pub open spec fn appended(&self, old: Tracer, instr: Instruction32) -> bool {
        &&& self.f_ctr == old.f_ctr
        &&& self.ef_ctr == old.ef_ctr
        &&& self.code@ == old.code@.push(instr)
    }

    /// Neither constant pool changed.
    pub open spec fn same_pools(&self, old: Tracer) -> bool {
        &&& self.f_constants@ == old.f_constants@
        &&& self.ef_constants@ == old.ef_constants@
    }

    /// A context in its initial state.
    pub fn new() -> (r: Tracer)
        ensures
            r.wf(),
            r.is_initial(),
    {
        Tracer {
            code: Vec::new(),
            f_constants: Vec::new(),
            ef_constants: Vec::new(),
            f_ctr: FIRST_ID,
            ef_ctr: FIRST_ID,
        }
    }

    /// Ends a compilation: takes the log and the pools, leaves the context in its initial
    /// state, and lowers the log onto the physical register files.
    pub fn finish(&mut self) -> (r: Result<Compilation, CompileError>)
        requires
            old(self).wf(),
            old(self).code.len() <= u32::MAX,
        ensures
            final(self).wf(),
            final(self).is_initial(),
            r matches Ok(c) ==> {
                &&& c.f_constants@ == old(self).f_constants@
                &&& c.ef_constants@ == old(self).ef_constants@
                &&& narrowed(old(self).code@, c.code@)
                &&& allocated(false, old(self).code@, c.code@, F_REGISTERS as int, c.f_max as int)
                &&& allocated(true, old(self).code@, c.code@, EF_REGISTERS as int, c.ef_max as int)
                &&& peak_live(false, old(self).code@, c.f_max as int)
                &&& peak_live(true, old(self).code@, c.ef_max as int)
            },
            r is Ok <==> forall|k: int|
                0 <= k < old(self).code.len() ==> #[trigger] live_at(false, old(self).code@, k).len()
                    < F_REGISTERS && live_at(true, old(self).code@, k).len() < EF_REGISTERS,
            r matches Err(e) ==> e matches CompileError::CapacityExceeded { .. },
            r matches Err(CompileError::CapacityExceeded { domain, index, capacity }) ==> {
                &&& index < old(self).code.len()
                &&& capacity == if domain == Domain::Base {
                    F_REGISTERS
                } else {
                    EF_REGISTERS
                }
                &&& live_at(domain == Domain::Extension, old(self).code@, index as int).len()
                    >= capacity
            },
    {
        let mut taken = Tracer::new();
        std::mem::swap(self, &mut taken);
        let Tracer { code, f_constants, ef_constants, f_ctr: _, ef_ctr: _ } = taken;
        let ghost log = code@;
        assert(log == old(self).code@);
        match optimize(code) {
            Ok(a) => {
                assert(forall|k: int|
                    0 <= k < log.len() ==> #[trigger] live_at(false, log, k).len() < F_REGISTERS
                        && live_at(true, log, k).len() < EF_REGISTERS);
                Ok(
                    Compilation {
                        code: a.code,
                        f_max: a.f_max,
                        ef_max: a.ef_max,
                        f_constants,
                        ef_constants,
                    },
                )
            },
            Err(e) => {
                proof {
                    if let CompileError::CapacityExceeded { domain, index, capacity } = e {
                        let k = index as int;
                        if domain == Domain::Base {
                            assert(live_at(false, log, k).len() >= F_REGISTERS);
                        } else {
                            assert(live_at(true, log, k).len() >= EF_REGISTERS);
                        }
                        assert(!(live_at(false, log, k).len() < F_REGISTERS && live_at(
                            true,
                            log,
                            k,
                        ).len() < EF_REGISTERS));
                        assert(!(forall|j: int|
                            0 <= j < log.len() ==> #[trigger] live_at(false, log, j).len()
                                < F_REGISTERS && live_at(true, log, j).len() < EF_REGISTERS));
                    }
                }
                Err(e)
            },
        }
    }

    /// Appends an instruction that defines the base id just minted.
    fn record_f(&mut self, instr: Instruction32)
        requires
            FIRST_ID < old(self).f_ctr,
            old(self).inv((old(self).f_ctr - 1) as u32, old(self).ef_ctr),
            defines_f(instr.opcode),
            emitted(instr.opcode),
            instr.a == old(self).f_ctr - 1,
        ensures
            final(self).wf(),
            final(self).code@ == old(self).code@.push(instr),
            final(self).f_ctr == old(self).f_ctr,
            final(self).ef_ctr == old(self).ef_ctr,
            final(self).same_pools(*old(self)),
    {
        let ghost before = self.code@;
        self.code.push(instr);
        proof {
            let code = self.code@;
            let n = before.len() as int;
            assert(code[n] == instr);
            assert forall|i: int| 0 <= i < code.len() implies emitted(#[trigger] code[i].opcode) by {
                if i < n {
                    assert(code[i] == before[i]);
                }
            }
            assert forall|i: int|
                0 <= i < code.len() && #[trigger] defines_f(code[i].opcode) implies FIRST_ID
                <= code[i].a < self.f_ctr by {
                if i < n {
                    assert(code[i] == before[i]);
                }
            }
            assert forall|i: int, j: int|
                0 <= i < j < code.len() && #[trigger] defines_f(code[i].opcode) && #[trigger] defines_f(
                    code[j].opcode,
                ) implies code[i].a < code[j].a by {
                assert(code[i] == before[i]);
                if j < n {
                    assert(code[j] == before[j]);
                }
            }
            assert forall|id: u32| FIRST_ID <= id < self.f_ctr implies #[trigger] is_defined_f(
                code,
                id,
            ) by {
                if id < self.f_ctr - 1 {
                    assert(is_defined_f(before, id));
                    let i = choose|i: int|
                        0 <= i < before.len() && defines_f(before[i].opcode) && #[trigger] before[i].a
                            == id;
                    assert(code[i] == before[i]);
                } else {
                    assert(code[n].a == id);
                }
            }
            assert forall|i: int|
                0 <= i < code.len() && #[trigger] defines_e(code[i].opcode) implies FIRST_ID
                <= code[i].a < self.ef_ctr by {
                assert(i < n);
                assert(code[i] == before[i]);
            }
            assert forall|i: int, j: int|
                0 <= i < j < code.len() && #[trigger] defines_e(code[i].opcode) && #[trigger] defines_e(
                    code[j].opcode,
                ) implies code[i].a < code[j].a by {
                assert(code[i] == before[i]);
                assert(code[j] == before[j]);
            }
            assert forall|id: u32| FIRST_ID <= id < self.ef_ctr implies #[trigger] is_defined_e(
                code,
                id,
            ) by {
                assert(is_defined_e(before, id));
                let i = choose|i: int|
                    0 <= i < before.len() && defines_e(before[i].opcode) && #[trigger] before[i].a
                        == id;
                assert(code[i] == before[i]);
            }
        }
    }

    /// Appends an instruction that defines the extension id just minted.
    fn record_e(&mut self, instr: Instruction32)
        requires
            FIRST_ID < old(self).ef_ctr,
            old(self).inv(old(self).f_ctr, (old(self).ef_ctr - 1) as u32),
            defines_e(instr.opcode),
            emitted(instr.opcode),
            instr.a == old(self).ef_ctr - 1,
        ensures
            final(self).wf(),
            final(self).code@ == old(self).code@.push(instr),
            final(self).f_ctr == old(self).f_ctr,
            final(self).ef_ctr == old(self).ef_ctr,
            final(self).same_pools(*old(self)),
    {
        let ghost before = self.code@;
        self.code.push(instr);
        proof {
            let code = self.code@;
            let n = before.len() as int;
            assert(code[n] == instr);
            assert forall|i: int| 0 <= i < code.len() implies emitted(#[trigger] code[i].opcode) by {
                if i < n {
                    assert(code[i] == before[i]);
                }
            }
            assert forall|i: int|
                0 <= i < code.len() && #[trigger] defines_e(code[i].opcode) implies FIRST_ID
                <= code[i].a < self.ef_ctr by {
                if i < n {
                    assert(code[i] == before[i]);
                }
            }
            assert forall|i: int, j: int|
                0 <= i < j < code.len() && #[trigger] defines_e(code[i].opcode) && #[trigger] defines_e(
                    code[j].opcode,
                ) implies code[i].a < code[j].a by {
                assert(code[i] == before[i]);
                if j < n {
                    assert(code[j] == before[j]);
                }
            }
            assert forall|id: u32| FIRST_ID <= id < self.ef_ctr implies #[trigger] is_defined_e(
                code,
                id,
            ) by {
                if id < self.ef_ctr - 1 {
                    assert(is_defined_e(before, id));
                    let i = choose|i: int|
                        0 <= i < before.len() && defines_e(before[i].opcode) && #[trigger] before[i].a
                            == id;
                    assert(code[i] == before[i]);
                } else {
                    assert(code[n].a == id);
                }
            }
            assert forall|i: int|
                0 <= i < code.len() && #[trigger] defines_f(code[i].opcode) implies FIRST_ID
                <= code[i].a < self.f_ctr by {
                assert(i < n);
                assert(code[i] == before[i]);
            }
            assert forall|i: int, j: int|
                0 <= i < j < code.len() && #[trigger] defines_f(code[i].opcode) && #[trigger] defines_f(
                    code[j].opcode,
                ) implies code[i].a < code[j].a by {
                assert(code[i] == before[i]);
                assert(code[j] == before[j]);
            }
            assert forall|id: u32| FIRST_ID <= id < self.f_ctr implies #[trigger] is_defined_f(
                code,
                id,
            ) by {
                assert(is_defined_f(before, id));
                let i = choose|i: int|
                    0 <= i < before.len() && defines_f(before[i].opcode) && #[trigger] before[i].a
                        == id;
                assert(code[i] == before[i]);
            }
        }
    }

    /// Appends an instruction that defines no id: an in-place update or an assertion.
    fn record_effect(&mut self, instr: Instruction32)
        requires
            old(self).wf(),
            !defines_f(instr.opcode),
            !defines_e(instr.opcode),
            emitted(instr.opcode),
        ensures
            final(self).wf(),
            final(self).appended(*old(self), instr),
            final(self).same_pools(*old(self)),
    {
        let ghost before = self.code@;
        self.code.push(instr);
        proof {
            let code = self.code@;
            let n = before.len() as int;
            assert(code[n] == instr);
            assert forall|i: int| 0 <= i < code.len() implies emitted(#[trigger] code[i].opcode) by {
                if i < n {
                    assert(code[i] == before[i]);
                }
            }
            assert forall|i: int|
                0 <= i < code.len() && #[trigger] defines_f(code[i].opcode) implies FIRST_ID
                <= code[i].a < self.f_ctr by {
                assert(code[i] == before[i]);
            }
            assert forall|i: int, j: int|
                0 <= i < j < code.len() && #[trigger] defines_f(code[i].opcode) && #[trigger] defines_f(
                    code[j].opcode,
                ) implies code[i].a < code[j].a by {
                assert(code[i] == before[i]);
                assert(code[j] == before[j]);
            }
            assert forall|id: u32| FIRST_ID <= id < self.f_ctr implies #[trigger] is_defined_f(
                code,
                id,
            ) by {
                assert(is_defined_f(before, id));
                let i = choose|i: int|
                    0 <= i < before.len() && defines_f(before[i].opcode) && #[trigger] before[i].a
                        == id;
                assert(code[i] == before[i]);
            }
            assert forall|i: int|
                0 <= i < code.len() && #[trigger] defines_e(code[i].opcode) implies FIRST_ID
                <= code[i].a < self.ef_ctr by {
                assert(code[i] == before[i]);
            }
            assert forall|i: int, j: int|
                0 <= i < j < code.len() && #[trigger] defines_e(code[i].opcode) && #[trigger] defines_e(
                    code[j].opcode,
                ) implies code[i].a < code[j].a by {
                assert(code[i] == before[i]);
                assert(code[j] == before[j]);
            }
            assert forall|id: u32| FIRST_ID <= id < self.ef_ctr implies #[trigger] is_defined_e(
                code,
                id,
            ) by {
                assert(is_defined_e(before, id));
                let i = choose|i: int|
                    0 <= i < before.len() && defines_e(before[i].opcode) && #[trigger] before[i].a
                        == id;
                assert(code[i] == before[i]);
            }
        }
    }

    /// Mints a fresh base id and appends the `FAssignC` instruction that defines it.
    /// The constant `b` is interned first.
    pub fn f_assign_c(&mut self, b: u32) -> (r: SymbolicExprF)
        requires
            old(self).wf(),
            old(self).f_constants.len() < u32::MAX,
            old(self).f_ctr < u32::MAX,
        ensures
            final(self).wf(),
            final(self).minted_f(
                *old(self),
                r,
                Instruction32::f_assign_c(r, pool_index(old(self).f_constants@, b) as u32),
            ),
            final(self).f_constants@ == pool_after(old(self).f_constants@, b),
            final(self).ef_constants@ == old(self).ef_constants@,
    {
        let idx = f_constant(&mut self.f_constants, b);
        let out = SymbolicExprF::allocate(&mut self.f_ctr);
        self.record_f(Instruction32::f_assign_c(out, idx));
        out
    }

    /// Mints a fresh base id and appends the `FAssignV` instruction that defines it.
    pub fn f_assign_v(&mut self, b: SymbolicVarF) -> (r: SymbolicExprF)
        requires
            old(self).wf(),
            old(self).f_ctr < u32::MAX,
        ensures
            final(self).wf(),
            final(self).minted_f(*old(self), r, Instruction32::f_assign_v(r, b)),
            final(self).same_pools(*old(self)),
    {
        let out = SymbolicExprF::allocate(&mut self.f_ctr);
        self.record_f(Instruction32::f_assign_v(out, b));
        out
    }

    /// Mints a fresh base id and appends the `FAssignE` instruction that defines it.
    pub fn f_assign_e(&mut self, b: SymbolicExprF) -> (r: SymbolicExprF)
        requires
            old(self).wf(),
            old(self).f_ctr < u32::MAX,
        ensures
            final(self).wf(),
            final(self).minted_f(*old(self), r, Instruction32::f_assign_e(r, b)),
            final(self).same_pools(*old(self)),
    {
        let out = SymbolicExprF::allocate(&mut self.f_ctr);
        self.record_f(Instruction32::f_assign_e(out, b));
        out
    }

    /// Mints a fresh base id and appends the `FAddVC` instruction that defines it.
    /// The constant `c` is interned first.
    pub fn f_add_vc(&mut self, b: SymbolicVarF, c: u32) -> (r: SymbolicExprF)
        requires
            old(self).wf(),
            old(self).f_constants.len() < u32::MAX,
            old(self).f_ctr < u32::MAX,
        ensures
            final(self).wf(),
            final(self).minted_f(
                *old(self),
                r,
                Instruction32::f_add_vc(r, b, pool_index(old(self).f_constants@, c) as u32),
            ),
            final(self).f_constants@ == pool_after(old(self).f_constants@, c),
            final(self).ef_constants@ == old(self).ef_constants@,
    {
        let idx = f_constant(&mut self.f_constants, c);
        let out = SymbolicExprF::allocate(&mut self.f_ctr);
        self.record_f(Instruction32::f_add_vc(out, b, idx));
        out
    }

    /// Mints a fresh base id and appends the `FAddVV` instruction that defines it.
    pub fn f_add_vv(&mut self, b: SymbolicVarF, c: SymbolicVarF) -> (r: SymbolicExprF)
        requires
            old(self).wf(),
            old(self).f_ctr < u32::MAX,
        ensures
            final(self).wf(),
            final(self).minted_f(*old(self), r, Instruction32::f_add_vv(r, b, c)),
            final(self).same_pools(*old(self)),
    {
        let out = SymbolicExprF::allocate(&mut self.f_ctr);
        self.record_f(Instruction32::f_add_vv(out, b, c));
        out
    }

    /// Mints a fresh base id and appends the `FAddVE` instruction that defines it.
    pub fn f_add_ve(&mut self, b: SymbolicVarF, c: SymbolicExprF) -> (r: SymbolicExprF)
        requires
            old(self).wf(),
            old(self).f_ctr < u32::MAX,
        ensures
            final(self).wf(),
            final(self).minted_f(*old(self), r, Instruction32::f_add_ve(r, b, c)),
            final(self).same_pools(*old(self)),
    {
        let out = SymbolicExprF::allocate(&mut self.f_ctr);
        self.record_f(Instruction32::f_add_ve(out, b, c));
        out
    }

    /// Mints a fresh base id and appends the `FAddEC` instruction that defines it.
    /// The constant `c` is interned first.
    pub fn f_add_ec(&mut self, b: SymbolicExprF, c: u32) -> (r: SymbolicExprF)
        requires
            old(self).wf(),
            old(self).f_constants.len() < u32::MAX,
            old(self).f_ctr < u32::MAX,
        ensures
            final(self).wf(),
            final(self).minted_f(
                *old(self),
                r,
                Instruction32::f_add_ec(r, b, pool_index(old(self).f_constants@, c) as u32),
            ),
            final(self).f_constants@ == pool_after(old(self).f_constants@, c),
            final(self).ef_constants@ == old(self).ef_constants@,
    {
        let idx = f_constant(&mut self.f_constants, c);
        let out = SymbolicExprF::allocate(&mut self.f_ctr);
        self.record_f(Instruction32::f_add_ec(out, b, idx));
        out
    }

    /// Mints a fresh base id and appends the `FAddEV` instruction that defines it.
    pub fn f_add_ev(&mut self, b: SymbolicExprF, c: SymbolicVarF) -> (r: SymbolicExprF)
        requires
            old(self).wf(),
            old(self).f_ctr < u32::MAX,
        ensures
            final(self).wf(),
            final(self).minted_f(*old(self), r, Instruction32::f_add_ev(r, b, c)),
            final(self).same_pools(*old(self)),
    {
        let out = SymbolicExprF::allocate(&mut self.f_ctr);
        self.record_f(Instruction32::f_add_ev(out, b, c));
        out
    }

    /// Mints a fresh base id and appends the `FAddEE` instruction that defines it.
    pub fn f_add_ee(&mut self, b: SymbolicExprF, c: SymbolicExprF) -> (r: SymbolicExprF)
        requires
            old(self).wf(),
            old(self).f_ctr < u32::MAX,
        ensures
            final(self).wf(),
            final(self).minted_f(*old(self), r, Instruction32::f_add_ee(r, b, c)),
            final(self).same_pools(*old(self)),
    {
        let out = SymbolicExprF::allocate(&mut self.f_ctr);
        self.record_f(Instruction32::f_add_ee(out, b, c));
        out
    }

    /// Appends the `FAddAssignE` instruction, which mints no id.
    pub fn f_add_assign_e(&mut self, a: SymbolicExprF, b: SymbolicExprF)
        requires
            old(self).wf(),
        ensures
            final(self).wf(),
            final(self).appended(*old(self), Instruction32::f_add_assign_e(a, b)),
            final(self).same_pools(*old(self)),
    {
        self.record_effect(Instruction32::f_add_assign_e(a, b));
    }

    /// Mints a fresh base id and appends the `FSubVC` instruction that defines it.
    /// The constant `c` is interned first.
    pub fn f_sub_vc(&mut self, b: SymbolicVarF, c: u32) -> (r: SymbolicExprF)
        requires
            old(self).wf(),
            old(self).f_constants.len() < u32::MAX,
            old(self).f_ctr < u32::MAX,
        ensures
            final(self).wf(),
            final(self).minted_f(
                *old(self),
                r,
                Instruction32::f_sub_vc(r, b, pool_index(old(self).f_constants@, c) as u32),
            ),
            final(self).f_constants@ == pool_after(old(self).f_constants@, c),
            final(self).ef_constants@ == old(self).ef_constants@,
    {
        let idx = f_constant(&mut self.f_constants, c);
        let out = SymbolicExprF::allocate(&mut self.f_ctr);
        self.record_f(Instruction32::f_sub_vc(out, b, idx));
        out
    }

    /// Mints a fresh base id and appends the `FSubVV` instruction that defines it.
    pub fn f_sub_vv(&mut self, b: SymbolicVarF, c: SymbolicVarF) -> (r: SymbolicExprF)
        requires
            old(self).wf(),
            old(self).f_ctr < u32::MAX,
        ensures
            final(self).wf(),
            final(self).minted_f(*old(self), r, Instruction32::f_sub_vv(r, b, c)),
            final(self).same_pools(*old(self)),
    {
        let out = SymbolicExprF::allocate(&mut self.f_ctr);
        self.record_f(Instruction32::f_sub_vv(out, b, c));
        out
    }

    /// Mints a fresh base id and appends the `FSubVE` instruction that defines it.
    pub fn f_sub_ve(&mut self, b: SymbolicVarF, c: SymbolicExprF) -> (r: SymbolicExprF)
        requires
            old(self).wf(),
            old(self).f_ctr < u32::MAX,
        ensures
            final(self).wf(),
            final(self).minted_f(*old(self), r, Instruction32::f_sub_ve(r, b, c)),
            final(self).same_pools(*old(self)),
    {
        let out = SymbolicExprF::allocate(&mut self.f_ctr);
        self.record_f(Instruction32::f_sub_ve(out, b, c));
        out
    }

    /// Mints a fresh base id and appends the `FSubEC` instruction that defines it.
    /// The constant `c` is interned first.
    pub fn f_sub_ec(&mut self, b: SymbolicExprF, c: u32) -> (r: SymbolicExprF)
        requires
            old(self).wf(),
            old(self).f_constants.len() < u32::MAX,
            old(self).f_ctr < u32::MAX,
        ensures
            final(self).wf(),
            final(self).minted_f(
                *old(self),
                r,
                Instruction32::f_sub_ec(r, b, pool_index(old(self).f_constants@, c) as u32),
            ),
            final(self).f_constants@ == pool_after(old(self).f_constants@, c),
            final(self).ef_constants@ == old(self).ef_constants@,
    {
        let idx = f_constant(&mut self.f_constants, c);
        let out = SymbolicExprF::allocate(&mut self.f_ctr);
        self.record_f(Instruction32::f_sub_ec(out, b, idx));
        out
    }

    /// Mints a fresh base id and appends the `FSubEV` instruction that defines it.
    pub fn f_sub_ev(&mut self, b: SymbolicExprF, c: SymbolicVarF) -> (r: SymbolicExprF)
        requires
            old(self).wf(),
            old(self).f_ctr < u32::MAX,
        ensures
            final(self).wf(),
            final(self).minted_f(*old(self), r, Instruction32::f_sub_ev(r, b, c)),
            final(self).same_pools(*old(self)),
    {
        let out = SymbolicExprF::allocate(&mut self.f_ctr);
        self.record_f(Instruction32::f_sub_ev(out, b, c));
        out
    }

    /// Mints a fresh base id and appends the `FSubEE` instruction that defines it.
    pub fn f_sub_ee(&mut self, b: SymbolicExprF, c: SymbolicExprF) -> (r: SymbolicExprF)
        requires
            old(self).wf(),
            old(self).f_ctr < u32::MAX,
        ensures
            final(self).wf(),
            final(self).minted_f(*old(self), r, Instruction32::f_sub_ee(r, b, c)),
            final(self).same_pools(*old(self)),
    {
        let out = SymbolicExprF::allocate(&mut self.f_ctr);
        self.record_f(Instruction32::f_sub_ee(out, b, c));
        out
    }

    /// Appends the `FSubAssignE` instruction, which mints no id.
    pub fn f_sub_assign_e(&mut self, a: SymbolicExprF, b: SymbolicExprF)
        requires
            old(self).wf(),
        ensures
            final(self).wf(),
            final(self).appended(*old(self), Instruction32::f_sub_assign_e(a, b)),
            final(self).same_pools(*old(self)),
    {
        self.record_effect(Instruction32::f_sub_assign_e(a, b));
    }

    /// Mints a fresh base id and appends the `FMulVC` instruction that defines it.
    /// The constant `c` is interned first.
    pub fn f_mul_vc(&mut self, b: SymbolicVarF, c: u32) -> (r: SymbolicExprF)
        requires
            old(self).wf(),
            old(self).f_constants.len() < u32::MAX,
            old(self).f_ctr < u32::MAX,
        ensures
            final(self).wf(),
            final(self).minted_f(
                *old(self),
                r,
                Instruction32::f_mul_vc(r, b, pool_index(old(self).f_constants@, c) as u32),
            ),
            final(self).f_constants@ == pool_after(old(self).f_constants@, c),
            final(self).ef_constants@ == old(self).ef_constants@,
    {
        let idx = f_constant(&mut self.f_constants, c);
        let out = SymbolicExprF::allocate(&mut self.f_ctr);
        self.record_f(Instruction32::f_mul_vc(out, b, idx));
        out
    }

    /// Mints a fresh base id and appends the `FMulVV` instruction that defines it.
    pub fn f_mul_vv(&mut self, b: SymbolicVarF, c: SymbolicVarF) -> (r: SymbolicExprF)
        requires
            old(self).wf(),
            old(self).f_ctr < u32::MAX,
        ensures
            final(self).wf(),
            final(self).minted_f(*old(self), r, Instruction32::f_mul_vv(r, b, c)),
            final(self).same_pools(*old(self)),
    {
        let out = SymbolicExprF::allocate(&mut self.f_ctr);
        self.record_f(Instruction32::f_mul_vv(out, b, c));
        out
    }

    /// Mints a fresh base id and appends the `FMulVE` instruction that defines it.
    pub fn f_mul_ve(&mut self, b: SymbolicVarF, c: SymbolicExprF) -> (r: SymbolicExprF)
        requires
            old(self).wf(),
            old(self).f_ctr < u32::MAX,
        ensures
            final(self).wf(),
            final(self).minted_f(*old(self), r, Instruction32::f_mul_ve(r, b, c)),
            final(self).same_pools(*old(self)),
    {
        let out = SymbolicExprF::allocate(&mut self.f_ctr);
        self.record_f(Instruction32::f_mul_ve(out, b, c));
        out
    }

    /// Mints a fresh base id and appends the `FMulEC` instruction that defines it.
    /// The constant `c` is interned first.
    pub fn f_mul_ec(&mut self, b: SymbolicExprF, c: u32) -> (r: SymbolicExprF)
        requires
            old(self).wf(),
            old(self).f_constants.len() < u32::MAX,
            old(self).f_ctr < u32::MAX,
        ensures
            final(self).wf(),
            final(self).minted_f(
                *old(self),
                r,
                Instruction32::f_mul_ec(r, b, pool_index(old(self).f_constants@, c) as u32),
            ),
            final(self).f_constants@ == pool_after(old(self).f_constants@, c),
            final(self).ef_constants@ == old(self).ef_constants@,
    {
        let idx = f_constant(&mut self.f_constants, c);
        let out = SymbolicExprF::allocate(&mut self.f_ctr);
        self.record_f(Instruction32::f_mul_ec(out, b, idx));
        out
    }

    /// Mints a fresh base id and appends the `FMulEV` instruction that defines it.
    pub fn f_mul_ev(&mut self, b: SymbolicExprF, c: SymbolicVarF) -> (r: SymbolicExprF)
        requires
            old(self).wf(),
            old(self).f_ctr < u32::MAX,
        ensures
            final(self).wf(),
            final(self).minted_f(*old(self), r, Instruction32::f_mul_ev(r, b, c)),
            final(self).same_pools(*old(self)),
    {
        let out = SymbolicExprF::allocate(&mut self.f_ctr);
        self.record_f(Instruction32::f_mul_ev(out, b, c));
        out
    }

    /// Mints a fresh base id and appends the `FMulEE` instruction that defines it.
    pub fn f_mul_ee(&mut self, b: SymbolicExprF, c: SymbolicExprF) -> (r: SymbolicExprF)
        requires
            old(self).wf(),
            old(self).f_ctr < u32::MAX,
        ensures
            final(self).wf(),
            final(self).minted_f(*old(self), r, Instruction32::f_mul_ee(r, b, c)),
            final(self).same_pools(*old(self)),
    {
        let out = SymbolicExprF::allocate(&mut self.f_ctr);
        self.record_f(Instruction32::f_mul_ee(out, b, c));
        out
    }

    /// Appends the `FMulAssignE` instruction, which mints no id.
    pub fn f_mul_assign_e(&mut self, a: SymbolicExprF, b: SymbolicExprF)
        requires
            old(self).wf(),
        ensures
            final(self).wf(),
            final(self).appended(*old(self), Instruction32::f_mul_assign_e(a, b)),
            final(self).same_pools(*old(self)),
    {
        self.record_effect(Instruction32::f_mul_assign_e(a, b));
    }

    /// Mints a fresh base id and appends the `FNegE` instruction that defines it.
    pub fn f_neg_e(&mut self, b: SymbolicExprF) -> (r: SymbolicExprF)
        requires
            old(self).wf(),
            old(self).f_ctr < u32::MAX,
        ensures
            final(self).wf(),
            final(self).minted_f(*old(self), r, Instruction32::f_neg_e(r, b)),
            final(self).same_pools(*old(self)),
    {
        let out = SymbolicExprF::allocate(&mut self.f_ctr);
        self.record_f(Instruction32::f_neg_e(out, b));
        out
    }

    /// Mints a fresh extension id and appends the `EAssignC` instruction that defines it.
    /// The constant `b` is interned first.
    pub fn e_assign_c(&mut self, b: EfValue) -> (r: SymbolicExprEF)
        requires
            old(self).wf(),
            old(self).ef_constants.len() < u32::MAX,
            old(self).ef_ctr < u32::MAX,
        ensures
            final(self).wf(),
            final(self).minted_e(
                *old(self),
                r,
                Instruction32::e_assign_c(r, pool_index(old(self).ef_constants@, b) as u32),
            ),
            final(self).ef_constants@ == pool_after(old(self).ef_constants@, b),
            final(self).f_constants@ == old(self).f_constants@,
    {
        let idx = ef_constant(&mut self.ef_constants, b);
        let out = SymbolicExprEF::allocate(&mut self.ef_ctr);
        self.record_e(Instruction32::e_assign_c(out, idx));
        out
    }

    /// Mints a fresh extension id and appends the `EAssignV` instruction that defines it.
    pub fn e_assign_v(&mut self, b: SymbolicVarEF) -> (r: SymbolicExprEF)
        requires
            old(self).wf(),
            old(self).ef_ctr < u32::MAX,
        ensures
            final(self).wf(),
            final(self).minted_e(*old(self), r, Instruction32::e_assign_v(r, b)),
            final(self).same_pools(*old(self)),
    {
        let out = SymbolicExprEF::allocate(&mut self.ef_ctr);
        self.record_e(Instruction32::e_assign_v(out, b));
        out
    }

    /// Mints a fresh extension id and appends the `EAssignE` instruction that defines it.
    pub fn e_assign_e(&mut self, b: SymbolicExprEF) -> (r: SymbolicExprEF)
        requires
            old(self).wf(),
            old(self).ef_ctr < u32::MAX,
        ensures
            final(self).wf(),
            final(self).minted_e(*old(self), r, Instruction32::e_assign_e(r, b)),
            final(self).same_pools(*old(self)),
    {
        let out = SymbolicExprEF::allocate(&mut self.ef_ctr);
        self.record_e(Instruction32::e_assign_e(out, b));
        out
    }

    /// Mints a fresh extension id and appends the `EAddVC` instruction that defines it.
    /// The constant `c` is interned first.
    pub fn e_add_vc(&mut self, b: SymbolicVarEF, c: EfValue) -> (r: SymbolicExprEF)
        requires
            old(self).wf(),
            old(self).ef_constants.len() < u32::MAX,
            old(self).ef_ctr < u32::MAX,
        ensures
            final(self).wf(),
            final(self).minted_e(
                *old(self),
                r,
                Instruction32::e_add_vc(r, b, pool_index(old(self).ef_constants@, c) as u32),
            ),
            final(self).ef_constants@ == pool_after(old(self).ef_constants@, c),
            final(self).f_constants@ == old(self).f_constants@,
    {
        let idx = ef_constant(&mut self.ef_constants, c);
        let out = SymbolicExprEF::allocate(&mut self.ef_ctr);
        self.record_e(Instruction32::e_add_vc(out, b, idx));
        out
    }

    /// Mints a fresh extension id and appends the `EAddVV` instruction that defines it.
    pub fn e_add_vv(&mut self, b: SymbolicVarEF, c: SymbolicVarEF) -> (r: SymbolicExprEF)
        requires
            old(self).wf(),
            old(self).ef_ctr < u32::MAX,
        ensures
            final(self).wf(),
            final(self).minted_e(*old(self), r, Instruction32::e_add_vv(r, b, c)),
            final(self).same_pools(*old(self)),
    {
        let out = SymbolicExprEF::allocate(&mut self.ef_ctr);
        self.record_e(Instruction32::e_add_vv(out, b, c));
        out
    }

    /// Mints a fresh extension id and appends the `EAddVE` instruction that defines it.
    pub fn e_add_ve(&mut self, b: SymbolicVarEF, c: SymbolicExprEF) -> (r: SymbolicExprEF)
        requires
            old(self).wf(),
            old(self).ef_ctr < u32::MAX,
        ensures
            final(self).wf(),
            final(self).minted_e(*old(self), r, Instruction32::e_add_ve(r, b, c)),
            final(self).same_pools(*old(self)),
    {
        let out = SymbolicExprEF::allocate(&mut self.ef_ctr);
        self.record_e(Instruction32::e_add_ve(out, b, c));
        out
    }

    /// Mints a fresh extension id and appends the `EAddEC` instruction that defines it.
    /// The constant `c` is interned first.
    pub fn e_add_ec(&mut self, b: SymbolicExprEF, c: EfValue) -> (r: SymbolicExprEF)
        requires
            old(self).wf(),
            old(self).ef_constants.len() < u32::MAX,
            old(self).ef_ctr < u32::MAX,
        ensures
            final(self).wf(),
            final(self).minted_e(
                *old(self),
                r,
                Instruction32::e_add_ec(r, b, pool_index(old(self).ef_constants@, c) as u32),
            ),
            final(self).ef_constants@ == pool_after(old(self).ef_constants@, c),
            final(self).f_constants@ == old(self).f_constants@,
    {
        let idx = ef_constant(&mut self.ef_constants, c);
        let out = SymbolicExprEF::allocate(&mut self.ef_ctr);
        self.record_e(Instruction32::e_add_ec(out, b, idx));
        out
    }

    /// Mints a fresh extension id and appends the `EAddEV` instruction that defines it.
    pub fn e_add_ev(&mut self, b: SymbolicExprEF, c: SymbolicVarEF) -> (r: SymbolicExprEF)
        requires
            old(self).wf(),
            old(self).ef_ctr < u32::MAX,
        ensures
            final(self).wf(),
            final(self).minted_e(*old(self), r, Instruction32::e_add_ev(r, b, c)),
            final(self).same_pools(*old(self)),
    {
        let out = SymbolicExprEF::allocate(&mut self.ef_ctr);
        self.record_e(Instruction32::e_add_ev(out, b, c));
        out
    }

    /// Mints a fresh extension id and appends the `EAddEE` instruction that defines it.
    pub fn e_add_ee(&mut self, b: SymbolicExprEF, c: SymbolicExprEF) -> (r: SymbolicExprEF)
        requires
            old(self).wf(),
            old(self).ef_ctr < u32::MAX,
        ensures
            final(self).wf(),
            final(self).minted_e(*old(self), r, Instruction32::e_add_ee(r, b, c)),
            final(self).same_pools(*old(self)),
    {
        let out = SymbolicExprEF::allocate(&mut self.ef_ctr);
        self.record_e(Instruction32::e_add_ee(out, b, c));
        out
    }

    /// Appends the `EAddAssignE` instruction, which mints no id.
    pub fn e_add_assign_e(&mut self, a: SymbolicExprEF, b: SymbolicExprEF)
        requires
            old(self).wf(),
        ensures
            final(self).wf(),
            final(self).appended(*old(self), Instruction32::e_add_assign_e(a, b)),
            final(self).same_pools(*old(self)),
    {
        self.record_effect(Instruction32::e_add_assign_e(a, b));
    }

    /// Mints a fresh extension id and appends the `ESubVC` instruction that defines it.
    /// The constant `c` is interned first.
    pub fn e_sub_vc(&mut self, b: SymbolicVarEF, c: EfValue) -> (r: SymbolicExprEF)
        requires
            old(self).wf(),
            old(self).ef_constants.len() < u32::MAX,
            old(self).ef_ctr < u32::MAX,
        ensures
            final(self).wf(),
            final(self).minted_e(
                *old(self),
                r,
                Instruction32::e_sub_vc(r, b, pool_index(old(self).ef_constants@, c) as u32),
            ),
            final(self).ef_constants@ == pool_after(old(self).ef_constants@, c),
            final(self).f_constants@ == old(self).f_constants@,
    {
        let idx = ef_constant(&mut self.ef_constants, c);
        let out = SymbolicExprEF::allocate(&mut self.ef_ctr);
        self.record_e(Instruction32::e_sub_vc(out, b, idx));
        out
    }

    /// Mints a fresh extension id and appends the `ESubVV` instruction that defines it.
    pub fn e_sub_vv(&mut self, b: SymbolicVarEF, c: SymbolicVarEF) -> (r: SymbolicExprEF)
        requires
            old(self).wf(),
            old(self).ef_ctr < u32::MAX,
        ensures
            final(self).wf(),
            final(self).minted_e(*old(self), r, Instruction32::e_sub_vv(r, b, c)),
            final(self).same_pools(*old(self)),
    {
        let out = SymbolicExprEF::allocate(&mut self.ef_ctr);
        self.record_e(Instruction32::e_sub_vv(out, b, c));
        out
    }

    /// Mints a fresh extension id and appends the `ESubVE` instruction that defines it.
    pub fn e_sub_ve(&mut self, b: SymbolicVarEF, c: SymbolicExprEF) -> (r: SymbolicExprEF)
        requires
            old(self).wf(),
            old(self).ef_ctr < u32::MAX,
        ensures
            final(self).wf(),
            final(self).minted_e(*old(self), r, Instruction32::e_sub_ve(r, b, c)),
            final(self).same_pools(*old(self)),
    {
        let out = SymbolicExprEF::allocate(&mut self.ef_ctr);
        self.record_e(Instruction32::e_sub_ve(out, b, c));
        out
    }

    /// Mints a fresh extension id and appends the `ESubEC` instruction that defines it.
    /// The constant `c` is interned first.
    pub fn e_sub_ec(&mut self, b: SymbolicExprEF, c: EfValue) -> (r: SymbolicExprEF)
        requires
            old(self).wf(),
            old(self).ef_constants.len() < u32::MAX,
            old(self).ef_ctr < u32::MAX,
        ensures
            final(self).wf(),
            final(self).minted_e(
                *old(self),
                r,
                Instruction32::e_sub_ec(r, b, pool_index(old(self).ef_constants@, c) as u32),
            ),
            final(self).ef_constants@ == pool_after(old(self).ef_constants@, c),
            final(self).f_constants@ == old(self).f_constants@,
    {
        let idx = ef_constant(&mut self.ef_constants, c);
        let out = SymbolicExprEF::allocate(&mut self.ef_ctr);
        self.record_e(Instruction32::e_sub_ec(out, b, idx));
        out
    }

    /// Mints a fresh extension id and appends the `ESubEV` instruction that defines it.
    pub fn e_sub_ev(&mut self, b: SymbolicExprEF, c: SymbolicVarEF) -> (r: SymbolicExprEF)
        requires
            old(self).wf(),
            old(self).ef_ctr < u32::MAX,
        ensures
            final(self).wf(),
            final(self).minted_e(*old(self), r, Instruction32::e_sub_ev(r, b, c)),
            final(self).same_pools(*old(self)),
    {
        let out = SymbolicExprEF::allocate(&mut self.ef_ctr);
        self.record_e(Instruction32::e_sub_ev(out, b, c));
        out
    }

    /// Mints a fresh extension id and appends the `ESubEE` instruction that defines it.
    pub fn e_sub_ee(&mut self, b: SymbolicExprEF, c: SymbolicExprEF) -> (r: SymbolicExprEF)
        requires
            old(self).wf(),
            old(self).ef_ctr < u32::MAX,
        ensures
            final(self).wf(),
            final(self).minted_e(*old(self), r, Instruction32::e_sub_ee(r, b, c)),
            final(self).same_pools(*old(self)),
    {
        let out = SymbolicExprEF::allocate(&mut self.ef_ctr);
        self.record_e(Instruction32::e_sub_ee(out, b, c));
        out
    }

    /// Appends the `ESubAssignE` instruction, which mints no id.
    pub fn e_sub_assign_e(&mut self, a: SymbolicExprEF, b: SymbolicExprEF)
        requires
            old(self).wf(),
        ensures
            final(self).wf(),
            final(self).appended(*old(self), Instruction32::e_sub_assign_e(a, b)),
            final(self).same_pools(*old(self)),
    {
        self.record_effect(Instruction32::e_sub_assign_e(a, b));
    }

    /// Mints a fresh extension id and appends the `EMulVC` instruction that defines it.
    /// The constant `c` is interned first.
    pub fn e_mul_vc(&mut self, b: SymbolicVarEF, c: EfValue) -> (r: SymbolicExprEF)
        requires
            old(self).wf(),
            old(self).ef_constants.len() < u32::MAX,
            old(self).ef_ctr < u32::MAX,
        ensures
            final(self).wf(),
            final(self).minted_e(
                *old(self),
                r,
                Instruction32::e_mul_vc(r, b, pool_index(old(self).ef_constants@, c) as u32),
            ),
            final(self).ef_constants@ == pool_after(old(self).ef_constants@, c),
            final(self).f_constants@ == old(self).f_constants@,
    {
        let idx = ef_constant(&mut self.ef_constants, c);
        let out = SymbolicExprEF::allocate(&mut self.ef_ctr);
        self.record_e(Instruction32::e_mul_vc(out, b, idx));
        out
    }

    /// Mints a fresh extension id and appends the `EMulVV` instruction that defines it.
    pub fn e_mul_vv(&mut self, b: SymbolicVarEF, c: SymbolicVarEF) -> (r: SymbolicExprEF)
        requires
            old(self).wf(),
            old(self).ef_ctr < u32::MAX,
        ensures
            final(self).wf(),
            final(self).minted_e(*old(self), r, Instruction32::e_mul_vv(r, b, c)),
            final(self).same_pools(*old(self)),
    {
        let out = SymbolicExprEF::allocate(&mut self.ef_ctr);
        self.record_e(Instruction32::e_mul_vv(out, b, c));
        out
    }

    /// Mints a fresh extension id and appends the `EMulVE` instruction that defines it.
    pub fn e_mul_ve(&mut self, b: SymbolicVarEF, c: SymbolicExprEF) -> (r: SymbolicExprEF)
        requires
            old(self).wf(),
            old(self).ef_ctr < u32::MAX,
        ensures
            final(self).wf(),
            final(self).minted_e(*old(self), r, Instruction32::e_mul_ve(r, b, c)),
            final(self).same_pools(*old(self)),
    {
        let out = SymbolicExprEF::allocate(&mut self.ef_ctr);
        self.record_e(Instruction32::e_mul_ve(out, b, c));
        out
    }

    /// Mints a fresh extension id and appends the `EMulEC` instruction that defines it.
    /// The constant `c` is interned first.
    pub fn e_mul_ec(&mut self, b: SymbolicExprEF, c: EfValue) -> (r: SymbolicExprEF)
        requires
            old(self).wf(),
            old(self).ef_constants.len() < u32::MAX,
            old(self).ef_ctr < u32::MAX,
        ensures
            final(self).wf(),
            final(self).minted_e(
                *old(self),
                r,
                Instruction32::e_mul_ec(r, b, pool_index(old(self).ef_constants@, c) as u32),
            ),
            final(self).ef_constants@ == pool_after(old(self).ef_constants@, c),
            final(self).f_constants@ == old(self).f_constants@,
    {
        let idx = ef_constant(&mut self.ef_constants, c);
        let out = SymbolicExprEF::allocate(&mut self.ef_ctr);
        self.record_e(Instruction32::e_mul_ec(out, b, idx));
        out
    }

    /// Mints a fresh extension id and appends the `EMulEV` instruction that defines it.
    pub fn e_mul_ev(&mut self, b: SymbolicExprEF, c: SymbolicVarEF) -> (r: SymbolicExprEF)
        requires
            old(self).wf(),
            old(self).ef_ctr < u32::MAX,
        ensures
            final(self).wf(),
            final(self).minted_e(*old(self), r, Instruction32::e_mul_ev(r, b, c)),
            final(self).same_pools(*old(self)),
    {
        let out = SymbolicExprEF::allocate(&mut self.ef_ctr);
        self.record_e(Instruction32::e_mul_ev(out, b, c));
        out
    }

    /// Mints a fresh extension id and appends the `EMulEE` instruction that defines it.
    pub fn e_mul_ee(&mut self, b: SymbolicExprEF, c: SymbolicExprEF) -> (r: SymbolicExprEF)
        requires
            old(self).wf(),
            old(self).ef_ctr < u32::MAX,
        ensures
            final(self).wf(),
            final(self).minted_e(*old(self), r, Instruction32::e_mul_ee(r, b, c)),
            final(self).same_pools(*old(self)),
    {
        let out = SymbolicExprEF::allocate(&mut self.ef_ctr);
        self.record_e(Instruction32::e_mul_ee(out, b, c));
        out
    }

    /// Appends the `EMulAssignE` instruction, which mints no id.
    pub fn e_mul_assign_e(&mut self, a: SymbolicExprEF, b: SymbolicExprEF)
        requires
            old(self).wf(),
        ensures
            final(self).wf(),
            final(self).appended(*old(self), Instruction32::e_mul_assign_e(a, b)),
            final(self).same_pools(*old(self)),
    {
        self.record_effect(Instruction32::e_mul_assign_e(a, b));
    }

    /// Mints a fresh extension id and appends the `ENegE` instruction that defines it.
    pub fn e_neg_e(&mut self, b: SymbolicExprEF) -> (r: SymbolicExprEF)
        requires
            old(self).wf(),
            old(self).ef_ctr < u32::MAX,
        ensures
            final(self).wf(),
            final(self).minted_e(*old(self), r, Instruction32::e_neg_e(r, b)),
            final(self).same_pools(*old(self)),
    {
        let out = SymbolicExprEF::allocate(&mut self.ef_ctr);
        self.record_e(Instruction32::e_neg_e(out, b));
        out
    }

    /// Mints a fresh extension id and appends the `EFFromE` instruction that defines it.
    pub fn ef_from_e(&mut self, b: SymbolicExprF) -> (r: SymbolicExprEF)
        requires
            old(self).wf(),
            old(self).ef_ctr < u32::MAX,
        ensures
            final(self).wf(),
            final(self).minted_e(*old(self), r, Instruction32::ef_from_e(r, b)),
            final(self).same_pools(*old(self)),
    {
        let out = SymbolicExprEF::allocate(&mut self.ef_ctr);
        self.record_e(Instruction32::ef_from_e(out, b));
        out
    }

    /// Mints a fresh extension id and appends the `EFAddEE` instruction that defines it.
    pub fn ef_add_ee(&mut self, b: SymbolicExprEF, c: SymbolicExprF) -> (r: SymbolicExprEF)
        requires
            old(self).wf(),
            old(self).ef_ctr < u32::MAX,
        ensures
            final(self).wf(),
            final(self).minted_e(*old(self), r, Instruction32::ef_add_ee(r, b, c)),
            final(self).same_pools(*old(self)),
    {
        let out = SymbolicExprEF::allocate(&mut self.ef_ctr);
        self.record_e(Instruction32::ef_add_ee(out, b, c));
        out
    }

    /// Appends the `EFAddAssignE` instruction, which mints no id.
    pub fn ef_add_assign_e(&mut self, a: SymbolicExprEF, b: SymbolicExprF)
        requires
            old(self).wf(),
        ensures
            final(self).wf(),
            final(self).appended(*old(self), Instruction32::ef_add_assign_e(a, b)),
            final(self).same_pools(*old(self)),
    {
        self.record_effect(Instruction32::ef_add_assign_e(a, b));
    }

    /// Mints a fresh extension id and appends the `EFSubEE` instruction that defines it.
    pub fn ef_sub_ee(&mut self, b: SymbolicExprEF, c: SymbolicExprF) -> (r: SymbolicExprEF)
        requires
            old(self).wf(),
            old(self).ef_ctr < u32::MAX,
        ensures
            final(self).wf(),
            final(self).minted_e(*old(self), r, Instruction32::ef_sub_ee(r, b, c)),
            final(self).same_pools(*old(self)),
    {
        let out = SymbolicExprEF::allocate(&mut self.ef_ctr);
        self.record_e(Instruction32::ef_sub_ee(out, b, c));
        out
    }

    /// Appends the `EFSubAssignE` instruction, which mints no id.
    pub fn ef_sub_assign_e(&mut self, a: SymbolicExprEF, b: SymbolicExprF)
        requires
            old(self).wf(),
        ensures
            final(self).wf(),
            final(self).appended(*old(self), Instruction32::ef_sub_assign_e(a, b)),
            final(self).same_pools(*old(self)),
    {
        self.record_effect(Instruction32::ef_sub_assign_e(a, b));
    }

    /// Mints a fresh extension id and appends the `EFMulEE` instruction that defines it.
    pub fn ef_mul_ee(&mut self, b: SymbolicExprEF, c: SymbolicExprF) -> (r: SymbolicExprEF)
        requires
            old(self).wf(),
            old(self).ef_ctr < u32::MAX,
        ensures
            final(self).wf(),
            final(self).minted_e(*old(self), r, Instruction32::ef_mul_ee(r, b, c)),
            final(self).same_pools(*old(self)),
    {
        let out = SymbolicExprEF::allocate(&mut self.ef_ctr);
        self.record_e(Instruction32::ef_mul_ee(out, b, c));
        out
    }

    /// Appends the `EFMulAssignE` instruction, which mints no id.
    pub fn ef_mul_assign_e(&mut self, a: SymbolicExprEF, b: SymbolicExprF)
        requires
            old(self).wf(),
        ensures
            final(self).wf(),
            final(self).appended(*old(self), Instruction32::ef_mul_assign_e(a, b)),
            final(self).same_pools(*old(self)),
    {
        self.record_effect(Instruction32::ef_mul_assign_e(a, b));
    }

    /// Appends the `FAssertZero` instruction, which mints no id.
    pub fn f_assert_zero(&mut self, a: SymbolicExprF)
        requires
            old(self).wf(),
        ensures
            final(self).wf(),
            final(self).appended(*old(self), Instruction32::f_assert_zero(a)),
            final(self).same_pools(*old(self)),
    {
        self.record_effect(Instruction32::f_assert_zero(a));
    }

    /// Appends the `EAssertZero` instruction, which mints no id.
    pub fn e_assert_zero(&mut self, a: SymbolicExprEF)
        requires
            old(self).wf(),
        ensures
            final(self).wf(),
            final(self).appended(*old(self), Instruction32::e_assert_zero(a)),
            final(self).same_pools(*old(self)),
    {
        self.record_effect(Instruction32::e_assert_zero(a));
    }
}

} // verus!
