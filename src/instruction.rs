//! The instruction set: opcodes, which slots each opcode reads or writes in which domain,
//! and the authoring and execution forms of an instruction.

use vstd::prelude::*;

use crate::symbolic_expr_ef::SymbolicExprEF;
use crate::symbolic_expr_f::SymbolicExprF;
use crate::symbolic_var_ef::SymbolicVarEF;
use crate::symbolic_var_f::SymbolicVarF;

verus! {

/// An instruction in authoring form: operand fields hold virtual register ids, constant
/// pool indices or variable indices, as the opcode assigns.
#[derive(Debug, Clone, Copy, PartialEq, Eq, Structural)]
pub struct Instruction32 {
    pub opcode: u8,
    pub b_variant: u8,
    pub c_variant: u8,
    pub a: u32,
    pub b: u32,
    pub c: u32,
}

/// An instruction in execution form: register operands hold physical register numbers.
#[derive(Debug, Clone, Copy, PartialEq, Eq, Structural)]
pub struct Instruction16 {
    pub opcode: u8,
    pub b_variant: u8,
    pub c_variant: u8,
    pub a: u16,
    pub b: u16,
    pub c: u16,
}

/// The operations of the bytecode. Base-domain operations come first, then their
/// extension-domain mirrors, then the mixed operations, then the two assertions.
#[derive(Debug, Clone, Copy, PartialEq, Eq, Structural)]
pub enum Opcode {
    Empty,
    FAssignC,
    FAssignV,
    FAssignE,
    FAddVC,
    FAddVV,
    FAddVE,
    FAddEC,
    FAddEV,
    FAddEE,
    FAddAssignE,
    FSubVC,
    FSubVV,
    FSubVE,
    FSubEC,
    FSubEV,
    FSubEE,
    FSubAssignE,
    FMulVC,
    FMulVV,
    FMulVE,
    FMulEC,
    FMulEV,
    FMulEE,
    FMulAssignE,
    FNegE,
    EAssignC,
    EAssignV,
    EAssignE,
    EAddVC,
    EAddVV,
    EAddVE,
    EAddEC,
    EAddEV,
    EAddEE,
    EAddAssignE,
    ESubVC,
    ESubVV,
    ESubVE,
    ESubEC,
    ESubEV,
    ESubEE,
    ESubAssignE,
    EMulVC,
    EMulVV,
    EMulVE,
    EMulEC,
    EMulEV,
    EMulEE,
    EMulAssignE,
    ENegE,
    EFFromE,
    EFAddEE,
    EFAddAssignE,
    EFSubEE,
    EFSubAssignE,
    EFMulEE,
    EFMulAssignE,
    EFAsBaseSlice,
    FAssertZero,
    EAssertZero,
}

/// The largest opcode byte that names an operation.
pub const MAX_OPCODE: u8 = 60;

/// Slot `a` holds a base-domain register: written, or rewritten in place, or asserted zero.
pub open spec fn f_slot_a(code: u8) -> bool {
    (1 <= code && code < 26) || code == 59
}

/// Slot `a` holds an extension-domain register.
pub open spec fn e_slot_a(code: u8) -> bool {
    (26 <= code && code < 59) || code == 60
}

/// Slot `b` reads a base-domain register.
pub open spec fn f_slot_b(code: u8) -> bool {
    code == 3 || code == 7 || code == 8 || code == 9 || code == 10 || code == 14
    || code == 15 || code == 16 || code == 17 || code == 21 || code == 22 || code == 23
    || code == 24 || code == 25 || code == 51 || code == 53 || code == 55 || code == 57
}

/// Slot `c` reads a base-domain register.
pub open spec fn f_slot_c(code: u8) -> bool {
    code == 6 || code == 9 || code == 13 || code == 16 || code == 20 || code == 23
    || code == 52 || code == 54 || code == 56
}

/// Slot `b` reads an extension-domain register.
pub open spec fn e_slot_b(code: u8) -> bool {
    code == 28 || code == 32 || code == 33 || code == 34 || code == 35 || code == 39
    || code == 40 || code == 41 || code == 42 || code == 46 || code == 47 || code == 48
    || code == 49 || code == 50 || code == 52 || code == 54 || code == 56
}

/// Slot `c` reads an extension-domain register.
pub open spec fn e_slot_c(code: u8) -> bool {
    code == 31 || code == 34 || code == 38 || code == 41 || code == 45 || code == 48
}

/// The operation writes a freshly minted base-domain id into slot `a`.
pub open spec fn defines_f(code: u8) -> bool {
    f_slot_a(code) && code != 10 && code != 17 && code != 24 && code != 59
}

/// The operation writes a freshly minted extension-domain id into slot `a`.
pub open spec fn defines_e(code: u8) -> bool {
    e_slot_a(code) && code != 35 && code != 42 && code != 49 && code != 53 && code != 55 && code
        != 57 && code != 58 && code != 60
}

impl Opcode {
    pub open spec fn spec_code(&self) -> u8 {
        match self {
            Opcode::Empty => 0,
            Opcode::FAssignC => 1,
            Opcode::FAssignV => 2,
            Opcode::FAssignE => 3,
            Opcode::FAddVC => 4,
            Opcode::FAddVV => 5,
            Opcode::FAddVE => 6,
            Opcode::FAddEC => 7,
            Opcode::FAddEV => 8,
            Opcode::FAddEE => 9,
            Opcode::FAddAssignE => 10,
            Opcode::FSubVC => 11,
            Opcode::FSubVV => 12,
            Opcode::FSubVE => 13,
            Opcode::FSubEC => 14,
            Opcode::FSubEV => 15,
            Opcode::FSubEE => 16,
            Opcode::FSubAssignE => 17,
            Opcode::FMulVC => 18,
            Opcode::FMulVV => 19,
            Opcode::FMulVE => 20,
            Opcode::FMulEC => 21,
            Opcode::FMulEV => 22,
            Opcode::FMulEE => 23,
            Opcode::FMulAssignE => 24,
            Opcode::FNegE => 25,
            Opcode::EAssignC => 26,
            Opcode::EAssignV => 27,
            Opcode::EAssignE => 28,
            Opcode::EAddVC => 29,
            Opcode::EAddVV => 30,
            Opcode::EAddVE => 31,
            Opcode::EAddEC => 32,
            Opcode::EAddEV => 33,
            Opcode::EAddEE => 34,
            Opcode::EAddAssignE => 35,
            Opcode::ESubVC => 36,
            Opcode::ESubVV => 37,
            Opcode::ESubVE => 38,
            Opcode::ESubEC => 39,
            Opcode::ESubEV => 40,
            Opcode::ESubEE => 41,
            Opcode::ESubAssignE => 42,
            Opcode::EMulVC => 43,
            Opcode::EMulVV => 44,
            Opcode::EMulVE => 45,
            Opcode::EMulEC => 46,
            Opcode::EMulEV => 47,
            Opcode::EMulEE => 48,
            Opcode::EMulAssignE => 49,
            Opcode::ENegE => 50,
            Opcode::EFFromE => 51,
            Opcode::EFAddEE => 52,
            Opcode::EFAddAssignE => 53,
            Opcode::EFSubEE => 54,
            Opcode::EFSubAssignE => 55,
            Opcode::EFMulEE => 56,
            Opcode::EFMulAssignE => 57,
            Opcode::EFAsBaseSlice => 58,
            Opcode::FAssertZero => 59,
            Opcode::EAssertZero => 60,
        }
    }

    /// The byte that encodes this opcode.
    #[verifier::when_used_as_spec(spec_code)]
    pub fn code(&self) -> (r: u8)
        ensures
            r == self.spec_code(),
    {
        match self {
            Opcode::Empty => 0,
            Opcode::FAssignC => 1,
            Opcode::FAssignV => 2,
            Opcode::FAssignE => 3,
            Opcode::FAddVC => 4,
            Opcode::FAddVV => 5,
            Opcode::FAddVE => 6,
            Opcode::FAddEC => 7,
            Opcode::FAddEV => 8,
            Opcode::FAddEE => 9,
            Opcode::FAddAssignE => 10,
            Opcode::FSubVC => 11,
            Opcode::FSubVV => 12,
            Opcode::FSubVE => 13,
            Opcode::FSubEC => 14,
            Opcode::FSubEV => 15,
            Opcode::FSubEE => 16,
            Opcode::FSubAssignE => 17,
            Opcode::FMulVC => 18,
            Opcode::FMulVV => 19,
            Opcode::FMulVE => 20,
            Opcode::FMulEC => 21,
            Opcode::FMulEV => 22,
            Opcode::FMulEE => 23,
            Opcode::FMulAssignE => 24,
            Opcode::FNegE => 25,
            Opcode::EAssignC => 26,
            Opcode::EAssignV => 27,
            Opcode::EAssignE => 28,
            Opcode::EAddVC => 29,
            Opcode::EAddVV => 30,
            Opcode::EAddVE => 31,
            Opcode::EAddEC => 32,
            Opcode::EAddEV => 33,
            Opcode::EAddEE => 34,
            Opcode::EAddAssignE => 35,
            Opcode::ESubVC => 36,
            Opcode::ESubVV => 37,
            Opcode::ESubVE => 38,
            Opcode::ESubEC => 39,
            Opcode::ESubEV => 40,
            Opcode::ESubEE => 41,
            Opcode::ESubAssignE => 42,
            Opcode::EMulVC => 43,
            Opcode::EMulVV => 44,
            Opcode::EMulVE => 45,
            Opcode::EMulEC => 46,
            Opcode::EMulEV => 47,
            Opcode::EMulEE => 48,
            Opcode::EMulAssignE => 49,
            Opcode::ENegE => 50,
            Opcode::EFFromE => 51,
            Opcode::EFAddEE => 52,
            Opcode::EFAddAssignE => 53,
            Opcode::EFSubEE => 54,
            Opcode::EFSubAssignE => 55,
            Opcode::EFMulEE => 56,
            Opcode::EFMulAssignE => 57,
            Opcode::EFAsBaseSlice => 58,
            Opcode::FAssertZero => 59,
            Opcode::EAssertZero => 60,
        }
    }

    /// Decodes an opcode byte; bytes that name no operation are rejected.
    pub fn from_code(value: u8) -> (r: Option<Opcode>)
        ensures
            r is Some <==> value <= MAX_OPCODE,
            r matches Some(op) ==> op.spec_code() == value,
    {
        match value {
            0 => Some(Opcode::Empty),
            1 => Some(Opcode::FAssignC),
            2 => Some(Opcode::FAssignV),
            3 => Some(Opcode::FAssignE),
            4 => Some(Opcode::FAddVC),
            5 => Some(Opcode::FAddVV),
            6 => Some(Opcode::FAddVE),
            7 => Some(Opcode::FAddEC),
            8 => Some(Opcode::FAddEV),
            9 => Some(Opcode::FAddEE),
            10 => Some(Opcode::FAddAssignE),
            11 => Some(Opcode::FSubVC),
            12 => Some(Opcode::FSubVV),
            13 => Some(Opcode::FSubVE),
            14 => Some(Opcode::FSubEC),
            15 => Some(Opcode::FSubEV),
            16 => Some(Opcode::FSubEE),
            17 => Some(Opcode::FSubAssignE),
            18 => Some(Opcode::FMulVC),
            19 => Some(Opcode::FMulVV),
            20 => Some(Opcode::FMulVE),
            21 => Some(Opcode::FMulEC),
            22 => Some(Opcode::FMulEV),
            23 => Some(Opcode::FMulEE),
            24 => Some(Opcode::FMulAssignE),
            25 => Some(Opcode::FNegE),
            26 => Some(Opcode::EAssignC),
            27 => Some(Opcode::EAssignV),
            28 => Some(Opcode::EAssignE),
            29 => Some(Opcode::EAddVC),
            30 => Some(Opcode::EAddVV),
            31 => Some(Opcode::EAddVE),
            32 => Some(Opcode::EAddEC),
            33 => Some(Opcode::EAddEV),
            34 => Some(Opcode::EAddEE),
            35 => Some(Opcode::EAddAssignE),
            36 => Some(Opcode::ESubVC),
            37 => Some(Opcode::ESubVV),
            38 => Some(Opcode::ESubVE),
            39 => Some(Opcode::ESubEC),
            40 => Some(Opcode::ESubEV),
            41 => Some(Opcode::ESubEE),
            42 => Some(Opcode::ESubAssignE),
            43 => Some(Opcode::EMulVC),
            44 => Some(Opcode::EMulVV),
            45 => Some(Opcode::EMulVE),
            46 => Some(Opcode::EMulEC),
            47 => Some(Opcode::EMulEV),
            48 => Some(Opcode::EMulEE),
            49 => Some(Opcode::EMulAssignE),
            50 => Some(Opcode::ENegE),
            51 => Some(Opcode::EFFromE),
            52 => Some(Opcode::EFAddEE),
            53 => Some(Opcode::EFAddAssignE),
            54 => Some(Opcode::EFSubEE),
            55 => Some(Opcode::EFSubAssignE),
            56 => Some(Opcode::EFMulEE),
            57 => Some(Opcode::EFMulAssignE),
            58 => Some(Opcode::EFAsBaseSlice),
            59 => Some(Opcode::FAssertZero),
            60 => Some(Opcode::EAssertZero),
            _ => None,
        }
    }

    /// Slot `a` holds a base-domain register.
    pub fn is_f_assign(&self) -> (r: bool)
        ensures
            r == f_slot_a(self.spec_code()),
    {
        let value = self.code();
        (1 <= value && value < 26) || value == 59
    }

    /// Slot `a` holds an extension-domain register.
    pub fn is_e_assign(&self) -> (r: bool)
        ensures
            r == e_slot_a(self.spec_code()),
    {
        let value = self.code();
        (26 <= value && value < 59) || value == 60
    }

    /// Slot `b` reads a base-domain register.
    pub fn is_f_arg1(&self) -> (r: bool)
        ensures
            r == f_slot_b(self.spec_code()),
    {
        matches!(
            self,
                Opcode::FAssignE
                | Opcode::FAddEC
                | Opcode::FAddEV
                | Opcode::FAddEE
                | Opcode::FAddAssignE
                | Opcode::FSubEC
                | Opcode::FSubEV
                | Opcode::FSubEE
                | Opcode::FSubAssignE
                | Opcode::FMulEC
                | Opcode::FMulEV
                | Opcode::FMulEE
                | Opcode::FMulAssignE
                | Opcode::FNegE
                | Opcode::EFFromE
                | Opcode::EFAddAssignE
                | Opcode::EFSubAssignE
                | Opcode::EFMulAssignE
        )
    }

    /// Slot `c` reads a base-domain register.
    pub fn is_f_arg2(&self) -> (r: bool)
        ensures
            r == f_slot_c(self.spec_code()),
    {
        matches!(
            self,
                Opcode::FAddVE
                | Opcode::FAddEE
                | Opcode::FSubVE
                | Opcode::FSubEE
                | Opcode::FMulVE
                | Opcode::FMulEE
                | Opcode::EFAddEE
                | Opcode::EFSubEE
                | Opcode::EFMulEE
        )
    }

    /// Slot `b` reads an extension-domain register.
    pub fn is_e_arg1(&self) -> (r: bool)
        ensures
            r == e_slot_b(self.spec_code()),
    {
        matches!(
            self,
                Opcode::EAssignE
                | Opcode::EAddEC
                | Opcode::EAddEV
                | Opcode::EAddEE
                | Opcode::EAddAssignE
                | Opcode::ESubEC
                | Opcode::ESubEV
                | Opcode::ESubEE
                | Opcode::ESubAssignE
                | Opcode::EMulEC
                | Opcode::EMulEV
                | Opcode::EMulEE
                | Opcode::EMulAssignE
                | Opcode::ENegE
                | Opcode::EFAddEE
                | Opcode::EFSubEE
                | Opcode::EFMulEE
        )
    }

    /// Slot `c` reads an extension-domain register.
    pub fn is_e_arg2(&self) -> (r: bool)
        ensures
            r == e_slot_c(self.spec_code()),
    {
        matches!(
            self,
                Opcode::EAddVE
                | Opcode::EAddEE
                | Opcode::ESubVE
                | Opcode::ESubEE
                | Opcode::EMulVE
                | Opcode::EMulEE
        )
    }

}

impl Instruction32 {
    pub open spec fn spec_f_assign_c(a: SymbolicExprF, b: u32) -> Instruction32 {
        Instruction32 { opcode: 1, b_variant: 0, c_variant: 0, a: a.data(), b: b, c: 0 }
    }

    /// The `FAssignC` instruction. `b` is an index into the base constant pool.
    #[verifier::when_used_as_spec(spec_f_assign_c)]
    pub fn f_assign_c(a: SymbolicExprF, b: u32) -> (r: Instruction32)
        ensures
            r == Instruction32::spec_f_assign_c(a, b),
    {
        Instruction32 {
            opcode: 1,
            b_variant: 0,
            c_variant: 0,
            a: a.data(),
            b,
            c: 0,
        }
    }

    pub open spec fn spec_f_assign_v(a: SymbolicExprF, b: SymbolicVarF) -> Instruction32 {
        Instruction32 {
            opcode: 2,
            b_variant: b.variant(),
            c_variant: 0,
            a: a.data(),
            b: b.data(),
            c: 0,
        }
    }

    /// The `FAssignV` instruction.
    #[verifier::when_used_as_spec(spec_f_assign_v)]
    pub fn f_assign_v(a: SymbolicExprF, b: SymbolicVarF) -> (r: Instruction32)
        ensures
            r == Instruction32::spec_f_assign_v(a, b),
    {
        Instruction32 {
            opcode: 2,
            b_variant: b.variant(),
            c_variant: 0,
            a: a.data(),
            b: b.data(),
            c: 0,
        }
    }

    pub open spec fn spec_f_assign_e(a: SymbolicExprF, b: SymbolicExprF) -> Instruction32 {
        Instruction32 {
            opcode: 3,
            b_variant: b.variant(),
            c_variant: 0,
            a: a.data(),
            b: b.data(),
            c: 0,
        }
    }

    /// The `FAssignE` instruction.
    #[verifier::when_used_as_spec(spec_f_assign_e)]
    pub fn f_assign_e(a: SymbolicExprF, b: SymbolicExprF) -> (r: Instruction32)
        ensures
            r == Instruction32::spec_f_assign_e(a, b),
    {
        Instruction32 {
            opcode: 3,
            b_variant: b.variant(),
            c_variant: 0,
            a: a.data(),
            b: b.data(),
            c: 0,
        }
    }

    pub open spec fn spec_f_add_vc(a: SymbolicExprF, b: SymbolicVarF, c: u32) -> Instruction32 {
        Instruction32 {
            opcode: 4,
            b_variant: b.variant(),
            c_variant: 0,
            a: a.data(),
            b: b.data(),
            c,
        }
    }

    /// The `FAddVC` instruction. `c` is an index into the base constant pool.
    #[verifier::when_used_as_spec(spec_f_add_vc)]
    pub fn f_add_vc(a: SymbolicExprF, b: SymbolicVarF, c: u32) -> (r: Instruction32)
        ensures
            r == Instruction32::spec_f_add_vc(a, b, c),
    {
        Instruction32 {
            opcode: 4,
            b_variant: b.variant(),
            c_variant: 0,
            a: a.data(),
            b: b.data(),
            c,
        }
    }

    pub open spec fn spec_f_add_vv(
        a: SymbolicExprF,
        b: SymbolicVarF,
        c: SymbolicVarF,
    ) -> Instruction32 {
        Instruction32 {
            opcode: 5,
            b_variant: b.variant(),
            c_variant: c.variant(),
            a: a.data(),
            b: b.data(),
            c: c.data(),
        }
    }

    /// The `FAddVV` instruction.
    #[verifier::when_used_as_spec(spec_f_add_vv)]
    pub fn f_add_vv(a: SymbolicExprF, b: SymbolicVarF, c: SymbolicVarF) -> (r: Instruction32)
        ensures
            r == Instruction32::spec_f_add_vv(a, b, c),
    {
        Instruction32 {
            opcode: 5,
            b_variant: b.variant(),
            c_variant: c.variant(),
            a: a.data(),
            b: b.data(),
            c: c.data(),
        }
    }

    pub open spec fn spec_f_add_ve(
        a: SymbolicExprF,
        b: SymbolicVarF,
        c: SymbolicExprF,
    ) -> Instruction32 {
        Instruction32 {
            opcode: 6,
            b_variant: b.variant(),
            c_variant: c.variant(),
            a: a.data(),
            b: b.data(),
            c: c.data(),
        }
    }

    /// The `FAddVE` instruction.
    #[verifier::when_used_as_spec(spec_f_add_ve)]
    pub fn f_add_ve(a: SymbolicExprF, b: SymbolicVarF, c: SymbolicExprF) -> (r: Instruction32)
        ensures
            r == Instruction32::spec_f_add_ve(a, b, c),
    {
        Instruction32 {
            opcode: 6,
            b_variant: b.variant(),
            c_variant: c.variant(),
            a: a.data(),
            b: b.data(),
            c: c.data(),
        }
    }

    pub open spec fn spec_f_add_ec(a: SymbolicExprF, b: SymbolicExprF, c: u32) -> Instruction32 {
        Instruction32 {
            opcode: 7,
            b_variant: b.variant(),
            c_variant: 0,
            a: a.data(),
            b: b.data(),
            c,
        }
    }

    /// The `FAddEC` instruction. `c` is an index into the base constant pool.
    #[verifier::when_used_as_spec(spec_f_add_ec)]
    pub fn f_add_ec(a: SymbolicExprF, b: SymbolicExprF, c: u32) -> (r: Instruction32)
        ensures
            r == Instruction32::spec_f_add_ec(a, b, c),
    {
        Instruction32 {
            opcode: 7,
            b_variant: b.variant(),
            c_variant: 0,
            a: a.data(),
            b: b.data(),
            c,
        }
    }

    pub open spec fn spec_f_add_ev(
        a: SymbolicExprF,
        b: SymbolicExprF,
        c: SymbolicVarF,
    ) -> Instruction32 {
        Instruction32 {
            opcode: 8,
            b_variant: b.variant(),
            c_variant: c.variant(),
            a: a.data(),
            b: b.data(),
            c: c.data(),
        }
    }

    /// The `FAddEV` instruction.
    #[verifier::when_used_as_spec(spec_f_add_ev)]
    pub fn f_add_ev(a: SymbolicExprF, b: SymbolicExprF, c: SymbolicVarF) -> (r: Instruction32)
        ensures
            r == Instruction32::spec_f_add_ev(a, b, c),
    {
        Instruction32 {
            opcode: 8,
            b_variant: b.variant(),
            c_variant: c.variant(),
            a: a.data(),
            b: b.data(),
            c: c.data(),
        }
    }

    pub open spec fn spec_f_add_ee(
        a: SymbolicExprF,
        b: SymbolicExprF,
        c: SymbolicExprF,
    ) -> Instruction32 {
        Instruction32 {
            opcode: 9,
            b_variant: b.variant(),
            c_variant: c.variant(),
            a: a.data(),
            b: b.data(),
            c: c.data(),
        }
    }

    /// The `FAddEE` instruction.
    #[verifier::when_used_as_spec(spec_f_add_ee)]
    pub fn f_add_ee(a: SymbolicExprF, b: SymbolicExprF, c: SymbolicExprF) -> (r: Instruction32)
        ensures
            r == Instruction32::spec_f_add_ee(a, b, c),
    {
        Instruction32 {
            opcode: 9,
            b_variant: b.variant(),
            c_variant: c.variant(),
            a: a.data(),
            b: b.data(),
            c: c.data(),
        }
    }

    pub open spec fn spec_f_add_assign_e(a: SymbolicExprF, b: SymbolicExprF) -> Instruction32 {
        Instruction32 {
            opcode: 10,
            b_variant: b.variant(),
            c_variant: 0,
            a: a.data(),
            b: b.data(),
            c: 0,
        }
    }

    /// The `FAddAssignE` instruction.
    #[verifier::when_used_as_spec(spec_f_add_assign_e)]
    pub fn f_add_assign_e(a: SymbolicExprF, b: SymbolicExprF) -> (r: Instruction32)
        ensures
            r == Instruction32::spec_f_add_assign_e(a, b),
    {
        Instruction32 {
            opcode: 10,
            b_variant: b.variant(),
            c_variant: 0,
            a: a.data(),
            b: b.data(),
            c: 0,
        }
    }

    pub open spec fn spec_f_sub_vc(a: SymbolicExprF, b: SymbolicVarF, c: u32) -> Instruction32 {
        Instruction32 {
            opcode: 11,
            b_variant: b.variant(),
            c_variant: 0,
            a: a.data(),
            b: b.data(),
            c,
        }
    }

    /// The `FSubVC` instruction. `c` is an index into the base constant pool.
    #[verifier::when_used_as_spec(spec_f_sub_vc)]
    pub fn f_sub_vc(a: SymbolicExprF, b: SymbolicVarF, c: u32) -> (r: Instruction32)
        ensures
            r == Instruction32::spec_f_sub_vc(a, b, c),
    {
        Instruction32 {
            opcode: 11,
            b_variant: b.variant(),
            c_variant: 0,
            a: a.data(),
            b: b.data(),
            c,
        }
    }

    pub open spec fn spec_f_sub_vv(
        a: SymbolicExprF,
        b: SymbolicVarF,
        c: SymbolicVarF,
    ) -> Instruction32 {
        Instruction32 {
            opcode: 12,
            b_variant: b.variant(),
            c_variant: c.variant(),
            a: a.data(),
            b: b.data(),
            c: c.data(),
        }
    }

    /// The `FSubVV` instruction.
    #[verifier::when_used_as_spec(spec_f_sub_vv)]
    pub fn f_sub_vv(a: SymbolicExprF, b: SymbolicVarF, c: SymbolicVarF) -> (r: Instruction32)
        ensures
            r == Instruction32::spec_f_sub_vv(a, b, c),
    {
        Instruction32 {
            opcode: 12,
            b_variant: b.variant(),
            c_variant: c.variant(),
            a: a.data(),
            b: b.data(),
            c: c.data(),
        }
    }

    pub open spec fn spec_f_sub_ve(
        a: SymbolicExprF,
        b: SymbolicVarF,
        c: SymbolicExprF,
    ) -> Instruction32 {
        Instruction32 {
            opcode: 13,
            b_variant: b.variant(),
            c_variant: c.variant(),
            a: a.data(),
            b: b.data(),
            c: c.data(),
        }
    }

    /// The `FSubVE` instruction.
    #[verifier::when_used_as_spec(spec_f_sub_ve)]
    pub fn f_sub_ve(a: SymbolicExprF, b: SymbolicVarF, c: SymbolicExprF) -> (r: Instruction32)
        ensures
            r == Instruction32::spec_f_sub_ve(a, b, c),
    {
        Instruction32 {
            opcode: 13,
            b_variant: b.variant(),
            c_variant: c.variant(),
            a: a.data(),
            b: b.data(),
            c: c.data(),
        }
    }

    pub open spec fn spec_f_sub_ec(a: SymbolicExprF, b: SymbolicExprF, c: u32) -> Instruction32 {
        Instruction32 {
            opcode: 14,
            b_variant: b.variant(),
            c_variant: 0,
            a: a.data(),
            b: b.data(),
            c,
        }
    }

    /// The `FSubEC` instruction. `c` is an index into the base constant pool.
    #[verifier::when_used_as_spec(spec_f_sub_ec)]
    pub fn f_sub_ec(a: SymbolicExprF, b: SymbolicExprF, c: u32) -> (r: Instruction32)
        ensures
            r == Instruction32::spec_f_sub_ec(a, b, c),
    {
        Instruction32 {
            opcode: 14,
            b_variant: b.variant(),
            c_variant: 0,
            a: a.data(),
            b: b.data(),
            c,
        }
    }

    pub open spec fn spec_f_sub_ev(
        a: SymbolicExprF,
        b: SymbolicExprF,
        c: SymbolicVarF,
    ) -> Instruction32 {
        Instruction32 {
            opcode: 15,
            b_variant: b.variant(),
            c_variant: c.variant(),
            a: a.data(),
            b: b.data(),
            c: c.data(),
        }
    }

    /// The `FSubEV` instruction.
    #[verifier::when_used_as_spec(spec_f_sub_ev)]
    pub fn f_sub_ev(a: SymbolicExprF, b: SymbolicExprF, c: SymbolicVarF) -> (r: Instruction32)
        ensures
            r == Instruction32::spec_f_sub_ev(a, b, c),
    {
        Instruction32 {
            opcode: 15,
            b_variant: b.variant(),
            c_variant: c.variant(),
            a: a.data(),
            b: b.data(),
            c: c.data(),
        }
    }

    pub open spec fn spec_f_sub_ee(
        a: SymbolicExprF,
        b: SymbolicExprF,
        c: SymbolicExprF,
    ) -> Instruction32 {
        Instruction32 {
            opcode: 16,
            b_variant: b.variant(),
            c_variant: c.variant(),
            a: a.data(),
            b: b.data(),
            c: c.data(),
        }
    }

    /// The `FSubEE` instruction.
    #[verifier::when_used_as_spec(spec_f_sub_ee)]
    pub fn f_sub_ee(a: SymbolicExprF, b: SymbolicExprF, c: SymbolicExprF) -> (r: Instruction32)
        ensures
            r == Instruction32::spec_f_sub_ee(a, b, c),
    {
        Instruction32 {
            opcode: 16,
            b_variant: b.variant(),
            c_variant: c.variant(),
            a: a.data(),
            b: b.data(),
            c: c.data(),
        }
    }

    pub open spec fn spec_f_sub_assign_e(a: SymbolicExprF, b: SymbolicExprF) -> Instruction32 {
        Instruction32 {
            opcode: 17,
            b_variant: b.variant(),
            c_variant: 0,
            a: a.data(),
            b: b.data(),
            c: 0,
        }
    }

    /// The `FSubAssignE` instruction.
    #[verifier::when_used_as_spec(spec_f_sub_assign_e)]
    pub fn f_sub_assign_e(a: SymbolicExprF, b: SymbolicExprF) -> (r: Instruction32)
        ensures
            r == Instruction32::spec_f_sub_assign_e(a, b),
    {
        Instruction32 {
            opcode: 17,
            b_variant: b.variant(),
            c_variant: 0,
            a: a.data(),
            b: b.data(),
            c: 0,
        }
    }

    pub open spec fn spec_f_mul_vc(a: SymbolicExprF, b: SymbolicVarF, c: u32) -> Instruction32 {
        Instruction32 {
            opcode: 18,
            b_variant: b.variant(),
            c_variant: 0,
            a: a.data(),
            b: b.data(),
            c,
        }
    }

    /// The `FMulVC` instruction. `c` is an index into the base constant pool.
    #[verifier::when_used_as_spec(spec_f_mul_vc)]
    pub fn f_mul_vc(a: SymbolicExprF, b: SymbolicVarF, c: u32) -> (r: Instruction32)
        ensures
            r == Instruction32::spec_f_mul_vc(a, b, c),
    {
        Instruction32 {
            opcode: 18,
            b_variant: b.variant(),
            c_variant: 0,
            a: a.data(),
            b: b.data(),
            c,
        }
    }

    pub open spec fn spec_f_mul_vv(
        a: SymbolicExprF,
        b: SymbolicVarF,
        c: SymbolicVarF,
    ) -> Instruction32 {
        Instruction32 {
            opcode: 19,
            b_variant: b.variant(),
            c_variant: c.variant(),
            a: a.data(),
            b: b.data(),
            c: c.data(),
        }
    }

    /// The `FMulVV` instruction.
    #[verifier::when_used_as_spec(spec_f_mul_vv)]
    pub fn f_mul_vv(a: SymbolicExprF, b: SymbolicVarF, c: SymbolicVarF) -> (r: Instruction32)
        ensures
            r == Instruction32::spec_f_mul_vv(a, b, c),
    {
        Instruction32 {
            opcode: 19,
            b_variant: b.variant(),
            c_variant: c.variant(),
            a: a.data(),
            b: b.data(),
            c: c.data(),
        }
    }

    pub open spec fn spec_f_mul_ve(
        a: SymbolicExprF,
        b: SymbolicVarF,
        c: SymbolicExprF,
    ) -> Instruction32 {
        Instruction32 {
            opcode: 20,
            b_variant: b.variant(),
            c_variant: c.variant(),
            a: a.data(),
            b: b.data(),
            c: c.data(),
        }
    }

    /// The `FMulVE` instruction.
    #[verifier::when_used_as_spec(spec_f_mul_ve)]
    pub fn f_mul_ve(a: SymbolicExprF, b: SymbolicVarF, c: SymbolicExprF) -> (r: Instruction32)
        ensures
            r == Instruction32::spec_f_mul_ve(a, b, c),
    {
        Instruction32 {
            opcode: 20,
            b_variant: b.variant(),
            c_variant: c.variant(),
            a: a.data(),
            b: b.data(),
            c: c.data(),
        }
    }

    pub open spec fn spec_f_mul_ec(a: SymbolicExprF, b: SymbolicExprF, c: u32) -> Instruction32 {
        Instruction32 {
            opcode: 21,
            b_variant: b.variant(),
            c_variant: 0,
            a: a.data(),
            b: b.data(),
            c,
        }
    }

    /// The `FMulEC` instruction. `c` is an index into the base constant pool.
    #[verifier::when_used_as_spec(spec_f_mul_ec)]
    pub fn f_mul_ec(a: SymbolicExprF, b: SymbolicExprF, c: u32) -> (r: Instruction32)
        ensures
            r == Instruction32::spec_f_mul_ec(a, b, c),
    {
        Instruction32 {
            opcode: 21,
            b_variant: b.variant(),
            c_variant: 0,
            a: a.data(),
            b: b.data(),
            c,
        }
    }

    pub open spec fn spec_f_mul_ev(
        a: SymbolicExprF,
        b: SymbolicExprF,
        c: SymbolicVarF,
    ) -> Instruction32 {
        Instruction32 {
            opcode: 22,
            b_variant: b.variant(),
            c_variant: c.variant(),
            a: a.data(),
            b: b.data(),
            c: c.data(),
        }
    }

    /// The `FMulEV` instruction.
    #[verifier::when_used_as_spec(spec_f_mul_ev)]
    pub fn f_mul_ev(a: SymbolicExprF, b: SymbolicExprF, c: SymbolicVarF) -> (r: Instruction32)
        ensures
            r == Instruction32::spec_f_mul_ev(a, b, c),
    {
        Instruction32 {
            opcode: 22,
            b_variant: b.variant(),
            c_variant: c.variant(),
            a: a.data(),
            b: b.data(),
            c: c.data(),
        }
    }

    pub open spec fn spec_f_mul_ee(
        a: SymbolicExprF,
        b: SymbolicExprF,
        c: SymbolicExprF,
    ) -> Instruction32 {
        Instruction32 {
            opcode: 23,
            b_variant: b.variant(),
            c_variant: c.variant(),
            a: a.data(),
            b: b.data(),
            c: c.data(),
        }
    }

    /// The `FMulEE` instruction.
    #[verifier::when_used_as_spec(spec_f_mul_ee)]
    pub fn f_mul_ee(a: SymbolicExprF, b: SymbolicExprF, c: SymbolicExprF) -> (r: Instruction32)
        ensures
            r == Instruction32::spec_f_mul_ee(a, b, c),
    {
        Instruction32 {
            opcode: 23,
            b_variant: b.variant(),
            c_variant: c.variant(),
            a: a.data(),
            b: b.data(),
            c: c.data(),
        }
    }

    pub open spec fn spec_f_mul_assign_e(a: SymbolicExprF, b: SymbolicExprF) -> Instruction32 {
        Instruction32 {
            opcode: 24,
            b_variant: b.variant(),
            c_variant: 0,
            a: a.data(),
            b: b.data(),
            c: 0,
        }
    }

    /// The `FMulAssignE` instruction.
    #[verifier::when_used_as_spec(spec_f_mul_assign_e)]
    pub fn f_mul_assign_e(a: SymbolicExprF, b: SymbolicExprF) -> (r: Instruction32)
        ensures
            r == Instruction32::spec_f_mul_assign_e(a, b),
    {
        Instruction32 {
            opcode: 24,
            b_variant: b.variant(),
            c_variant: 0,
            a: a.data(),
            b: b.data(),
            c: 0,
        }
    }

    pub open spec fn spec_f_neg_e(a: SymbolicExprF, b: SymbolicExprF) -> Instruction32 {
        Instruction32 {
            opcode: 25,
            b_variant: b.variant(),
            c_variant: 0,
            a: a.data(),
            b: b.data(),
            c: 0,
        }
    }

    /// The `FNegE` instruction.
    #[verifier::when_used_as_spec(spec_f_neg_e)]
    pub fn f_neg_e(a: SymbolicExprF, b: SymbolicExprF) -> (r: Instruction32)
        ensures
            r == Instruction32::spec_f_neg_e(a, b),
    {
        Instruction32 {
            opcode: 25,
            b_variant: b.variant(),
            c_variant: 0,
            a: a.data(),
            b: b.data(),
            c: 0,
        }
    }

    pub open spec fn spec_e_assign_c(a: SymbolicExprEF, b: u32) -> Instruction32 {
        Instruction32 { opcode: 26, b_variant: 0, c_variant: 0, a: a.data(), b: b, c: 0 }
    }

    /// The `EAssignC` instruction. `b` is an index into the extension constant pool.
    #[verifier::when_used_as_spec(spec_e_assign_c)]
    pub fn e_assign_c(a: SymbolicExprEF, b: u32) -> (r: Instruction32)
        ensures
            r == Instruction32::spec_e_assign_c(a, b),
    {
        Instruction32 {
            opcode: 26,
            b_variant: 0,
            c_variant: 0,
            a: a.data(),
            b,
            c: 0,
        }
    }

    pub open spec fn spec_e_assign_v(a: SymbolicExprEF, b: SymbolicVarEF) -> Instruction32 {
        Instruction32 {
            opcode: 27,
            b_variant: b.variant(),
            c_variant: 0,
            a: a.data(),
            b: b.data(),
            c: 0,
        }
    }

    /// The `EAssignV` instruction.
    #[verifier::when_used_as_spec(spec_e_assign_v)]
    pub fn e_assign_v(a: SymbolicExprEF, b: SymbolicVarEF) -> (r: Instruction32)
        ensures
            r == Instruction32::spec_e_assign_v(a, b),
    {
        Instruction32 {
            opcode: 27,
            b_variant: b.variant(),
            c_variant: 0,
            a: a.data(),
            b: b.data(),
            c: 0,
        }
    }

    pub open spec fn spec_e_assign_e(a: SymbolicExprEF, b: SymbolicExprEF) -> Instruction32 {
        Instruction32 {
            opcode: 28,
            b_variant: b.variant(),
            c_variant: 0,
            a: a.data(),
            b: b.data(),
            c: 0,
        }
    }

    /// The `EAssignE` instruction.
    #[verifier::when_used_as_spec(spec_e_assign_e)]
    pub fn e_assign_e(a: SymbolicExprEF, b: SymbolicExprEF) -> (r: Instruction32)
        ensures
            r == Instruction32::spec_e_assign_e(a, b),
    {
        Instruction32 {
            opcode: 28,
            b_variant: b.variant(),
            c_variant: 0,
            a: a.data(),
            b: b.data(),
            c: 0,
        }
    }

    pub open spec fn spec_e_add_vc(a: SymbolicExprEF, b: SymbolicVarEF, c: u32) -> Instruction32 {
        Instruction32 {
            opcode: 29,
            b_variant: b.variant(),
            c_variant: 0,
            a: a.data(),
            b: b.data(),
            c,
        }
    }

    /// The `EAddVC` instruction. `c` is an index into the extension constant pool.
    #[verifier::when_used_as_spec(spec_e_add_vc)]
    pub fn e_add_vc(a: SymbolicExprEF, b: SymbolicVarEF, c: u32) -> (r: Instruction32)
        ensures
            r == Instruction32::spec_e_add_vc(a, b, c),
    {
        Instruction32 {
            opcode: 29,
            b_variant: b.variant(),
            c_variant: 0,
            a: a.data(),
            b: b.data(),
            c,
        }
    }

    pub open spec fn spec_e_add_vv(
        a: SymbolicExprEF,
        b: SymbolicVarEF,
        c: SymbolicVarEF,
    ) -> Instruction32 {
        Instruction32 {
            opcode: 30,
            b_variant: b.variant(),
            c_variant: c.variant(),
            a: a.data(),
            b: b.data(),
            c: c.data(),
        }
    }

    /// The `EAddVV` instruction.
    #[verifier::when_used_as_spec(spec_e_add_vv)]
    pub fn e_add_vv(a: SymbolicExprEF, b: SymbolicVarEF, c: SymbolicVarEF) -> (r: Instruction32)
        ensures
            r == Instruction32::spec_e_add_vv(a, b, c),
    {
        Instruction32 {
            opcode: 30,
            b_variant: b.variant(),
            c_variant: c.variant(),
            a: a.data(),
            b: b.data(),
            c: c.data(),
        }
    }

    pub open spec fn spec_e_add_ve(
        a: SymbolicExprEF,
        b: SymbolicVarEF,
        c: SymbolicExprEF,
    ) -> Instruction32 {
        Instruction32 {
            opcode: 31,
            b_variant: b.variant(),
            c_variant: c.variant(),
            a: a.data(),
            b: b.data(),
            c: c.data(),
        }
    }

    /// The `EAddVE` instruction.
    #[verifier::when_used_as_spec(spec_e_add_ve)]
    pub fn e_add_ve(a: SymbolicExprEF, b: SymbolicVarEF, c: SymbolicExprEF) -> (r: Instruction32)
        ensures
            r == Instruction32::spec_e_add_ve(a, b, c),
    {
        Instruction32 {
            opcode: 31,
            b_variant: b.variant(),
            c_variant: c.variant(),
            a: a.data(),
            b: b.data(),
            c: c.data(),
        }
    }

    pub open spec fn spec_e_add_ec(a: SymbolicExprEF, b: SymbolicExprEF, c: u32) -> Instruction32 {
        Instruction32 {
            opcode: 32,
            b_variant: b.variant(),
            c_variant: 0,
            a: a.data(),
            b: b.data(),
            c,
        }
    }

    /// The `EAddEC` instruction. `c` is an index into the extension constant pool.
    #[verifier::when_used_as_spec(spec_e_add_ec)]
    pub fn e_add_ec(a: SymbolicExprEF, b: SymbolicExprEF, c: u32) -> (r: Instruction32)
        ensures
            r == Instruction32::spec_e_add_ec(a, b, c),
    {
        Instruction32 {
            opcode: 32,
            b_variant: b.variant(),
            c_variant: 0,
            a: a.data(),
            b: b.data(),
            c,
        }
    }

    pub open spec fn spec_e_add_ev(
        a: SymbolicExprEF,
        b: SymbolicExprEF,
        c: SymbolicVarEF,
    ) -> Instruction32 {
        Instruction32 {
            opcode: 33,
            b_variant: b.variant(),
            c_variant: c.variant(),
            a: a.data(),
            b: b.data(),
            c: c.data(),
        }
    }

    /// The `EAddEV` instruction.
    #[verifier::when_used_as_spec(spec_e_add_ev)]
    pub fn e_add_ev(a: SymbolicExprEF, b: SymbolicExprEF, c: SymbolicVarEF) -> (r: Instruction32)
        ensures
            r == Instruction32::spec_e_add_ev(a, b, c),
    {
        Instruction32 {
            opcode: 33,
            b_variant: b.variant(),
            c_variant: c.variant(),
            a: a.data(),
            b: b.data(),
            c: c.data(),
        }
    }

    pub open spec fn spec_e_add_ee(
        a: SymbolicExprEF,
        b: SymbolicExprEF,
        c: SymbolicExprEF,
    ) -> Instruction32 {
        Instruction32 {
            opcode: 34,
            b_variant: b.variant(),
            c_variant: c.variant(),
            a: a.data(),
            b: b.data(),
            c: c.data(),
        }
    }

    /// The `EAddEE` instruction.
    #[verifier::when_used_as_spec(spec_e_add_ee)]
    pub fn e_add_ee(a: SymbolicExprEF, b: SymbolicExprEF, c: SymbolicExprEF) -> (r: Instruction32)
        ensures
            r == Instruction32::spec_e_add_ee(a, b, c),
    {
        Instruction32 {
            opcode: 34,
            b_variant: b.variant(),
            c_variant: c.variant(),
            a: a.data(),
            b: b.data(),
            c: c.data(),
        }
    }

    pub open spec fn spec_e_add_assign_e(a: SymbolicExprEF, b: SymbolicExprEF) -> Instruction32 {
        Instruction32 {
            opcode: 35,
            b_variant: b.variant(),
            c_variant: 0,
            a: a.data(),
            b: b.data(),
            c: 0,
        }
    }

    /// The `EAddAssignE` instruction.
    #[verifier::when_used_as_spec(spec_e_add_assign_e)]
    pub fn e_add_assign_e(a: SymbolicExprEF, b: SymbolicExprEF) -> (r: Instruction32)
        ensures
            r == Instruction32::spec_e_add_assign_e(a, b),
    {
        Instruction32 {
            opcode: 35,
            b_variant: b.variant(),
            c_variant: 0,
            a: a.data(),
            b: b.data(),
            c: 0,
        }
    }

    pub open spec fn spec_e_sub_vc(a: SymbolicExprEF, b: SymbolicVarEF, c: u32) -> Instruction32 {
        Instruction32 {
            opcode: 36,
            b_variant: b.variant(),
            c_variant: 0,
            a: a.data(),
            b: b.data(),
            c,
        }
    }

    /// The `ESubVC` instruction. `c` is an index into the extension constant pool.
    #[verifier::when_used_as_spec(spec_e_sub_vc)]
    pub fn e_sub_vc(a: SymbolicExprEF, b: SymbolicVarEF, c: u32) -> (r: Instruction32)
        ensures
            r == Instruction32::spec_e_sub_vc(a, b, c),
    {
        Instruction32 {
            opcode: 36,
            b_variant: b.variant(),
            c_variant: 0,
            a: a.data(),
            b: b.data(),
            c,
        }
    }

    pub open spec fn spec_e_sub_vv(
        a: SymbolicExprEF,
        b: SymbolicVarEF,
        c: SymbolicVarEF,
    ) -> Instruction32 {
        Instruction32 {
            opcode: 37,
            b_variant: b.variant(),
            c_variant: c.variant(),
            a: a.data(),
            b: b.data(),
            c: c.data(),
        }
    }

    /// The `ESubVV` instruction.
    #[verifier::when_used_as_spec(spec_e_sub_vv)]
    pub fn e_sub_vv(a: SymbolicExprEF, b: SymbolicVarEF, c: SymbolicVarEF) -> (r: Instruction32)
        ensures
            r == Instruction32::spec_e_sub_vv(a, b, c),
    {
        Instruction32 {
            opcode: 37,
            b_variant: b.variant(),
            c_variant: c.variant(),
            a: a.data(),
            b: b.data(),
            c: c.data(),
        }
    }

    pub open spec fn spec_e_sub_ve(
        a: SymbolicExprEF,
        b: SymbolicVarEF,
        c: SymbolicExprEF,
    ) -> Instruction32 {
        Instruction32 {
            opcode: 38,
            b_variant: b.variant(),
            c_variant: c.variant(),
            a: a.data(),
            b: b.data(),
            c: c.data(),
        }
    }

    /// The `ESubVE` instruction.
    #[verifier::when_used_as_spec(spec_e_sub_ve)]
    pub fn e_sub_ve(a: SymbolicExprEF, b: SymbolicVarEF, c: SymbolicExprEF) -> (r: Instruction32)
        ensures
            r == Instruction32::spec_e_sub_ve(a, b, c),
    {
        Instruction32 {
            opcode: 38,
            b_variant: b.variant(),
            c_variant: c.variant(),
            a: a.data(),
            b: b.data(),
            c: c.data(),
        }
    }

    pub open spec fn spec_e_sub_ec(a: SymbolicExprEF, b: SymbolicExprEF, c: u32) -> Instruction32 {
        Instruction32 {
            opcode: 39,
            b_variant: b.variant(),
            c_variant: 0,
            a: a.data(),
            b: b.data(),
            c,
        }
    }

    /// The `ESubEC` instruction. `c` is an index into the extension constant pool.
    #[verifier::when_used_as_spec(spec_e_sub_ec)]
    pub fn e_sub_ec(a: SymbolicExprEF, b: SymbolicExprEF, c: u32) -> (r: Instruction32)
        ensures
            r == Instruction32::spec_e_sub_ec(a, b, c),
    {
        Instruction32 {
            opcode: 39,
            b_variant: b.variant(),
            c_variant: 0,
            a: a.data(),
            b: b.data(),
            c,
        }
    }

    pub open spec fn spec_e_sub_ev(
        a: SymbolicExprEF,
        b: SymbolicExprEF,
        c: SymbolicVarEF,
    ) -> Instruction32 {
        Instruction32 {
            opcode: 40,
            b_variant: b.variant(),
            c_variant: c.variant(),
            a: a.data(),
            b: b.data(),
            c: c.data(),
        }
    }

    /// The `ESubEV` instruction.
    #[verifier::when_used_as_spec(spec_e_sub_ev)]
    pub fn e_sub_ev(a: SymbolicExprEF, b: SymbolicExprEF, c: SymbolicVarEF) -> (r: Instruction32)
        ensures
            r == Instruction32::spec_e_sub_ev(a, b, c),
    {
        Instruction32 {
            opcode: 40,
            b_variant: b.variant(),
            c_variant: c.variant(),
            a: a.data(),
            b: b.data(),
            c: c.data(),
        }
    }

    pub open spec fn spec_e_sub_ee(
        a: SymbolicExprEF,
        b: SymbolicExprEF,
        c: SymbolicExprEF,
    ) -> Instruction32 {
        Instruction32 {
            opcode: 41,
            b_variant: b.variant(),
            c_variant: c.variant(),
            a: a.data(),
            b: b.data(),
            c: c.data(),
        }
    }

    /// The `ESubEE` instruction.
    #[verifier::when_used_as_spec(spec_e_sub_ee)]
    pub fn e_sub_ee(a: SymbolicExprEF, b: SymbolicExprEF, c: SymbolicExprEF) -> (r: Instruction32)
        ensures
            r == Instruction32::spec_e_sub_ee(a, b, c),
    {
        Instruction32 {
            opcode: 41,
            b_variant: b.variant(),
            c_variant: c.variant(),
            a: a.data(),
            b: b.data(),
            c: c.data(),
        }
    }

    pub open spec fn spec_e_sub_assign_e(a: SymbolicExprEF, b: SymbolicExprEF) -> Instruction32 {
        Instruction32 {
            opcode: 42,
            b_variant: b.variant(),
            c_variant: 0,
            a: a.data(),
            b: b.data(),
            c: 0,
        }
    }

    /// The `ESubAssignE` instruction.
    #[verifier::when_used_as_spec(spec_e_sub_assign_e)]
    pub fn e_sub_assign_e(a: SymbolicExprEF, b: SymbolicExprEF) -> (r: Instruction32)
        ensures
            r == Instruction32::spec_e_sub_assign_e(a, b),
    {
        Instruction32 {
            opcode: 42,
            b_variant: b.variant(),
            c_variant: 0,
            a: a.data(),
            b: b.data(),
            c: 0,
        }
    }

    pub open spec fn spec_e_mul_vc(a: SymbolicExprEF, b: SymbolicVarEF, c: u32) -> Instruction32 {
        Instruction32 {
            opcode: 43,
            b_variant: b.variant(),
            c_variant: 0,
            a: a.data(),
            b: b.data(),
            c,
        }
    }

    /// The `EMulVC` instruction. `c` is an index into the extension constant pool.
    #[verifier::when_used_as_spec(spec_e_mul_vc)]
    pub fn e_mul_vc(a: SymbolicExprEF, b: SymbolicVarEF, c: u32) -> (r: Instruction32)
        ensures
            r == Instruction32::spec_e_mul_vc(a, b, c),
    {
        Instruction32 {
            opcode: 43,
            b_variant: b.variant(),
            c_variant: 0,
            a: a.data(),
            b: b.data(),
            c,
        }
    }

    pub open spec fn spec_e_mul_vv(
        a: SymbolicExprEF,
        b: SymbolicVarEF,
        c: SymbolicVarEF,
    ) -> Instruction32 {
        Instruction32 {
            opcode: 44,
            b_variant: b.variant(),
            c_variant: c.variant(),
            a: a.data(),
            b: b.data(),
            c: c.data(),
        }
    }

    /// The `EMulVV` instruction.
    #[verifier::when_used_as_spec(spec_e_mul_vv)]
    pub fn e_mul_vv(a: SymbolicExprEF, b: SymbolicVarEF, c: SymbolicVarEF) -> (r: Instruction32)
        ensures
            r == Instruction32::spec_e_mul_vv(a, b, c),
    {
        Instruction32 {
            opcode: 44,
            b_variant: b.variant(),
            c_variant: c.variant(),
            a: a.data(),
            b: b.data(),
            c: c.data(),
        }
    }

    pub open spec fn spec_e_mul_ve(
        a: SymbolicExprEF,
        b: SymbolicVarEF,
        c: SymbolicExprEF,
    ) -> Instruction32 {
        Instruction32 {
            opcode: 45,
            b_variant: b.variant(),
            c_variant: c.variant(),
            a: a.data(),
            b: b.data(),
            c: c.data(),
        }
    }

    /// The `EMulVE` instruction.
    #[verifier::when_used_as_spec(spec_e_mul_ve)]
    pub fn e_mul_ve(a: SymbolicExprEF, b: SymbolicVarEF, c: SymbolicExprEF) -> (r: Instruction32)
        ensures
            r == Instruction32::spec_e_mul_ve(a, b, c),
    {
        Instruction32 {
            opcode: 45,
            b_variant: b.variant(),
            c_variant: c.variant(),
            a: a.data(),
            b: b.data(),
            c: c.data(),
        }
    }

    pub open spec fn spec_e_mul_ec(a: SymbolicExprEF, b: SymbolicExprEF, c: u32) -> Instruction32 {
        Instruction32 {
            opcode: 46,
            b_variant: b.variant(),
            c_variant: 0,
            a: a.data(),
            b: b.data(),
            c,
        }
    }

    /// The `EMulEC` instruction. `c` is an index into the extension constant pool.
    #[verifier::when_used_as_spec(spec_e_mul_ec)]
    pub fn e_mul_ec(a: SymbolicExprEF, b: SymbolicExprEF, c: u32) -> (r: Instruction32)
        ensures
            r == Instruction32::spec_e_mul_ec(a, b, c),
    {
        Instruction32 {
            opcode: 46,
            b_variant: b.variant(),
            c_variant: 0,
            a: a.data(),
            b: b.data(),
            c,
        }
    }

    pub open spec fn spec_e_mul_ev(
        a: SymbolicExprEF,
        b: SymbolicExprEF,
        c: SymbolicVarEF,
    ) -> Instruction32 {
        Instruction32 {
            opcode: 47,
            b_variant: b.variant(),
            c_variant: c.variant(),
            a: a.data(),
            b: b.data(),
            c: c.data(),
        }
    }

    /// The `EMulEV` instruction.
    #[verifier::when_used_as_spec(spec_e_mul_ev)]
    pub fn e_mul_ev(a: SymbolicExprEF, b: SymbolicExprEF, c: SymbolicVarEF) -> (r: Instruction32)
        ensures
            r == Instruction32::spec_e_mul_ev(a, b, c),
    {
        Instruction32 {
            opcode: 47,
            b_variant: b.variant(),
            c_variant: c.variant(),
            a: a.data(),
            b: b.data(),
            c: c.data(),
        }
    }

    pub open spec fn spec_e_mul_ee(
        a: SymbolicExprEF,
        b: SymbolicExprEF,
        c: SymbolicExprEF,
    ) -> Instruction32 {
        Instruction32 {
            opcode: 48,
            b_variant: b.variant(),
            c_variant: c.variant(),
            a: a.data(),
            b: b.data(),
            c: c.data(),
        }
    }

    /// The `EMulEE` instruction.
    #[verifier::when_used_as_spec(spec_e_mul_ee)]
    pub fn e_mul_ee(a: SymbolicExprEF, b: SymbolicExprEF, c: SymbolicExprEF) -> (r: Instruction32)
        ensures
            r == Instruction32::spec_e_mul_ee(a, b, c),
    {
        Instruction32 {
            opcode: 48,
            b_variant: b.variant(),
            c_variant: c.variant(),
            a: a.data(),
            b: b.data(),
            c: c.data(),
        }
    }

    pub open spec fn spec_e_mul_assign_e(a: SymbolicExprEF, b: SymbolicExprEF) -> Instruction32 {
        Instruction32 {
            opcode: 49,
            b_variant: b.variant(),
            c_variant: 0,
            a: a.data(),
            b: b.data(),
            c: 0,
        }
    }

    /// The `EMulAssignE` instruction.
    #[verifier::when_used_as_spec(spec_e_mul_assign_e)]
    pub fn e_mul_assign_e(a: SymbolicExprEF, b: SymbolicExprEF) -> (r: Instruction32)
        ensures
            r == Instruction32::spec_e_mul_assign_e(a, b),
    {
        Instruction32 {
            opcode: 49,
            b_variant: b.variant(),
            c_variant: 0,
            a: a.data(),
            b: b.data(),
            c: 0,
        }
    }

    pub open spec fn spec_e_neg_e(a: SymbolicExprEF, b: SymbolicExprEF) -> Instruction32 {
        Instruction32 {
            opcode: 50,
            b_variant: b.variant(),
            c_variant: 0,
            a: a.data(),
            b: b.data(),
            c: 0,
        }
    }

    /// The `ENegE` instruction.
    #[verifier::when_used_as_spec(spec_e_neg_e)]
    pub fn e_neg_e(a: SymbolicExprEF, b: SymbolicExprEF) -> (r: Instruction32)
        ensures
            r == Instruction32::spec_e_neg_e(a, b),
    {
        Instruction32 {
            opcode: 50,
            b_variant: b.variant(),
            c_variant: 0,
            a: a.data(),
            b: b.data(),
            c: 0,
        }
    }

    pub open spec fn spec_ef_from_e(a: SymbolicExprEF, b: SymbolicExprF) -> Instruction32 {
        Instruction32 {
            opcode: 51,
            b_variant: b.variant(),
            c_variant: 0,
            a: a.data(),
            b: b.data(),
            c: 0,
        }
    }

    /// The `EFFromE` instruction.
    #[verifier::when_used_as_spec(spec_ef_from_e)]
    pub fn ef_from_e(a: SymbolicExprEF, b: SymbolicExprF) -> (r: Instruction32)
        ensures
            r == Instruction32::spec_ef_from_e(a, b),
    {
        Instruction32 {
            opcode: 51,
            b_variant: b.variant(),
            c_variant: 0,
            a: a.data(),
            b: b.data(),
            c: 0,
        }
    }

    pub open spec fn spec_ef_add_ee(
        a: SymbolicExprEF,
        b: SymbolicExprEF,
        c: SymbolicExprF,
    ) -> Instruction32 {
        Instruction32 {
            opcode: 52,
            b_variant: b.variant(),
            c_variant: c.variant(),
            a: a.data(),
            b: b.data(),
            c: c.data(),
        }
    }

    /// The `EFAddEE` instruction.
    #[verifier::when_used_as_spec(spec_ef_add_ee)]
    pub fn ef_add_ee(a: SymbolicExprEF, b: SymbolicExprEF, c: SymbolicExprF) -> (r: Instruction32)
        ensures
            r == Instruction32::spec_ef_add_ee(a, b, c),
    {
        Instruction32 {
            opcode: 52,
            b_variant: b.variant(),
            c_variant: c.variant(),
            a: a.data(),
            b: b.data(),
            c: c.data(),
        }
    }

    pub open spec fn spec_ef_add_assign_e(a: SymbolicExprEF, b: SymbolicExprF) -> Instruction32 {
        Instruction32 {
            opcode: 53,
            b_variant: b.variant(),
            c_variant: 0,
            a: a.data(),
            b: b.data(),
            c: 0,
        }
    }

    /// The `EFAddAssignE` instruction.
    #[verifier::when_used_as_spec(spec_ef_add_assign_e)]
    pub fn ef_add_assign_e(a: SymbolicExprEF, b: SymbolicExprF) -> (r: Instruction32)
        ensures
            r == Instruction32::spec_ef_add_assign_e(a, b),
    {
        Instruction32 {
            opcode: 53,
            b_variant: b.variant(),
            c_variant: 0,
            a: a.data(),
            b: b.data(),
            c: 0,
        }
    }

    pub open spec fn spec_ef_sub_ee(
        a: SymbolicExprEF,
        b: SymbolicExprEF,
        c: SymbolicExprF,
    ) -> Instruction32 {
        Instruction32 {
            opcode: 54,
            b_variant: b.variant(),
            c_variant: c.variant(),
            a: a.data(),
            b: b.data(),
            c: c.data(),
        }
    }

    /// The `EFSubEE` instruction.
    #[verifier::when_used_as_spec(spec_ef_sub_ee)]
    pub fn ef_sub_ee(a: SymbolicExprEF, b: SymbolicExprEF, c: SymbolicExprF) -> (r: Instruction32)
        ensures
            r == Instruction32::spec_ef_sub_ee(a, b, c),
    {
        Instruction32 {
            opcode: 54,
            b_variant: b.variant(),
            c_variant: c.variant(),
            a: a.data(),
            b: b.data(),
            c: c.data(),
        }
    }

    pub open spec fn spec_ef_sub_assign_e(a: SymbolicExprEF, b: SymbolicExprF) -> Instruction32 {
        Instruction32 {
            opcode: 55,
            b_variant: b.variant(),
            c_variant: 0,
            a: a.data(),
            b: b.data(),
            c: 0,
        }
    }

    /// The `EFSubAssignE` instruction.
    #[verifier::when_used_as_spec(spec_ef_sub_assign_e)]
    pub fn ef_sub_assign_e(a: SymbolicExprEF, b: SymbolicExprF) -> (r: Instruction32)
        ensures
            r == Instruction32::spec_ef_sub_assign_e(a, b),
    {
        Instruction32 {
            opcode: 55,
            b_variant: b.variant(),
            c_variant: 0,
            a: a.data(),
            b: b.data(),
            c: 0,
        }
    }

    pub open spec fn spec_ef_mul_ee(
        a: SymbolicExprEF,
        b: SymbolicExprEF,
        c: SymbolicExprF,
    ) -> Instruction32 {
        Instruction32 {
            opcode: 56,
            b_variant: b.variant(),
            c_variant: c.variant(),
            a: a.data(),
            b: b.data(),
            c: c.data(),
        }
    }

    /// The `EFMulEE` instruction.
    #[verifier::when_used_as_spec(spec_ef_mul_ee)]
    pub fn ef_mul_ee(a: SymbolicExprEF, b: SymbolicExprEF, c: SymbolicExprF) -> (r: Instruction32)
        ensures
            r == Instruction32::spec_ef_mul_ee(a, b, c),
    {
        Instruction32 {
            opcode: 56,
            b_variant: b.variant(),
            c_variant: c.variant(),
            a: a.data(),
            b: b.data(),
            c: c.data(),
        }
    }

    pub open spec fn spec_ef_mul_assign_e(a: SymbolicExprEF, b: SymbolicExprF) -> Instruction32 {
        Instruction32 {
            opcode: 57,
            b_variant: b.variant(),
            c_variant: 0,
            a: a.data(),
            b: b.data(),
            c: 0,
        }
    }

    /// The `EFMulAssignE` instruction.
    #[verifier::when_used_as_spec(spec_ef_mul_assign_e)]
    pub fn ef_mul_assign_e(a: SymbolicExprEF, b: SymbolicExprF) -> (r: Instruction32)
        ensures
            r == Instruction32::spec_ef_mul_assign_e(a, b),
    {
        Instruction32 {
            opcode: 57,
            b_variant: b.variant(),
            c_variant: 0,
            a: a.data(),
            b: b.data(),
            c: 0,
        }
    }

    pub open spec fn spec_f_assert_zero(a: SymbolicExprF) -> Instruction32 {
        Instruction32 { opcode: 59, b_variant: 0, c_variant: 0, a: a.data(), b: 0, c: 0 }
    }

    /// The `FAssertZero` instruction.
    #[verifier::when_used_as_spec(spec_f_assert_zero)]
    pub fn f_assert_zero(a: SymbolicExprF) -> (r: Instruction32)
        ensures
            r == Instruction32::spec_f_assert_zero(a),
    {
        Instruction32 {
            opcode: 59,
            b_variant: 0,
            c_variant: 0,
            a: a.data(),
            b: 0,
            c: 0,
        }
    }

    pub open spec fn spec_e_assert_zero(a: SymbolicExprEF) -> Instruction32 {
        Instruction32 { opcode: 60, b_variant: 0, c_variant: 0, a: a.data(), b: 0, c: 0 }
    }

    /// The `EAssertZero` instruction.
    #[verifier::when_used_as_spec(spec_e_assert_zero)]
    pub fn e_assert_zero(a: SymbolicExprEF) -> (r: Instruction32)
        ensures
            r == Instruction32::spec_e_assert_zero(a),
    {
        Instruction32 {
            opcode: 60,
            b_variant: 0,
            c_variant: 0,
            a: a.data(),
            b: 0,
            c: 0,
        }
    }

}

impl Default for Instruction32 {
    /// The empty instruction.
    fn default() -> (r: Instruction32)
        ensures
            r == (Instruction32 { opcode: 0, b_variant: 0, c_variant: 0, a: 0, b: 0, c: 0 }),
    {
        Instruction32 { opcode: 0, b_variant: 0, c_variant: 0, a: 0, b: 0, c: 0 }
    }
}

} // verus!
