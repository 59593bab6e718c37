//! Base-domain inputs of a circuit.

use vstd::prelude::*;

use crate::pool::{f_constant, pool_after, pool_index};

verus! {

/// A reference to a base-domain value supplied from outside the bytecode, or to an
/// entry of the base constant pool.
#[derive(Debug, Clone, Copy, PartialEq, Eq, Hash, Structural)]
pub enum SymbolicVarF {
    Empty,
    Constant(u32),
    PreprocessedLocal(u32),
    PreprocessedNext(u32),
    MainLocal(u32),
    MainNext(u32),
    IsFirstRow,
    IsLastRow,
    IsTransition,
    PublicValue(u32),
    GlobalCumulativeSum(u32),
}

impl SymbolicVarF {
    pub fn empty() -> (r: Self)
        ensures
            r == SymbolicVarF::Empty,
    {
        SymbolicVarF::Empty
    }

    /// A reference to the base constant `value` (a canonical field encoding), interned
    /// into `pool`.
    pub fn constant(pool: &mut Vec<u32>, value: u32) -> (r: Self)
        requires
            old(pool)@.no_duplicates(),
            old(pool).len() < u32::MAX,
        ensures
            final(pool)@ == pool_after(old(pool)@, value),
            r == SymbolicVarF::Constant(pool_index(old(pool)@, value) as u32),
    {
        let idx = f_constant(pool, value);
        SymbolicVarF::Constant(idx)
    }

    pub fn preprocessed_local(idx: u32) -> (r: Self)
        ensures
            r == SymbolicVarF::PreprocessedLocal(idx),
    {
        SymbolicVarF::PreprocessedLocal(idx)
    }

    pub fn preprocessed_next(idx: u32) -> (r: Self)
        ensures
            r == SymbolicVarF::PreprocessedNext(idx),
    {
        SymbolicVarF::PreprocessedNext(idx)
    }

    pub fn main_local(idx: u32) -> (r: Self)
        ensures
            r == SymbolicVarF::MainLocal(idx),
    {
        SymbolicVarF::MainLocal(idx)
    }

    pub fn main_next(idx: u32) -> (r: Self)
        ensures
            r == SymbolicVarF::MainNext(idx),
    {
        SymbolicVarF::MainNext(idx)
    }

    pub fn is_first_row() -> (r: Self)
        ensures
            r == SymbolicVarF::IsFirstRow,
    {
        SymbolicVarF::IsFirstRow
    }

    pub fn is_last_row() -> (r: Self)
        ensures
            r == SymbolicVarF::IsLastRow,
    {
        SymbolicVarF::IsLastRow
    }

    pub fn is_transition() -> (r: Self)
        ensures
            r == SymbolicVarF::IsTransition,
    {
        SymbolicVarF::IsTransition
    }

    pub fn public_value(idx: u32) -> (r: Self)
        ensures
            r == SymbolicVarF::PublicValue(idx),
    {
        SymbolicVarF::PublicValue(idx)
    }

    pub fn global_cumulative_sum(idx: u32) -> (r: Self)
        ensures
            r == SymbolicVarF::GlobalCumulativeSum(idx),
    {
        SymbolicVarF::GlobalCumulativeSum(idx)
    }

    pub open spec fn spec_variant(&self) -> u8 {
        match self {
            SymbolicVarF::Empty => 0,
            SymbolicVarF::Constant(_) => 1,
            SymbolicVarF::PreprocessedLocal(_) => 2,
            SymbolicVarF::PreprocessedNext(_) => 3,
            SymbolicVarF::MainLocal(_) => 4,
            SymbolicVarF::MainNext(_) => 5,
            SymbolicVarF::IsFirstRow => 6,
            SymbolicVarF::IsLastRow => 7,
            SymbolicVarF::IsTransition => 8,
            SymbolicVarF::PublicValue(_) => 9,
            SymbolicVarF::GlobalCumulativeSum(_) => 10,
        }
    }

    /// The operand-kind tag that an instruction stores for this variable.
    #[verifier::when_used_as_spec(spec_variant)]
    pub fn variant(&self) -> (r: u8)
        ensures
            r == self.spec_variant(),
    {
        match self {
            SymbolicVarF::Empty => 0,
            SymbolicVarF::Constant(_) => 1,
            SymbolicVarF::PreprocessedLocal(_) => 2,
            SymbolicVarF::PreprocessedNext(_) => 3,
            SymbolicVarF::MainLocal(_) => 4,
            SymbolicVarF::MainNext(_) => 5,
            SymbolicVarF::IsFirstRow => 6,
            SymbolicVarF::IsLastRow => 7,
            SymbolicVarF::IsTransition => 8,
            SymbolicVarF::PublicValue(_) => 9,
            SymbolicVarF::GlobalCumulativeSum(_) => 10,
        }
    }

    pub open spec fn spec_data(&self) -> u32 {
        match self {
            SymbolicVarF::Empty => 0,
            SymbolicVarF::Constant(f) => *f,
            SymbolicVarF::PreprocessedLocal(idx) => *idx,
            SymbolicVarF::PreprocessedNext(idx) => *idx,
            SymbolicVarF::MainLocal(idx) => *idx,
            SymbolicVarF::MainNext(idx) => *idx,
            SymbolicVarF::IsFirstRow => 0,
            SymbolicVarF::IsLastRow => 0,
            SymbolicVarF::IsTransition => 0,
            SymbolicVarF::PublicValue(idx) => *idx,
            SymbolicVarF::GlobalCumulativeSum(idx) => *idx,
        }
    }

    /// The operand field that an instruction stores for this variable: its index.
    #[verifier::when_used_as_spec(spec_data)]
    pub fn data(&self) -> (r: u32)
        ensures
            r == self.spec_data(),
    {
        match self {
            SymbolicVarF::Empty => 0,
            SymbolicVarF::Constant(f) => *f,
            SymbolicVarF::PreprocessedLocal(idx) => *idx,
            SymbolicVarF::PreprocessedNext(idx) => *idx,
            SymbolicVarF::MainLocal(idx) => *idx,
            SymbolicVarF::MainNext(idx) => *idx,
            SymbolicVarF::IsFirstRow => 0,
            SymbolicVarF::IsLastRow => 0,
            SymbolicVarF::IsTransition => 0,
            SymbolicVarF::PublicValue(idx) => *idx,
            SymbolicVarF::GlobalCumulativeSum(idx) => *idx,
        }
    }
}

} // verus!
