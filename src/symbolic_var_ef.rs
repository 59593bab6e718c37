//! Extension-domain inputs of a circuit.

use vstd::prelude::*;

verus! {

/// A reference to an extension-domain value supplied from outside the bytecode.
#[derive(Debug, Clone, Copy, PartialEq, Eq, Hash, Structural)]
pub enum SymbolicVarEF {
    Empty,
    PermutationLocal(u32),
    PermutationNext(u32),
    PermutationChallenge(u32),
    CumulativeSum(u32),
}

impl SymbolicVarEF {
    pub fn empty() -> (r: Self)
        ensures
            r == SymbolicVarEF::Empty,
    {
        SymbolicVarEF::Empty
    }

    pub fn permutation_local(idx: u32) -> (r: Self)
        ensures
            r == SymbolicVarEF::PermutationLocal(idx),
    {
        SymbolicVarEF::PermutationLocal(idx)
    }

    pub fn permutation_next(idx: u32) -> (r: Self)
        ensures
            r == SymbolicVarEF::PermutationNext(idx),
    {
        SymbolicVarEF::PermutationNext(idx)
    }

    pub fn permutation_challenge(idx: u32) -> (r: Self)
        ensures
            r == SymbolicVarEF::PermutationChallenge(idx),
    {
        SymbolicVarEF::PermutationChallenge(idx)
    }

    pub fn cumulative_sum(idx: u32) -> (r: Self)
        ensures
            r == SymbolicVarEF::CumulativeSum(idx),
    {
        SymbolicVarEF::CumulativeSum(idx)
    }

    pub open spec fn spec_variant(&self) -> u8 {
        match self {
            SymbolicVarEF::Empty => 0,
            SymbolicVarEF::PermutationLocal(_) => 1,
            SymbolicVarEF::PermutationNext(_) => 2,
            SymbolicVarEF::PermutationChallenge(_) => 3,
            SymbolicVarEF::CumulativeSum(_) => 4,
        }
    }

    /// The operand-kind tag that an instruction stores for this variable.
    #[verifier::when_used_as_spec(spec_variant)]
    pub fn variant(&self) -> (r: u8)
        ensures
            r == self.spec_variant(),
    {
        match self {
            SymbolicVarEF::Empty => 0,
            SymbolicVarEF::PermutationLocal(_) => 1,
            SymbolicVarEF::PermutationNext(_) => 2,
            SymbolicVarEF::PermutationChallenge(_) => 3,
            SymbolicVarEF::CumulativeSum(_) => 4,
        }
    }

    pub open spec fn spec_data(&self) -> u32 {
        match self {
            SymbolicVarEF::Empty => 0,
            SymbolicVarEF::PermutationLocal(idx) => *idx,
            SymbolicVarEF::PermutationNext(idx) => *idx,
            SymbolicVarEF::PermutationChallenge(idx) => *idx,
            SymbolicVarEF::CumulativeSum(idx) => *idx,
        }
    }

    /// The operand field that an instruction stores for this variable: its index.
    #[verifier::when_used_as_spec(spec_data)]
    pub fn data(&self) -> (r: u32)
        ensures
            r == self.spec_data(),
    {
        match self {
            SymbolicVarEF::Empty => 0,
            SymbolicVarEF::PermutationLocal(idx) => *idx,
            SymbolicVarEF::PermutationNext(idx) => *idx,
            SymbolicVarEF::PermutationChallenge(idx) => *idx,
            SymbolicVarEF::CumulativeSum(idx) => *idx,
        }
    }
}

} // verus!
