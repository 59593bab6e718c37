//! Extension-domain values computed by the bytecode.

use vstd::prelude::*;

verus! {

/// An extension-domain value computed by the bytecode: a virtual register id.
#[derive(Debug, Clone, Copy, PartialEq, Eq, Hash, Structural)]
pub struct SymbolicExprEF(pub u32);

impl SymbolicExprEF {
    /// A handle that names no traced value.
    pub fn empty() -> (r: Self)
        ensures
            r.0 == u32::MAX,
    {
        SymbolicExprEF(u32::MAX)
    }

    /// Mints the next id from the extension-domain counter `ctr`.
    pub fn allocate(ctr: &mut u32) -> (r: Self)
        requires
            *old(ctr) < u32::MAX,
        ensures
            r.0 == *old(ctr),
            *final(ctr) == *old(ctr) + 1,
    {
        let id = *ctr;
        *ctr = id + 1;
        SymbolicExprEF(id)
    }

    pub open spec fn spec_variant(&self) -> u8 {
        0
    }

    /// The operand-kind tag of an expression: always the untagged kind.
    #[verifier::when_used_as_spec(spec_variant)]
    pub fn variant(&self) -> (r: u8)
        ensures
            r == self.spec_variant(),
    {
        0
    }

    pub open spec fn spec_data(&self) -> u32 {
        self.0
    }

    /// The operand field of an expression: its register id.
    #[verifier::when_used_as_spec(spec_data)]
    pub fn data(&self) -> (r: u32)
        ensures
            r == self.spec_data(),
    {
        self.0
    }
}

} // verus!
