//! One domain's physical register file: first-fit slot assignment and release.

use std::collections::HashMap;

use vstd::prelude::*;

verus! {

broadcast use vstd::std_specs::hash::group_hash_axioms;

/// The largest register file that 16-bit operands can address.
pub const MAX_BANK: usize = 65536;

/// One domain's physical register file during allocation: which slots are taken, the slot of
/// each virtual register that holds one, and the highest slot handed out so far.
pub struct Bank {
    pub used: Vec<bool>,
    pub map: HashMap<u32, u32>,
    pub max: usize,
}

/// The occupancy `used` and the map `map` agree: virtual register 0 sits in slot 0, every
/// mapped register has a distinct taken slot, and every taken slot belongs to a register.
pub open spec fn bank_ok(used: Seq<bool>, map: Map<u32, u32>) -> bool {
    &&& 1 <= used.len() <= MAX_BANK
    &&& used[0]
    &&& map.contains_key(0) && map[0] == 0
    &&& forall|x: u32| #[trigger]
        map.contains_key(x) ==> map[x] < used.len() && used[map[x] as int]
    &&& forall|x: u32, y: u32|
        #[trigger] map.contains_key(x) && #[trigger] map.contains_key(y) && x != y ==> map[x]
            != map[y]
    &&& forall|p: int|
        0 <= p < used.len() && #[trigger] used[p] ==> exists|x: u32| #[trigger]
            map.contains_key(x) && map[x] == p
}

impl Bank {
    /// `new` follows `old` by resolving `vreg` to `r`: its slot when it holds one; else the
    /// lowest free slot, which it then holds; else `None`, when every slot is taken.
    pub open spec fn resolves(old: Bank, new: Bank, vreg: u32, r: Option<u32>) -> bool {
        &&& new.used@.len() == old.used@.len()
        &&& old.map@.contains_key(vreg) ==> {
            &&& r == Some(old.map@[vreg])
            &&& new.used@ == old.used@
            &&& new.map@ == old.map@
            &&& new.max == old.max
        }
        &&& !old.map@.contains_key(vreg) ==> match r {
            Some(p) => {
                &&& p < old.used@.len()
                &&& !old.used@[p as int]
                &&& forall|q: int| 0 <= q < p ==> old.used@[q]
                &&& new.map@ == old.map@.insert(vreg, p)
                &&& new.used@ == old.used@.update(p as int, true)
                &&& new.max == if p > old.max {
                    p as usize
                } else {
                    old.max
                }
            },
            None => {
                &&& forall|q: int| 0 <= q < old.used@.len() ==> old.used@[q]
                &&& new.used@ == old.used@
                &&& new.map@ == old.map@
                &&& new.max == old.max
            },
        }
    }

    /// `new` follows `old` by releasing the slot of `vreg`, unless it is register 0 or
    /// holds none.
    pub open spec fn frees(old: Bank, new: Bank, vreg: u32) -> bool {
        &&& new.max == old.max
        &&& new.used@.len() == old.used@.len()
        &&& vreg != 0 && old.map@.contains_key(vreg) ==> {
            &&& new.map@ == old.map@.remove(vreg)
            &&& new.used@ == old.used@.update(old.map@[vreg] as int, false)
        }
        &&& !(vreg != 0 && old.map@.contains_key(vreg)) ==> {
            &&& new.map@ == old.map@
            &&& new.used@ == old.used@
        }
    }

    pub open spec fn wf(&self) -> bool {
        &&& bank_ok(self.used@, self.map@)
        &&& self.max < self.used@.len()
    }

    /// An empty file of `cap` slots in which slot 0 is taken by virtual register 0.
    pub fn new(cap: usize) -> (r: Bank)
        requires
            1 <= cap <= MAX_BANK,
        ensures
            r.wf(),
            r.used@.len() == cap,
            r.used@[0],
            forall|p: int| 0 < p < cap ==> !r.used@[p],
            r.map@ == map![0u32 => 0u32],
            r.max == 0,
    {
        let mut used: Vec<bool> = Vec::new();
        let mut i: usize = 0;
        while i < cap
            invariant
                0 <= i <= cap,
                used@.len() == i,
                forall|p: int| 0 <= p < i ==> used@[p] == (p == 0),
            decreases cap - i,
        {
            used.push(i == 0);
            i = i + 1;
        }
        let mut map: HashMap<u32, u32> = HashMap::new();
        map.insert(0, 0);
        assert(map@ =~= map![0u32 => 0u32]);
        assert forall|p: int| 0 <= p < used@.len() && #[trigger] used@[p] implies exists|x: u32| #[trigger]
            map@.contains_key(x) && map@[x] == p by {
            assert(map@.contains_key(0u32) && map@[0u32] == p);
        }
        Bank { used, map, max: 0 }
    }

    /// The slot of `vreg`; on its first reference, the lowest free slot, which it then holds.
    /// `None` when it holds none and every slot is taken.
    pub fn resolve(&mut self, vreg: u32) -> (r: Option<u32>)
        requires
            old(self).wf(),
        ensures
            final(self).wf(),
            Bank::resolves(*old(self), *final(self), vreg, r),
    {
        match self.map.get(&vreg) {
            Some(p) => {
                return Some(*p);
            },
            None => {},
        }
        let n = self.used.len();
        let mut i: usize = 0;
        while i < n
            invariant
                n == self.used@.len(),
                self.used@ == old(self).used@,
                self.map@ == old(self).map@,
                self.max == old(self).max,
                self.wf(),
                !self.map@.contains_key(vreg),
                0 <= i <= n,
                forall|q: int| 0 <= q < i ==> self.used@[q],
            decreases n - i,
        {
            if !self.used[i] {
                let ghost before = self.map@;
                self.used.set(i, true);
                let phys = i as u32;
                self.map.insert(vreg, phys);
                if i > self.max {
                    self.max = i;
                }
                proof {
                    assert forall|x: u32| #[trigger]
                        self.map@.contains_key(x) implies self.map@[x] < self.used@.len()
                        && self.used@[self.map@[x] as int] by {
                        if x != vreg {
                            assert(before.contains_key(x));
                        }
                    }
                    assert forall|x: u32, y: u32|
                        #[trigger] self.map@.contains_key(x) && #[trigger] self.map@.contains_key(y)
                            && x != y implies self.map@[x] != self.map@[y] by {
                        if x != vreg && y != vreg {
                            assert(before.contains_key(x) && before.contains_key(y));
                        } else if x == vreg {
                            assert(before.contains_key(y));
                        } else {
                            assert(before.contains_key(x));
                        }
                    }
                    assert forall|p: int| 0 <= p < self.used@.len() && #[trigger] self.used@[p] implies exists|x: u32| #[trigger]
                        self.map@.contains_key(x) && self.map@[x] == p by {
                        if p == i {
                            assert(self.map@.contains_key(vreg) && self.map@[vreg] == p);
                        } else {
                            assert(old(self).used@[p]);
                            let y = choose|y: u32| #[trigger] before.contains_key(y) && before[y] == p;
                            assert(self.map@.contains_key(y) && self.map@[y] == p);
                        }
                    }
                }
                return Some(phys);
            }
            i = i + 1;
        }
        None
    }

    /// Releases the slot of `vreg`. Virtual register 0 keeps slot 0 for good.
    pub fn free(&mut self, vreg: u32)
        requires
            old(self).wf(),
        ensures
            final(self).wf(),
            Bank::frees(*old(self), *final(self), vreg),
    {
        if vreg != 0 {
            match self.map.remove(&vreg) {
                Some(phys) => {
                    let ghost before = old(self).map@;
                    self.used.set(phys as usize, false);
                    proof {
                        assert(before.contains_key(0));
                        assert forall|x: u32| #[trigger]
                            self.map@.contains_key(x) implies self.map@[x] < self.used@.len()
                            && self.used@[self.map@[x] as int] by {
                            assert(before.contains_key(x));
                        }
                        assert forall|x: u32, y: u32|
                            #[trigger] self.map@.contains_key(x) && #[trigger] self.map@.contains_key(
                                y,
                            ) && x != y implies self.map@[x] != self.map@[y] by {
                            assert(before.contains_key(x) && before.contains_key(y));
                        }
                        assert forall|p: int| 0 <= p < self.used@.len() && #[trigger] self.used@[p] implies exists|x: u32| #[trigger]
                            self.map@.contains_key(x) && self.map@[x] == p by {
                            assert(old(self).used@[p]);
                            let y = choose|y: u32| #[trigger] before.contains_key(y) && before[y] == p;
                            assert(y != vreg);
                            assert(self.map@.contains_key(y) && self.map@[y] == p);
                        }
                    }
                },
                None => {
                    assert(self.map@ =~= old(self).map@);
                },
            }
        }
    }
}

} // verus!
