//! Deduplicating constant pools.

use vstd::prelude::*;

verus! {

/// An extension-domain constant: its four base coefficients, each in canonical encoding.
#[derive(Debug, Clone, Copy, PartialEq, Eq, Hash, Structural)]
pub struct EfValue {
    pub c0: u32,
    pub c1: u32,
    pub c2: u32,
    pub c3: u32,
}

/// The pool after interning `v`: unchanged when `v` is already there, else `v` appended.
pub open spec fn pool_after<T>(pool: Seq<T>, v: T) -> Seq<T> {
    if pool.contains(v) {
        pool
    } else {
        pool.push(v)
    }
}

/// The index that interning `v` into `pool` hands back.
pub open spec fn pool_index<T>(pool: Seq<T>, v: T) -> int {
    if pool.contains(v) {
        pool.index_of(v)
    } else {
        pool.len() as int
    }
}

/// The pool after interning each of `vs` in turn.
pub open spec fn pool_after_all<T>(pool: Seq<T>, vs: Seq<T>) -> Seq<T>
    decreases vs.len(),
{
    if vs.len() == 0 {
        pool
    } else {
        pool_after(pool_after_all(pool, vs.drop_last()), vs.last())
    }
}

proof fn lemma_index_unique<T>(pool: Seq<T>, v: T, i: int)
    requires
        pool.no_duplicates(),
        0 <= i < pool.len(),
        pool[i] == v,
    ensures
        pool.contains(v),
        pool_index(pool, v) == i,
{
    assert(pool.contains(v));
    let j = pool.index_of(v);
    assert(0 <= j < pool.len() && pool[j] == v);
}

/// Interning keeps a pool free of duplicates, and the index it hands back holds the value.
pub proof fn lemma_intern_sound<T>(pool: Seq<T>, v: T)
    requires
        pool.no_duplicates(),
    ensures
        pool_after(pool, v).no_duplicates(),
        0 <= pool_index(pool, v) < pool_after(pool, v).len(),
        pool_after(pool, v)[pool_index(pool, v)] == v,
{
    if pool.contains(v) {
        let j = pool.index_of(v);
        assert(0 <= j < pool.len() && pool[j] == v);
    } else {
        let p = pool.push(v);
        assert forall|i: int, j: int| 0 <= i < p.len() && 0 <= j < p.len() && i != j implies p[i]
            != p[j] by {
            if i == pool.len() {
                assert(p[j] == pool[j]);
                if p[j] == v {
                    assert(pool.contains(v));
                }
            } else if j == pool.len() {
                assert(p[i] == pool[i]);
                if p[i] == v {
                    assert(pool.contains(v));
                }
            }
        }
    }
}

/// Interning a value twice gives the same index both times, and the second time leaves
/// the pool as the first left it.
pub proof fn lemma_intern_idempotent<T>(pool: Seq<T>, v: T)
    requires
        pool.no_duplicates(),
    ensures
        pool_after(pool_after(pool, v), v) == pool_after(pool, v),
        pool_index(pool_after(pool, v), v) == pool_index(pool, v),
{
    lemma_intern_sound(pool, v);
    lemma_index_unique(pool_after(pool, v), v, pool_index(pool, v));
}

/// Interning distinct values that a pool does not hold appends them in order: the k-th of
/// them gets index `pool.len() + k`.
pub proof fn lemma_intern_distinct<T>(pool: Seq<T>, vs: Seq<T>)
    requires
        pool.no_duplicates(),
        vs.no_duplicates(),
        pool.disjoint(vs),
    ensures
        pool_after_all(pool, vs) == pool + vs,
        forall|k: int|
            0 <= k < vs.len() ==> #[trigger] pool_index(pool_after_all(pool, vs.take(k)), vs[k])
                == pool.len() + k,
    decreases vs.len(),
{
    if vs.len() > 0 {
        let front = vs.drop_last();
        assert(pool.disjoint(front));
        lemma_intern_distinct(pool, front);
        let last = vs.last();
        assert(!(pool + front).contains(last)) by {
            if (pool + front).contains(last) {
                let i = choose|i: int| 0 <= i < (pool + front).len() && (pool + front)[i] == last;
                if i < pool.len() {
                    assert(pool[i] == vs[vs.len() - 1]);
                } else {
                    assert(front[i - pool.len()] == vs[i - pool.len()]);
                }
            }
        }
        assert(pool + front + seq![last] =~= pool + vs);
        assert forall|k: int| 0 <= k < vs.len() implies #[trigger] pool_index(
            pool_after_all(pool, vs.take(k)),
            vs[k],
        ) == pool.len() + k by {
            if k < front.len() {
                assert(vs.take(k) =~= front.take(k));
                assert(vs[k] == front[k]);
            } else {
                assert(vs.take(k) =~= front);
            }
        }
    }
}

/// Interns a base constant: returns its index in `pool`, appending it when absent.
pub fn f_constant(pool: &mut Vec<u32>, c: u32) -> (r: u32)
    requires
        old(pool)@.no_duplicates(),
        old(pool).len() < u32::MAX,
    ensures
        final(pool)@ == pool_after(old(pool)@, c),
        r as int == pool_index(old(pool)@, c),
        final(pool)@.no_duplicates(),
{
    proof {
        lemma_intern_sound(pool@, c);
    }
    let n = pool.len();
    let mut i: usize = 0;
    while i < n
        invariant
            n == pool.len(),
            n < u32::MAX,
            pool@.no_duplicates(),
            pool@ == old(pool)@,
            0 <= i <= n,
            forall|j: int| 0 <= j < i ==> pool@[j] != c,
        decreases n - i,
    {
        if pool[i] == c {
            proof {
                lemma_index_unique(pool@, c, i as int);
            }
            return i as u32;
        }
        i = i + 1;
    }
    pool.push(c);
    n as u32
}

/// Interns an extension constant: returns its index in `pool`, appending it when absent.
pub fn ef_constant(pool: &mut Vec<EfValue>, c: EfValue) -> (r: u32)
    requires
        old(pool)@.no_duplicates(),
        old(pool).len() < u32::MAX,
    ensures
        final(pool)@ == pool_after(old(pool)@, c),
        r as int == pool_index(old(pool)@, c),
        final(pool)@.no_duplicates(),
{
    proof {
        lemma_intern_sound(pool@, c);
    }
    let n = pool.len();
    let mut i: usize = 0;
    while i < n
        invariant
            n == pool.len(),
            n < u32::MAX,
            pool@.no_duplicates(),
            pool@ == old(pool)@,
            0 <= i <= n,
            forall|j: int| 0 <= j < i ==> pool@[j] != c,
        decreases n - i,
    {
        if pool[i] == c {
            proof {
                lemma_index_unique(pool@, c, i as int);
            }
            return i as u32;
        }
        i = i + 1;
    }
    pool.push(c);
    n as u32
}

} // verus!
