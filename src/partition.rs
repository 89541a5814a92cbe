use vstd::prelude::*;

verus! {

/// The largest stride a worker can be given: the external solver steps its
/// nonce by the stride in signed 64-bit arithmetic.
pub const MAX_STRIDE: usize = 4_294_967_295;

/// A round-robin share of the nonce space: the nonces congruent to `offset`
/// modulo `stride`.
#[derive(Debug, Clone, Copy, PartialEq, Eq, Structural)]
pub struct Partition {
    pub offset: usize,
    pub stride: usize,
}

/// Whether nonce `n` belongs to the share that starts at `offset` and steps by `stride`.
pub open spec fn in_share(offset: int, stride: int, n: int) -> bool {
    n >= offset && (n - offset) % stride == 0
}

impl Partition {
    /// Whether `n` is one of this partition's nonces.
    pub open spec fn contains(self, n: int) -> bool {
        in_share(self.offset as int, self.stride as int, n)
    }

    /// Whether the external solver can search this partition.
    pub open spec fn searchable(self) -> bool {
        1 <= self.stride <= MAX_STRIDE && self.offset < self.stride
    }

    /// Executable form of `searchable`.
    pub fn is_searchable(&self) -> (r: bool)
        ensures
            r == self.searchable(),
    {
        1 <= self.stride && self.stride <= MAX_STRIDE && self.offset < self.stride
    }
}

/// The partitions of `thread_count` workers: worker `i` takes offset `i` and
/// stride `thread_count`.
pub fn round_robin(thread_count: usize) -> (r: Vec<Partition>)
    requires
        thread_count >= 1,
    ensures
        r.len() == thread_count,
        forall|i: int|
            0 <= i < r.len() ==> #[trigger] r[i] == (Partition { offset: i as usize, stride: thread_count }),
{
    let mut parts: Vec<Partition> = Vec::new();
    let mut i: usize = 0;
    while i < thread_count
        invariant
            i <= thread_count,
            parts.len() == i,
            forall|j: int|
                0 <= j < i ==> #[trigger] parts[j] == (Partition { offset: j as usize, stride: thread_count }),
        decreases thread_count - i,
    {
        parts.push(Partition { offset: i, stride: thread_count });
        i = i + 1;
    }
    parts
}

/// Round-robin partitions are jointly exhaustive and pairwise disjoint: with
/// stride `s`, every nonce in `[0, m)` lies in the share of exactly one offset
/// in `[0, s)`, namely its remainder modulo `s`, and every share's nonces
/// below `m` lie in `[0, m)`.
pub proof fn round_robin_covers_exactly_once(s: int, m: int)
    requires
        s >= 1,
    ensures
        forall|n: int| 0 <= n < m ==> #[trigger] in_share(n % s, s, n) && 0 <= n % s < s,
        forall|n: int, i: int, j: int|
            0 <= n < m && 0 <= i < s && 0 <= j < s && #[trigger] in_share(i, s, n) && #[trigger] in_share(j, s, n)
                ==> i == j,
        forall|n: int, i: int| 0 <= i < s && #[trigger] in_share(i, s, n) && n < m ==> 0 <= n < m,
{
    assert forall|n: int| 0 <= n < m implies #[trigger] in_share(n % s, s, n) && 0 <= n % s < s by {
        vstd::arithmetic::div_mod::lemma_fundamental_div_mod(n, s);
        vstd::arithmetic::div_mod::lemma_mod_bound(n, s);
        assert(n - n % s == s * (n / s));
        vstd::arithmetic::div_mod::lemma_mod_multiples_basic(n / s, s);
        assert((s * (n / s)) % s == 0) by {
            vstd::arithmetic::mul::lemma_mul_is_commutative(s, n / s);
        }
    }
    assert forall|n: int, i: int, j: int|
        0 <= n < m && 0 <= i < s && 0 <= j < s && #[trigger] in_share(i, s, n) && #[trigger] in_share(j, s, n)
            implies i == j by {
        same_remainder(n, i, s);
        same_remainder(n, j, s);
    }
}

/// A nonce in the share of an offset below the stride has that offset as its remainder.
proof fn same_remainder(n: int, i: int, s: int)
    requires
        s >= 1,
        0 <= i < s,
        in_share(i, s, n),
    ensures
        n % s == i,
{
    let q = (n - i) / s;
    vstd::arithmetic::div_mod::lemma_fundamental_div_mod(n - i, s);
    assert(n - i == s * q);
    assert(n == q * s + i) by {
        vstd::arithmetic::mul::lemma_mul_is_commutative(s, q);
    }
    vstd::arithmetic::div_mod::lemma_mod_multiples_vanish(q, i, s);
    vstd::arithmetic::div_mod::lemma_small_mod(i as nat, s as nat);
}

} // verus!
