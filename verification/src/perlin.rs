//! Permutation tables for lattice noise.
//!
//! The noise texture hashes each lattice corner through three shuffled
//! copies of the table `0, 1, .., 255`, one per coordinate, and combines
//! the three entries by exclusive or to pick a gradient vector. The
//! tables and the hash are integer work and live here; drawing the
//! gradient vectors and interpolating between them is floating-point work
//! left to the caller. Shuffling draws from a random source the caller
//! seeds and hands in, so the same seed builds the same tables; what is
//! proved holds of every outcome, however the source is seeded: each
//! table is a permutation of `0..256`, and the hash always lands inside
//! the gradient list.

use rand::Rng;
use vstd::prelude::*;
use vstd::seq_lib::group_to_multiset_ensures;
use vstd::seq_lib::to_multiset_update;

verus! {

/// The table `0, 1, .., n-1` in its unshuffled order.
pub open spec fn identity_table(n: nat) -> Seq<usize> {
    Seq::new(n, |i: int| i as usize)
}

/// True iff `s` holds exactly the values `0..256`, in any order.
pub open spec fn is_permutation_table(s: Seq<usize>) -> bool {
    s.to_multiset() == identity_table(256).to_multiset()
}

/// The seedable random source the shuffle draws from: rand's standard
/// generator, opaque to the verifier and carried through by reference.
#[verifier::external_type_specification]
#[verifier::external_body]
pub struct ExStdRng(rand::rngs::StdRng);

/// Relies on rand::Rng::gen_range over `0..bound`: a draw that lies in
/// the half-open range; the call panics only on an empty range, which the
/// precondition rules out.
#[verifier::external_body]
fn random_below(rng: &mut rand::rngs::StdRng, bound: usize) -> (r: usize)
    requires
        1 <= bound,
    ensures
        r < bound,
{
    rng.gen_range(0..bound)
}

/// Swapping two entries rearranges a sequence but keeps its contents.
proof fn lemma_swap_preserves_multiset(s: Seq<usize>, i: int, j: int)
    requires
        0 <= i < s.len(),
        0 <= j < s.len(),
    ensures
        s.update(i, s[j]).update(j, s[i]).to_multiset() == s.to_multiset(),
{
    broadcast use group_to_multiset_ensures;
    broadcast use to_multiset_update;
    broadcast use vstd::multiset::group_multiset_axioms;
    broadcast use vstd::multiset::group_multiset_properties;

    let a = s[i];
    let b = s[j];
    let s1 = s.update(i, b);
    let s2 = s1.update(j, a);
    assert(s.contains(a));
    assert(s.contains(b));
    assert(s1[j] == b);
    assert(s1.to_multiset() == s.to_multiset().insert(b).remove(a));
    assert(s2.to_multiset() == s1.to_multiset().insert(a).remove(b));
    assert(s2.to_multiset() =~= s.to_multiset());
}

/// The Fisher-Yates shuffle: walks the table from the top, swapping each
/// entry with one drawn at or below it. The order that comes out depends
/// on the random source; the contents never change.
fn permute(table: Vec<usize>, rng: &mut rand::rngs::StdRng) -> (r: Vec<usize>)
    ensures
        r@.len() == table@.len(),
        r@.to_multiset() == table@.to_multiset(),
{
    let mut u = table;
    let ghost orig = u@;
    let n = u.len();
    let mut i: usize = n;
    while i > 0
        invariant
            i <= n,
            n == u@.len(),
            u@.to_multiset() == orig.to_multiset(),
        decreases i,
    {
        i = i - 1;
        let target = random_below(rng, i + 1);
        let ghost before = u@;
        let a = u[i];
        let b = u[target];
        u[i] = b;
        u[target] = a;
        proof {
            lemma_swap_preserves_multiset(before, i as int, target as int);
        }
    }
    u
}

/// A fresh table holding `0..256` in an order drawn from the given
/// random source.
pub fn shuffled_table(rng: &mut rand::rngs::StdRng) -> (r: Vec<usize>)
    ensures
        is_permutation_table(r@),
{
    let mut table: Vec<usize> = Vec::new();
    let mut i: usize = 0;
    while i < 256
        invariant
            i <= 256,
            table@ =~= identity_table(i as nat),
        decreases 256 - i,
    {
        table.push(i);
        proof {
            assert(table@ =~= identity_table((i + 1) as nat));
        }
        i = i + 1;
    }
    permute(table, rng)
}

/// Whatever order a permutation table is in, every entry is one of the
/// values `0..256`, and there are 256 of them.
pub proof fn lemma_table_entries_below(s: Seq<usize>)
    requires
        is_permutation_table(s),
    ensures
        s.len() == 256,
        forall|k: int| 0 <= k < s.len() ==> s[k] < 256,
{
    broadcast use group_to_multiset_ensures;

    assert(identity_table(256).len() == identity_table(256).to_multiset().len());
    assert(s.len() == s.to_multiset().len());
    assert forall|k: int| 0 <= k < s.len() implies s[k] < 256 by {
        assert(s.contains(s[k]));
        assert(identity_table(256).to_multiset().count(s[k]) > 0);
        assert(identity_table(256).contains(s[k]));
        let w = choose|m: int| 0 <= m < 256 && identity_table(256)[m] == s[k];
        assert(identity_table(256)[w] == w as usize);
    }
}

/// The three permutation tables behind lattice noise. The gradient list
/// they index into has one entry per table slot.
#[derive(Clone)]
pub struct PerlinTables {
    pub perm_x: Vec<usize>,
    pub perm_y: Vec<usize>,
    pub perm_z: Vec<usize>,
}

impl PerlinTables {
    /// True iff each of the three tables is a permutation of `0..256`.
    pub open spec fn well_formed(self) -> bool {
        &&& is_permutation_table(self.perm_x@)
        &&& is_permutation_table(self.perm_y@)
        &&& is_permutation_table(self.perm_z@)
    }

    /// Three tables freshly shuffled from the given random source.
    pub fn new(rng: &mut rand::rngs::StdRng) -> (r: PerlinTables)
        ensures
            r.well_formed(),
    {
        PerlinTables {
            perm_x: shuffled_table(rng),
            perm_y: shuffled_table(rng),
            perm_z: shuffled_table(rng),
        }
    }

    /// Hash of the lattice corner `(x, y, z)`: each coordinate is folded
    /// to a table slot by its low eight bits, and the three entries are
    /// combined by exclusive or. The result always indexes the gradient
    /// list: it is below 256.
    pub fn lattice_index(&self, x: usize, y: usize, z: usize) -> (r: usize)
        requires
            self.well_formed(),
        ensures
            r == (self.perm_x@[(x & 255) as int] ^ self.perm_y@[(y & 255) as int] ^ self.perm_z@[(
            z & 255) as int]),
            r < 256,
    {
        proof {
            lemma_table_entries_below(self.perm_x@);
            lemma_table_entries_below(self.perm_y@);
            lemma_table_entries_below(self.perm_z@);
            assert(x & 255 < 256 && y & 255 < 256 && z & 255 < 256) by (bit_vector);
        }
        let a = self.perm_x[x & 255];
        let b = self.perm_y[y & 255];
        let c = self.perm_z[z & 255];
        proof {
            assert(a < 256 && b < 256 && c < 256 ==> a ^ b ^ c < 256) by (bit_vector);
        }
        a ^ b ^ c
    }
}

} // verus!
