//! The seeded lookup table behind every lattice hash.

use crate::noise_fns::Seed;
use crate::xorshift::drawn_word;
use crate::xorshift::from_seed;
use crate::xorshift::next_u32;
use crate::xorshift::seeded_state;
use crate::xorshift::state_after;
use crate::xorshift::xorshift_state;
use vstd::arithmetic::div_mod::lemma_add_mod_noop;
use vstd::prelude::*;

verus! {

/// Number of entries in a permutation table.
pub const TABLE_SIZE: usize = 256;

/// The byte that a drawn word contributes to the table: its low eight bits.
pub open spec fn masked(word: u32) -> u8 {
    (word & 0xff) as u8
}

/// The table made of `words`: the low byte of each.
pub open spec fn table_of_words(words: Seq<u32>) -> Seq<u8> {
    Seq::new(words.len(), |i: int| masked(words[i]))
}

/// The first 256 draws from a xorshift generator seeded with `seed`.
pub open spec fn words_of_seed(seed: Seq<u8>) -> Seq<u32> {
    Seq::new(TABLE_SIZE as nat, |i: int| drawn_word(seeded_state(seed), i))
}

/// The table that belongs to `seed`: the low bytes of the first 256 draws
/// from a xorshift generator seeded with it.
pub open spec fn table_of_seed(seed: Seq<u8>) -> Seq<u8> {
    table_of_words(words_of_seed(seed))
}

/// A lattice coordinate reduced to a table index: `a` modulo 256.
pub open spec fn wrap_coordinate(a: int) -> int {
    a % 256
}

/// The index reached by chaining `coords` through `table`: the first
/// coordinate wrapped, then for each further coordinate the entry at the
/// index so far, xor-ed with that coordinate wrapped.
pub open spec fn chained_index(table: Seq<u8>, coords: Seq<int>) -> int
    decreases coords.len(),
{
    if coords.len() <= 1 {
        wrap_coordinate(coords[0])
    } else {
        (table[chained_index(table, coords.drop_last())] ^ (wrap_coordinate(coords.last()) as u8)) as int
    }
}

/// The hash of a lattice corner: the table entry at its chained index.
pub open spec fn hash_of(table: Seq<u8>, coords: Seq<int>) -> int {
    table[chained_index(table, coords)] as int
}

/// Machine coordinates as mathematical integers.
pub open spec fn coordinates(coords: Seq<isize>) -> Seq<int> {
    Seq::new(coords.len(), |i: int| coords[i] as int)
}

/// The corner at `offset` from `cell`, coordinate by coordinate. The sums
/// are mathematical: they are not bounded by the machine's integers.
pub open spec fn corner_at(cell: Seq<isize>, offset: Seq<isize>) -> Seq<int> {
    Seq::new(cell.len(), |i: int| cell[i] + offset[i])
}

/// Only the low byte of each coordinate enters a hash: corners whose
/// coordinates agree modulo 256 reach the same index.
pub proof fn lemma_hash_wraps_coordinates(table: Seq<u8>, a: Seq<int>, b: Seq<int>)
    requires
        a.len() == b.len(),
        forall|i: int| 0 <= i < a.len() ==> a[i] % 256 == b[i] % 256,
    ensures
        chained_index(table, a) == chained_index(table, b),
        hash_of(table, a) == hash_of(table, b),
    decreases a.len(),
{
    if a.len() == 0 {
        // Both indices are the wrapped value of the same out-of-range entry.
        assert(a =~= b);
    } else if a.len() > 1 {
        lemma_hash_wraps_coordinates(table, a.drop_last(), b.drop_last());
    }
}

/// A table of 256 pseudo-random bytes, fixed once it is built.
#[derive(Clone, Copy, Debug)]
pub struct PermutationTable {
    values: [u8; TABLE_SIZE],
}

impl View for PermutationTable {
    type V = Seq<u8>;

    closed spec fn view(&self) -> Seq<u8> {
        self.values@
    }
}

/// `a` modulo 256, computed by masking.
fn wrap(a: isize) -> (b: u8)
    ensures
        b as int == wrap_coordinate(a as int),
{
    let m: isize = a & 0xff;
    assert(0 <= m < 256 && m as int == (a as int) % 256) by (bit_vector)
        requires
            m == a & 0xff,
    ;
    m as u8
}

impl PermutationTable {
    /// The table made of 256 words: entry `i` is the low byte of word `i`.
    pub fn from_words(words: &[u32; TABLE_SIZE]) -> (table: Self)
        ensures
            table@ == table_of_words(words@),
    {
        let mut values = [0u8; TABLE_SIZE];
        let mut i: usize = 0;
        while i < TABLE_SIZE
            invariant
                i <= TABLE_SIZE,
                forall|j: int| 0 <= j < i ==> values@[j] == masked(words@[j]),
            decreases TABLE_SIZE - i,
        {
            let word: u32 = words[i];
            let low: u32 = word & 0xff;
            assert(low < 256) by (bit_vector)
                requires
                    low == word & 0xff,
            ;
            values[i] = low as u8;
            i += 1;
        }
        let table = PermutationTable { values };
        table
    }

    /// Draws the table for `seed`: seeds a xorshift generator, draws 256
    /// words from it and keeps the low byte of each.
    pub fn new(seed: Seed) -> (table: Self)
        ensures
            table@ == table_of_seed(seed@),
    {
        let mut rng = from_seed(seed);
        let ghost start = xorshift_state(rng);
        let mut words = [0u32; TABLE_SIZE];
        let mut i: usize = 0;
        while i < TABLE_SIZE
            invariant
                i <= TABLE_SIZE,
                xorshift_state(rng) == state_after(start, i as nat),
                forall|j: int| 0 <= j < i ==> words@[j] == drawn_word(start, j),
            decreases TABLE_SIZE - i,
        {
            words[i] = next_u32(&mut rng);
            i += 1;
        }
        Self::from_words(&words)
    }

    /// Every table has 256 entries.
    pub proof fn lemma_len(&self)
        ensures
            self@.len() == TABLE_SIZE,
    {
    }

    /// Tables with the same entries are the same table.
    pub proof fn lemma_view_injective(a: Self, b: Self)
        requires
            a@ == b@,
        ensures
            a == b,
    {
        assert(a.values =~= b.values);
    }

    /// Hashes a lattice corner given by its integer coordinates.
    pub fn hash(&self, to_hash: &[isize]) -> (h: usize)
        requires
            to_hash@.len() > 0,
        ensures
            h == hash_of(self@, coordinates(to_hash@)),
            h < TABLE_SIZE,
    {
        let ghost coords = coordinates(to_hash@);
        let mut index: u8 = wrap(to_hash[0]);
        let mut k: usize = 1;
        while k < to_hash.len()
            invariant
                1 <= k <= to_hash@.len(),
                coords == coordinates(to_hash@),
                index as int == chained_index(self@, coords.take(k as int)),
            decreases to_hash@.len() - k,
        {
            let c = wrap(to_hash[k]);
            assert(coords.take(k + 1).drop_last() =~= coords.take(k as int));
            index = self.values[index as usize] ^ c;
            k += 1;
        }
        assert(coords.take(k as int) =~= coords);
        self.values[index as usize] as usize
    }

    /// Hashes the corner that lies at `offset` from `cell`. The result is
    /// that of the exact sums, also where they leave the machine's integers.
    pub fn hash_offset(&self, cell: &[isize], offset: &[isize]) -> (h: usize)
        requires
            cell@.len() > 0,
            cell@.len() == offset@.len(),
        ensures
            h == hash_of(self@, corner_at(cell@, offset@)),
            h < TABLE_SIZE,
    {
        let ghost coords = corner_at(cell@, offset@);
        let mut index: u8 = wrap(cell[0]).wrapping_add(wrap(offset[0]));
        proof {
            lemma_add_mod_noop(cell@[0] as int, offset@[0] as int, 256);
        }
        let mut k: usize = 1;
        while k < cell.len()
            invariant
                1 <= k <= cell@.len(),
                cell@.len() == offset@.len(),
                coords == corner_at(cell@, offset@),
                index as int == chained_index(self@, coords.take(k as int)),
            decreases cell@.len() - k,
        {
            let c = wrap(cell[k]).wrapping_add(wrap(offset[k]));
            proof {
                lemma_add_mod_noop(cell@[k as int] as int, offset@[k as int] as int, 256);
                assert(coords.take(k + 1).drop_last() =~= coords.take(k as int));
            }
            index = self.values[index as usize] ^ c;
            k += 1;
        }
        assert(coords.take(k as int) =~= coords);
        self.values[index as usize] as usize
    }
}

} // verus!
