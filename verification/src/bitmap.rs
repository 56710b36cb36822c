//! Bitmap with word-level operations.
//!
//! A fixed array of `N` 64-bit words addressed bit by bit, for tracking
//! flags or managing slots. In the concurrent form each word is an atomic
//! and the bit operations are fetch-or, fetch-and and fetch-xor; here each
//! operation's contract states exactly which bit changes and what the
//! previous bit was, over the bit view of the whole map. The population
//! count equals the number of set bit positions, as its contract states.

use vstd::prelude::*;
use vstd::std_specs::bits::u64_trailing_zeros;

verus! {

/// Number of bits per word.
pub const BITS_PER_WORD: usize = 64;

/// A bitmap of `N` words.
pub struct Bitmap<const N: usize> {
    words: Vec<u64>,
}

impl<const N: usize> Bitmap<N> {
    /// The word sequence, for contracts.
    pub closed spec fn spec_words(&self) -> Seq<u64> {
        self.words@
    }

    /// All `N` words are in place, and the bit count fits the machine.
    pub open spec fn wf(&self) -> bool {
        &&& self.spec_words().len() == N
        &&& N <= usize::MAX / 64
    }

    /// The total number of bits.
    pub open spec fn spec_bits(&self) -> int {
        N as int * 64
    }

    /// Bit `i` of the map is set.
    pub open spec fn spec_bit(&self, i: int) -> bool {
        &&& 0 <= i < self.spec_bits()
        &&& (self.spec_words()[i / 64] >> ((i % 64) as u64)) & 1 == 1
    }

    /// The number of set bits below position `k`.
    pub open spec fn bits_set_below(&self, k: int) -> nat
        decreases k,
    {
        if k <= 0 {
            0
        } else {
            self.bits_set_below(k - 1) + if self.spec_bit(k - 1) {
                1nat
            } else {
                0nat
            }
        }
    }

    /// Create a new bitmap with all bits clear.
    pub fn new() -> (r: Self)
        requires
            N <= usize::MAX / 64,
        ensures
            r.wf(),
            forall|i: int| !r.spec_bit(i),
    {
        let mut words: Vec<u64> = Vec::new();
        let mut i: usize = 0;
        while i < N
            invariant
                i <= N,
                words@.len() == i,
                forall|j: int| 0 <= j < i ==> words@[j] == 0,
            decreases N - i,
        {
            words.push(0);
            i = i + 1;
        }
        let r = Bitmap { words };
        proof {
            assert(forall|b: u64| ((0u64 >> b) & 1u64) == 0u64) by (bit_vector);
        }
        r
    }

    /// Total number of bits in the bitmap.
    #[inline]
    pub fn bits(&self) -> (r: usize)
        requires
            self.wf(),
        ensures
            r == self.spec_bits(),
    {
        N * BITS_PER_WORD
    }

    /// Get the value of a bit; an out-of-range index reads as clear.
    #[inline]
    pub fn get(&self, index: usize) -> (r: bool)
        requires
            self.wf(),
        ensures
            r == self.spec_bit(index as int),
    {
        let word = index / BITS_PER_WORD;
        let bit = index % BITS_PER_WORD;
        if word >= N {
            return false;
        }
        (self.words[word] >> (bit as u64)) & 1 == 1
    }

    /// Set a bit to 1, returning its previous value; an out-of-range index
    /// changes nothing and returns false.
    pub fn set(&mut self, index: usize) -> (r: bool)
        requires
            old(self).wf(),
        ensures
            final(self).wf(),
            r == old(self).spec_bit(index as int),
            (index as int) >= old(self).spec_bits() ==> *final(self) == *old(self),
            (index as int) < old(self).spec_bits() ==> final(self).spec_bit(index as int),
            forall|j: int| j != index as int ==> final(self).spec_bit(j) == old(self).spec_bit(j),
    {
        let word = index / BITS_PER_WORD;
        let bit = index % BITS_PER_WORD;
        if word >= N {
            return false;
        }
        let mask = 1u64 << (bit as u64);
        let prior = self.words[word];
        self.words[word] = prior | mask;
        proof {
            lemma_or_bit(prior, bit as u64);
        }
        (prior & mask) != 0
    }

    /// Clear a bit to 0, returning its previous value; an out-of-range
    /// index changes nothing and returns false.
    pub fn clear(&mut self, index: usize) -> (r: bool)
        requires
            old(self).wf(),
        ensures
            final(self).wf(),
            r == old(self).spec_bit(index as int),
            (index as int) >= old(self).spec_bits() ==> *final(self) == *old(self),
            (index as int) < old(self).spec_bits() ==> !final(self).spec_bit(index as int),
            forall|j: int| j != index as int ==> final(self).spec_bit(j) == old(self).spec_bit(j),
    {
        let word = index / BITS_PER_WORD;
        let bit = index % BITS_PER_WORD;
        if word >= N {
            return false;
        }
        let mask = 1u64 << (bit as u64);
        let prior = self.words[word];
        self.words[word] = prior & !mask;
        proof {
            lemma_andnot_bit(prior, bit as u64);
        }
        (prior & mask) != 0
    }

    /// Toggle a bit, returning its previous value; an out-of-range index
    /// changes nothing and returns false.
    pub fn toggle(&mut self, index: usize) -> (r: bool)
        requires
            old(self).wf(),
        ensures
            final(self).wf(),
            r == old(self).spec_bit(index as int),
            (index as int) >= old(self).spec_bits() ==> *final(self) == *old(self),
            (index as int) < old(self).spec_bits() ==> final(self).spec_bit(index as int) == !old(
                self,
            ).spec_bit(index as int),
            forall|j: int| j != index as int ==> final(self).spec_bit(j) == old(self).spec_bit(j),
    {
        let word = index / BITS_PER_WORD;
        let bit = index % BITS_PER_WORD;
        if word >= N {
            return false;
        }
        let mask = 1u64 << (bit as u64);
        let prior = self.words[word];
        self.words[word] = prior ^ mask;
        proof {
            lemma_xor_bit(prior, bit as u64);
        }
        (prior & mask) != 0
    }

    /// Test and set: set the bit to 1 and return its previous value.
    #[inline]
    pub fn test_and_set(&mut self, index: usize) -> (r: bool)
        requires
            old(self).wf(),
        ensures
            final(self).wf(),
            r == old(self).spec_bit(index as int),
            (index as int) >= old(self).spec_bits() ==> *final(self) == *old(self),
            (index as int) < old(self).spec_bits() ==> final(self).spec_bit(index as int),
            forall|j: int| j != index as int ==> final(self).spec_bit(j) == old(self).spec_bit(j),
    {
        self.set(index)
    }

    /// Test and clear: set the bit to 0 and return its previous value.
    #[inline]
    pub fn test_and_clear(&mut self, index: usize) -> (r: bool)
        requires
            old(self).wf(),
        ensures
            final(self).wf(),
            r == old(self).spec_bit(index as int),
            (index as int) >= old(self).spec_bits() ==> *final(self) == *old(self),
            (index as int) < old(self).spec_bits() ==> !final(self).spec_bit(index as int),
            forall|j: int| j != index as int ==> final(self).spec_bit(j) == old(self).spec_bit(j),
    {
        self.clear(index)
    }

    /// Count the set bits: exactly the number of set bit positions of the
    /// whole map.
    pub fn popcount(&self) -> (r: usize)
        requires
            self.wf(),
        ensures
            r == self.bits_set_below(self.spec_bits()),
    {
        let mut count: usize = 0;
        let mut w: usize = 0;
        while w < N
            invariant
                self.wf(),
                w <= N,
                count == self.bits_set_below(64 * w as int),
                count <= 64 * w,
            decreases N - w,
        {
            let word = self.words[w];
            let mut j: usize = 0;
            while j < 64
                invariant
                    self.wf(),
                    w < N,
                    j <= 64,
                    word == self.spec_words()[w as int],
                    count == self.bits_set_below(64 * w as int + j as int),
                    count <= 64 * w + j,
                decreases 64 - j,
            {
                proof {
                    assert((64 * w as int + j as int) / 64 == w as int);
                    assert((64 * w as int + j as int) % 64 == j as int);
                }
                if (word >> (j as u64)) & 1 == 1 {
                    count = count + 1;
                }
                j = j + 1;
            }
            w = w + 1;
        }
        count
    }

    /// Find the first set bit: its index, with every lower bit clear, or
    /// `None` when every bit is clear.
    pub fn find_first_set(&self) -> (r: Option<usize>)
        requires
            self.wf(),
        ensures
            match r {
                Some(i) => self.spec_bit(i as int) && forall|j: int|
                    0 <= j < i ==> !self.spec_bit(j),
                None => forall|j: int| !self.spec_bit(j),
            },
    {
        let mut w: usize = 0;
        while w < N
            invariant
                self.wf(),
                w <= N,
                forall|k: int| 0 <= k < w ==> self.spec_words()[k] == 0,
            decreases N - w,
        {
            let word = self.words[w];
            if word != 0 {
                let bit = word.trailing_zeros() as usize;
                proof {
                    vstd::std_specs::bits::axiom_u64_trailing_zeros(word);
                    assert(forall|b: u64| ((0u64 >> b) & 1u64) == 0u64) by (bit_vector);
                    let idx = 64 * w as int + u64_trailing_zeros(word) as int;
                    assert(idx / 64 == w as int && idx % 64 == u64_trailing_zeros(word) as int);
                    assert forall|j: int| 0 <= j < idx implies !self.spec_bit(j) by {
                        assert(j / 64 <= w as int);
                        if j / 64 == w as int {
                            assert(j % 64 < u64_trailing_zeros(word));
                            assert((word >> (j % 64) as u64) & 1u64 == 0u64);
                        } else {
                            assert(self.spec_words()[j / 64] == 0);
                        }
                    }
                }
                return Some(w * BITS_PER_WORD + bit);
            }
            w = w + 1;
        }
        proof {
            assert(forall|b: u64| ((0u64 >> b) & 1u64) == 0u64) by (bit_vector);
        }
        None
    }

    /// Find the first clear bit: its index, with every lower bit set, or
    /// `None` when every bit is set.
    pub fn find_first_clear(&self) -> (r: Option<usize>)
        requires
            self.wf(),
        ensures
            match r {
                Some(i) => i < self.spec_bits() && !self.spec_bit(i as int) && forall|j: int|
                    0 <= j < i ==> self.spec_bit(j),
                None => forall|j: int| 0 <= j < self.spec_bits() ==> self.spec_bit(j),
            },
    {
        let mut w: usize = 0;
        while w < N
            invariant
                self.wf(),
                w <= N,
                forall|k: int| 0 <= k < w ==> self.spec_words()[k] == u64::MAX,
            decreases N - w,
        {
            let word = self.words[w];
            if word != u64::MAX {
                let inverted = !word;
                let bit = inverted.trailing_zeros() as usize;
                proof {
                    vstd::std_specs::bits::axiom_u64_trailing_zeros(inverted);
                    assert(inverted != 0) by (bit_vector)
                        requires
                            inverted == !word && word != u64::MAX,
                    ;
                    assert(forall|v: u64, b: u64| b < 64 ==> (((!v >> b) & 1u64) == 0u64 <==> ((v
                        >> b) & 1u64) == 1u64)) by (bit_vector);
                    assert(forall|b: u64| b < 64 ==> ((u64::MAX >> b) & 1u64) == 1u64)
                        by (bit_vector);
                    let tz = u64_trailing_zeros(inverted) as int;
                    let tzb = u64_trailing_zeros(inverted) as u64;
                    let idx = 64 * w as int + tz;
                    assert(idx / 64 == w as int && idx % 64 == tz);
                    assert((inverted >> tzb) & 1u64 == 1u64);
                    assert((word >> tzb) & 1u64 == 0u64) by (bit_vector)
                        requires
                            inverted == !word && tzb < 64 && (inverted >> tzb) & 1u64 == 1u64,
                    ;
                    assert((word >> tz as u64) & 1u64 == 0u64);
                    assert forall|j: int| 0 <= j < idx implies self.spec_bit(j) by {
                        assert(j / 64 <= w as int);
                        if j / 64 == w as int {
                            assert(j % 64 < u64_trailing_zeros(inverted));
                            assert((inverted >> (j % 64) as u64) & 1u64 == 0u64);
                        } else {
                            assert(self.spec_words()[j / 64] == u64::MAX);
                        }
                    }
                }
                let index = w * BITS_PER_WORD + bit;
                if index < N * BITS_PER_WORD {
                    return Some(index);
                }
            }
            w = w + 1;
        }
        proof {
            assert(forall|b: u64| b < 64 ==> ((u64::MAX >> b) & 1u64) == 1u64) by (bit_vector);
        }
        None
    }

    /// Clear all bits.
    pub fn clear_all(&mut self)
        requires
            old(self).wf(),
        ensures
            final(self).wf(),
            forall|i: int| !final(self).spec_bit(i),
    {
        let mut w: usize = 0;
        while w < N
            invariant
                self.wf(),
                w <= N,
                forall|k: int| 0 <= k < w ==> self.spec_words()[k] == 0,
            decreases N - w,
        {
            self.words[w] = 0;
            w = w + 1;
        }
        proof {
            assert(forall|b: u64| ((0u64 >> b) & 1u64) == 0u64) by (bit_vector);
        }
    }

    /// Set all bits.
    pub fn set_all(&mut self)
        requires
            old(self).wf(),
        ensures
            final(self).wf(),
            forall|i: int| 0 <= i < final(self).spec_bits() ==> final(self).spec_bit(i),
    {
        let mut w: usize = 0;
        while w < N
            invariant
                self.wf(),
                w <= N,
                forall|k: int| 0 <= k < w ==> self.spec_words()[k] == u64::MAX,
            decreases N - w,
        {
            self.words[w] = u64::MAX;
            w = w + 1;
        }
        proof {
            assert(forall|b: u64| b < 64 ==> ((u64::MAX >> b) & 1u64) == 1u64) by (bit_vector);
        }
    }
}

/// Setting one bit by OR: the chosen bit reads one, every other bit of the
/// word is unchanged, and the mask isolates the chosen bit.
proof fn lemma_or_bit(w: u64, b: u64)
    requires
        b < 64,
    ensures
        ((w | (1u64 << b)) >> b) & 1u64 == 1u64,
        forall|c: u64| c < 64 && c != b ==> ((w | (1u64 << b)) >> c) & 1u64 == (w >> c) & 1u64,
        ((w & (1u64 << b)) != 0) == ((w >> b) & 1u64 == 1u64),
{
    assert(((w | (1u64 << b)) >> b) & 1u64 == 1u64) by (bit_vector)
        requires
            b < 64,
    ;
    assert(forall|c: u64| c < 64 && c != b ==> ((w | (1u64 << b)) >> c) & 1u64 == (w >> c) & 1u64)
        by (bit_vector)
        requires
            b < 64,
    ;
    assert(((w & (1u64 << b)) != 0) == ((w >> b) & 1u64 == 1u64)) by (bit_vector)
        requires
            b < 64,
    ;
}

/// Clearing one bit by AND-NOT: the chosen bit reads zero, every other
/// bit of the word is unchanged, and the mask isolates the chosen bit.
proof fn lemma_andnot_bit(w: u64, b: u64)
    requires
        b < 64,
    ensures
        ((w & !(1u64 << b)) >> b) & 1u64 == 0u64,
        forall|c: u64| c < 64 && c != b ==> ((w & !(1u64 << b)) >> c) & 1u64 == (w >> c) & 1u64,
        ((w & (1u64 << b)) != 0) == ((w >> b) & 1u64 == 1u64),
{
    assert(((w & !(1u64 << b)) >> b) & 1u64 == 0u64) by (bit_vector)
        requires
            b < 64,
    ;
    assert(forall|c: u64| c < 64 && c != b ==> ((w & !(1u64 << b)) >> c) & 1u64 == (w >> c) & 1u64)
        by (bit_vector)
        requires
            b < 64,
    ;
    assert(((w & (1u64 << b)) != 0) == ((w >> b) & 1u64 == 1u64)) by (bit_vector)
        requires
            b < 64,
    ;
}

/// Flipping one bit by XOR: the chosen bit inverts, every other bit of the
/// word is unchanged, and the mask isolates the chosen bit.
proof fn lemma_xor_bit(w: u64, b: u64)
    requires
        b < 64,
    ensures
        ((w ^ (1u64 << b)) >> b) & 1u64 == 1u64 - ((w >> b) & 1u64),
        forall|c: u64| c < 64 && c != b ==> ((w ^ (1u64 << b)) >> c) & 1u64 == (w >> c) & 1u64,
        ((w & (1u64 << b)) != 0) == ((w >> b) & 1u64 == 1u64),
{
    assert(((w ^ (1u64 << b)) >> b) & 1u64 == 1u64 - ((w >> b) & 1u64)) by (bit_vector)
        requires
            b < 64,
    ;
    assert(forall|c: u64| c < 64 && c != b ==> ((w ^ (1u64 << b)) >> c) & 1u64 == (w >> c) & 1u64)
        by (bit_vector)
        requires
            b < 64,
    ;
    assert(((w & (1u64 << b)) != 0) == ((w >> b) & 1u64 == 1u64)) by (bit_vector)
        requires
            b < 64,
    ;
}

} // verus!
