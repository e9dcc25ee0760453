//! The Internet Checksum: the ones'-complement of the ones'-complement sum
//! of a buffer read as 16-bit big-endian words.

use vstd::prelude::*;
use vstd::slice::slice_subrange;
use crate::packet::wire::{be_u16, read_u16};

verus! {

/// The plain sum of all the words.
pub open spec fn word_sum(words: Seq<u16>) -> nat
    decreases words.len(),
{
    if words.len() == 0 {
        0
    } else {
        word_sum(words.drop_last()) + words.last() as nat
    }
}

/// Adds whatever lies above bit 15 back into the low 16 bits, until nothing
/// lies above bit 15.
pub open spec fn fold_carries(n: nat) -> nat
    decreases n,
{
    if n < 0x1_0000 {
        n
    } else {
        fold_carries(n / 0x1_0000 + n % 0x1_0000)
    }
}

/// The Internet Checksum of a sequence of 16-bit words.
pub open spec fn internet_checksum(words: Seq<u16>) -> u16 {
    (0xffff - fold_carries(word_sum(words))) as u16
}

/// A buffer read as big-endian 16-bit words. A buffer of odd length is
/// padded with one zero byte.
pub open spec fn words_of(bytes: Seq<u8>) -> Seq<u16> {
    Seq::new(
        ((bytes.len() + 1) / 2) as nat,
        |i: int| be_u16(bytes[2 * i], if 2 * i + 1 < bytes.len() { bytes[2 * i + 1] } else { 0 }),
    )
}

/// The Internet Checksum of a byte buffer.
pub open spec fn bytes_checksum(bytes: Seq<u8>) -> u16 {
    internet_checksum(words_of(bytes))
}

/// What folding arrives at: zero stays zero, and any other sum lands in
/// `1..=0xffff`, congruent to it modulo `0xffff`.
pub open spec fn end_around(n: nat) -> nat {
    if n == 0 {
        0
    } else {
        ((n - 1) % 0xffff + 1) as nat
    }
}

/// Folding has a closed form.
pub proof fn lemma_fold_carries_closed_form(n: nat)
    ensures
        fold_carries(n) == end_around(n),
        fold_carries(n) <= 0xffff,
    decreases n,
{
    if n >= 0x1_0000 {
        let q = n / 0x1_0000;
        let m = q + n % 0x1_0000;
        lemma_fold_carries_closed_form(m);
        assert(n - 1 == (m - 1) + 0xffff * q);
        assert((n - 1) % 0xffff == (m - 1) % 0xffff) by {
            vstd::arithmetic::div_mod::lemma_mod_multiples_vanish(q as int, m - 1, 0xffff);
        }
    }
}

/// Folding may be done early: a partial sum can be folded before the rest
/// is added to it.
pub proof fn lemma_fold_carries_early(a: nat, b: nat)
    ensures
        fold_carries(fold_carries(a) + b) == fold_carries(a + b),
{
    lemma_fold_carries_closed_form(a);
    lemma_fold_carries_closed_form(a + b);
    lemma_fold_carries_closed_form(fold_carries(a) + b);
    if a > 0 {
        let r = (a - 1) % 0xffff;
        let q = (a - 1) / 0xffff;
        assert(a - 1 + b == (r + b) + 0xffff * q);
        vstd::arithmetic::div_mod::lemma_mod_multiples_vanish(q, r + b, 0xffff);
    }
}

/// Putting `word` in place of a zero word adds `word` to the sum.
pub proof fn lemma_word_sum_fill(words: Seq<u16>, i: int, word: u16)
    requires
        0 <= i < words.len(),
        words[i] == 0,
    ensures
        word_sum(words.update(i, word)) == word_sum(words) + word,
    decreases words.len(),
{
    let filled = words.update(i, word);
    if i == words.len() - 1 {
        assert(filled.drop_last() =~= words.drop_last());
    } else {
        assert(filled.drop_last() =~= words.drop_last().update(i, word));
        lemma_word_sum_fill(words.drop_last(), i, word);
    }
}

/// A buffer that carries its own checksum checks out as zero: where the
/// checksum of a buffer, taken with a zero word in the checksum's place, is
/// put into that place, the checksum of the whole is zero.
pub proof fn lemma_checksum_in_place_is_zero(words: Seq<u16>, i: int)
    requires
        0 <= i < words.len(),
        words[i] == 0,
    ensures
        internet_checksum(words.update(i, internet_checksum(words))) == 0,
{
    let sum = word_sum(words);
    let own = internet_checksum(words);
    lemma_fold_carries_closed_form(sum);
    lemma_word_sum_fill(words, i, own);
    lemma_fold_carries_early(sum, own as nat);
    lemma_fold_carries_closed_form(fold_carries(sum) + own as nat);
}

/// Compute the Internet Checksum for a slice of bytes
pub fn compute_checksum(data: &[u8]) -> (checksum: u16)
    ensures
        checksum == bytes_checksum(data@),
{
    let n: usize = data.len();
    let mut words: Vec<u16> = Vec::new();
    let mut i: usize = 0;
    while n - i >= 2
        invariant
            n == data@.len(),
            i <= n,
            i % 2 == 0,
            words@.len() == i / 2,
            forall|k: int| 0 <= k < words@.len() ==> words@[k] == words_of(data@)[k],
        decreases n - i,
    {
        let word: u16 = read_u16(slice_subrange(data, i, i + 2));
        words.push(word);
        i = i + 2;
    }
    if i < n {
        let tail: [u8; 2] = [data[i], 0];
        let word: u16 = read_u16(tail.as_slice());
        words.push(word);
    }
    proof {
        assert(words@ =~= words_of(data@));
    }
    compute_checksum_u16(words.as_slice())
}

/// Compute the Internet Checksum for a slice of u16s
pub fn compute_checksum_u16(data: &[u16]) -> (checksum: u16)
    ensures
        checksum == internet_checksum(data@),
{
    let mut sum: u32 = 0;
    let mut i: usize = 0;
    while i < data.len()
        invariant
            i <= data@.len(),
            sum as nat == fold_carries(word_sum(data@.take(i as int))),
            sum <= 0xffff,
        decreases data@.len() - i,
    {
        let ghost before = word_sum(data@.take(i as int));
        let word: u16 = data[i];
        proof {
            assert(data@.take(i + 1).drop_last() =~= data@.take(i as int));
            assert(data@.take(i + 1).last() == word);
            assert(word_sum(data@.take(i + 1)) == before + word as nat);
            lemma_fold_carries_early(before, word as nat);
            lemma_fold_carries_closed_form(sum as nat + word as nat);
        }
        sum = sum + word as u32;
        // Fold 32-bit sum to 16 bits
        if sum > 0xffff {
            sum = sum - 0xffff;
        }
        i = i + 1;
    }
    proof {
        assert(data@.take(i as int) =~= data@);
    }
    let folded: u16 = sum as u16;
    0xffff - folded
}

} // verus!
