//! The Internet checksum: the 16-bit ones' complement of the ones' complement
//! sum of a byte string read as big-endian 16-bit words.

use vstd::prelude::*;

verus! {

/// The `k`-th 16-bit big-endian word of `bytes`. A trailing odd byte is the
/// high byte of a last word whose low byte is zero.
pub open spec fn be_word(bytes: Seq<u8>, k: int) -> nat {
    let high = bytes[2 * k] as nat;
    let low = if 2 * k + 1 < bytes.len() {
        bytes[2 * k + 1] as nat
    } else {
        0
    };
    high * 256 + low
}

/// Sum of the first `count` words of `bytes`.
pub open spec fn sum_of_words(bytes: Seq<u8>, count: nat) -> nat
    decreases count,
{
    if count == 0 {
        0
    } else {
        sum_of_words(bytes, (count - 1) as nat) + be_word(bytes, count - 1)
    }
}

/// Sum of all the words of `bytes`, as an unbounded number.
pub open spec fn be_word_sum(bytes: Seq<u8>) -> nat {
    sum_of_words(bytes, ((bytes.len() + 1) / 2) as nat)
}

/// Folds a sum into 16 bits by adding what overflows 16 bits back in at the
/// low end, until nothing overflows.
pub open spec fn end_around_carry(sum: nat) -> nat
    decreases sum,
{
    if sum < 0x1_0000 {
        sum
    } else {
        end_around_carry(sum / 0x1_0000 + sum % 0x1_0000)
    }
}

/// The checksum to store for `bytes`, where `bytes` holds zero in the place
/// of the checksum itself.
pub open spec fn internet_checksum(bytes: Seq<u8>) -> u16 {
    (0xFFFF - end_around_carry(be_word_sum(bytes))) as u16
}

/// Whether `bytes`, with its checksum in place, passes the receiver's test:
/// summing everything gives all ones, so the complement is zero.
pub open spec fn checksum_verifies(bytes: Seq<u8>) -> bool {
    internet_checksum(bytes) == 0
}

/// The folded sum is the residue modulo 0xFFFF, taken in `1..=0xFFFF` for
/// every sum but zero.
pub proof fn lemma_end_around_carry_is_residue(sum: nat)
    ensures
        sum == 0 ==> end_around_carry(sum) == 0,
        sum > 0 ==> end_around_carry(sum) == (sum - 1) % 0xFFFF + 1,
        end_around_carry(sum) <= 0xFFFF,
    decreases sum,
{
    if sum >= 0x1_0000 {
        lemma_end_around_carry_is_residue(sum / 0x1_0000 + sum % 0x1_0000);
    }
}

/// Adding the checksum of a sum to that sum folds to all ones: a string whose
/// words add up to `sum` besides its checksum passes the receiver's test.
pub proof fn lemma_checksum_completes_sum(sum: nat)
    ensures
        end_around_carry((sum + (0xFFFF - end_around_carry(sum))) as nat) == 0xFFFF,
{
    lemma_end_around_carry_is_residue(sum);
    lemma_end_around_carry_is_residue((sum + (0xFFFF - end_around_carry(sum))) as nat);
}

/// `bytes` with the 16-bit `value` stored big-endian as its word number `word`.
pub open spec fn with_word(bytes: Seq<u8>, word: int, value: u16) -> Seq<u8> {
    bytes.update(2 * word, (value / 256) as u8).update(2 * word + 1, (value % 256) as u8)
}

/// Storing a value in a word that held zero adds that value to every partial
/// sum that reaches the word, and changes no other.
pub proof fn lemma_sum_with_word(bytes: Seq<u8>, word: int, value: u16, count: nat)
    requires
        0 <= word,
        2 * word + 1 < bytes.len(),
        bytes[2 * word] == 0,
        bytes[2 * word + 1] == 0,
        2 * count <= bytes.len() + 1,
    ensures
        sum_of_words(with_word(bytes, word, value), count) == sum_of_words(bytes, count) + (if word
            < count {
            value as nat
        } else {
            0
        }),
    decreases count,
{
    if count > 0 {
        lemma_sum_with_word(bytes, word, value, (count - 1) as nat);
    }
}

/// A string that holds zero in its checksum field passes the receiver's test
/// once its own checksum is stored in that field.
pub proof fn lemma_stored_checksum_verifies(bytes: Seq<u8>, word: int)
    requires
        0 <= word,
        2 * word + 1 < bytes.len(),
        bytes[2 * word] == 0,
        bytes[2 * word + 1] == 0,
    ensures
        checksum_verifies(with_word(bytes, word, internet_checksum(bytes))),
{
    let sum = be_word_sum(bytes);
    lemma_end_around_carry_is_residue(sum);
    lemma_sum_with_word(bytes, word, internet_checksum(bytes), ((bytes.len() + 1) / 2) as nat);
    lemma_checksum_completes_sum(sum);
}

} // verus!
