//! The Internet checksum: the 16-bit ones' complement of the ones' complement
//! sum of the data, taken as big-endian 16-bit words.

use vstd::prelude::*;
use vstd::arithmetic::div_mod::lemma_mod_multiples_vanish;

verus! {

/// The big-endian 16-bit word made of two bytes.
pub open spec fn word(high: u8, low: u8) -> nat {
    (high as nat) * 256 + (low as nat)
}

/// The high byte of a 16-bit word.
pub open spec fn high_byte(value: u16) -> u8 {
    (value / 256) as u8
}

/// The low byte of a 16-bit word.
pub open spec fn low_byte(value: u16) -> u8 {
    (value % 256) as u8
}

/// The plain sum of the big-endian 16-bit words of `bytes`. A trailing odd
/// byte counts as the high byte of a word whose low byte is zero.
pub open spec fn word_sum(bytes: Seq<u8>) -> nat
    decreases bytes.len(),
{
    if bytes.len() == 0 {
        0
    } else if bytes.len() % 2 == 1 {
        word_sum(bytes.drop_last()) + word(bytes.last(), 0)
    } else {
        word_sum(bytes.subrange(0, bytes.len() - 2)) + word(
            bytes[bytes.len() - 2],
            bytes[bytes.len() - 1],
        )
    }
}

/// Folds the carries above bit 15 back into the low 16 bits until none is
/// left: the ones' complement reading of a plain sum.
pub open spec fn fold_carries(sum: nat) -> nat
    decreases sum,
{
    if sum < 0x1_0000 {
        sum
    } else {
        fold_carries(sum / 0x1_0000 + sum % 0x1_0000)
    }
}

/// The Internet checksum of `bytes`: the complement of the folded sum of
/// their words.
pub open spec fn internet_checksum(bytes: Seq<u8>) -> u16 {
    (0xFFFF - fold_carries(word_sum(bytes))) as u16
}

/// Whether data that carries its own checksum passes the receiver's test:
/// its words, the checksum among them, add up to all ones.
pub open spec fn checksum_holds(bytes: Seq<u8>) -> bool {
    fold_carries(word_sum(bytes)) == 0xFFFF
}

/// `bytes` with the 16-bit `value` stored big-endian at `offset`.
pub open spec fn with_word_at(bytes: Seq<u8>, offset: int, value: u16) -> Seq<u8> {
    bytes.update(offset, high_byte(value)).update(offset + 1, low_byte(value))
}

/// Folding has a closed form: zero stays zero, and every other sum lands on
/// its residue modulo 0xFFFF, taken in 1..=0xFFFF.
pub proof fn lemma_fold_carries_closed_form(sum: nat)
    ensures
        sum == 0 ==> fold_carries(sum) == 0,
        sum > 0 ==> fold_carries(sum) == (sum - 1) % 0xFFFF + 1,
    decreases sum,
{
    if sum >= 0x1_0000 {
        let quotient = sum / 0x1_0000;
        let folded = quotient + sum % 0x1_0000;
        lemma_fold_carries_closed_form(folded);
        assert(sum - 1 == 0xFFFF * quotient + (folded - 1));
        lemma_mod_multiples_vanish(quotient as int, folded - 1, 0xFFFF);
    }
}

/// Folding a sum in two steps gives what folding it at once gives.
pub proof fn lemma_fold_carries_add(folded_part: nat, rest: nat)
    ensures
        fold_carries(fold_carries(folded_part) + rest) == fold_carries(folded_part + rest),
{
    lemma_fold_carries_closed_form(folded_part);
    lemma_fold_carries_closed_form(fold_carries(folded_part) + rest);
    lemma_fold_carries_closed_form(folded_part + rest);
    if folded_part > 0 {
        let quotient = (folded_part - 1) / 0xFFFF;
        let residue = (folded_part - 1) % 0xFFFF;
        assert(folded_part + rest - 1 == 0xFFFF * quotient + (residue + rest));
        lemma_mod_multiples_vanish(quotient, residue + rest, 0xFFFF);
    }
}

/// Appending one whole word to data of even length adds that word to the sum.
pub proof fn lemma_word_sum_push_word(bytes: Seq<u8>, high: u8, low: u8)
    requires
        bytes.len() % 2 == 0,
    ensures
        word_sum(bytes.push(high).push(low)) == word_sum(bytes) + word(high, low),
{
    let extended = bytes.push(high).push(low);
    assert(extended.subrange(0, extended.len() - 2) =~= bytes);
}

/// Appending a last odd byte to data of even length adds it as a high byte.
pub proof fn lemma_word_sum_push_byte(bytes: Seq<u8>, last: u8)
    requires
        bytes.len() % 2 == 0,
    ensures
        word_sum(bytes.push(last)) == word_sum(bytes) + word(last, 0),
{
    assert(bytes.push(last).drop_last() =~= bytes);
}

/// Storing a word over a zero word at an even offset of data of even length
/// adds that word to the sum.
pub proof fn lemma_word_sum_with_word_at(bytes: Seq<u8>, offset: int, value: u16)
    requires
        bytes.len() % 2 == 0,
        offset % 2 == 0,
        0 <= offset,
        offset + 2 <= bytes.len(),
        bytes[offset] == 0,
        bytes[offset + 1] == 0,
    ensures
        word_sum(with_word_at(bytes, offset, value)) == word_sum(bytes) + value,
    decreases bytes.len(),
{
    let stored = with_word_at(bytes, offset, value);
    let end = bytes.len() - 2;
    if offset == end {
        assert(stored.subrange(0, end) =~= bytes.subrange(0, end));
    } else {
        let head = bytes.subrange(0, end);
        lemma_word_sum_with_word_at(head, offset, value);
        assert(stored.subrange(0, end) =~= with_word_at(head, offset, value));
    }
}

/// Data of even length whose checksum field was zero while the checksum was
/// taken, and which then carries that checksum in the field, passes the
/// receiver's test.
pub proof fn lemma_stored_checksum_holds(bytes: Seq<u8>, offset: int)
    requires
        bytes.len() % 2 == 0,
        offset % 2 == 0,
        0 <= offset,
        offset + 2 <= bytes.len(),
        bytes[offset] == 0,
        bytes[offset + 1] == 0,
    ensures
        checksum_holds(with_word_at(bytes, offset, internet_checksum(bytes))),
{
    let sum = word_sum(bytes);
    let value = internet_checksum(bytes);
    lemma_word_sum_with_word_at(bytes, offset, value);
    lemma_fold_carries_closed_form(sum);
    lemma_fold_carries_closed_form(sum + value as nat);
    if sum > 0 {
        let quotient = (sum - 1) / 0xFFFF;
        assert(sum + value - 1 == 0xFFFF * quotient + 0xFFFE);
        lemma_mod_multiples_vanish(quotient, 0xFFFE, 0xFFFF);
    }
}

/// Adds one word to a folded sum and folds the result again.
fn add_folded(folded: u32, high: u8, low: u8) -> (next: u32)
    requires
        folded <= 0xFFFF,
    ensures
        next <= 0xFFFF,
        next == fold_carries(folded as nat + word(high, low)),
{
    let sum: u32 = folded + (high as u32) * 256 + (low as u32);
    if sum >= 0x1_0000 {
        assert(fold_carries(sum as nat) == fold_carries((sum / 0x1_0000 + sum % 0x1_0000) as nat));
        sum - 0xFFFF
    } else {
        sum
    }
}

/// Computes the Internet checksum of `bytes`.
pub fn checksum(bytes: &[u8]) -> (value: u16)
    ensures
        value == internet_checksum(bytes@),
{
    let length: usize = bytes.len();
    let mut folded: u32 = 0;
    let mut index: usize = 0;
    assert(bytes@.take(0) =~= Seq::<u8>::empty());
    while length - index >= 2
        invariant
            length == bytes@.len(),
            index <= length,
            index % 2 == 0,
            folded <= 0xFFFF,
            folded == fold_carries(word_sum(bytes@.take(index as int))),
        decreases length - index,
    {
        let high: u8 = bytes[index];
        let low: u8 = bytes[index + 1];
        proof {
            let prefix = bytes@.take(index as int);
            lemma_word_sum_push_word(prefix, high, low);
            assert(prefix.push(high).push(low) =~= bytes@.take(index + 2));
            lemma_fold_carries_add(word_sum(prefix), word(high, low));
        }
        folded = add_folded(folded, high, low);
        index = index + 2;
    }
    if index < length {
        let last: u8 = bytes[index];
        proof {
            let prefix = bytes@.take(index as int);
            lemma_word_sum_push_byte(prefix, last);
            assert(prefix.push(last) =~= bytes@);
            lemma_fold_carries_add(word_sum(prefix), word(last, 0));
        }
        folded = add_folded(folded, last, 0);
    } else {
        assert(bytes@.take(index as int) =~= bytes@);
    }
    (0xFFFF - folded) as u16
}

} // verus!
