//! The 16-bit one's-complement Internet checksum, used by the frame codec to
//! fill the TCP checksum field of a forged SYN/ACK, together with the law
//! that the filled-in segment re-sums to the all-ones value (whose complement
//! is zero).

use vstd::arithmetic::div_mod::lemma_fundamental_div_mod;
use vstd::arithmetic::div_mod::lemma_mod_multiples_vanish;
use vstd::arithmetic::div_mod::lemma_small_mod;
use vstd::prelude::*;

verus! {

/// The plain (unbounded) sum of the 16-bit big-endian words of `s`; an odd
/// trailing byte is treated as the high half of a word with a zero low byte.
pub open spec fn spec_word_sum(s: Seq<u8>) -> int
    decreases s.len(),
{
    if s.len() == 0 {
        0
    } else if s.len() == 1 {
        s[0] * 0x100
    } else {
        s[0] * 0x100 + s[1] + spec_word_sum(s.skip(2))
    }
}

/// The one's-complement sum of the words of `s`: the plain word sum folded
/// back into sixteen bits with end-around carry. Folding preserves the value
/// modulo 0xffff and maps any positive sum into `1..=0xffff`; a sum of zero
/// stays zero. This closed form is exactly what the end-around-carry fold
/// computes.
pub open spec fn spec_ones_complement_sum(s: Seq<u8>) -> int {
    let total = spec_word_sum(s);
    if total == 0 {
        0
    } else {
        (total - 1) % 0xffff + 1
    }
}

/// The Internet checksum of `s`: the bitwise complement, within sixteen bits,
/// of the one's-complement sum of its words.
pub open spec fn spec_checksum(s: Seq<u8>) -> u16 {
    (0xffff - spec_ones_complement_sum(s)) as u16
}

/// The word sum is never negative.
pub proof fn lemma_word_sum_nonneg(s: Seq<u8>)
    ensures
        spec_word_sum(s) >= 0,
    decreases s.len(),
{
    if s.len() >= 2 {
        lemma_word_sum_nonneg(s.skip(2));
    }
}

/// The one's-complement sum always lies in `0..=0xffff`, and is zero exactly
/// when the plain word sum is zero.
pub proof fn lemma_ones_complement_sum_bounds(s: Seq<u8>)
    ensures
        0 <= spec_ones_complement_sum(s) <= 0xffff,
        spec_ones_complement_sum(s) == 0 <==> spec_word_sum(s) == 0,
{
    lemma_word_sum_nonneg(s);
}

/// Compute the Internet checksum of `data`, whose checksum field (if any)
/// must already hold zeroes. The length bound is the IPv4 maximum packet
/// size, which keeps the 32-bit accumulator far from overflow.
pub fn internet_checksum(data: &Vec<u8>) -> (r: u16)
    requires
        data@.len() <= 0xffff,
    ensures
        r == spec_checksum(data@),
{
    proof {
        lemma_word_sum_nonneg(data@);
    }
    let ghost total = spec_word_sum(data@);
    let mut sum: u32 = 0;
    let mut i: usize = 0;
    proof {
        assert(data@.skip(0) =~= data@);
    }
    while i + 1 < data.len()
        invariant
            data@.len() <= 0xffff,
            i % 2 == 0,
            i <= data@.len(),
            sum + spec_word_sum(data@.skip(i as int)) == total,
            sum <= i * 0x8000,
        decreases data@.len() - i,
    {
        proof {
            lemma_word_sum_nonneg(data@.skip(i as int));
            lemma_word_sum_nonneg(data@.skip(i + 2));
            assert(data@.skip(i as int).skip(2) =~= data@.skip(i + 2));
        }
        sum = sum + (data[i] as u32) * 0x100 + (data[i + 1] as u32);
        i = i + 2;
    }
    if i < data.len() {
        proof {
            lemma_word_sum_nonneg(data@.skip(i as int));
        }
        sum = sum + (data[i] as u32) * 0x100;
        i = i + 1;
        proof {
            assert(data@.skip(i as int) =~= Seq::<u8>::empty());
        }
    } else {
        proof {
            if i == data@.len() {
                assert(data@.skip(i as int) =~= Seq::<u8>::empty());
            }
        }
    }
    assert(sum == total);
    // Fold the carries back in until the sum fits in sixteen bits; each fold
    // subtracts a positive multiple of 0xffff, so the value is preserved
    // modulo 0xffff and stays positive.
    while sum > 0xffff
        invariant
            sum as int % 0xffff == total % 0xffff,
            sum == 0 <==> total == 0,
        decreases sum,
    {
        let low: u32 = sum & 0xffff;
        let high: u32 = sum >> 16;
        proof {
            assert(low == sum as int % 0x10000 && high == sum as int / 0x10000) by (bit_vector)
                requires
                    low == sum & 0xffff && high == sum >> 16,
            ;
            lemma_fundamental_div_mod(sum as int, 0x10000);
            assert(sum == 0x10000 * high + low);
            assert(low + high + 0xffff * high == sum);
            lemma_mod_multiples_vanish(high as int, low + high, 0xffff);
        }
        sum = low + high;
    }
    proof {
        lemma_ones_complement_sum_bounds(data@);
        if total != 0 {
            let folded = spec_ones_complement_sum(data@);
            lemma_mod_multiples_vanish((total - 1) / 0xffff, folded - 1, 0xffff);
            lemma_fundamental_div_mod(total - 1, 0xffff);
            lemma_small_mod((folded - 1) as nat, 0xffff);
            assert(folded - 1 == (total - 1) % 0xffff);
            // both `sum` and `folded` lie in 1..=0xffff and are congruent
            // modulo 0xffff, so they are equal
            if sum as int <= 0xfffe {
                lemma_small_mod(sum as nat, 0xffff);
            }
            if folded <= 0xfffe {
                lemma_small_mod(folded as nat, 0xffff);
            }
            assert(sum as int == folded);
        }
    }
    0xffffu16 - (sum as u16)
}

/// Writing bytes `hi`, `lo` over two zero bytes that begin an aligned word
/// raises the word sum by exactly the value of that word.
pub proof fn lemma_word_sum_update(s: Seq<u8>, i: int, hi: u8, lo: u8)
    requires
        0 <= i,
        2 * i + 1 < s.len(),
        s[2 * i] == 0,
        s[2 * i + 1] == 0,
    ensures
        spec_word_sum(s.update(2 * i, hi).update(2 * i + 1, lo)) == spec_word_sum(s) + hi * 0x100
            + lo,
    decreases i,
{
    let t = s.update(2 * i, hi).update(2 * i + 1, lo);
    if i == 0 {
        assert(t.skip(2) =~= s.skip(2));
    } else {
        assert(t.skip(2) =~= s.skip(2).update(2 * (i - 1), hi).update(2 * (i - 1) + 1, lo));
        lemma_word_sum_update(s.skip(2), i - 1, hi, lo);
    }
}

/// The Internet checksum self-verification law: take any buffer whose
/// checksum word (the aligned 16-bit word beginning at byte `2 * i`) holds
/// zeroes, compute its checksum, and write that checksum into the word. The
/// stamped buffer's one's-complement sum is then the all-ones value 0xffff,
/// so its complement — the checksum of the stamped buffer — is zero.
pub proof fn lemma_checksum_self_verifies(s: Seq<u8>, i: int)
    requires
        0 <= i,
        2 * i + 1 < s.len(),
        s[2 * i] == 0,
        s[2 * i + 1] == 0,
    ensures
        ({
            let c = spec_checksum(s);
            let stamped = s.update(2 * i, (c / 0x100) as u8).update(2 * i + 1, (c % 0x100) as u8);
            spec_ones_complement_sum(stamped) == 0xffff && spec_checksum(stamped) == 0
        }),
{
    let total = spec_word_sum(s);
    let oc = spec_ones_complement_sum(s);
    let c = spec_checksum(s);
    lemma_word_sum_nonneg(s);
    lemma_ones_complement_sum_bounds(s);
    let hi = (c / 0x100) as u8;
    let lo = (c % 0x100) as u8;
    assert(hi * 0x100 + lo == c) by {
        lemma_fundamental_div_mod(c as int, 0x100);
    };
    let stamped = s.update(2 * i, hi).update(2 * i + 1, lo);
    lemma_word_sum_update(s, i, hi, lo);
    let total2 = spec_word_sum(stamped);
    assert(total2 == total + c);
    if total == 0 {
        assert(c == 0xffff);
        assert(total2 == 0xffff);
        lemma_small_mod(0xfffe, 0xffff);
        assert(spec_ones_complement_sum(stamped) == 0xffff);
    } else {
        // total == k * 0xffff + oc for the nonnegative k below, so the
        // stamped total is exactly (k + 1) * 0xffff
        let k = (total - 1) / 0xffff;
        lemma_fundamental_div_mod(total - 1, 0xffff);
        assert(total == k * 0xffff + oc);
        assert(c == 0xffff - oc);
        assert(total2 == (k + 1) * 0xffff) by {
            assert(total2 == k * 0xffff + oc + (0xffff - oc));
        };
        assert(total2 > 0) by {
            assert(k >= 0);
            assert((k + 1) * 0xffff >= 1 * 0xffff) by (nonlinear_arith)
                requires
                    k >= 0,
            ;
        };
        assert(total2 - 1 == 0xffff * k + 0xfffe);
        lemma_mod_multiples_vanish(k, 0xfffe, 0xffff);
        lemma_small_mod(0xfffe, 0xffff);
        assert((total2 - 1) % 0xffff == 0xfffe);
        assert(spec_ones_complement_sum(stamped) == 0xffff);
    }
}

} // verus!
