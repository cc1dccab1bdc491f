//! Mortality: the window of blocks in which a transaction may be included.

use vstd::prelude::*;
use crate::scale::{le_bytes, lemma_le_bytes_len};

verus! {

/// For how many blocks after the observed head the gateway's transactions stay valid.
pub const MORTALITY_PERIOD: u64 = 5;

/// Two to the power `exponent`.
pub open spec fn pow2(exponent: nat) -> nat
    decreases exponent,
{
    if exponent == 0 {
        1
    } else {
        2 * pow2((exponent - 1) as nat)
    }
}

/// Whether `exponent` names the period that a wish for `period` blocks is rounded to:
/// the least power of two that holds the wish, kept between 4 and 65536.
pub open spec fn rounds_to(period: nat, exponent: nat) -> bool {
    &&& 2 <= exponent <= 16
    &&& exponent < 16 ==> period <= pow2(exponent)
    &&& exponent > 2 ==> pow2((exponent - 1) as nat) < period
}

/// The least exponent from `exponent` on, and no more than 16, whose power holds `period`.
pub open spec fn rounded_exponent_from(period: nat, exponent: nat) -> nat
    decreases 16 - exponent,
{
    if exponent >= 16 || period <= pow2(exponent) {
        exponent
    } else {
        rounded_exponent_from(period, exponent + 1)
    }
}

/// The exponent that a wish for `period` blocks is rounded to.
pub open spec fn rounded_exponent(period: nat) -> nat {
    rounded_exponent_from(period, 2)
}

/// The step in which the phase of a period is counted: one block, or more where the
/// period is longer than 4096 blocks.
pub open spec fn quantum(period: nat) -> nat {
    if period / 4096 >= 1 {
        period / 4096
    } else {
        1
    }
}

/// The phase of block `current` in a period, rounded down to the period's quantum.
pub open spec fn quantized_phase(period: nat, current: nat) -> nat {
    (current % period) / quantum(period) * quantum(period)
}

/// A mortal era: a period of validity and the phase at which the window opens.
#[derive(Clone, Copy, Debug)]
pub struct Era {
    exponent: u8,
    phase: u64,
}

impl Era {
    #[verifier::type_invariant]
    spec fn well_formed(self) -> bool {
        &&& 2 <= self.exponent <= 16
        &&& self.phase < pow2(self.exponent as nat)
        &&& self.phase % (quantum(pow2(self.exponent as nat)) as u64) == 0
    }

    /// The era of a transaction that wishes to live `period` blocks and is made when
    /// block `current` is the head: the period rounded, the phase that of the head.
    pub closed spec fn of(period: nat, current: nat) -> Era {
        Era {
            exponent: rounded_exponent(period) as u8,
            phase: quantized_phase(pow2(rounded_exponent(period)), current) as u64,
        }
    }

    /// What [`Era::of`] is made of: the wish rounded up to a power of two between 4 and
    /// 65536, and the head's place in that period, counted in quanta.
    pub proof fn lemma_of(period: nat, current: nat)
        ensures
            rounds_to(period, Era::of(period, current).exponent()),
            Era::of(period, current).phase() == quantized_phase(
                Era::of(period, current).period(),
                current,
            ),
    {
        lemma_pow2_values();
        lemma_rounded_exponent(period, 2);
        let length = pow2(rounded_exponent(period));
        lemma_pow2_monotone(rounded_exponent(period), 16);
        lemma_rounded_down((current % length) as int, quantum(length) as int);
    }

    /// The binary logarithm of the period.
    pub closed spec fn exponent(self) -> nat {
        self.exponent as nat
    }

    /// The length of the window in blocks.
    pub open spec fn period(self) -> nat {
        pow2(self.exponent())
    }

    /// The phase in the period at which the window opens.
    pub closed spec fn phase(self) -> nat {
        self.phase as nat
    }

    /// The two bytes that stand for the era in a transaction: the exponent less one
    /// in the low four bits, the phase counted in quanta above them.
    pub open spec fn bytes(self) -> Seq<u8> {
        le_bytes((self.exponent() - 1 + 16 * (self.phase() / quantum(self.period()))) as nat, 2)
    }

    /// The era of a transaction that wishes to live `period` blocks and is made when
    /// block `current` is the head.
    pub fn mortal(period: u64, current: u64) -> (era: Era)
        ensures
            era == Era::of(period as nat, current as nat),
    {
        proof {
            lemma_pow2_values();
        }
        let mut exponent: u8 = 2;
        let mut length: u64 = 4;
        while exponent < 16 && length < period
            invariant
                2 <= exponent <= 16,
                length == pow2(exponent as nat),
                rounded_exponent_from(period as nat, exponent as nat) == rounded_exponent(
                    period as nat,
                ),
            decreases 16 - exponent,
        {
            proof {
                lemma_pow2_values();
            }
            exponent += 1;
            length = length * 2;
        }
        let step: u64 = if length / 4096 >= 1 {
            length / 4096
        } else {
            1
        };
        let head: u64 = current % length;
        proof {
            lemma_pow2_values();
            lemma_rounded_down(head as int, step as int);
        }
        let phase: u64 = head / step * step;
        Era { exponent, phase }
    }

    /// An era is written in two bytes.
    pub proof fn lemma_bytes_len(self)
        ensures
            self.bytes().len() == 2,
    {
        lemma_le_bytes_len(
            (self.exponent() - 1 + 16 * (self.phase() / quantum(self.period()))) as nat,
            2,
        );
    }

    /// The length of the window in blocks.
    pub fn length(&self) -> (blocks: u64)
        ensures
            blocks == self.period(),
            4 <= blocks <= 65536,
    {
        proof {
            use_type_invariant(self);
            lemma_pow2_values();
        }
        let mut blocks: u64 = 4;
        let mut e: u8 = 2;
        while e < self.exponent
            invariant
                2 <= e <= self.exponent <= 16,
                blocks == pow2(e as nat),
            decreases self.exponent - e,
        {
            proof {
                lemma_pow2_values();
            }
            e += 1;
            blocks = blocks * 2;
        }
        proof {
            lemma_pow2_values();
        }
        blocks
    }

    /// The phase at which the window opens.
    pub fn start(&self) -> (phase: u64)
        ensures
            phase == self.phase(),
            phase < self.period(),
    {
        proof {
            use_type_invariant(self);
        }
        self.phase
    }

    /// Appends the era's two bytes.
    pub fn encode_to(&self, out: &mut Vec<u8>)
        ensures
            final(out)@ == old(out)@ + self.bytes(),
    {
        proof {
            use_type_invariant(self);
        }
        let length = self.length();
        let step: u64 = if length / 4096 >= 1 {
            length / 4096
        } else {
            1
        };
        proof {
            lemma_pow2_values();
        }
        let quanta: u64 = self.phase / step;
        proof {
            lemma_quanta_are_few(self.exponent(), self.phase());
        }
        let code: u64 = (self.exponent as u64 - 1) + 16 * quanta;
        let ghost before = out@;
        out.push((code % 256) as u8);
        out.push((code / 256) as u8);
        proof {
            reveal_with_fuel(le_bytes, 3);
            assert(code / 256 < 256);
            assert(le_bytes(code as nat, 2) =~= seq![(code % 256) as u8, (code / 256 % 256) as u8]);
            assert(out@ =~= before + self.bytes());
        }
    }
}

/// The powers of two that a period can be.
pub proof fn lemma_pow2_values()
    ensures
        pow2(0) == 1,
        pow2(1) == 2,
        pow2(2) == 4,
        pow2(3) == 8,
        pow2(4) == 16,
        pow2(5) == 32,
        pow2(6) == 64,
        pow2(7) == 128,
        pow2(8) == 256,
        pow2(9) == 512,
        pow2(10) == 1024,
        pow2(11) == 2048,
        pow2(12) == 4096,
        pow2(13) == 8192,
        pow2(14) == 16384,
        pow2(15) == 32768,
        pow2(16) == 65536,
{
    reveal_with_fuel(pow2, 17);
}

/// A phase counted in quanta stays below 4096, so that it fits above the low four bits
/// of a 16-bit code.
pub proof fn lemma_quanta_are_few(exponent: nat, phase: nat)
    requires
        2 <= exponent <= 16,
        phase < pow2(exponent),
    ensures
        phase / quantum(pow2(exponent)) < 4096,
{
    lemma_pow2_values();
    let length = pow2(exponent);
    if exponent == 13 {
        assert(length == 8192 && quantum(length) == 2);
    } else if exponent == 14 {
        assert(length == 16384 && quantum(length) == 4);
    } else if exponent == 15 {
        assert(length == 32768 && quantum(length) == 8);
    } else if exponent == 16 {
        assert(length == 65536 && quantum(length) == 16);
    } else {
        lemma_pow2_monotone(exponent, 12);
        assert(length <= 4096);
        assert(quantum(length) == 1);
    }
}

/// Rounding down to a multiple of `step` gives a multiple of `step` that is no larger.
pub proof fn lemma_rounded_down(value: int, step: int)
    by (nonlinear_arith)
    requires
        0 <= value,
        0 < step,
    ensures
        0 <= value / step * step <= value,
        (value / step * step) % step == 0,
{
}

/// At most one exponent answers a wish: the rounding is a function of the period.
pub proof fn lemma_rounding_is_unique(period: nat, first: nat, second: nat)
    requires
        rounds_to(period, first),
        rounds_to(period, second),
    ensures
        first == second,
{
    lemma_pow2_values();
    if first < second {
        lemma_pow2_monotone(first, (second - 1) as nat);
    } else if second < first {
        lemma_pow2_monotone(second, (first - 1) as nat);
    }
}

/// The search for the exponent ends at the one that rounding asks for.
pub proof fn lemma_rounded_exponent(period: nat, exponent: nat)
    requires
        2 <= exponent <= 16,
        exponent > 2 ==> pow2((exponent - 1) as nat) < period,
    ensures
        rounds_to(period, rounded_exponent_from(period, exponent)),
    decreases 16 - exponent,
{
    if exponent >= 16 || period <= pow2(exponent) {
    } else {
        lemma_rounded_exponent(period, exponent + 1);
    }
}

/// A larger exponent gives no smaller power.
pub proof fn lemma_pow2_monotone(low: nat, high: nat)
    requires
        low <= high,
    ensures
        pow2(low) <= pow2(high),
    decreases high,
{
    if low < high {
        lemma_pow2_monotone(low, (high - 1) as nat);
    }
}

} // verus!
