use vstd::prelude::*;

verus! {

pub const NUM_NANOS_PER_SECOND: u64 = 1_000_000_000;

pub const NUM_MICROS_PER_SECOND: u64 = 1_000_000;

/// Bits per second in one kilobit per second.
pub const BITS_PER_KBIT: u64 = 1_000;

/// Time, in nanoseconds, needed to move `bytes` bytes at `bps` bits per
/// second; zero at a zero rate, and at most `u64::MAX`.
pub open spec fn transfer_time_nanos(bps: nat, bytes: nat) -> nat {
    if bps == 0 {
        0
    } else {
        let t = bytes * 8 * (NUM_NANOS_PER_SECOND as nat) / bps;
        if t > u64::MAX { u64::MAX as nat } else { t }
    }
}

/// Bytes that a rate of `bps` bits per second moves in `nanos` nanoseconds,
/// the period being counted in whole microseconds; at most `u64::MAX`.
pub open spec fn bytes_per_period(bps: nat, nanos: nat) -> nat {
    let b = bps * (nanos / 1000) / (8 * NUM_MICROS_PER_SECOND as nat);
    if b > u64::MAX { u64::MAX as nat } else { b }
}

/// `bps * num / den`, rounded to the nearest integer (halves away from
/// zero), and at most `u64::MAX`.
pub open spec fn scaled_bps(bps: nat, num: nat, den: nat) -> nat
    recommends
        den > 0,
{
    let s = (bps * num + den / 2) / den;
    if s > u64::MAX { u64::MAX as nat } else { s }
}

/// The rate, in bits per second, that moves `bytes` bytes in `nanos`
/// nanoseconds counted in whole microseconds (at least one); at least one bit
/// per second for a non-empty amount, and at most `u64::MAX`.
pub open spec fn rate_of_transfer(bytes: nat, nanos: nat) -> nat {
    if bytes == 0 {
        0
    } else {
        let micros = if nanos / 1000 == 0 { 1 } else { nanos / 1000 };
        let r = bytes * 8 * (NUM_MICROS_PER_SECOND as nat) / micros;
        if r == 0 { 1 } else if r > u64::MAX { u64::MAX as nat } else { r }
    }
}

/// A non-negative data rate, held in bits per second.
#[derive(Clone, Copy, Debug, PartialEq, Eq, Structural)]
pub struct Bandwidth {
    bits_per_second: u64,
}

proof fn lemma_mul_u64_fits_u128(a: u64, b: u64)
    ensures
        (a as nat) * (b as nat) <= (u64::MAX as nat) * (u64::MAX as nat),
{
    assert((a as nat) * (b as nat) <= (u64::MAX as nat) * (u64::MAX as nat)) by (nonlinear_arith)
        requires
            a <= u64::MAX,
            b <= u64::MAX,
    ;
}

impl Bandwidth {
    /// The rate in bits per second.
    pub closed spec fn bps(self) -> nat {
        self.bits_per_second as nat
    }

    pub fn from_bits_per_second(bits_per_second: u64) -> (r: Bandwidth)
        ensures
            r.bps() == bits_per_second,
    {
        Bandwidth { bits_per_second }
    }

    pub fn from_kbits_per_second(k_bits_per_second: u64) -> (r: Bandwidth)
        requires
            k_bits_per_second * BITS_PER_KBIT <= u64::MAX,
        ensures
            r.bps() == k_bits_per_second * BITS_PER_KBIT,
    {
        Bandwidth { bits_per_second: k_bits_per_second * BITS_PER_KBIT }
    }

    /// The rate that moves `bytes` bytes in `time_delta_nanos` nanoseconds.
    pub fn from_bytes_and_time_delta(bytes: usize, time_delta_nanos: u64) -> (r: Bandwidth)
        ensures
            r.bps() == rate_of_transfer(bytes as nat, time_delta_nanos as nat),
    {
        if bytes == 0 {
            return Bandwidth { bits_per_second: 0 };
        }
        let micros: u64 = if time_delta_nanos / 1000 == 0 { 1 } else { time_delta_nanos / 1000 };
        let b: u128 = bytes as u128;
        assert(b <= u64::MAX);
        let micro_bits: u128 = b * 8_000_000u128;
        let r: u128 = micro_bits / micros as u128;
        let bits_per_second: u64 = if r == 0 {
            1
        } else if r > u64::MAX as u128 {
            u64::MAX
        } else {
            r as u64
        };
        Bandwidth { bits_per_second }
    }

    pub fn zero() -> (r: Bandwidth)
        ensures
            r.bps() == 0,
    {
        Bandwidth { bits_per_second: 0 }
    }

    pub fn to_bits_per_second(&self) -> (r: u64)
        ensures
            r == self.bps(),
    {
        self.bits_per_second
    }

    /// The smaller of the two rates.
    pub fn min(self, other: Bandwidth) -> (r: Bandwidth)
        ensures
            r == (if self.bps() <= other.bps() { self } else { other }),
    {
        if self.bits_per_second <= other.bits_per_second {
            self
        } else {
            other
        }
    }

    /// This rate multiplied by the factor `numerator / denominator`, rounded
    /// to the nearest bit per second and capped at `u64::MAX`.
    pub fn scale(self, numerator: u64, denominator: u64) -> (r: Bandwidth)
        requires
            denominator > 0,
        ensures
            r.bps() == scaled_bps(self.bps(), numerator as nat, denominator as nat),
    {
        proof {
            lemma_mul_u64_fits_u128(self.bits_per_second, numerator);
        }
        let product: u128 = self.bits_per_second as u128 * numerator as u128;
        let half: u128 = (denominator / 2) as u128;
        let sum: u128 = product + half;
        let s: u128 = sum / denominator as u128;
        let bits_per_second: u64 = if s > u64::MAX as u128 { u64::MAX } else { s as u64 };
        Bandwidth { bits_per_second }
    }

    /// Time, in nanoseconds, needed to move `bytes` bytes at this rate. A zero
    /// rate moves any amount in no time; a result too long for `u64` is capped.
    pub fn transfer_time(&self, bytes: usize) -> (r: u64)
        ensures
            r == transfer_time_nanos(self.bps(), bytes as nat),
    {
        if self.bits_per_second == 0 {
            return 0;
        }
        let b: u128 = bytes as u128;
        assert(b <= u64::MAX);
        let bits_nanos: u128 = b * 8_000_000_000u128;
        let t: u128 = bits_nanos / self.bits_per_second as u128;
        if t > u64::MAX as u128 { u64::MAX } else { t as u64 }
    }

    /// Bytes that this rate moves in `period_nanos` nanoseconds, counted in
    /// whole microseconds, capped at `u64::MAX`.
    pub fn to_bytes_per_period(&self, period_nanos: u64) -> (r: u64)
        ensures
            r == bytes_per_period(self.bps(), period_nanos as nat),
    {
        let micros: u64 = period_nanos / 1000;
        proof {
            lemma_mul_u64_fits_u128(self.bits_per_second, micros);
        }
        let bits: u128 = self.bits_per_second as u128 * micros as u128;
        let b: u128 = bits / (8 * NUM_MICROS_PER_SECOND) as u128;
        if b > u64::MAX as u128 { u64::MAX } else { b as u64 }
    }
}

} // verus!
