//! Delays between recorded actions.
use vstd::prelude::*;

verus! {

/// Nanoseconds in one millisecond.
pub const NANOS_PER_MILLI: u128 = 1_000_000;

/// The longest delay: `u64::MAX` seconds and 999 999 999 nanoseconds.
pub const MAX_DELAY_NANOS: u128 = 18_446_744_073_709_551_615_999_999_999;

/// A delay, in nanoseconds, at a speed given in thousandths of the normal one,
/// rounded to the nearest nanosecond.
pub open spec fn at_speed(nanos: nat, thousandths: nat) -> nat {
    let scaled = (nanos * 1000 + thousandths / 2) / thousandths;
    if scaled <= MAX_DELAY_NANOS {
        scaled
    } else {
        MAX_DELAY_NANOS as nat
    }
}

/// A span of time, exact to the nanosecond.
#[derive(Debug, Clone, Copy, PartialEq, Eq, Structural)]
pub struct Delay {
    nanos: u128,
}

impl View for Delay {
    type V = nat;

    closed spec fn view(&self) -> nat {
        self.nanos as nat
    }
}

impl DeepView for Delay {
    type V = nat;

    open spec fn deep_view(&self) -> nat {
        self@
    }
}

impl Delay {
    #[verifier::type_invariant]
    spec fn in_range(self) -> bool {
        self.nanos <= MAX_DELAY_NANOS
    }

    /// No delay at all.
    pub fn zero() -> (delay: Self)
        ensures
            delay@ == 0,
    {
        Delay { nanos: 0 }
    }

    /// A delay of so many nanoseconds, cut off at the longest delay.
    pub fn from_nanos(nanos: u128) -> (delay: Self)
        ensures
            delay@ == if nanos <= MAX_DELAY_NANOS {
                nanos as nat
            } else {
                MAX_DELAY_NANOS as nat
            },
    {
        if nanos <= MAX_DELAY_NANOS {
            Delay { nanos }
        } else {
            Delay { nanos: MAX_DELAY_NANOS }
        }
    }

    /// A delay of so many milliseconds.
    pub fn from_millis(millis: u64) -> (delay: Self)
        ensures
            delay@ == millis * NANOS_PER_MILLI,
    {
        Delay { nanos: millis as u128 * NANOS_PER_MILLI }
    }

    /// The length in nanoseconds.
    pub fn as_nanos(&self) -> (nanos: u128)
        ensures
            nanos == self@,
            nanos <= MAX_DELAY_NANOS,
    {
        proof {
            use_type_invariant(self);
        }
        self.nanos
    }

    /// The number of whole milliseconds.
    pub fn as_millis(&self) -> (millis: u128)
        ensures
            millis == self@ / (NANOS_PER_MILLI as nat),
    {
        self.nanos / NANOS_PER_MILLI
    }

    /// The number of whole milliseconds as it is stored, in 64 bits: longer delays
    /// lose their high bits.
    pub fn stored_millis(&self) -> (millis: u64)
        ensures
            millis == self@ / (NANOS_PER_MILLI as nat) % 0x1_0000_0000_0000_0000,
    {
        (self.as_millis() % 0x1_0000_0000_0000_0000) as u64
    }

    /// The time since an earlier moment, or none if that moment is later.
    pub fn since(&self, earlier: &Self) -> (delay: Self)
        ensures
            delay@ == if self@ >= earlier@ {
                (self@ - earlier@) as nat
            } else {
                0
            },
    {
        proof {
            use_type_invariant(self);
        }
        if self.nanos >= earlier.nanos {
            Delay { nanos: self.nanos - earlier.nanos }
        } else {
            Delay { nanos: 0 }
        }
    }

    /// The delay at a speed given in thousandths of the normal one, rounded to the
    /// nearest nanosecond and cut off at the longest delay: at twice the speed it is
    /// half as long.
    pub fn at_speed(&self, thousandths: u32) -> (delay: Self)
        requires
            thousandths > 0,
        ensures
            delay@ == at_speed(self@, thousandths as nat),
    {
        proof {
            use_type_invariant(self);
        }
        Self::from_nanos((self.nanos * 1000 + thousandths as u128 / 2) / thousandths as u128)
    }

    /// Whether there is no delay.
    pub fn is_zero(&self) -> (z: bool)
        ensures
            z == (self@ == 0),
    {
        self.nanos == 0
    }
}

/// Storing a delay as milliseconds and reading it back loses only what is below a
/// millisecond, unless the delay is longer than 64 bits of milliseconds.
pub proof fn law_stored_delay(nanos: nat)
    requires
        nanos / (NANOS_PER_MILLI as nat) <= u64::MAX,
    ensures
        nanos / (NANOS_PER_MILLI as nat) % 0x1_0000_0000_0000_0000 * NANOS_PER_MILLI <= nanos,
        nanos < nanos / (NANOS_PER_MILLI as nat) % 0x1_0000_0000_0000_0000 * NANOS_PER_MILLI
            + NANOS_PER_MILLI,
{
}

/// A delay at another speed is the delay divided by the speed, to the nearest
/// nanosecond, unless that is longer than the longest delay.
pub proof fn law_scaled_delay(nanos: nat, thousandths: nat)
    requires
        thousandths > 0,
    ensures
        at_speed(nanos, thousandths) <= MAX_DELAY_NANOS,
        2 * (at_speed(nanos, thousandths) * thousandths - nanos * 1000) <= thousandths,
        at_speed(nanos, thousandths) < MAX_DELAY_NANOS ==> -(thousandths as int) <= 2 * (at_speed(
            nanos,
            thousandths,
        ) * thousandths - nanos * 1000),
{
    let sum = (nanos * 1000 + thousandths / 2) as int;
    let t = thousandths as int;
    let q = sum / t;
    vstd::arithmetic::div_mod::lemma_fundamental_div_mod(sum, t);
    assert(0 <= sum % t < t);
    assert(t * q == q * t) by (nonlinear_arith);
    if q > MAX_DELAY_NANOS {
        assert(MAX_DELAY_NANOS * t <= q * t) by (nonlinear_arith)
            requires
                MAX_DELAY_NANOS <= q,
                t > 0,
        ;
    }
}

} // verus!
