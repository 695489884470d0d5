use vstd::prelude::*;

use crate::authority::decimal_digits;

verus! {

/// One oracle price observation: `value` scaled by `10^-decimals`. Held
/// only for the duration of a claim, to decide the override-unlock branch.
#[derive(Clone, Copy, Debug, PartialEq, Eq, Structural)]
pub struct ChainlinkValue {
    /// The raw signed price as the feed reports it.
    pub value: i128,
    /// How many decimal places scale `value`.
    pub decimals: u32,
}

/// The decimal digits of `value` with its sign, as ASCII bytes.
pub open spec fn signed_decimal_digits(value: i128) -> Seq<u8> {
    if value < 0 {
        seq![45u8] + decimal_digits((-value) as nat)
    } else {
        decimal_digits(value as nat)
    }
}

/// A run of ASCII zeroes.
pub open spec fn zero_run(k: nat) -> Seq<u8> {
    Seq::new(k, |i: int| 48u8)
}

/// The observation as the logs print it: the signed decimal value with a
/// point placed `decimals` characters from the right, padded with a
/// leading "0." and zeroes when the text is shorter than the scale. The
/// scale counts characters, so a sign character takes part in the
/// padding arithmetic like any digit.
pub open spec fn spec_scaled_text(value: i128, decimals: u32) -> Seq<u8> {
    let signed = signed_decimal_digits(value);
    if signed.len() <= decimals {
        seq![48u8, 46u8] + zero_run((decimals - signed.len()) as nat) + signed
    } else {
        signed.insert(signed.len() - decimals, 46u8)
    }
}

/// Renders the decimal digits of an unsigned value, most significant
/// first.
fn u128_decimal_bytes(n: u128) -> (r: Vec<u8>)
    ensures
        r@ == decimal_digits(n as nat),
{
    let mut digits: Vec<u8> = Vec::new();
    let mut m: u128 = n;
    while m >= 10
        invariant
            decimal_digits(n as nat) == decimal_digits(m as nat) + digits@,
        decreases m,
    {
        let ghost digits_before = digits@;
        let ghost m_before = m as nat;
        let last: u8 = 48 + (m % 10) as u8;
        digits.insert(0, last);
        m = m / 10;
        proof {
            assert(m as nat == m_before / 10);
            assert(decimal_digits(m_before) == decimal_digits(m_before / 10).push(last));
            assert(digits@ =~= seq![last] + digits_before);
            assert(decimal_digits(m_before / 10).push(last) + digits_before =~= decimal_digits(
                m_before / 10,
            ) + digits@);
        }
    }
    let last: u8 = 48 + m as u8;
    let ghost digits_before = digits@;
    digits.insert(0, last);
    proof {
        assert(decimal_digits(m as nat) == seq![last]);
        assert(digits@ =~= seq![last] + digits_before);
        assert(decimal_digits(n as nat) =~= digits@);
    }
    digits
}

/// Renders the signed decimal digits of a raw oracle value.
fn signed_decimal_bytes(value: i128) -> (r: Vec<u8>)
    ensures
        r@ == signed_decimal_digits(value),
{
    if value >= 0 {
        u128_decimal_bytes(value as u128)
    } else {
        let magnitude: u128 = ((-(value + 1)) as u128) + 1;
        assert(magnitude as nat == (-value) as nat);
        let mut digits = u128_decimal_bytes(magnitude);
        let ghost digits_before = digits@;
        digits.insert(0, 45);
        proof {
            assert(digits@ =~= seq![45u8] + digits_before);
        }
        digits
    }
}

impl ChainlinkValue {
    /// Packs an observation as read from a feed.
    pub fn new(value: i128, decimals: u32) -> (r: Self)
        ensures
            r == (ChainlinkValue { value, decimals }),
    {
        ChainlinkValue { value, decimals }
    }

    /// The observation's textual form, as the logs show it: the raw value
    /// with the decimal point placed `decimals` characters from the right.
    pub fn scaled_text(&self) -> (r: Vec<u8>)
        ensures
            r@ == spec_scaled_text(self.value, self.decimals),
    {
        let mut signed = signed_decimal_bytes(self.value);
        let len = signed.len();
        if len <= self.decimals as usize {
            let pad: usize = self.decimals as usize - len;
            let mut out: Vec<u8> = Vec::new();
            out.push(48);
            out.push(46);
            let mut k: usize = 0;
            while k < pad
                invariant
                    k <= pad,
                    out@ =~= seq![48u8, 46u8] + zero_run(k as nat),
                decreases pad - k,
            {
                out.push(48);
                k = k + 1;
                proof {
                    assert(out@ =~= seq![48u8, 46u8] + zero_run(k as nat));
                }
            }
            out.append(&mut signed);
            proof {
                assert(out@ =~= spec_scaled_text(self.value, self.decimals));
            }
            out
        } else {
            let at = len - self.decimals as usize;
            let ghost signed_before = signed@;
            signed.insert(at, 46);
            proof {
                assert(signed@ =~= signed_before.insert(
                    signed_before.len() - self.decimals,
                    46u8,
                ));
            }
            signed
        }
    }
}

/// The override-unlock rule: true exactly when the clock reads an even
/// second, nothing has ever been claimed, and the first asset's raw value
/// strictly exceeds the second's. The two raw values are compared as
/// stored, without normalising their decimal scales: the rule is a
/// documented bonus-unlock heuristic, not a security boundary.
pub open spec fn spec_should_override_unlock(
    now: u64,
    claimed: u64,
    feed_a: ChainlinkValue,
    feed_b: ChainlinkValue,
) -> bool {
    now % 2 == 0 && claimed == 0 && feed_a.value > feed_b.value
}

/// Decides the override unlock from the two observations. No ticket state
/// is touched; the caller records the observations if it wants them seen.
pub fn should_override_unlock(
    now: u64,
    claimed: u64,
    feed_a: &ChainlinkValue,
    feed_b: &ChainlinkValue,
) -> (r: bool)
    ensures
        r == spec_should_override_unlock(now, claimed, *feed_a, *feed_b),
{
    now % 2 == 0 && claimed == 0 && feed_a.value > feed_b.value
}

} // verus!
