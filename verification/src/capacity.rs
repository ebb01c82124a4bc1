use vstd::prelude::*;

verus! {

/// Ten to the power `exp`.
pub open spec fn pow10(exp: nat) -> nat
    decreases exp,
{
    if exp == 0 {
        1
    } else {
        10 * pow10((exp - 1) as nat)
    }
}

/// The most token units that may ever be minted for `tons` verified tons,
/// where one ton is one whole token of `decimals` decimal places.
pub open spec fn verified_capacity(tons: u64, decimals: u8) -> nat {
    tons as nat * pow10(decimals as nat)
}

/// A power of ten is at least one.
pub proof fn lemma_pow10_positive(exp: nat)
    ensures
        pow10(exp) >= 1,
    decreases exp,
{
    if exp > 0 {
        lemma_pow10_positive((exp - 1) as nat);
    }
}

/// A larger exponent gives no smaller power of ten.
pub proof fn lemma_pow10_monotonic(a: nat, b: nat)
    requires
        a <= b,
    ensures
        pow10(a) <= pow10(b),
    decreases b,
{
    if a < b {
        lemma_pow10_monotonic(a, (b - 1) as nat);
        lemma_pow10_positive((b - 1) as nat);
    }
}

/// Ten to the power `decimals`, or nothing where it does not fit in 64 bits.
pub fn checked_pow10(decimals: u8) -> (r: Option<u64>)
    ensures
        match r {
            Some(p) => p == pow10(decimals as nat),
            None => pow10(decimals as nat) > u64::MAX,
        },
{
    let mut power: u64 = 1;
    let mut i: u8 = 0;
    while i < decimals
        invariant
            i <= decimals,
            power == pow10(i as nat),
        decreases decimals - i,
    {
        match power.checked_mul(10) {
            Some(next) => {
                power = next;
            },
            None => {
                proof {
                    lemma_pow10_monotonic((i + 1) as nat, decimals as nat);
                }
                return None;
            },
        }
        i += 1;
    }
    Some(power)
}

/// Whether `total` token units lie within the capacity of `tons` verified tons.
pub fn within_capacity(total: u64, tons: u64, decimals: u8) -> (r: bool)
    ensures
        r == (total <= verified_capacity(tons, decimals)),
{
    if total == 0 {
        return true;
    }
    if tons == 0 {
        assert(0 * pow10(decimals as nat) == 0) by (nonlinear_arith);
        return false;
    }
    match checked_pow10(decimals) {
        Some(scale) => match tons.checked_mul(scale) {
            Some(capacity) => total <= capacity,
            None => true,
        },
        None => {
            assert(tons as nat * pow10(decimals as nat) > u64::MAX) by (nonlinear_arith)
                requires
                    tons >= 1,
                    pow10(decimals as nat) > u64::MAX,
            ;
            true
        },
    }
}

} // verus!
