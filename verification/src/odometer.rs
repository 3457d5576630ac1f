//! The digit drums of a mechanical odometer.
//!
//! The odometer shows whole kilometres on decade drums, lowest digit first;
//! the fraction of the current kilometre and the turning of the drums are
//! real-valued and animated by the host.
use vstd::prelude::*;
use vstd::arithmetic::power::pow;

verus! {

/// The `i`-th decimal digit of `km`, counted from the lowest.
pub open spec fn decade_digit(km: nat, i: nat) -> nat {
    (km / pow(10, i) as nat) % 10
}

proof fn lemma_pow10_step(i: nat)
    ensures
        pow(10, i) > 0,
        pow(10, i + 1) == 10 * pow(10, i),
{
    vstd::arithmetic::power::lemma_pow_positive(10, i);
    vstd::arithmetic::power::lemma_pow_adds(10, i, 1);
    vstd::arithmetic::power::lemma_pow1(10);
}

/// The initial values of `count` decade drums for a reading of `full_km`
/// whole kilometres: the decimal digits of `full_km`, lowest first, with
/// zeros beyond its highest digit.
pub fn decade_init_values(full_km: u64, count: usize) -> (res: Vec<u64>)
    ensures
        res@.len() == count,
        forall|i: int| 0 <= i < count ==> #[trigger] res@[i] == decade_digit(full_km as nat, i as nat),
{
    let mut out: Vec<u64> = Vec::new();
    let mut rest: u64 = full_km;
    proof {
        vstd::arithmetic::power::lemma_pow0(10);
        assert(pow(10, 0) as nat == 1);
        assert((full_km as nat) / 1 == full_km as nat);
    }
    for i in 0..count
        invariant
            out@.len() == i,
            rest as nat == (full_km as nat) / pow(10, i as nat) as nat,
            forall|j: int| 0 <= j < i ==> #[trigger] out@[j] == decade_digit(full_km as nat, j as nat),
    {
        proof {
            lemma_pow10_step(i as nat);
            let p = pow(10, i as nat) as nat;
            vstd::arithmetic::div_mod::lemma_div_denominator(full_km as int, p as int, 10);
            assert(p * 10 == pow(10, (i + 1) as nat)) by (nonlinear_arith)
                requires
                    pow(10, (i + 1) as nat) == 10 * pow(10, i as nat),
                    p == pow(10, i as nat);
        }
        let v = if rest > 0 {
            let d = rest % 10;
            rest = rest / 10;
            d
        } else {
            0
        };
        out.push(v);
    }
    out
}

/// The drums show the decimal digits of the reading: each digit is below
/// ten, the lowest drum shows the reading modulo ten, and the drums above
/// it show the digits of the reading divided by ten.
pub proof fn lemma_decade_digits_are_decimal(km: nat, i: nat)
    ensures
        decade_digit(km, i) < 10,
        decade_digit(km, 0) == km % 10,
        decade_digit(km, i + 1) == decade_digit(km / 10, i),
{
    vstd::arithmetic::power::lemma_pow0(10);
    assert(pow(10, 0) as nat == 1);
    assert(km / 1 == km);
    lemma_pow10_step(i);
    let p = pow(10, i);
    vstd::arithmetic::div_mod::lemma_div_denominator(km as int, 10, p);
    assert(10 * p == pow(10, i + 1));
    assert((km as int / 10) / p == km as int / (10 * p));
}

} // verus!
