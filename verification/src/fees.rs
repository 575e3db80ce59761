use vstd::prelude::*;
use vstd::arithmetic::div_mod::{lemma_div_denominator, lemma_div_multiples_vanish};

use crate::errors::ErrorCode;

verus! {

/// The proportional fee on a gross amount at `bps` basis points, rounded
/// down: `floor(amount * bps / 10000)`.  Rounding is always toward zero,
/// favouring the payer.
pub open spec fn spec_fee(amount: u64, bps: u32) -> int {
    (amount * bps) / 10000
}

/// Computes the fee via a 128-bit fixed-point intermediate: the amount is
/// widened, shifted up by 64 bits, multiplied by the basis points and
/// divided by 10000, and the result shifted back down.  Succeeds exactly
/// when `amount * bps` fits in 64 bits; the result then equals
/// `floor(amount * bps / 10000)`.
pub fn calculate_fees(net_amount: u64, fees_bps: u32) -> (r: Result<u64, ErrorCode>)
    ensures
        net_amount * fees_bps < 0x10000000000000000 ==> r == Ok::<u64, ErrorCode>(
            spec_fee(net_amount, fees_bps) as u64,
        ),
        net_amount * fees_bps >= 0x10000000000000000 ==> r == Err::<u64, ErrorCode>(
            ErrorCode::Overflow,
        ),
        // At zero basis points the fee is zero on every amount.
        fees_bps == 0 ==> r == Ok::<u64, ErrorCode>(0),
{
    let f1: u128 = (net_amount as u128) << 64;
    proof {
        assert(f1 == net_amount * 0x10000000000000000) by (bit_vector)
            requires
                f1 == (net_amount as u128) << 64,
        ;
    }
    let f2: u128 = match f1.checked_mul(fees_bps as u128) {
        Some(v) => v,
        None => {
            proof {
                lemma_mul_shift_bound(net_amount, fees_bps);
            }
            return Err(ErrorCode::Overflow);
        },
    };
    proof {
        lemma_mul_shift_bound(net_amount, fees_bps);
    }
    let f3: u128 = match f2.checked_div(10000) {
        Some(v) => v,
        None => {
            return Err(ErrorCode::Overflow);
        },
    };
    let fees_wide: u128 = f3 >> 64;
    proof {
        assert(fees_wide == f3 / 0x10000000000000000) by (bit_vector)
            requires
                fees_wide == f3 >> 64,
        ;
        lemma_shifted_fee_is_fee(net_amount, fees_bps);
        if fees_bps == 0 {
            assert(net_amount * fees_bps == 0) by (nonlinear_arith)
                requires
                    fees_bps == 0,
            ;
        }
    }
    let fees: u64 = fees_wide as u64;
    Ok(fees)
}

/// The widened product `amount * 2^64 * bps` equals `(amount * bps) * 2^64`,
/// so it fits in 128 bits exactly when `amount * bps` fits in 64 bits.
proof fn lemma_mul_shift_bound(amount: u64, bps: u32)
    ensures
        (amount * 0x10000000000000000) * bps == (amount * bps) * 0x10000000000000000,
        amount * bps < 0x10000000000000000 ==> (amount * 0x10000000000000000) * bps
            <= 0xffffffffffffffffffffffffffffffff,
        amount * bps >= 0x10000000000000000 ==> (amount * 0x10000000000000000) * bps
            > 0xffffffffffffffffffffffffffffffff,
{
    assert((amount * 0x10000000000000000) * bps == (amount * bps) * 0x10000000000000000)
        by (nonlinear_arith);
    if amount * bps < 0x10000000000000000 {
        assert((amount * bps) * 0x10000000000000000 <= 0xffffffffffffffff * 0x10000000000000000)
            by (nonlinear_arith)
            requires
                amount * bps <= 0xffffffffffffffff,
        ;
    } else {
        assert((amount * bps) * 0x10000000000000000 >= 0x10000000000000000 * 0x10000000000000000)
            by (nonlinear_arith)
            requires
                amount * bps >= 0x10000000000000000,
        ;
    }
}

/// Shifting the 128-bit quotient back down yields the plain fee:
/// `((amount * 2^64 * bps) / 10000) / 2^64 == (amount * bps) / 10000`.
proof fn lemma_shifted_fee_is_fee(amount: u64, bps: u32)
    ensures
        (((amount * 0x10000000000000000) * bps) / 10000) / 0x10000000000000000 == spec_fee(
            amount,
            bps,
        ),
        spec_fee(amount, bps) <= amount * bps,
{
    let n = (amount * bps) as int;
    let k = 0x10000000000000000int;
    lemma_mul_shift_bound(amount, bps);
    assert((amount * 0x10000000000000000) * bps == n * k);
    // (n*k / 10000) / k == n*k / (10000 * k) == n*k / (k * 10000) == (n*k / k) / 10000
    lemma_div_denominator(n * k, 10000, k);
    lemma_div_denominator(n * k, k, 10000);
    lemma_div_multiples_vanish(n, k);
    assert(n * k / k == n);
    assert(n / 10000 <= n) by (nonlinear_arith)
        requires
            n >= 0,
    ;
}

/// Splits a gross amount into fee and net parts: `fee` is the rounded-down
/// proportional fee and `net` the remainder, so `fee + net == amount` on
/// every success.  With `bps == 0` the fee is zero and the net the full
/// amount.  Fails with `Overflow` exactly when the widened fee product
/// leaves 64 bits or the fee exceeds the amount itself (basis points over
/// 10000 can do that).
pub fn charge_split(amount: u64, fees_bps: u32) -> (r: Result<(u64, u64), ErrorCode>)
    ensures
        r matches Ok((fee, net)) ==> fee == spec_fee(amount, fees_bps) && net == amount - fee
            && fee + net == amount,
        r is Ok <==> amount * fees_bps < 0x10000000000000000 && spec_fee(amount, fees_bps)
            <= amount,
        r is Err ==> r == Err::<(u64, u64), ErrorCode>(ErrorCode::Overflow),
        // At zero basis points nothing is withheld: the fee is zero and
        // the net is the full amount.
        fees_bps == 0 ==> r == Ok::<(u64, u64), ErrorCode>((0u64, amount)),
{
    if fees_bps > 0 {
        let fees = match calculate_fees(amount, fees_bps) {
            Ok(f) => f,
            Err(e) => {
                return Err(e);
            },
        };
        if fees > 0 {
            let net = match amount.checked_sub(fees) {
                Some(v) => v,
                None => {
                    return Err(ErrorCode::Overflow);
                },
            };
            return Ok((fees, net));
        }
        Ok((0, amount))
    } else {
        assert(spec_fee(amount, 0) == 0);
        Ok((0, amount))
    }
}

} // verus!
