use vstd::prelude::*;

verus! {

/// `r` is the integer square root of `n`: the largest number whose square
/// does not exceed `n`.
pub open spec fn is_isqrt(n: nat, r: nat) -> bool {
    r * r <= n < (r + 1) * (r + 1)
}

/// The integer square root of `n`.
pub open spec fn isqrt_spec(n: nat) -> nat {
    choose|r: nat| is_isqrt(n, r)
}

/// Floor of `a * b / c`, computed without intermediate truncation.
pub open spec fn mul_div(a: nat, b: nat, c: nat) -> nat
    recommends
        c > 0,
{
    (a * b) / c
}

/// What a ratio multiplication yields in 128 bits: nothing when the
/// denominator is zero or the quotient does not fit.
pub open spec fn checked_mul_div(a: u128, b: u128, c: u128) -> Option<u128> {
    if c == 0 || mul_div(a as nat, b as nat, c as nat) > u128::MAX {
        None
    } else {
        Some(mul_div(a as nat, b as nat, c as nat) as u128)
    }
}

/// Two integer square roots of the same number coincide.
pub proof fn lemma_isqrt_unique(n: nat, r1: nat, r2: nat)
    requires
        is_isqrt(n, r1),
        is_isqrt(n, r2),
    ensures
        r1 == r2,
{
    if r1 < r2 {
        assert((r1 + 1) * (r1 + 1) <= r2 * r2) by (nonlinear_arith)
            requires
                r1 + 1 <= r2,
        ;
    } else if r2 < r1 {
        assert((r2 + 1) * (r2 + 1) <= r1 * r1) by (nonlinear_arith)
            requires
                r2 + 1 <= r1,
        ;
    }
}

/// Every natural number has an integer square root.
pub proof fn lemma_isqrt_exists(n: nat)
    ensures
        is_isqrt(n, isqrt_spec(n)),
    decreases n,
{
    if n == 0 {
        assert(0nat * 0nat <= 0 < (0nat + 1) * (0nat + 1)) by (nonlinear_arith);
        assert(is_isqrt(0, 0));
    } else {
        lemma_isqrt_exists((n - 1) as nat);
        let r = isqrt_spec((n - 1) as nat);
        if n < (r + 1) * (r + 1) {
            assert(is_isqrt(n, r));
        } else {
            assert((r + 1 + 1) * (r + 1 + 1) > (r + 1) * (r + 1)) by (nonlinear_arith);
            assert(is_isqrt(n, r + 1));
        }
    }
}

/// `isqrt_spec(n)` is the only `r` with `is_isqrt(n, r)`.
pub proof fn lemma_isqrt_is(n: nat, r: nat)
    requires
        is_isqrt(n, r),
    ensures
        isqrt_spec(n) == r,
{
    lemma_isqrt_unique(n, r, isqrt_spec(n));
}

/// The integer square root of a 128-bit number fits in 64 bits.
pub proof fn lemma_isqrt_bound(n: nat)
    requires
        n <= u128::MAX,
    ensures
        isqrt_spec(n) <= u64::MAX,
{
    lemma_isqrt_exists(n);
    let r = isqrt_spec(n);
    if r > u64::MAX {
        assert(r * r >= 0x1_0000_0000_0000_0000 * 0x1_0000_0000_0000_0000) by (nonlinear_arith)
            requires
                r >= 0x1_0000_0000_0000_0000,
        ;
    }
}

/// Calls `cosmwasm_std::Isqrt::isqrt` on a `Uint128`. The contract claims that
/// the Newton iteration there returns the floor of the square root.
#[verifier::external_body]
fn uint128_isqrt(n: u128) -> (r: u128)
    ensures
        is_isqrt(n as nat, r as nat),
{
    cosmwasm_std::Isqrt::isqrt(cosmwasm_std::Uint128::new(n)).u128()
}

/// Calls `cosmwasm_std::Uint128::checked_multiply_ratio`. The contract claims
/// that it returns the floor of `value * numerator / denominator`, taken over
/// 256 bits, and fails exactly when the denominator is zero or the quotient
/// exceeds 128 bits.
#[verifier::external_body]
fn uint128_checked_multiply_ratio(value: u128, numerator: u128, denominator: u128) -> (r: Option<u128>)
    ensures
        r == checked_mul_div(value, numerator, denominator),
{
    match cosmwasm_std::Uint128::new(value).checked_multiply_ratio(numerator, denominator) {
        Ok(q) => Some(q.u128()),
        Err(_) => None,
    }
}

/// Integer square root of `n`.
pub fn isqrt(n: u128) -> (r: u128)
    ensures
        r as nat == isqrt_spec(n as nat),
        r <= u64::MAX,
{
    let r = uint128_isqrt(n);
    proof {
        lemma_isqrt_is(n as nat, r as nat);
        lemma_isqrt_bound(n as nat);
    }
    r
}

/// `value * numerator / denominator`, rounded down, or `None` when the
/// denominator is zero or the result exceeds 128 bits.
pub fn multiply_ratio(value: u128, numerator: u128, denominator: u128) -> (r: Option<u128>)
    ensures
        r == checked_mul_div(value, numerator, denominator),
{
    uint128_checked_multiply_ratio(value, numerator, denominator)
}

} // verus!
