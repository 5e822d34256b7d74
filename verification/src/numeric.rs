//! Integer arithmetic shared by the contracts.

use vstd::prelude::*;

verus! {

/// The quotient `a / b` rounded toward zero.
pub open spec fn quotient(a: int, b: int) -> int {
    if a >= 0 {
        if b >= 0 {
            a / b
        } else {
            -(a / -b)
        }
    } else {
        if b >= 0 {
            -(-a / b)
        } else {
            -a / -b
        }
    }
}

/// Whether `n` is a value of `i128`.
pub open spec fn fits(n: int) -> bool {
    i128::MIN <= n <= i128::MAX
}

/// The value of `i128` nearest to `n`.
pub open spec fn clamped(n: int) -> int {
    if n < i128::MIN {
        i128::MIN as int
    } else if n > i128::MAX {
        i128::MAX as int
    } else {
        n
    }
}

/// `a - b`, held at the bounds of `i128`.
pub fn saturating_sub(a: i128, b: i128) -> (r: i128)
    ensures
        r == clamped(a - b),
{
    match a.checked_sub(b) {
        Some(d) => d,
        None => if b > 0 {
            i128::MIN
        } else {
            i128::MAX
        },
    }
}

/// A share of `amount` in hundredths of a percent, rounded toward zero.
pub open spec fn share_of(amount: int, bps: int) -> int {
    quotient(amount * bps, 10_000)
}

proof fn lemma_share_of_naturals(amount: int, bps: int)
    requires
        amount >= 0,
        bps >= 0,
    ensures
        ({
            let q = amount / 10_000;
            let r = amount - q * 10_000;
            let g = bps / 10_000;
            let h = bps - g * 10_000;
            &&& amount * bps >= 0
            &&& amount * bps / 10_000 == q * bps + r * g + r * h / 10_000
            &&& q * bps >= 0
            &&& r * g >= 0
            &&& 0 <= r * h <= 100_000_000
        }),
{
    let q = amount / 10_000;
    let r = amount - q * 10_000;
    let g = bps / 10_000;
    let h = bps - g * 10_000;
    assert(amount * bps == 10_000 * (q * bps + r * g) + r * h) by (nonlinear_arith)
        requires
            amount == q * 10_000 + r,
            bps == g * 10_000 + h,
    ;
    assert(q * bps >= 0 && r * g >= 0 && 0 <= r * h <= 100_000_000) by (nonlinear_arith)
        requires
            q >= 0,
            bps >= 0,
            g >= 0,
            0 <= r < 10_000,
            0 <= h < 10_000,
    ;
}

/// A share is the sum of three parts, which all have its sign.
proof fn lemma_share_parts(amount: int, bps: int)
    ensures
        ({
            let q = quotient(amount, 10_000);
            let r = amount - q * 10_000;
            let g = quotient(bps, 10_000);
            let h = bps - g * 10_000;
            let rest = quotient(r * h, 10_000);
            &&& share_of(amount, bps) == q * bps + r * g + rest
            &&& -100_000_000 <= r * h <= 100_000_000
            &&& (q * bps >= 0 && r * g >= 0 && rest >= 0) || (q * bps <= 0 && r * g <= 0 && rest
                <= 0)
        }),
{
    let a = if amount >= 0 {
        amount
    } else {
        -amount
    };
    let b = if bps >= 0 {
        bps
    } else {
        -bps
    };
    let q = a / 10_000;
    let r = a - q * 10_000;
    let g = b / 10_000;
    let h = b - g * 10_000;
    lemma_share_of_naturals(a, b);
    assert((-a) * b == -(a * b) && a * (-b) == -(a * b) && (-a) * (-b) == a * b)
        by (nonlinear_arith);
    assert((-q) * b == -(q * b) && q * (-b) == -(q * b) && (-q) * (-b) == q * b)
        by (nonlinear_arith);
    assert((-r) * g == -(r * g) && r * (-g) == -(r * g) && (-r) * (-g) == r * g)
        by (nonlinear_arith);
    assert((-r) * h == -(r * h) && r * (-h) == -(r * h) && (-r) * (-h) == r * h)
        by (nonlinear_arith);
}

/// A share of `amount` in hundredths of a percent, rounded toward zero, if it
/// fits an `i128`.
pub fn checked_share(amount: i128, bps: i128) -> (r: Option<i128>)
    ensures
        match r {
            Some(share) => share == share_of(amount as int, bps as int),
            None => !fits(share_of(amount as int, bps as int)),
        },
{
    proof {
        lemma_share_parts(amount as int, bps as int);
    }
    let q: i128 = match amount.checked_div(10_000) {
        Some(v) => v,
        None => return None,
    };
    let r: i128 = amount - q * 10_000;
    let g: i128 = match bps.checked_div(10_000) {
        Some(v) => v,
        None => return None,
    };
    let h: i128 = bps - g * 10_000;
    let whole: i128 = match q.checked_mul(bps) {
        Some(v) => v,
        None => return None,
    };
    let part: i128 = match r.checked_mul(g) {
        Some(v) => v,
        None => return None,
    };
    let rest: i128 = match (r * h).checked_div(10_000) {
        Some(v) => v,
        None => return None,
    };
    match whole.checked_add(part) {
        Some(sum) => sum.checked_add(rest),
        None => None,
    }
}

/// The `width` bytes of `n` in big-endian order, negative numbers in two's
/// complement.
pub open spec fn be_bytes(n: int, width: nat) -> Seq<u8>
    decreases width,
{
    if width == 0 {
        Seq::empty()
    } else {
        be_bytes(n / 256, (width - 1) as nat).push((n % 256) as u8)
    }
}

/// `256` to the power of `width`.
pub open spec fn byte_range(width: nat) -> int
    decreases width,
{
    if width == 0 {
        1
    } else {
        256 * byte_range((width - 1) as nat)
    }
}

/// The `width` bytes of `n` in big-endian order.
pub fn to_be_bytes(n: i64, width: usize) -> (r: Vec<u8>)
    ensures
        r@ == be_bytes(n as int, width as nat),
    decreases width,
{
    if width == 0 {
        Vec::new()
    } else {
        let low: i64 = match n.checked_rem_euclid(256) {
            Some(d) => d,
            None => 0,
        };
        let high: i64 = match n.checked_div_euclid(256) {
            Some(q) => q,
            None => 0,
        };
        let mut r = to_be_bytes(high, width - 1);
        r.push(low as u8);
        r
    }
}

/// `be_bytes` yields `width` bytes.
pub proof fn lemma_be_bytes_len(n: int, width: nat)
    ensures
        be_bytes(n, width).len() == width,
    decreases width,
{
    if width > 0 {
        lemma_be_bytes_len(n / 256, (width - 1) as nat);
    }
}

/// Two numbers less than `256^width` apart differ in their last `width` bytes.
pub proof fn lemma_be_bytes_injective(a: int, b: int, width: nat)
    requires
        be_bytes(a, width) == be_bytes(b, width),
        -byte_range(width) < a - b < byte_range(width),
    ensures
        a == b,
    decreases width,
{
    if width > 0 {
        let high = (width - 1) as nat;
        let pa = be_bytes(a / 256, high);
        let pb = be_bytes(b / 256, high);
        assert(be_bytes(a, width).drop_last() =~= pa);
        assert(be_bytes(b, width).drop_last() =~= pb);
        assert(be_bytes(a, width).last() == (a % 256) as u8);
        assert(be_bytes(b, width).last() == (b % 256) as u8);
        lemma_be_bytes_injective(a / 256, b / 256, high);
    }
}

/// Two concatenations whose first parts have the same length agree part by part.
pub proof fn lemma_split(a: Seq<u8>, b: Seq<u8>, c: Seq<u8>, d: Seq<u8>)
    requires
        a.len() == c.len(),
        a + b == c + d,
    ensures
        a == c,
        b == d,
{
    assert(a =~= (a + b).take(a.len() as int));
    assert(c =~= (c + d).take(c.len() as int));
    assert(b =~= (a + b).skip(a.len() as int));
    assert(d =~= (c + d).skip(c.len() as int));
}

} // verus!
