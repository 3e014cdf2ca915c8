use vstd::prelude::*;

use crate::error::SwapError;

verus! {

/// Most Newton steps a stable-curve solve takes before it gives up.
pub const MAX_ITERATIONS: usize = 32;

/// Two successive estimates are at most one apart.
pub open spec fn close(a: int, b: int) -> bool {
    -1 <= a - b <= 1
}

/// One Newton step toward the invariant `D` of reserves `x`, `y` with `ann = 4 * amp`;
/// `None` on a zero reserve, a zero divisor or a value past 128 bits.
pub open spec fn d_step(ann: int, x: int, y: int, d: int) -> Option<int> {
    let p1 = d * d / (2 * x);
    let dp = p1 * d / (2 * y);
    let num = (ann * (x + y) + 2 * dp) * d;
    let den = (ann - 1) * d + 3 * dp;
    if ann == 0 || x == 0 || y == 0 || d * d > u128::MAX || p1 * d > u128::MAX || ann * (x + y) + 2 * dp > u128::MAX
        || num > u128::MAX || den > u128::MAX || den == 0 {
        None
    } else {
        Some(num / den)
    }
}

/// Newton steps from `d` until two estimates are close, with at most `fuel` steps.
pub open spec fn d_iterate(ann: int, x: int, y: int, d: int, fuel: nat) -> Option<int>
    decreases fuel,
{
    if fuel == 0 {
        None
    } else {
        match d_step(ann, x, y, d) {
            None => None,
            Some(next) => if close(next, d) {
                Some(next)
            } else {
                d_iterate(ann, x, y, next, (fuel - 1) as nat)
            },
        }
    }
}

/// The stable invariant `D` of reserves `x` and `y`.
pub open spec fn compute_d_spec(ann: int, x: int, y: int) -> Option<int> {
    if x + y == 0 {
        Some(0)
    } else {
        d_iterate(ann, x, y, x + y, MAX_ITERATIONS as nat)
    }
}

/// One Newton step toward the destination reserve `y` that keeps the invariant.
pub open spec fn y_step(c: int, b: int, d: int, y: int) -> Option<int> {
    if y * y + c > u128::MAX || 2 * y + b > u128::MAX || 2 * y + b <= d {
        None
    } else {
        Some((y * y + c) / (2 * y + b - d))
    }
}

/// Newton steps from `y` until two estimates are close, with at most `fuel` steps.
pub open spec fn y_iterate(c: int, b: int, d: int, y: int, fuel: nat) -> Option<int>
    decreases fuel,
{
    if fuel == 0 {
        None
    } else {
        match y_step(c, b, d, y) {
            None => None,
            Some(next) => if close(next, y) {
                Some(next)
            } else {
                y_iterate(c, b, d, next, (fuel - 1) as nat)
            },
        }
    }
}

/// The destination reserve that keeps invariant `d` once the source reserve is `x`.
pub open spec fn new_destination_spec(ann: int, x: int, d: int) -> Option<int> {
    let c1 = d * d / (2 * x);
    let c = c1 * d / (2 * ann);
    let b = x + d / ann;
    if x == 0 || ann == 0 || d * d > u128::MAX || c1 * d > u128::MAX || b > u128::MAX {
        None
    } else {
        y_iterate(c, b, d, d, MAX_ITERATIONS as nat)
    }
}

/// What a stable curve pays out for `amount` on reserves `src` and `dst`.
pub open spec fn stable_output(amp: int, amount: int, src: int, dst: int) -> Result<int, SwapError> {
    let ann = 4 * amp;
    match compute_d_spec(ann, src, dst) {
        None => Err(SwapError::CalculationFailure),
        Some(d) => match new_destination_spec(ann, src + amount, d) {
            None => Err(SwapError::CalculationFailure),
            Some(y) => if y > dst || amp == 0 {
                Err(SwapError::CalculationFailure)
            } else {
                Ok(dst - y)
            },
        },
    }
}

fn d_step_exec(ann: u128, x: u128, y: u128, d: u128) -> (r: Option<u128>)
    requires
        x <= u64::MAX,
        y <= u64::MAX,
    ensures
        r matches Some(v) ==> d_step(ann as int, x as int, y as int, d as int) == Some(v as int),
        r is None ==> d_step(ann as int, x as int, y as int, d as int) is None,
{
    if ann == 0 || x == 0 || y == 0 {
        return None;
    }
    let dd = d.checked_mul(d)?;
    let p1 = dd / (2 * x);
    let p1d = p1.checked_mul(d)?;
    let dp = p1d / (2 * y);
    let t = ann.checked_mul(x + y)?;
    let dp2 = dp.checked_mul(2)?;
    let t2 = t.checked_add(dp2)?;
    let num = t2.checked_mul(d)?;
    let a1 = (ann - 1).checked_mul(d)?;
    let dp3 = dp.checked_mul(3)?;
    let den = a1.checked_add(dp3)?;
    if den == 0 {
        return None;
    }
    Some(num / den)
}

fn y_step_exec(c: u128, b: u128, d: u128, y: u128) -> (r: Option<u128>)
    ensures
        r matches Some(v) ==> y_step(c as int, b as int, d as int, y as int) == Some(v as int),
        r is None ==> y_step(c as int, b as int, d as int, y as int) is None,
{
    let yy = y.checked_mul(y)?;
    let num = yy.checked_add(c)?;
    let y2 = y.checked_mul(2)?;
    let den = y2.checked_add(b)?;
    if den <= d {
        return None;
    }
    Some(num / (den - d))
}

/// Solves for the stable invariant `D` with at most `MAX_ITERATIONS` Newton steps.
pub fn compute_d(ann: u128, x: u64, y: u64) -> (r: Option<u128>)
    ensures
        r matches Some(v) ==> compute_d_spec(ann as int, x as int, y as int) == Some(v as int),
        r is None ==> compute_d_spec(ann as int, x as int, y as int) is None,
{
    let s: u128 = x as u128 + y as u128;
    if s == 0 {
        return Some(0);
    }
    let mut d: u128 = s;
    let mut i: usize = 0;
    while i < MAX_ITERATIONS
        invariant
            i <= MAX_ITERATIONS,
            s == x + y,
            s != 0,
            d_iterate(ann as int, x as int, y as int, s as int, MAX_ITERATIONS as nat)
                == d_iterate(ann as int, x as int, y as int, d as int, (MAX_ITERATIONS - i) as nat),
        decreases MAX_ITERATIONS - i,
    {
        let next = d_step_exec(ann, x as u128, y as u128, d)?;
        if (next >= d && next - d <= 1) || (d > next && d - next <= 1) {
            return Some(next);
        }
        d = next;
        i = i + 1;
    }
    None
}

/// Solves for the destination reserve that keeps invariant `d` once the source
/// reserve is `x`, with at most `MAX_ITERATIONS` Newton steps.
pub fn compute_new_destination(ann: u128, x: u128, d: u128) -> (r: Option<u128>)
    requires
        x <= 2 * (u64::MAX as int),
        ann <= 4 * (u64::MAX as int),
    ensures
        r matches Some(v) ==> new_destination_spec(ann as int, x as int, d as int) == Some(v as int),
        r is None ==> new_destination_spec(ann as int, x as int, d as int) is None,
{
    if x == 0 || ann == 0 {
        return None;
    }
    let dd = d.checked_mul(d)?;
    let c1 = dd / (2 * x);
    let c1d = c1.checked_mul(d)?;
    let c = c1d / (2 * ann);
    let b = x.checked_add(d / ann)?;
    let mut yv: u128 = d;
    let mut i: usize = 0;
    assert(new_destination_spec(ann as int, x as int, d as int)
        == y_iterate(c as int, b as int, d as int, d as int, MAX_ITERATIONS as nat));
    while i < MAX_ITERATIONS
        invariant
            i <= MAX_ITERATIONS,
            new_destination_spec(ann as int, x as int, d as int)
                == y_iterate(c as int, b as int, d as int, d as int, MAX_ITERATIONS as nat),
            y_iterate(c as int, b as int, d as int, d as int, MAX_ITERATIONS as nat)
                == y_iterate(c as int, b as int, d as int, yv as int, (MAX_ITERATIONS - i) as nat),
        decreases MAX_ITERATIONS - i,
    {
        let next = y_step_exec(c, b, d, yv)?;
        if (next >= yv && next - yv <= 1) || (yv > next && yv - next <= 1) {
            return Some(next);
        }
        yv = next;
        i = i + 1;
    }
    None
}

/// Stable-curve payout for `amount` on reserves `src` and `dst`.
pub fn stable_swap(amp: u64, amount: u64, src: u64, dst: u64) -> (r: Result<u128, SwapError>)
    ensures
        r matches Ok(v) ==> stable_output(amp as int, amount as int, src as int, dst as int) == Ok::<int, SwapError>(v as int),
        r matches Err(e) ==> stable_output(amp as int, amount as int, src as int, dst as int) == Err::<int, SwapError>(e),
{
    let ann: u128 = 4 * amp as u128;
    let d = match compute_d(ann, src, dst) {
        Some(d) => d,
        None => return Err(SwapError::CalculationFailure),
    };
    let y = match compute_new_destination(ann, src as u128 + amount as u128, d) {
        Some(y) => y,
        None => return Err(SwapError::CalculationFailure),
    };
    if y > dst as u128 || amp == 0 {
        return Err(SwapError::CalculationFailure);
    }
    Ok(dst as u128 - y)
}

} // verus!
