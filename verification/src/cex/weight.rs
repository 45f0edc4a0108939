//! The temporal weight of a trade: it decays exponentially with the
//! distance between the trade and the block, faster before the block than
//! after it. The exponent is exact; the exponential itself is taken where
//! prices are exported to floating point.

use crate::rational::Ratio;
use vstd::prelude::*;

verus! {

/// The decay of the weight, for each microsecond before the block.
pub open spec fn pre_decay() -> real {
    3real / 10_000_000real
}

/// The decay of the weight, for each microsecond after the block.
pub open spec fn post_decay() -> real {
    12real / 100_000_000real
}

/// The side of the block on which a trade lies, and how many microseconds
/// from it.
#[derive(Clone, Copy, Debug, PartialEq, Eq, Structural)]
pub enum Decay {
    Pre { elapsed_us: u64 },
    Post { elapsed_us: u64 },
}

/// The side and the distance of a trade from the block. A trade at the
/// block time lies after the block.
pub open spec fn decay_of(block_time: u64, trade_time: u64) -> Decay {
    if trade_time < block_time {
        Decay::Pre { elapsed_us: (block_time - trade_time) as u64 }
    } else {
        Decay::Post { elapsed_us: (trade_time - block_time) as u64 }
    }
}

/// The exponent of the weight of a trade: the decay of its side times its
/// distance from the block, negated.
pub open spec fn weight_exponent(block_time: u64, trade_time: u64) -> real {
    match decay_of(block_time, trade_time) {
        Decay::Pre { elapsed_us } => 0real - pre_decay() * (elapsed_us as real),
        Decay::Post { elapsed_us } => 0real - post_decay() * (elapsed_us as real),
    }
}

/// The side and the distance of a trade from the block.
pub fn calculate_decay(block_time: u64, trade_time: u64) -> (decay: Decay)
    ensures
        decay == decay_of(block_time, trade_time),
{
    if trade_time < block_time {
        Decay::Pre { elapsed_us: block_time - trade_time }
    } else {
        Decay::Post { elapsed_us: trade_time - block_time }
    }
}

/// The exponent of the weight of a trade; the weight is the exponential
/// of it.
pub fn calculate_weight_exponent(block_time: u64, trade_time: u64) -> (exponent: Ratio)
    ensures
        exponent@ == weight_exponent(block_time, trade_time),
{
    let zero = Ratio::zero();
    match calculate_decay(block_time, trade_time) {
        Decay::Pre { elapsed_us } => {
            let rate = Ratio::from_u64(3).div(&Ratio::from_u64(10_000_000));
            zero.sub(&rate.mul(&Ratio::from_u64(elapsed_us)))
        },
        Decay::Post { elapsed_us } => {
            let rate = Ratio::from_u64(12).div(&Ratio::from_u64(100_000_000));
            zero.sub(&rate.mul(&Ratio::from_u64(elapsed_us)))
        },
    }
}

/// At the block time the exponent is zero, so the weight is one.
pub proof fn exponent_is_zero_at_block_time(block_time: u64)
    ensures
        weight_exponent(block_time, block_time) == 0real,
{
}

/// The exponent is never above zero, so the weight is never above one.
pub proof fn exponent_is_never_positive(block_time: u64, trade_time: u64)
    ensures
        weight_exponent(block_time, trade_time) <= 0real,
{
    let pre = pre_decay();
    let post = post_decay();
    match decay_of(block_time, trade_time) {
        Decay::Pre { elapsed_us } => {
            let d = elapsed_us as real;
            assert(pre * d >= 0real) by (nonlinear_arith)
                requires
                    pre > 0real,
                    d >= 0real,
            ;
        },
        Decay::Post { elapsed_us } => {
            let d = elapsed_us as real;
            assert(post * d >= 0real) by (nonlinear_arith)
                requires
                    post > 0real,
                    d >= 0real,
            ;
        },
    }
}

/// Before the block the exponent rises, and with it the weight, as the
/// trade comes closer to the block.
pub proof fn exponent_rises_before_block(block_time: u64, earlier: u64, later: u64)
    requires
        earlier <= later < block_time,
    ensures
        weight_exponent(block_time, earlier) <= weight_exponent(block_time, later),
{
    let pre = pre_decay();
    let far = (block_time - earlier) as real;
    let near = (block_time - later) as real;
    assert(pre * near <= pre * far) by (nonlinear_arith)
        requires
            pre > 0real,
            near <= far,
    ;
}

/// After the block the exponent falls, and with it the weight, as the
/// trade moves away from the block.
pub proof fn exponent_falls_after_block(block_time: u64, earlier: u64, later: u64)
    requires
        block_time <= earlier <= later,
    ensures
        weight_exponent(block_time, later) <= weight_exponent(block_time, earlier),
{
    let post = post_decay();
    let near = (earlier - block_time) as real;
    let far = (later - block_time) as real;
    assert(post * near <= post * far) by (nonlinear_arith)
        requires
            post > 0real,
            near <= far,
    ;
}

/// At equal distance a trade after the block weighs at least as much as
/// one before it.
pub proof fn later_trades_decay_slower(block_time: u64, distance: u64)
    requires
        distance <= block_time,
        block_time + distance <= u64::MAX,
    ensures
        weight_exponent(block_time, (block_time - distance) as u64) <= weight_exponent(
            block_time,
            (block_time + distance) as u64,
        ),
{
    let pre = pre_decay();
    let post = post_decay();
    let d = distance as real;
    assert(post * d <= pre * d) by (nonlinear_arith)
        requires
            post <= pre,
            d >= 0real,
    ;
    if distance == 0 {
        assert(post * d == 0real) by (nonlinear_arith)
            requires
                d == 0real,
        ;
    }
}

} // verus!
