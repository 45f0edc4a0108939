//! Curve stable pools: what a batch request returns of a pool, and the
//! base pool that the pool's code names.

use crate::primitives::{address_of_text, Address, U256};
use vstd::prelude::*;
use vstd::string::StrSliceExecFns;

verus! {

/// A Curve stable pool.
pub struct CurvePool {
    pub address: Address,
    pub base_pool: Address,
    pub tokens: Vec<Address>,
    pub token_decimals: Vec<u8>,
    pub fee: U256,
    pub a_value: U256,
    pub base_virtual_price: U256,
    pub reserves: Vec<U256>,
}

/// What a batch request returns of a pool.
pub struct PoolData {
    pub tokens: Vec<Address>,
    pub token_decimals: Vec<u8>,
    pub fee: U256,
    pub admin_fee: U256,
    pub a_value: U256,
    pub base_virtual_price: U256,
    pub reserves: Vec<U256>,
}

/// The pool with what a batch request returned of it; its address and its
/// base pool stay.
pub fn populate_pool_data(pool: CurvePool, pool_data: PoolData) -> (out: CurvePool)
    ensures
        out.address == pool.address,
        out.base_pool == pool.base_pool,
        out.tokens == pool_data.tokens,
        out.token_decimals == pool_data.token_decimals,
        out.fee == pool_data.fee,
        out.a_value == pool_data.a_value,
        out.base_virtual_price == pool_data.base_virtual_price,
        out.reserves == pool_data.reserves,
{
    let mut pool = pool;
    pool.tokens = pool_data.tokens;
    pool.token_decimals = pool_data.token_decimals;
    pool.fee = pool_data.fee;
    pool.a_value = pool_data.a_value;
    pool.base_virtual_price = pool_data.base_virtual_price;
    pool.reserves = pool_data.reserves;
    pool
}

/// The base pool that the code of a pool names: the address written in
/// the characters from `start` up to `end` of the code's hexadecimal text;
/// `None` where the text has no such part or the part is no address.
pub fn extract_curve_stable_pool_immutables(bytecode: &str, start: usize, end: usize) -> (base_pool:
    Option<Address>)
    ensures
        base_pool == if start <= end <= bytecode@.len() {
            address_of_text(bytecode@.subrange(start as int, end as int))
        } else {
            None
        },
{
    if start > end || end > bytecode.unicode_len() {
        return None;
    }
    let base_pool_slice = bytecode.substring_char(start, end);
    Address::parse(base_pool_slice)
}

} // verus!
