//! The network this build talks to and the deployed contracts it knows.
use vstd::prelude::*;

use crate::eth::Address;

verus! {

/// Chain id of the Monad testnet.
pub const MONAD_TESTNET_CHAIN_ID: u64 = 10143;

/// The one network that resource URIs may name.
pub const MONAD_TESTNET: &'static str = "monadTestnet";

/// The aPriori vault, which is also its token: 0xb2f82D0f38dc453D596Ad40A37799446Cc89274A.
pub open spec fn aprmon_address_bytes() -> Seq<u8> {
    seq![
        0xb2u8, 0xf8, 0x2d, 0x0f, 0x38, 0xdc, 0x45, 0x3d, 0x59, 0x6a, 0xd4, 0x0a, 0x37, 0x79,
        0x94, 0x46, 0xcc, 0x89, 0x27, 0x4a,
    ]
}

/// Magma's gMON token: 0xaEef2f6B429Cb59C9B2D7bB2141ADa993E8571c3.
pub open spec fn gmon_address_bytes() -> Seq<u8> {
    seq![
        0xaeu8, 0xef, 0x2f, 0x6b, 0x42, 0x9c, 0xb5, 0x9c, 0x9b, 0x2d, 0x7b, 0xb2, 0x14, 0x1a,
        0xda, 0x99, 0x3e, 0x85, 0x71, 0xc3,
    ]
}

/// Magma's stake manager: 0x2c9C959516e9AAEdB2C748224a41249202ca8BE7.
pub open spec fn gmon_stakemanager_address_bytes() -> Seq<u8> {
    seq![
        0x2cu8, 0x9c, 0x95, 0x95, 0x16, 0xe9, 0xaa, 0xed, 0xb2, 0xc7, 0x48, 0x22, 0x4a, 0x41,
        0x24, 0x92, 0x02, 0xca, 0x8b, 0xe7,
    ]
}

/// The shMONAD vault, which is also its token: 0x3a98250F98Dd388C211206983453837C8365BDc1.
pub open spec fn shmon_address_bytes() -> Seq<u8> {
    seq![
        0x3au8, 0x98, 0x25, 0x0f, 0x98, 0xdd, 0x38, 0x8c, 0x21, 0x12, 0x06, 0x98, 0x34, 0x53,
        0x83, 0x7c, 0x83, 0x65, 0xbd, 0xc1,
    ]
}

pub fn aprmon_address() -> (r: Address)
    ensures
        r.0@ == aprmon_address_bytes(),
{
    let r = ethers::types::H160(
        [
            0xb2, 0xf8, 0x2d, 0x0f, 0x38, 0xdc, 0x45, 0x3d, 0x59, 0x6a, 0xd4, 0x0a, 0x37, 0x79,
            0x94, 0x46, 0xcc, 0x89, 0x27, 0x4a,
        ],
    );
    assert(r.0@ =~= aprmon_address_bytes());
    r
}

pub fn gmon_address() -> (r: Address)
    ensures
        r.0@ == gmon_address_bytes(),
{
    let r = ethers::types::H160(
        [
            0xae, 0xef, 0x2f, 0x6b, 0x42, 0x9c, 0xb5, 0x9c, 0x9b, 0x2d, 0x7b, 0xb2, 0x14, 0x1a,
            0xda, 0x99, 0x3e, 0x85, 0x71, 0xc3,
        ],
    );
    assert(r.0@ =~= gmon_address_bytes());
    r
}

pub fn gmon_stakemanager_address() -> (r: Address)
    ensures
        r.0@ == gmon_stakemanager_address_bytes(),
{
    let r = ethers::types::H160(
        [
            0x2c, 0x9c, 0x95, 0x95, 0x16, 0xe9, 0xaa, 0xed, 0xb2, 0xc7, 0x48, 0x22, 0x4a, 0x41,
            0x24, 0x92, 0x02, 0xca, 0x8b, 0xe7,
        ],
    );
    assert(r.0@ =~= gmon_stakemanager_address_bytes());
    r
}

pub fn shmon_address() -> (r: Address)
    ensures
        r.0@ == shmon_address_bytes(),
{
    let r = ethers::types::H160(
        [
            0x3a, 0x98, 0x25, 0x0f, 0x98, 0xdd, 0x38, 0x8c, 0x21, 0x12, 0x06, 0x98, 0x34, 0x53,
            0x83, 0x7c, 0x83, 0x65, 0xbd, 0xc1,
        ],
    );
    assert(r.0@ =~= shmon_address_bytes());
    r
}

} // verus!
