//! The ethers types that the library's values are made of. Both are read
//! through their public fields: a `U256` is four little-endian 64-bit limbs,
//! an `H160` address twenty bytes.
use vstd::prelude::*;

verus! {

#[verifier::external_type_specification]
pub struct ExU256(ethers::types::U256);

#[verifier::external_type_specification]
pub struct ExH160(ethers::types::H160);

} // verus!
