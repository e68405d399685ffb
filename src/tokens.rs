//! The token contracts that the protocols issue and that this library only
//! reads or deposits into: an ERC-20 token, Magma's gMON, and the shMONAD
//! vault (ERC-4626). Their selectors come from the function signatures.
use vstd::prelude::*;
use vstd::string::StringSliceAdditionalSpecFns;

use crate::call::{address_arg, is_call, keccak_of, uint_arg, AbiValue, AbiWord, ContractCall};
use crate::eth::Address;

verus! {

/// `c` calls the function with this signature on `to` with `args`.
pub open spec fn calls_signature(
    c: ContractCall,
    to: Address,
    signature: Seq<u8>,
    args: Seq<AbiValue>,
) -> bool {
    is_call(c, to, keccak_of(signature).take(4), args)
}

/// A plain ERC-20 token.
#[allow(non_camel_case_types)]
#[derive(Debug, Clone, Copy)]
pub struct erc20 {
    pub address: Address,
}

impl erc20 {
    pub fn new(address: Address) -> (r: Self)
        ensures
            r.address == address,
    {
        erc20 { address }
    }

    /// Calls `balanceOf(address)`.
    pub fn balance_of(&self, account: Address) -> (r: ContractCall)
        ensures
            calls_signature(
                r,
                self.address,
                "balanceOf(address)".spec_bytes(),
                seq![AbiValue::Word(AbiWord::Address(account))],
            ),
    {
        let mut args: Vec<AbiValue> = Vec::new();
        args.push(address_arg(account));
        ContractCall::from_signature(self.address, "balanceOf(address)", args)
    }
}

/// Magma's liquid staking token.
#[allow(non_camel_case_types)]
#[derive(Debug, Clone, Copy)]
pub struct gMON {
    pub address: Address,
}

impl gMON {
    pub fn new(address: Address) -> (r: Self)
        ensures
            r.address == address,
    {
        gMON { address }
    }

    /// Calls `balanceOf(address)`.
    pub fn balance_of(&self, account: Address) -> (r: ContractCall)
        ensures
            calls_signature(
                r,
                self.address,
                "balanceOf(address)".spec_bytes(),
                seq![AbiValue::Word(AbiWord::Address(account))],
            ),
    {
        let mut args: Vec<AbiValue> = Vec::new();
        args.push(address_arg(account));
        ContractCall::from_signature(self.address, "balanceOf(address)", args)
    }
}

/// The shMONAD vault, which is also its token.
#[allow(non_camel_case_types)]
#[derive(Debug, Clone, Copy)]
pub struct shMON {
    pub address: Address,
}

impl shMON {
    pub fn new(address: Address) -> (r: Self)
        ensures
            r.address == address,
    {
        shMON { address }
    }

    /// Calls `deposit(uint256,address)`: stake `assets`, shares to `receiver`.
    pub fn deposit(&self, assets: ethers::types::U256, receiver: Address) -> (r: ContractCall)
        ensures
            calls_signature(
                r,
                self.address,
                "deposit(uint256,address)".spec_bytes(),
                seq![AbiValue::Word(AbiWord::Uint(assets)), AbiValue::Word(AbiWord::Address(receiver))],
            ),
    {
        let mut args: Vec<AbiValue> = Vec::new();
        args.push(uint_arg(assets));
        args.push(address_arg(receiver));
        assert(args@ =~= seq![AbiValue::Word(AbiWord::Uint(assets)), AbiValue::Word(AbiWord::Address(receiver))]);
        ContractCall::from_signature(self.address, "deposit(uint256,address)", args)
    }

    /// Calls `redeem(uint256,address,address)`: burn `shares` of `owner`,
    /// assets to `receiver`.
    pub fn redeem(&self, shares: ethers::types::U256, receiver: Address, owner: Address) -> (r: ContractCall)
        ensures
            calls_signature(
                r,
                self.address,
                "redeem(uint256,address,address)".spec_bytes(),
                seq![
                    AbiValue::Word(AbiWord::Uint(shares)),
                    AbiValue::Word(AbiWord::Address(receiver)),
                    AbiValue::Word(AbiWord::Address(owner)),
                ],
            ),
    {
        let mut args: Vec<AbiValue> = Vec::new();
        args.push(uint_arg(shares));
        args.push(address_arg(receiver));
        args.push(address_arg(owner));
        assert(args@ =~= seq![
            AbiValue::Word(AbiWord::Uint(shares)),
            AbiValue::Word(AbiWord::Address(receiver)),
            AbiValue::Word(AbiWord::Address(owner)),
        ]);
        ContractCall::from_signature(self.address, "redeem(uint256,address,address)", args)
    }

    /// Calls `totalAssets()`.
    pub fn total_assets(&self) -> (r: ContractCall)
        ensures
            calls_signature(r, self.address, "totalAssets()".spec_bytes(), seq![]),
    {
        let args: Vec<AbiValue> = Vec::new();
        assert(args@ =~= seq![]);
        ContractCall::from_signature(self.address, "totalAssets()", args)
    }
}

} // verus!
