//! The aPriori liquid staking vault (aprMON): a builder for each of its
//! functions and events, its calls as values, and its errors.
use vstd::prelude::*;
use vstd::string::StringSliceAdditionalSpecFns;

use crate::call::{
    abi_encoding, address_arg, bool_arg, calldata_of, selector_is, is_call_to, is_small_uint,
    is_tuple_of, is_uint_array, keccak_of, small_uint_arg, uint_arg, uint_array_arg, AbiValue,
    AbiWord, ContractCall, EventFilter,
};
use crate::eth::Address;

verus! {

#[allow(non_camel_case_types)]
#[derive(Debug, Clone, Copy)]
pub struct aprMON {
    pub address: Address,
}

impl aprMON {
    /// The contract deployed at `address`.
    pub fn new(address: Address) -> (r: Self)
        ensures
            r.address == address,
    {
        aprMON { address }
    }

    pub fn address(&self) -> (r: Address)
        ensures
            r == self.address,
    {
        self.address
    }

    /// Calls the contract's `MAX_BASIS_POINTS` (0xf4ea93d8) function.
    pub fn max_basis_points(&self) -> (r: ContractCall)
        ensures
            is_call_to(r, self.address, seq![0xf4, 0xea, 0x93, 0xd8], 0),
    {
        let args: Vec<AbiValue> = Vec::new();
        ContractCall::new(self.address, [0xf4, 0xea, 0x93, 0xd8], args)
    }

    /// Calls the contract's `MAX_PERCENTAGE` (0x4c255c97) function.
    pub fn max_percentage(&self) -> (r: ContractCall)
        ensures
            is_call_to(r, self.address, seq![0x4c, 0x25, 0x5c, 0x97], 0),
    {
        let args: Vec<AbiValue> = Vec::new();
        ContractCall::new(self.address, [0x4c, 0x25, 0x5c, 0x97], args)
    }

    /// Calls the contract's `allowance` (0xdd62ed3e) function.
    pub fn allowance(&self, owner: Address, spender: Address) -> (r: ContractCall)
        ensures
            is_call_to(r, self.address, seq![0xdd, 0x62, 0xed, 0x3e], 2),
            r.args@[0] == AbiValue::Word(AbiWord::Address(owner)),
            r.args@[1] == AbiValue::Word(AbiWord::Address(spender)),
    {
        let mut args: Vec<AbiValue> = Vec::new();
        args.push(address_arg(owner));
        args.push(address_arg(spender));
        ContractCall::new(self.address, [0xdd, 0x62, 0xed, 0x3e], args)
    }

    /// Calls the contract's `approve` (0x095ea7b3) function.
    pub fn approve(&self, spender: Address, value: ethers::types::U256) -> (r: ContractCall)
        ensures
            is_call_to(r, self.address, seq![0x09, 0x5e, 0xa7, 0xb3], 2),
            r.args@[0] == AbiValue::Word(AbiWord::Address(spender)),
            r.args@[1] == AbiValue::Word(AbiWord::Uint(value)),
    {
        let mut args: Vec<AbiValue> = Vec::new();
        args.push(address_arg(spender));
        args.push(uint_arg(value));
        ContractCall::new(self.address, [0x09, 0x5e, 0xa7, 0xb3], args)
    }

    /// Calls the contract's `asset` (0x38d52e0f) function.
    pub fn asset(&self) -> (r: ContractCall)
        ensures
            is_call_to(r, self.address, seq![0x38, 0xd5, 0x2e, 0x0f], 0),
    {
        let args: Vec<AbiValue> = Vec::new();
        ContractCall::new(self.address, [0x38, 0xd5, 0x2e, 0x0f], args)
    }

    /// Calls the contract's `balanceOf` (0x70a08231) function.
    pub fn balance_of(&self, account: Address) -> (r: ContractCall)
        ensures
            is_call_to(r, self.address, seq![0x70, 0xa0, 0x82, 0x31], 1),
            r.args@[0] == AbiValue::Word(AbiWord::Address(account)),
    {
        let mut args: Vec<AbiValue> = Vec::new();
        args.push(address_arg(account));
        ContractCall::new(self.address, [0x70, 0xa0, 0x82, 0x31], args)
    }

    /// Calls the contract's `burnableShares` (0x5a0b2753) function.
    pub fn burnable_shares(&self) -> (r: ContractCall)
        ensures
            is_call_to(r, self.address, seq![0x5a, 0x0b, 0x27, 0x53], 0),
    {
        let args: Vec<AbiValue> = Vec::new();
        ContractCall::new(self.address, [0x5a, 0x0b, 0x27, 0x53], args)
    }

    /// Calls the contract's `claimProtocolFees` (0x4a7d0369) function.
    pub fn claim_protocol_fees(&self) -> (r: ContractCall)
        ensures
            is_call_to(r, self.address, seq![0x4a, 0x7d, 0x03, 0x69], 0),
    {
        let args: Vec<AbiValue> = Vec::new();
        ContractCall::new(self.address, [0x4a, 0x7d, 0x03, 0x69], args)
    }

    /// Calls the contract's `claimRewards` (0x372500ab) function.
    pub fn claim_rewards(&self) -> (r: ContractCall)
        ensures
            is_call_to(r, self.address, seq![0x37, 0x25, 0x00, 0xab], 0),
    {
        let args: Vec<AbiValue> = Vec::new();
        ContractCall::new(self.address, [0x37, 0x25, 0x00, 0xab], args)
    }

    /// Calls the contract's `claimableRedeemRequest` (0xeaed1d07) function.
    pub fn claimable_redeem_request(&self, request_id: ethers::types::U256, controller: Address) -> (r: ContractCall)
        ensures
            is_call_to(r, self.address, seq![0xea, 0xed, 0x1d, 0x07], 2),
            r.args@[0] == AbiValue::Word(AbiWord::Uint(request_id)),
            r.args@[1] == AbiValue::Word(AbiWord::Address(controller)),
    {
        let mut args: Vec<AbiValue> = Vec::new();
        args.push(uint_arg(request_id));
        args.push(address_arg(controller));
        ContractCall::new(self.address, [0xea, 0xed, 0x1d, 0x07], args)
    }

    /// Calls the contract's `convertToAssets` (0x07a2d13a) function.
    pub fn convert_to_assets(&self, shares: ethers::types::U256) -> (r: ContractCall)
        ensures
            is_call_to(r, self.address, seq![0x07, 0xa2, 0xd1, 0x3a], 1),
            r.args@[0] == AbiValue::Word(AbiWord::Uint(shares)),
    {
        let mut args: Vec<AbiValue> = Vec::new();
        args.push(uint_arg(shares));
        ContractCall::new(self.address, [0x07, 0xa2, 0xd1, 0x3a], args)
    }

    /// Calls the contract's `convertToShares` (0xc6e6f592) function.
    pub fn convert_to_shares(&self, assets: ethers::types::U256) -> (r: ContractCall)
        ensures
            is_call_to(r, self.address, seq![0xc6, 0xe6, 0xf5, 0x92], 1),
            r.args@[0] == AbiValue::Word(AbiWord::Uint(assets)),
    {
        let mut args: Vec<AbiValue> = Vec::new();
        args.push(uint_arg(assets));
        ContractCall::new(self.address, [0xc6, 0xe6, 0xf5, 0x92], args)
    }

    /// Calls the contract's `decimals` (0x313ce567) function.
    pub fn decimals(&self) -> (r: ContractCall)
        ensures
            is_call_to(r, self.address, seq![0x31, 0x3c, 0xe5, 0x67], 0),
    {
        let args: Vec<AbiValue> = Vec::new();
        ContractCall::new(self.address, [0x31, 0x3c, 0xe5, 0x67], args)
    }

    /// Calls the contract's `deposit` (0x6e553f65) function.
    pub fn deposit(&self, assets: ethers::types::U256, receiver: Address) -> (r: ContractCall)
        ensures
            is_call_to(r, self.address, seq![0x6e, 0x55, 0x3f, 0x65], 2),
            r.args@[0] == AbiValue::Word(AbiWord::Uint(assets)),
            r.args@[1] == AbiValue::Word(AbiWord::Address(receiver)),
    {
        let mut args: Vec<AbiValue> = Vec::new();
        args.push(uint_arg(assets));
        args.push(address_arg(receiver));
        ContractCall::new(self.address, [0x6e, 0x55, 0x3f, 0x65], args)
    }

    /// Calls the contract's `feeVault` (0x478222c2) function.
    pub fn fee_vault(&self) -> (r: ContractCall)
        ensures
            is_call_to(r, self.address, seq![0x47, 0x82, 0x22, 0xc2], 0),
    {
        let args: Vec<AbiValue> = Vec::new();
        ContractCall::new(self.address, [0x47, 0x82, 0x22, 0xc2], args)
    }

    /// Calls the contract's `getPendingWithdrawalAmounts` (0x785931c1) function.
    pub fn get_pending_withdrawal_amounts(&self) -> (r: ContractCall)
        ensures
            is_call_to(r, self.address, seq![0x78, 0x59, 0x31, 0xc1], 0),
    {
        let args: Vec<AbiValue> = Vec::new();
        ContractCall::new(self.address, [0x78, 0x59, 0x31, 0xc1], args)
    }

    /// Calls the contract's `initialize` (0xf00b051e) function.
    pub fn initialize(&self, stake_pool: Address, fee_vault: Address, owner: Address, minimum_redeem: ethers::types::U256, withdrawal_fee: ethers::types::U256, reward_fee: u8) -> (r: ContractCall)
        ensures
            is_call_to(r, self.address, seq![0xf0, 0x0b, 0x05, 0x1e], 6),
            r.args@[0] == AbiValue::Word(AbiWord::Address(stake_pool)),
            r.args@[1] == AbiValue::Word(AbiWord::Address(fee_vault)),
            r.args@[2] == AbiValue::Word(AbiWord::Address(owner)),
            r.args@[3] == AbiValue::Word(AbiWord::Uint(minimum_redeem)),
            r.args@[4] == AbiValue::Word(AbiWord::Uint(withdrawal_fee)),
            is_small_uint(r.args@[5], reward_fee as nat),
    {
        let mut args: Vec<AbiValue> = Vec::new();
        args.push(address_arg(stake_pool));
        args.push(address_arg(fee_vault));
        args.push(address_arg(owner));
        args.push(uint_arg(minimum_redeem));
        args.push(uint_arg(withdrawal_fee));
        args.push(small_uint_arg(reward_fee as u64));
        ContractCall::new(self.address, [0xf0, 0x0b, 0x05, 0x1e], args)
    }

    /// Calls the contract's `isOperator` (0xb6363cf2) function.
    pub fn is_operator(&self, controller: Address, operator: Address) -> (r: ContractCall)
        ensures
            is_call_to(r, self.address, seq![0xb6, 0x36, 0x3c, 0xf2], 2),
            r.args@[0] == AbiValue::Word(AbiWord::Address(controller)),
            r.args@[1] == AbiValue::Word(AbiWord::Address(operator)),
    {
        let mut args: Vec<AbiValue> = Vec::new();
        args.push(address_arg(controller));
        args.push(address_arg(operator));
        ContractCall::new(self.address, [0xb6, 0x36, 0x3c, 0xf2], args)
    }

    /// Calls the contract's `isSufficientBurnableShares` (0x9424ad09) function.
    pub fn is_sufficient_burnable_shares(&self) -> (r: ContractCall)
        ensures
            is_call_to(r, self.address, seq![0x94, 0x24, 0xad, 0x09], 0),
    {
        let args: Vec<AbiValue> = Vec::new();
        ContractCall::new(self.address, [0x94, 0x24, 0xad, 0x09], args)
    }

    /// Calls the contract's `lastProcessedBlockNumber` (0x0d57a25d) function.
    pub fn last_processed_block_number(&self) -> (r: ContractCall)
        ensures
            is_call_to(r, self.address, seq![0x0d, 0x57, 0xa2, 0x5d], 0),
    {
        let args: Vec<AbiValue> = Vec::new();
        ContractCall::new(self.address, [0x0d, 0x57, 0xa2, 0x5d], args)
    }

    /// Calls the contract's `lastProcessedRequestId` (0x6d679095) function.
    pub fn last_processed_request_id(&self) -> (r: ContractCall)
        ensures
            is_call_to(r, self.address, seq![0x6d, 0x67, 0x90, 0x95], 0),
    {
        let args: Vec<AbiValue> = Vec::new();
        ContractCall::new(self.address, [0x6d, 0x67, 0x90, 0x95], args)
    }

    /// Calls the contract's `maxDeposit` (0x402d267d) function.
    pub fn max_deposit(&self, receiver: Address) -> (r: ContractCall)
        ensures
            is_call_to(r, self.address, seq![0x40, 0x2d, 0x26, 0x7d], 1),
            r.args@[0] == AbiValue::Word(AbiWord::Address(receiver)),
    {
        let mut args: Vec<AbiValue> = Vec::new();
        args.push(address_arg(receiver));
        ContractCall::new(self.address, [0x40, 0x2d, 0x26, 0x7d], args)
    }

    /// Calls the contract's `maxMint` (0xc63d75b6) function.
    pub fn max_mint(&self, receiver: Address) -> (r: ContractCall)
        ensures
            is_call_to(r, self.address, seq![0xc6, 0x3d, 0x75, 0xb6], 1),
            r.args@[0] == AbiValue::Word(AbiWord::Address(receiver)),
    {
        let mut args: Vec<AbiValue> = Vec::new();
        args.push(address_arg(receiver));
        ContractCall::new(self.address, [0xc6, 0x3d, 0x75, 0xb6], args)
    }

    /// Calls the contract's `maxRedeem` (0xd905777e) function.
    pub fn max_redeem(&self, owner: Address) -> (r: ContractCall)
        ensures
            is_call_to(r, self.address, seq![0xd9, 0x05, 0x77, 0x7e], 1),
            r.args@[0] == AbiValue::Word(AbiWord::Address(owner)),
    {
        let mut args: Vec<AbiValue> = Vec::new();
        args.push(address_arg(owner));
        ContractCall::new(self.address, [0xd9, 0x05, 0x77, 0x7e], args)
    }

    /// Calls the contract's `maxWithdraw` (0xce96cb77) function.
    pub fn max_withdraw(&self, owner: Address) -> (r: ContractCall)
        ensures
            is_call_to(r, self.address, seq![0xce, 0x96, 0xcb, 0x77], 1),
            r.args@[0] == AbiValue::Word(AbiWord::Address(owner)),
    {
        let mut args: Vec<AbiValue> = Vec::new();
        args.push(address_arg(owner));
        ContractCall::new(self.address, [0xce, 0x96, 0xcb, 0x77], args)
    }

    /// Calls the contract's `minimumRedeem` (0x572c1f99) function.
    pub fn minimum_redeem(&self) -> (r: ContractCall)
        ensures
            is_call_to(r, self.address, seq![0x57, 0x2c, 0x1f, 0x99], 0),
    {
        let args: Vec<AbiValue> = Vec::new();
        ContractCall::new(self.address, [0x57, 0x2c, 0x1f, 0x99], args)
    }

    /// Calls the contract's `mint` (0x94bf804d) function.
    pub fn mint(&self, shares: ethers::types::U256, receiver: Address) -> (r: ContractCall)
        ensures
            is_call_to(r, self.address, seq![0x94, 0xbf, 0x80, 0x4d], 2),
            r.args@[0] == AbiValue::Word(AbiWord::Uint(shares)),
            r.args@[1] == AbiValue::Word(AbiWord::Address(receiver)),
    {
        let mut args: Vec<AbiValue> = Vec::new();
        args.push(uint_arg(shares));
        args.push(address_arg(receiver));
        ContractCall::new(self.address, [0x94, 0xbf, 0x80, 0x4d], args)
    }

    /// Calls the contract's `name` (0x06fdde03) function.
    pub fn name(&self) -> (r: ContractCall)
        ensures
            is_call_to(r, self.address, seq![0x06, 0xfd, 0xde, 0x03], 0),
    {
        let args: Vec<AbiValue> = Vec::new();
        ContractCall::new(self.address, [0x06, 0xfd, 0xde, 0x03], args)
    }

    /// Calls the contract's `nextRequestId` (0x6a84a985) function.
    pub fn next_request_id(&self) -> (r: ContractCall)
        ensures
            is_call_to(r, self.address, seq![0x6a, 0x84, 0xa9, 0x85], 0),
    {
        let args: Vec<AbiValue> = Vec::new();
        ContractCall::new(self.address, [0x6a, 0x84, 0xa9, 0x85], args)
    }

    /// Calls the contract's `oracleOperator` (0x11679ef7) function.
    pub fn oracle_operator(&self) -> (r: ContractCall)
        ensures
            is_call_to(r, self.address, seq![0x11, 0x67, 0x9e, 0xf7], 0),
    {
        let args: Vec<AbiValue> = Vec::new();
        ContractCall::new(self.address, [0x11, 0x67, 0x9e, 0xf7], args)
    }

    /// Calls the contract's `owner` (0x8da5cb5b) function.
    pub fn owner(&self) -> (r: ContractCall)
        ensures
            is_call_to(r, self.address, seq![0x8d, 0xa5, 0xcb, 0x5b], 0),
    {
        let args: Vec<AbiValue> = Vec::new();
        ContractCall::new(self.address, [0x8d, 0xa5, 0xcb, 0x5b], args)
    }

    /// Calls the contract's `pause` (0x8456cb59) function.
    pub fn pause(&self) -> (r: ContractCall)
        ensures
            is_call_to(r, self.address, seq![0x84, 0x56, 0xcb, 0x59], 0),
    {
        let args: Vec<AbiValue> = Vec::new();
        ContractCall::new(self.address, [0x84, 0x56, 0xcb, 0x59], args)
    }

    /// Calls the contract's `paused` (0x5c975abb) function.
    pub fn paused(&self) -> (r: ContractCall)
        ensures
            is_call_to(r, self.address, seq![0x5c, 0x97, 0x5a, 0xbb], 0),
    {
        let args: Vec<AbiValue> = Vec::new();
        ContractCall::new(self.address, [0x5c, 0x97, 0x5a, 0xbb], args)
    }

    /// Calls the contract's `pendingRedeemRequest` (0xf5a23d8d) function.
    pub fn pending_redeem_request(&self, request_id: ethers::types::U256, controller: Address) -> (r: ContractCall)
        ensures
            is_call_to(r, self.address, seq![0xf5, 0xa2, 0x3d, 0x8d], 2),
            r.args@[0] == AbiValue::Word(AbiWord::Uint(request_id)),
            r.args@[1] == AbiValue::Word(AbiWord::Address(controller)),
    {
        let mut args: Vec<AbiValue> = Vec::new();
        args.push(uint_arg(request_id));
        args.push(address_arg(controller));
        ContractCall::new(self.address, [0xf5, 0xa2, 0x3d, 0x8d], args)
    }

    /// Calls the contract's `previewDeposit` (0xef8b30f7) function.
    pub fn preview_deposit(&self, assets: ethers::types::U256) -> (r: ContractCall)
        ensures
            is_call_to(r, self.address, seq![0xef, 0x8b, 0x30, 0xf7], 1),
            r.args@[0] == AbiValue::Word(AbiWord::Uint(assets)),
    {
        let mut args: Vec<AbiValue> = Vec::new();
        args.push(uint_arg(assets));
        ContractCall::new(self.address, [0xef, 0x8b, 0x30, 0xf7], args)
    }

    /// Calls the contract's `previewMint` (0xb3d7f6b9) function.
    pub fn preview_mint(&self, shares: ethers::types::U256) -> (r: ContractCall)
        ensures
            is_call_to(r, self.address, seq![0xb3, 0xd7, 0xf6, 0xb9], 1),
            r.args@[0] == AbiValue::Word(AbiWord::Uint(shares)),
    {
        let mut args: Vec<AbiValue> = Vec::new();
        args.push(uint_arg(shares));
        ContractCall::new(self.address, [0xb3, 0xd7, 0xf6, 0xb9], args)
    }

    /// Calls the contract's `previewRedeem` (0x4cdad506) function.
    pub fn preview_redeem(&self, shares: ethers::types::U256) -> (r: ContractCall)
        ensures
            is_call_to(r, self.address, seq![0x4c, 0xda, 0xd5, 0x06], 1),
            r.args@[0] == AbiValue::Word(AbiWord::Uint(shares)),
    {
        let mut args: Vec<AbiValue> = Vec::new();
        args.push(uint_arg(shares));
        ContractCall::new(self.address, [0x4c, 0xda, 0xd5, 0x06], args)
    }

    /// Calls the contract's `previewWithdraw` (0x0a28a477) function.
    pub fn preview_withdraw(&self, assets: ethers::types::U256) -> (r: ContractCall)
        ensures
            is_call_to(r, self.address, seq![0x0a, 0x28, 0xa4, 0x77], 1),
            r.args@[0] == AbiValue::Word(AbiWord::Uint(assets)),
    {
        let mut args: Vec<AbiValue> = Vec::new();
        args.push(uint_arg(assets));
        ContractCall::new(self.address, [0x0a, 0x28, 0xa4, 0x77], args)
    }

    /// Calls the contract's `redeem` (0x492e47d2) function.
    pub fn redeem(&self, request_i_ds: Vec<ethers::types::U256>, receiver: Address) -> (r: ContractCall)
        ensures
            is_call_to(r, self.address, seq![0x49, 0x2e, 0x47, 0xd2], 2),
            is_uint_array(r.args@[0], request_i_ds@),
            r.args@[1] == AbiValue::Word(AbiWord::Address(receiver)),
    {
        let mut args: Vec<AbiValue> = Vec::new();
        args.push(uint_array_arg(&request_i_ds));
        args.push(address_arg(receiver));
        ContractCall::new(self.address, [0x49, 0x2e, 0x47, 0xd2], args)
    }

    /// Calls the contract's `redeem` (0x7bde82f2) function.
    pub fn redeem_with_request_id(&self, request_id: ethers::types::U256, receiver: Address) -> (r: ContractCall)
        ensures
            is_call_to(r, self.address, seq![0x7b, 0xde, 0x82, 0xf2], 2),
            r.args@[0] == AbiValue::Word(AbiWord::Uint(request_id)),
            r.args@[1] == AbiValue::Word(AbiWord::Address(receiver)),
    {
        let mut args: Vec<AbiValue> = Vec::new();
        args.push(uint_arg(request_id));
        args.push(address_arg(receiver));
        ContractCall::new(self.address, [0x7b, 0xde, 0x82, 0xf2], args)
    }

    /// Calls the contract's `redeemRequests` (0xe85ba3e9) function.
    pub fn redeem_requests(&self, p0: ethers::types::U256) -> (r: ContractCall)
        ensures
            is_call_to(r, self.address, seq![0xe8, 0x5b, 0xa3, 0xe9], 1),
            r.args@[0] == AbiValue::Word(AbiWord::Uint(p0)),
    {
        let mut args: Vec<AbiValue> = Vec::new();
        args.push(uint_arg(p0));
        ContractCall::new(self.address, [0xe8, 0x5b, 0xa3, 0xe9], args)
    }

    /// Calls the contract's `renounceOwnership` (0x715018a6) function.
    pub fn renounce_ownership(&self) -> (r: ContractCall)
        ensures
            is_call_to(r, self.address, seq![0x71, 0x50, 0x18, 0xa6], 0),
    {
        let args: Vec<AbiValue> = Vec::new();
        ContractCall::new(self.address, [0x71, 0x50, 0x18, 0xa6], args)
    }

    /// Calls the contract's `requestRedeem` (0x7d41c86e) function.
    pub fn request_redeem(&self, shares: ethers::types::U256, controller: Address, owner: Address) -> (r: ContractCall)
        ensures
            is_call_to(r, self.address, seq![0x7d, 0x41, 0xc8, 0x6e], 3),
            r.args@[0] == AbiValue::Word(AbiWord::Uint(shares)),
            r.args@[1] == AbiValue::Word(AbiWord::Address(controller)),
            r.args@[2] == AbiValue::Word(AbiWord::Address(owner)),
    {
        let mut args: Vec<AbiValue> = Vec::new();
        args.push(uint_arg(shares));
        args.push(address_arg(controller));
        args.push(address_arg(owner));
        ContractCall::new(self.address, [0x7d, 0x41, 0xc8, 0x6e], args)
    }

    /// Calls the contract's `rewardFee` (0x8b424267) function.
    pub fn reward_fee(&self) -> (r: ContractCall)
        ensures
            is_call_to(r, self.address, seq![0x8b, 0x42, 0x42, 0x67], 0),
    {
        let args: Vec<AbiValue> = Vec::new();
        ContractCall::new(self.address, [0x8b, 0x42, 0x42, 0x67], args)
    }

    /// Calls the contract's `rewardFeesAccumulated` (0x0f302b97) function.
    pub fn reward_fees_accumulated(&self) -> (r: ContractCall)
        ensures
            is_call_to(r, self.address, seq![0x0f, 0x30, 0x2b, 0x97], 0),
    {
        let args: Vec<AbiValue> = Vec::new();
        ContractCall::new(self.address, [0x0f, 0x30, 0x2b, 0x97], args)
    }

    /// Calls the contract's `setBurnableShares` (0x9cfb3b15) function.
    pub fn set_burnable_shares(&self, burnable_shares: ethers::types::U256) -> (r: ContractCall)
        ensures
            is_call_to(r, self.address, seq![0x9c, 0xfb, 0x3b, 0x15], 1),
            r.args@[0] == AbiValue::Word(AbiWord::Uint(burnable_shares)),
    {
        let mut args: Vec<AbiValue> = Vec::new();
        args.push(uint_arg(burnable_shares));
        ContractCall::new(self.address, [0x9c, 0xfb, 0x3b, 0x15], args)
    }

    /// Calls the contract's `setFeeVault` (0xa591f97f) function.
    pub fn set_fee_vault(&self, fee_vault: Address) -> (r: ContractCall)
        ensures
            is_call_to(r, self.address, seq![0xa5, 0x91, 0xf9, 0x7f], 1),
            r.args@[0] == AbiValue::Word(AbiWord::Address(fee_vault)),
    {
        let mut args: Vec<AbiValue> = Vec::new();
        args.push(address_arg(fee_vault));
        ContractCall::new(self.address, [0xa5, 0x91, 0xf9, 0x7f], args)
    }

    /// Calls the contract's `setLastProcessedBlockNumber` (0xdf780436) function.
    pub fn set_last_processed_block_number(&self, last_processed_block_number: ethers::types::U256) -> (r: ContractCall)
        ensures
            is_call_to(r, self.address, seq![0xdf, 0x78, 0x04, 0x36], 1),
            r.args@[0] == AbiValue::Word(AbiWord::Uint(last_processed_block_number)),
    {
        let mut args: Vec<AbiValue> = Vec::new();
        args.push(uint_arg(last_processed_block_number));
        ContractCall::new(self.address, [0xdf, 0x78, 0x04, 0x36], args)
    }

    /// Calls the contract's `setLastProcessedRequestId` (0xbcfec434) function.
    pub fn set_last_processed_request_id(&self, last_processed_request_id: ethers::types::U256) -> (r: ContractCall)
        ensures
            is_call_to(r, self.address, seq![0xbc, 0xfe, 0xc4, 0x34], 1),
            r.args@[0] == AbiValue::Word(AbiWord::Uint(last_processed_request_id)),
    {
        let mut args: Vec<AbiValue> = Vec::new();
        args.push(uint_arg(last_processed_request_id));
        ContractCall::new(self.address, [0xbc, 0xfe, 0xc4, 0x34], args)
    }

    /// Calls the contract's `setMinimumRedeem` (0xd43092a2) function.
    pub fn set_minimum_redeem(&self, minimum_redeem: ethers::types::U256) -> (r: ContractCall)
        ensures
            is_call_to(r, self.address, seq![0xd4, 0x30, 0x92, 0xa2], 1),
            r.args@[0] == AbiValue::Word(AbiWord::Uint(minimum_redeem)),
    {
        let mut args: Vec<AbiValue> = Vec::new();
        args.push(uint_arg(minimum_redeem));
        ContractCall::new(self.address, [0xd4, 0x30, 0x92, 0xa2], args)
    }

    /// Calls the contract's `setNextRequestId` (0xfe6af403) function.
    pub fn set_next_request_id(&self, next_request_id: ethers::types::U256) -> (r: ContractCall)
        ensures
            is_call_to(r, self.address, seq![0xfe, 0x6a, 0xf4, 0x03], 1),
            r.args@[0] == AbiValue::Word(AbiWord::Uint(next_request_id)),
    {
        let mut args: Vec<AbiValue> = Vec::new();
        args.push(uint_arg(next_request_id));
        ContractCall::new(self.address, [0xfe, 0x6a, 0xf4, 0x03], args)
    }

    /// Calls the contract's `setOperator` (0x558a7297) function.
    pub fn set_operator(&self, operator: Address, approved: bool) -> (r: ContractCall)
        ensures
            is_call_to(r, self.address, seq![0x55, 0x8a, 0x72, 0x97], 2),
            r.args@[0] == AbiValue::Word(AbiWord::Address(operator)),
            r.args@[1] == AbiValue::Word(AbiWord::Bool(approved)),
    {
        let mut args: Vec<AbiValue> = Vec::new();
        args.push(address_arg(operator));
        args.push(bool_arg(approved));
        ContractCall::new(self.address, [0x55, 0x8a, 0x72, 0x97], args)
    }

    /// Calls the contract's `setOracleOperator` (0xae2ad111) function.
    pub fn set_oracle_operator(&self, oracle_operator: Address) -> (r: ContractCall)
        ensures
            is_call_to(r, self.address, seq![0xae, 0x2a, 0xd1, 0x11], 1),
            r.args@[0] == AbiValue::Word(AbiWord::Address(oracle_operator)),
    {
        let mut args: Vec<AbiValue> = Vec::new();
        args.push(address_arg(oracle_operator));
        ContractCall::new(self.address, [0xae, 0x2a, 0xd1, 0x11], args)
    }

    /// Calls the contract's `setRedeemRequest` (0x1eb04996) function.
    pub fn set_redeem_request(&self, request_id: ethers::types::U256, redeem_data: RedeemData) -> (r: ContractCall)
        ensures
            is_call_to(r, self.address, seq![0x1e, 0xb0, 0x49, 0x96], 2),
            r.args@[0] == AbiValue::Word(AbiWord::Uint(request_id)),
            is_tuple_of(r.args@[1], redeem_data.spec_words()),
    {
        let mut args: Vec<AbiValue> = Vec::new();
        args.push(uint_arg(request_id));
        args.push(redeem_data.to_abi());
        ContractCall::new(self.address, [0x1e, 0xb0, 0x49, 0x96], args)
    }

    /// Calls the contract's `setRewardFee` (0xdef4aa4c) function.
    pub fn set_reward_fee(&self, reward_fee: u8) -> (r: ContractCall)
        ensures
            is_call_to(r, self.address, seq![0xde, 0xf4, 0xaa, 0x4c], 1),
            is_small_uint(r.args@[0], reward_fee as nat),
    {
        let mut args: Vec<AbiValue> = Vec::new();
        args.push(small_uint_arg(reward_fee as u64));
        ContractCall::new(self.address, [0xde, 0xf4, 0xaa, 0x4c], args)
    }

    /// Calls the contract's `setRewardFeesAccumulated` (0xef1f7983) function.
    pub fn set_reward_fees_accumulated(&self, reward_fees_accumulated: ethers::types::U256) -> (r: ContractCall)
        ensures
            is_call_to(r, self.address, seq![0xef, 0x1f, 0x79, 0x83], 1),
            r.args@[0] == AbiValue::Word(AbiWord::Uint(reward_fees_accumulated)),
    {
        let mut args: Vec<AbiValue> = Vec::new();
        args.push(uint_arg(reward_fees_accumulated));
        ContractCall::new(self.address, [0xef, 0x1f, 0x79, 0x83], args)
    }

    /// Calls the contract's `setStakePool` (0x3a0e9288) function.
    pub fn set_stake_pool(&self, stake_pool: Address) -> (r: ContractCall)
        ensures
            is_call_to(r, self.address, seq![0x3a, 0x0e, 0x92, 0x88], 1),
            r.args@[0] == AbiValue::Word(AbiWord::Address(stake_pool)),
    {
        let mut args: Vec<AbiValue> = Vec::new();
        args.push(address_arg(stake_pool));
        ContractCall::new(self.address, [0x3a, 0x0e, 0x92, 0x88], args)
    }

    /// Calls the contract's `setTotalPendingDeposit` (0xa879f765) function.
    pub fn set_total_pending_deposit(&self, total_pending_deposit: ethers::types::U256) -> (r: ContractCall)
        ensures
            is_call_to(r, self.address, seq![0xa8, 0x79, 0xf7, 0x65], 1),
            r.args@[0] == AbiValue::Word(AbiWord::Uint(total_pending_deposit)),
    {
        let mut args: Vec<AbiValue> = Vec::new();
        args.push(uint_arg(total_pending_deposit));
        ContractCall::new(self.address, [0xa8, 0x79, 0xf7, 0x65], args)
    }

    /// Calls the contract's `setTotalStaked` (0xe17e7a20) function.
    pub fn set_total_staked(&self, total_staked: ethers::types::U256) -> (r: ContractCall)
        ensures
            is_call_to(r, self.address, seq![0xe1, 0x7e, 0x7a, 0x20], 1),
            r.args@[0] == AbiValue::Word(AbiWord::Uint(total_staked)),
    {
        let mut args: Vec<AbiValue> = Vec::new();
        args.push(uint_arg(total_staked));
        ContractCall::new(self.address, [0xe1, 0x7e, 0x7a, 0x20], args)
    }

    /// Calls the contract's `setWithdrawalFee` (0xac1e5025) function.
    pub fn set_withdrawal_fee(&self, withdrawal_fee: ethers::types::U256) -> (r: ContractCall)
        ensures
            is_call_to(r, self.address, seq![0xac, 0x1e, 0x50, 0x25], 1),
            r.args@[0] == AbiValue::Word(AbiWord::Uint(withdrawal_fee)),
    {
        let mut args: Vec<AbiValue> = Vec::new();
        args.push(uint_arg(withdrawal_fee));
        ContractCall::new(self.address, [0xac, 0x1e, 0x50, 0x25], args)
    }

    /// Calls the contract's `setWithdrawalFeesAccumulated` (0x419dab14) function.
    pub fn set_withdrawal_fees_accumulated(&self, withdrawal_fees_accumulated: ethers::types::U256) -> (r: ContractCall)
        ensures
            is_call_to(r, self.address, seq![0x41, 0x9d, 0xab, 0x14], 1),
            r.args@[0] == AbiValue::Word(AbiWord::Uint(withdrawal_fees_accumulated)),
    {
        let mut args: Vec<AbiValue> = Vec::new();
        args.push(uint_arg(withdrawal_fees_accumulated));
        ContractCall::new(self.address, [0x41, 0x9d, 0xab, 0x14], args)
    }

    /// Calls the contract's `setWithdrawalWaitTime` (0xe9e7a425) function.
    pub fn set_withdrawal_wait_time(&self, withdrawal_wait_time: ethers::types::U256) -> (r: ContractCall)
        ensures
            is_call_to(r, self.address, seq![0xe9, 0xe7, 0xa4, 0x25], 1),
            r.args@[0] == AbiValue::Word(AbiWord::Uint(withdrawal_wait_time)),
    {
        let mut args: Vec<AbiValue> = Vec::new();
        args.push(uint_arg(withdrawal_wait_time));
        ContractCall::new(self.address, [0xe9, 0xe7, 0xa4, 0x25], args)
    }

    /// Calls the contract's `stake` (0xa694fc3a) function.
    pub fn stake(&self, amount: ethers::types::U256) -> (r: ContractCall)
        ensures
            is_call_to(r, self.address, seq![0xa6, 0x94, 0xfc, 0x3a], 1),
            r.args@[0] == AbiValue::Word(AbiWord::Uint(amount)),
    {
        let mut args: Vec<AbiValue> = Vec::new();
        args.push(uint_arg(amount));
        ContractCall::new(self.address, [0xa6, 0x94, 0xfc, 0x3a], args)
    }

    /// Calls the contract's `stakePool` (0xf8ea4756) function.
    pub fn stake_pool(&self) -> (r: ContractCall)
        ensures
            is_call_to(r, self.address, seq![0xf8, 0xea, 0x47, 0x56], 0),
    {
        let args: Vec<AbiValue> = Vec::new();
        ContractCall::new(self.address, [0xf8, 0xea, 0x47, 0x56], args)
    }

    /// Calls the contract's `sweep` (0x6ea056a9) function.
    pub fn sweep(&self, recipient: Address, amount: ethers::types::U256) -> (r: ContractCall)
        ensures
            is_call_to(r, self.address, seq![0x6e, 0xa0, 0x56, 0xa9], 2),
            r.args@[0] == AbiValue::Word(AbiWord::Address(recipient)),
            r.args@[1] == AbiValue::Word(AbiWord::Uint(amount)),
    {
        let mut args: Vec<AbiValue> = Vec::new();
        args.push(address_arg(recipient));
        args.push(uint_arg(amount));
        ContractCall::new(self.address, [0x6e, 0xa0, 0x56, 0xa9], args)
    }

    /// Calls the contract's `symbol` (0x95d89b41) function.
    pub fn symbol(&self) -> (r: ContractCall)
        ensures
            is_call_to(r, self.address, seq![0x95, 0xd8, 0x9b, 0x41], 0),
    {
        let args: Vec<AbiValue> = Vec::new();
        ContractCall::new(self.address, [0x95, 0xd8, 0x9b, 0x41], args)
    }

    /// Calls the contract's `totalAssets` (0x01e1d114) function.
    pub fn total_assets(&self) -> (r: ContractCall)
        ensures
            is_call_to(r, self.address, seq![0x01, 0xe1, 0xd1, 0x14], 0),
    {
        let args: Vec<AbiValue> = Vec::new();
        ContractCall::new(self.address, [0x01, 0xe1, 0xd1, 0x14], args)
    }

    /// Calls the contract's `totalPendingDeposit` (0x7d6f51b2) function.
    pub fn total_pending_deposit(&self) -> (r: ContractCall)
        ensures
            is_call_to(r, self.address, seq![0x7d, 0x6f, 0x51, 0xb2], 0),
    {
        let args: Vec<AbiValue> = Vec::new();
        ContractCall::new(self.address, [0x7d, 0x6f, 0x51, 0xb2], args)
    }

    /// Calls the contract's `totalStaked` (0x817b1cd2) function.
    pub fn total_staked(&self) -> (r: ContractCall)
        ensures
            is_call_to(r, self.address, seq![0x81, 0x7b, 0x1c, 0xd2], 0),
    {
        let args: Vec<AbiValue> = Vec::new();
        ContractCall::new(self.address, [0x81, 0x7b, 0x1c, 0xd2], args)
    }

    /// Calls the contract's `totalSupply` (0x18160ddd) function.
    pub fn total_supply(&self) -> (r: ContractCall)
        ensures
            is_call_to(r, self.address, seq![0x18, 0x16, 0x0d, 0xdd], 0),
    {
        let args: Vec<AbiValue> = Vec::new();
        ContractCall::new(self.address, [0x18, 0x16, 0x0d, 0xdd], args)
    }

    /// Calls the contract's `transfer` (0xa9059cbb) function.
    pub fn transfer(&self, to: Address, value: ethers::types::U256) -> (r: ContractCall)
        ensures
            is_call_to(r, self.address, seq![0xa9, 0x05, 0x9c, 0xbb], 2),
            r.args@[0] == AbiValue::Word(AbiWord::Address(to)),
            r.args@[1] == AbiValue::Word(AbiWord::Uint(value)),
    {
        let mut args: Vec<AbiValue> = Vec::new();
        args.push(address_arg(to));
        args.push(uint_arg(value));
        ContractCall::new(self.address, [0xa9, 0x05, 0x9c, 0xbb], args)
    }

    /// Calls the contract's `transferFrom` (0x23b872dd) function.
    pub fn transfer_from(&self, from: Address, to: Address, value: ethers::types::U256) -> (r: ContractCall)
        ensures
            is_call_to(r, self.address, seq![0x23, 0xb8, 0x72, 0xdd], 3),
            r.args@[0] == AbiValue::Word(AbiWord::Address(from)),
            r.args@[1] == AbiValue::Word(AbiWord::Address(to)),
            r.args@[2] == AbiValue::Word(AbiWord::Uint(value)),
    {
        let mut args: Vec<AbiValue> = Vec::new();
        args.push(address_arg(from));
        args.push(address_arg(to));
        args.push(uint_arg(value));
        ContractCall::new(self.address, [0x23, 0xb8, 0x72, 0xdd], args)
    }

    /// Calls the contract's `transferOwnership` (0xf2fde38b) function.
    pub fn transfer_ownership(&self, new_owner: Address) -> (r: ContractCall)
        ensures
            is_call_to(r, self.address, seq![0xf2, 0xfd, 0xe3, 0x8b], 1),
            r.args@[0] == AbiValue::Word(AbiWord::Address(new_owner)),
    {
        let mut args: Vec<AbiValue> = Vec::new();
        args.push(address_arg(new_owner));
        ContractCall::new(self.address, [0xf2, 0xfd, 0xe3, 0x8b], args)
    }

    /// Calls the contract's `unpause` (0x3f4ba83a) function.
    pub fn unpause(&self) -> (r: ContractCall)
        ensures
            is_call_to(r, self.address, seq![0x3f, 0x4b, 0xa8, 0x3a], 0),
    {
        let args: Vec<AbiValue> = Vec::new();
        ContractCall::new(self.address, [0x3f, 0x4b, 0xa8, 0x3a], args)
    }

    /// Calls the contract's `unstake` (0x2e17de78) function.
    pub fn unstake(&self, amount: ethers::types::U256) -> (r: ContractCall)
        ensures
            is_call_to(r, self.address, seq![0x2e, 0x17, 0xde, 0x78], 1),
            r.args@[0] == AbiValue::Word(AbiWord::Uint(amount)),
    {
        let mut args: Vec<AbiValue> = Vec::new();
        args.push(uint_arg(amount));
        ContractCall::new(self.address, [0x2e, 0x17, 0xde, 0x78], args)
    }

    /// Calls the contract's `updateOracleData` (0x687c0d64) function.
    pub fn update_oracle_data(&self, block_number: ethers::types::U256, pending_deposit_utilised_for_withdrawals: ethers::types::U256, rewards_after_processing_withdrawals: ethers::types::U256, total_staked: ethers::types::U256, burnable_shares: ethers::types::U256, last_processed_request_id: ethers::types::U256, reward_fees: ethers::types::U256) -> (r: ContractCall)
        ensures
            is_call_to(r, self.address, seq![0x68, 0x7c, 0x0d, 0x64], 7),
            r.args@[0] == AbiValue::Word(AbiWord::Uint(block_number)),
            r.args@[1] == AbiValue::Word(AbiWord::Uint(pending_deposit_utilised_for_withdrawals)),
            r.args@[2] == AbiValue::Word(AbiWord::Uint(rewards_after_processing_withdrawals)),
            r.args@[3] == AbiValue::Word(AbiWord::Uint(total_staked)),
            r.args@[4] == AbiValue::Word(AbiWord::Uint(burnable_shares)),
            r.args@[5] == AbiValue::Word(AbiWord::Uint(last_processed_request_id)),
            r.args@[6] == AbiValue::Word(AbiWord::Uint(reward_fees)),
    {
        let mut args: Vec<AbiValue> = Vec::new();
        args.push(uint_arg(block_number));
        args.push(uint_arg(pending_deposit_utilised_for_withdrawals));
        args.push(uint_arg(rewards_after_processing_withdrawals));
        args.push(uint_arg(total_staked));
        args.push(uint_arg(burnable_shares));
        args.push(uint_arg(last_processed_request_id));
        args.push(uint_arg(reward_fees));
        ContractCall::new(self.address, [0x68, 0x7c, 0x0d, 0x64], args)
    }

    /// Calls the contract's `withdrawalFee` (0x8bc7e8c4) function.
    pub fn withdrawal_fee(&self) -> (r: ContractCall)
        ensures
            is_call_to(r, self.address, seq![0x8b, 0xc7, 0xe8, 0xc4], 0),
    {
        let args: Vec<AbiValue> = Vec::new();
        ContractCall::new(self.address, [0x8b, 0xc7, 0xe8, 0xc4], args)
    }

    /// Calls the contract's `withdrawalFeesAccumulated` (0x69b2cd8e) function.
    pub fn withdrawal_fees_accumulated(&self) -> (r: ContractCall)
        ensures
            is_call_to(r, self.address, seq![0x69, 0xb2, 0xcd, 0x8e], 0),
    {
        let args: Vec<AbiValue> = Vec::new();
        ContractCall::new(self.address, [0x69, 0xb2, 0xcd, 0x8e], args)
    }

    /// Calls the contract's `withdrawalWaitTime` (0x0b59bd0c) function.
    pub fn withdrawal_wait_time(&self) -> (r: ContractCall)
        ensures
            is_call_to(r, self.address, seq![0x0b, 0x59, 0xbd, 0x0c], 0),
    {
        let args: Vec<AbiValue> = Vec::new();
        ContractCall::new(self.address, [0x0b, 0x59, 0xbd, 0x0c], args)
    }

    /// The contract's `Approval` event.
    pub fn approval_filter(&self) -> (r: EventFilter)
        ensures
            r.address == self.address,
            r.topic0 is Some,
            r.topic0->Some_0@ == keccak_of("Approval(address,address,uint256)".spec_bytes()),
    {
        EventFilter::event(self.address, "Approval(address,address,uint256)")
    }

    /// The contract's `BurnableSharesUpdated` event.
    pub fn burnable_shares_updated_filter(&self) -> (r: EventFilter)
        ensures
            r.address == self.address,
            r.topic0 is Some,
            r.topic0->Some_0@ == keccak_of("BurnableSharesUpdated(uint256)".spec_bytes()),
    {
        EventFilter::event(self.address, "BurnableSharesUpdated(uint256)")
    }

    /// The contract's `Deposit` event.
    pub fn deposit_filter(&self) -> (r: EventFilter)
        ensures
            r.address == self.address,
            r.topic0 is Some,
            r.topic0->Some_0@ == keccak_of("Deposit(address,address,uint256,uint256)".spec_bytes()),
    {
        EventFilter::event(self.address, "Deposit(address,address,uint256,uint256)")
    }

    /// The contract's `FeeVaultUpdated` event.
    pub fn fee_vault_updated_filter(&self) -> (r: EventFilter)
        ensures
            r.address == self.address,
            r.topic0 is Some,
            r.topic0->Some_0@ == keccak_of("FeeVaultUpdated(address)".spec_bytes()),
    {
        EventFilter::event(self.address, "FeeVaultUpdated(address)")
    }

    /// The contract's `Initialized` event.
    pub fn initialized_filter(&self) -> (r: EventFilter)
        ensures
            r.address == self.address,
            r.topic0 is Some,
            r.topic0->Some_0@ == keccak_of("Initialized(uint64)".spec_bytes()),
    {
        EventFilter::event(self.address, "Initialized(uint64)")
    }

    /// The contract's `LastProcessedBlockNumberUpdated` event.
    pub fn last_processed_block_number_updated_filter(&self) -> (r: EventFilter)
        ensures
            r.address == self.address,
            r.topic0 is Some,
            r.topic0->Some_0@ == keccak_of("LastProcessedBlockNumberUpdated(uint256)".spec_bytes()),
    {
        EventFilter::event(self.address, "LastProcessedBlockNumberUpdated(uint256)")
    }

    /// The contract's `LastProcessedRequestIdUpdated` event.
    pub fn last_processed_request_id_updated_filter(&self) -> (r: EventFilter)
        ensures
            r.address == self.address,
            r.topic0 is Some,
            r.topic0->Some_0@ == keccak_of("LastProcessedRequestIdUpdated(uint256)".spec_bytes()),
    {
        EventFilter::event(self.address, "LastProcessedRequestIdUpdated(uint256)")
    }

    /// The contract's `MinimumRedeemUpdated` event.
    pub fn minimum_redeem_updated_filter(&self) -> (r: EventFilter)
        ensures
            r.address == self.address,
            r.topic0 is Some,
            r.topic0->Some_0@ == keccak_of("MinimumRedeemUpdated(uint256)".spec_bytes()),
    {
        EventFilter::event(self.address, "MinimumRedeemUpdated(uint256)")
    }

    /// The contract's `NextRequestIdUpdated` event.
    pub fn next_request_id_updated_filter(&self) -> (r: EventFilter)
        ensures
            r.address == self.address,
            r.topic0 is Some,
            r.topic0->Some_0@ == keccak_of("NextRequestIdUpdated(uint256)".spec_bytes()),
    {
        EventFilter::event(self.address, "NextRequestIdUpdated(uint256)")
    }

    /// The contract's `OperatorSet` event.
    pub fn operator_set_filter(&self) -> (r: EventFilter)
        ensures
            r.address == self.address,
            r.topic0 is Some,
            r.topic0->Some_0@ == keccak_of("OperatorSet(address,address,bool)".spec_bytes()),
    {
        EventFilter::event(self.address, "OperatorSet(address,address,bool)")
    }

    /// The contract's `OracleDataUpdate` event.
    pub fn oracle_data_update_filter(&self) -> (r: EventFilter)
        ensures
            r.address == self.address,
            r.topic0 is Some,
            r.topic0->Some_0@ == keccak_of("OracleDataUpdate(uint256,uint256,uint256,uint256,uint256,uint256)".spec_bytes()),
    {
        EventFilter::event(self.address, "OracleDataUpdate(uint256,uint256,uint256,uint256,uint256,uint256)")
    }

    /// The contract's `OracleOperatorUpdated` event.
    pub fn oracle_operator_updated_filter(&self) -> (r: EventFilter)
        ensures
            r.address == self.address,
            r.topic0 is Some,
            r.topic0->Some_0@ == keccak_of("OracleOperatorUpdated(address)".spec_bytes()),
    {
        EventFilter::event(self.address, "OracleOperatorUpdated(address)")
    }

    /// The contract's `OwnershipTransferred` event.
    pub fn ownership_transferred_filter(&self) -> (r: EventFilter)
        ensures
            r.address == self.address,
            r.topic0 is Some,
            r.topic0->Some_0@ == keccak_of("OwnershipTransferred(address,address)".spec_bytes()),
    {
        EventFilter::event(self.address, "OwnershipTransferred(address,address)")
    }

    /// The contract's `Paused` event.
    pub fn paused_filter(&self) -> (r: EventFilter)
        ensures
            r.address == self.address,
            r.topic0 is Some,
            r.topic0->Some_0@ == keccak_of("Paused(address)".spec_bytes()),
    {
        EventFilter::event(self.address, "Paused(address)")
    }

    /// The contract's `Redeem` event.
    pub fn redeem_filter(&self) -> (r: EventFilter)
        ensures
            r.address == self.address,
            r.topic0 is Some,
            r.topic0->Some_0@ == keccak_of("Redeem(address,address,uint256,uint256,uint256,uint256)".spec_bytes()),
    {
        EventFilter::event(self.address, "Redeem(address,address,uint256,uint256,uint256,uint256)")
    }

    /// The contract's `RedeemRequest` event.
    pub fn redeem_request_filter(&self) -> (r: EventFilter)
        ensures
            r.address == self.address,
            r.topic0 is Some,
            r.topic0->Some_0@ == keccak_of("RedeemRequest(address,address,uint256,address,uint256,uint256)".spec_bytes()),
    {
        EventFilter::event(self.address, "RedeemRequest(address,address,uint256,address,uint256,uint256)")
    }

    /// The contract's `RedeemRequestUpdated` event.
    pub fn redeem_request_updated_filter(&self) -> (r: EventFilter)
        ensures
            r.address == self.address,
            r.topic0 is Some,
            r.topic0->Some_0@ == keccak_of("RedeemRequestUpdated(uint256,(uint256,address,uint256,bool,uint256))".spec_bytes()),
    {
        EventFilter::event(self.address, "RedeemRequestUpdated(uint256,(uint256,address,uint256,bool,uint256))")
    }

    /// The contract's `RewardFeeUpdated` event.
    pub fn reward_fee_updated_filter(&self) -> (r: EventFilter)
        ensures
            r.address == self.address,
            r.topic0 is Some,
            r.topic0->Some_0@ == keccak_of("RewardFeeUpdated(uint8)".spec_bytes()),
    {
        EventFilter::event(self.address, "RewardFeeUpdated(uint8)")
    }

    /// The contract's `RewardFeesAccumulatedUpdated` event.
    pub fn reward_fees_accumulated_updated_filter(&self) -> (r: EventFilter)
        ensures
            r.address == self.address,
            r.topic0 is Some,
            r.topic0->Some_0@ == keccak_of("RewardFeesAccumulatedUpdated(uint256)".spec_bytes()),
    {
        EventFilter::event(self.address, "RewardFeesAccumulatedUpdated(uint256)")
    }

    /// The contract's `StakePoolUpdated` event.
    pub fn stake_pool_updated_filter(&self) -> (r: EventFilter)
        ensures
            r.address == self.address,
            r.topic0 is Some,
            r.topic0->Some_0@ == keccak_of("StakePoolUpdated(address)".spec_bytes()),
    {
        EventFilter::event(self.address, "StakePoolUpdated(address)")
    }

    /// The contract's `Sweeped` event.
    pub fn sweeped_filter(&self) -> (r: EventFilter)
        ensures
            r.address == self.address,
            r.topic0 is Some,
            r.topic0->Some_0@ == keccak_of("Sweeped(address,uint256)".spec_bytes()),
    {
        EventFilter::event(self.address, "Sweeped(address,uint256)")
    }

    /// The contract's `TotalPendingDepositUpdated` event.
    pub fn total_pending_deposit_updated_filter(&self) -> (r: EventFilter)
        ensures
            r.address == self.address,
            r.topic0 is Some,
            r.topic0->Some_0@ == keccak_of("TotalPendingDepositUpdated(uint256)".spec_bytes()),
    {
        EventFilter::event(self.address, "TotalPendingDepositUpdated(uint256)")
    }

    /// The contract's `TotalStakedUpdated` event.
    pub fn total_staked_updated_filter(&self) -> (r: EventFilter)
        ensures
            r.address == self.address,
            r.topic0 is Some,
            r.topic0->Some_0@ == keccak_of("TotalStakedUpdated(uint256)".spec_bytes()),
    {
        EventFilter::event(self.address, "TotalStakedUpdated(uint256)")
    }

    /// The contract's `Transfer` event.
    pub fn transfer_filter(&self) -> (r: EventFilter)
        ensures
            r.address == self.address,
            r.topic0 is Some,
            r.topic0->Some_0@ == keccak_of("Transfer(address,address,uint256)".spec_bytes()),
    {
        EventFilter::event(self.address, "Transfer(address,address,uint256)")
    }

    /// The contract's `Unpaused` event.
    pub fn unpaused_filter(&self) -> (r: EventFilter)
        ensures
            r.address == self.address,
            r.topic0 is Some,
            r.topic0->Some_0@ == keccak_of("Unpaused(address)".spec_bytes()),
    {
        EventFilter::event(self.address, "Unpaused(address)")
    }

    /// The contract's `WithdrawalFeeUpdated` event.
    pub fn withdrawal_fee_updated_filter(&self) -> (r: EventFilter)
        ensures
            r.address == self.address,
            r.topic0 is Some,
            r.topic0->Some_0@ == keccak_of("WithdrawalFeeUpdated(uint256)".spec_bytes()),
    {
        EventFilter::event(self.address, "WithdrawalFeeUpdated(uint256)")
    }

    /// The contract's `WithdrawalFeesAccumulatedUpdated` event.
    pub fn withdrawal_fees_accumulated_updated_filter(&self) -> (r: EventFilter)
        ensures
            r.address == self.address,
            r.topic0 is Some,
            r.topic0->Some_0@ == keccak_of("WithdrawalFeesAccumulatedUpdated(uint256)".spec_bytes()),
    {
        EventFilter::event(self.address, "WithdrawalFeesAccumulatedUpdated(uint256)")
    }

    /// The contract's `WithdrawalWaitTimeUpdated` event.
    pub fn withdrawal_wait_time_updated_filter(&self) -> (r: EventFilter)
        ensures
            r.address == self.address,
            r.topic0 is Some,
            r.topic0->Some_0@ == keccak_of("WithdrawalWaitTimeUpdated(uint256)".spec_bytes()),
    {
        EventFilter::event(self.address, "WithdrawalWaitTimeUpdated(uint256)")
    }

    /// Every event of this contract.
    pub fn events(&self) -> (r: EventFilter)
        ensures
            r.address == self.address,
            r.topic0 is None,
    {
        EventFilter::all(self.address)
    }
}

/// The arguments of `MAX_BASIS_POINTS()` (selector 0xf4ea93d8).
#[derive(Debug, Clone, Copy, Default, PartialEq, Eq, Hash)]
pub struct MaxBasisPointsCall;

/// The arguments of `MAX_PERCENTAGE()` (selector 0x4c255c97).
#[derive(Debug, Clone, Copy, Default, PartialEq, Eq, Hash)]
pub struct MaxPercentageCall;

/// The arguments of `allowance(address,address)` (selector 0xdd62ed3e).
#[derive(Debug, Clone, Copy)]
pub struct AllowanceCall {
    pub owner: Address,
    pub spender: Address,
}

/// The arguments of `approve(address,uint256)` (selector 0x095ea7b3).
#[derive(Debug, Clone, Copy)]
pub struct ApproveCall {
    pub spender: Address,
    pub value: ethers::types::U256,
}

/// The arguments of `asset()` (selector 0x38d52e0f).
#[derive(Debug, Clone, Copy, Default, PartialEq, Eq, Hash)]
pub struct AssetCall;

/// The arguments of `balanceOf(address)` (selector 0x70a08231).
#[derive(Debug, Clone, Copy)]
pub struct BalanceOfCall {
    pub account: Address,
}

/// The arguments of `burnableShares()` (selector 0x5a0b2753).
#[derive(Debug, Clone, Copy, Default, PartialEq, Eq, Hash)]
pub struct BurnableSharesCall;

/// The arguments of `claimProtocolFees()` (selector 0x4a7d0369).
#[derive(Debug, Clone, Copy, Default, PartialEq, Eq, Hash)]
pub struct ClaimProtocolFeesCall;

/// The arguments of `claimRewards()` (selector 0x372500ab).
#[derive(Debug, Clone, Copy, Default, PartialEq, Eq, Hash)]
pub struct ClaimRewardsCall;

/// The arguments of `claimableRedeemRequest(uint256,address)` (selector 0xeaed1d07).
#[derive(Debug, Clone, Copy)]
pub struct ClaimableRedeemRequestCall {
    pub request_id: ethers::types::U256,
    pub controller: Address,
}

/// The arguments of `convertToAssets(uint256)` (selector 0x07a2d13a).
#[derive(Debug, Clone, Copy)]
pub struct ConvertToAssetsCall {
    pub shares: ethers::types::U256,
}

/// The arguments of `convertToShares(uint256)` (selector 0xc6e6f592).
#[derive(Debug, Clone, Copy)]
pub struct ConvertToSharesCall {
    pub assets: ethers::types::U256,
}

/// The arguments of `decimals()` (selector 0x313ce567).
#[derive(Debug, Clone, Copy, Default, PartialEq, Eq, Hash)]
pub struct DecimalsCall;

/// The arguments of `deposit(uint256,address)` (selector 0x6e553f65).
#[derive(Debug, Clone, Copy)]
pub struct DepositCall {
    pub assets: ethers::types::U256,
    pub receiver: Address,
}

/// The arguments of `feeVault()` (selector 0x478222c2).
#[derive(Debug, Clone, Copy, Default, PartialEq, Eq, Hash)]
pub struct FeeVaultCall;

/// The arguments of `getPendingWithdrawalAmounts()` (selector 0x785931c1).
#[derive(Debug, Clone, Copy, Default, PartialEq, Eq, Hash)]
pub struct GetPendingWithdrawalAmountsCall;

/// The arguments of `initialize(address,address,address,uint256,uint256,uint8)` (selector 0xf00b051e).
#[derive(Debug, Clone, Copy)]
pub struct InitializeCall {
    pub stake_pool: Address,
    pub fee_vault: Address,
    pub owner: Address,
    pub minimum_redeem: ethers::types::U256,
    pub withdrawal_fee: ethers::types::U256,
    pub reward_fee: u8,
}

/// The arguments of `isOperator(address,address)` (selector 0xb6363cf2).
#[derive(Debug, Clone, Copy)]
pub struct IsOperatorCall {
    pub controller: Address,
    pub operator: Address,
}

/// The arguments of `isSufficientBurnableShares()` (selector 0x9424ad09).
#[derive(Debug, Clone, Copy, Default, PartialEq, Eq, Hash)]
pub struct IsSufficientBurnableSharesCall;

/// The arguments of `lastProcessedBlockNumber()` (selector 0x0d57a25d).
#[derive(Debug, Clone, Copy, Default, PartialEq, Eq, Hash)]
pub struct LastProcessedBlockNumberCall;

/// The arguments of `lastProcessedRequestId()` (selector 0x6d679095).
#[derive(Debug, Clone, Copy, Default, PartialEq, Eq, Hash)]
pub struct LastProcessedRequestIdCall;

/// The arguments of `maxDeposit(address)` (selector 0x402d267d).
#[derive(Debug, Clone, Copy)]
pub struct MaxDepositCall {
    pub receiver: Address,
}

/// The arguments of `maxMint(address)` (selector 0xc63d75b6).
#[derive(Debug, Clone, Copy)]
pub struct MaxMintCall {
    pub receiver: Address,
}

/// The arguments of `maxRedeem(address)` (selector 0xd905777e).
#[derive(Debug, Clone, Copy)]
pub struct MaxRedeemCall {
    pub owner: Address,
}

/// The arguments of `maxWithdraw(address)` (selector 0xce96cb77).
#[derive(Debug, Clone, Copy)]
pub struct MaxWithdrawCall {
    pub owner: Address,
}

/// The arguments of `minimumRedeem()` (selector 0x572c1f99).
#[derive(Debug, Clone, Copy, Default, PartialEq, Eq, Hash)]
pub struct MinimumRedeemCall;

/// The arguments of `mint(uint256,address)` (selector 0x94bf804d).
#[derive(Debug, Clone, Copy)]
pub struct MintCall {
    pub shares: ethers::types::U256,
    pub receiver: Address,
}

/// The arguments of `name()` (selector 0x06fdde03).
#[derive(Debug, Clone, Copy, Default, PartialEq, Eq, Hash)]
pub struct NameCall;

/// The arguments of `nextRequestId()` (selector 0x6a84a985).
#[derive(Debug, Clone, Copy, Default, PartialEq, Eq, Hash)]
pub struct NextRequestIdCall;

/// The arguments of `oracleOperator()` (selector 0x11679ef7).
#[derive(Debug, Clone, Copy, Default, PartialEq, Eq, Hash)]
pub struct OracleOperatorCall;

/// The arguments of `owner()` (selector 0x8da5cb5b).
#[derive(Debug, Clone, Copy, Default, PartialEq, Eq, Hash)]
pub struct OwnerCall;

/// The arguments of `pause()` (selector 0x8456cb59).
#[derive(Debug, Clone, Copy, Default, PartialEq, Eq, Hash)]
pub struct PauseCall;

/// The arguments of `paused()` (selector 0x5c975abb).
#[derive(Debug, Clone, Copy, Default, PartialEq, Eq, Hash)]
pub struct PausedCall;

/// The arguments of `pendingRedeemRequest(uint256,address)` (selector 0xf5a23d8d).
#[derive(Debug, Clone, Copy)]
pub struct PendingRedeemRequestCall {
    pub request_id: ethers::types::U256,
    pub controller: Address,
}

/// The arguments of `previewDeposit(uint256)` (selector 0xef8b30f7).
#[derive(Debug, Clone, Copy)]
pub struct PreviewDepositCall {
    pub assets: ethers::types::U256,
}

/// The arguments of `previewMint(uint256)` (selector 0xb3d7f6b9).
#[derive(Debug, Clone, Copy)]
pub struct PreviewMintCall {
    pub shares: ethers::types::U256,
}

/// The arguments of `previewRedeem(uint256)` (selector 0x4cdad506).
#[derive(Debug, Clone, Copy)]
pub struct PreviewRedeemCall {
    pub shares: ethers::types::U256,
}

/// The arguments of `previewWithdraw(uint256)` (selector 0x0a28a477).
#[derive(Debug, Clone, Copy)]
pub struct PreviewWithdrawCall {
    pub assets: ethers::types::U256,
}

/// The arguments of `redeem(uint256[],address)` (selector 0x492e47d2).
#[derive(Debug)]
pub struct RedeemCall {
    pub request_i_ds: Vec<ethers::types::U256>,
    pub receiver: Address,
}

/// The arguments of `redeem(uint256,address)` (selector 0x7bde82f2).
#[derive(Debug, Clone, Copy)]
pub struct RedeemWithRequestIdCall {
    pub request_id: ethers::types::U256,
    pub receiver: Address,
}

/// The arguments of `redeemRequests(uint256)` (selector 0xe85ba3e9).
#[derive(Debug, Clone, Copy)]
pub struct RedeemRequestsCall(pub ethers::types::U256);

/// The arguments of `renounceOwnership()` (selector 0x715018a6).
#[derive(Debug, Clone, Copy, Default, PartialEq, Eq, Hash)]
pub struct RenounceOwnershipCall;

/// The arguments of `requestRedeem(uint256,address,address)` (selector 0x7d41c86e).
#[derive(Debug, Clone, Copy)]
pub struct RequestRedeemCall {
    pub shares: ethers::types::U256,
    pub controller: Address,
    pub owner: Address,
}

/// The arguments of `rewardFee()` (selector 0x8b424267).
#[derive(Debug, Clone, Copy, Default, PartialEq, Eq, Hash)]
pub struct RewardFeeCall;

/// The arguments of `rewardFeesAccumulated()` (selector 0x0f302b97).
#[derive(Debug, Clone, Copy, Default, PartialEq, Eq, Hash)]
pub struct RewardFeesAccumulatedCall;

/// The arguments of `setBurnableShares(uint256)` (selector 0x9cfb3b15).
#[derive(Debug, Clone, Copy)]
pub struct SetBurnableSharesCall {
    pub burnable_shares: ethers::types::U256,
}

/// The arguments of `setFeeVault(address)` (selector 0xa591f97f).
#[derive(Debug, Clone, Copy)]
pub struct SetFeeVaultCall {
    pub fee_vault: Address,
}

/// The arguments of `setLastProcessedBlockNumber(uint256)` (selector 0xdf780436).
#[derive(Debug, Clone, Copy)]
pub struct SetLastProcessedBlockNumberCall {
    pub last_processed_block_number: ethers::types::U256,
}

/// The arguments of `setLastProcessedRequestId(uint256)` (selector 0xbcfec434).
#[derive(Debug, Clone, Copy)]
pub struct SetLastProcessedRequestIdCall {
    pub last_processed_request_id: ethers::types::U256,
}

/// The arguments of `setMinimumRedeem(uint256)` (selector 0xd43092a2).
#[derive(Debug, Clone, Copy)]
pub struct SetMinimumRedeemCall {
    pub minimum_redeem: ethers::types::U256,
}

/// The arguments of `setNextRequestId(uint256)` (selector 0xfe6af403).
#[derive(Debug, Clone, Copy)]
pub struct SetNextRequestIdCall {
    pub next_request_id: ethers::types::U256,
}

/// The arguments of `setOperator(address,bool)` (selector 0x558a7297).
#[derive(Debug, Clone, Copy)]
pub struct SetOperatorCall {
    pub operator: Address,
    pub approved: bool,
}

/// The arguments of `setOracleOperator(address)` (selector 0xae2ad111).
#[derive(Debug, Clone, Copy)]
pub struct SetOracleOperatorCall {
    pub oracle_operator: Address,
}

/// The arguments of `setRedeemRequest(uint256,(uint256,address,uint256,bool,uint256))` (selector 0x1eb04996).
#[derive(Debug, Clone, Copy)]
pub struct SetRedeemRequestCall {
    pub request_id: ethers::types::U256,
    pub redeem_data: RedeemData,
}

/// The arguments of `setRewardFee(uint8)` (selector 0xdef4aa4c).
#[derive(Debug, Clone, Copy)]
pub struct SetRewardFeeCall {
    pub reward_fee: u8,
}

/// The arguments of `setRewardFeesAccumulated(uint256)` (selector 0xef1f7983).
#[derive(Debug, Clone, Copy)]
pub struct SetRewardFeesAccumulatedCall {
    pub reward_fees_accumulated: ethers::types::U256,
}

/// The arguments of `setStakePool(address)` (selector 0x3a0e9288).
#[derive(Debug, Clone, Copy)]
pub struct SetStakePoolCall {
    pub stake_pool: Address,
}

/// The arguments of `setTotalPendingDeposit(uint256)` (selector 0xa879f765).
#[derive(Debug, Clone, Copy)]
pub struct SetTotalPendingDepositCall {
    pub total_pending_deposit: ethers::types::U256,
}

/// The arguments of `setTotalStaked(uint256)` (selector 0xe17e7a20).
#[derive(Debug, Clone, Copy)]
pub struct SetTotalStakedCall {
    pub total_staked: ethers::types::U256,
}

/// The arguments of `setWithdrawalFee(uint256)` (selector 0xac1e5025).
#[derive(Debug, Clone, Copy)]
pub struct SetWithdrawalFeeCall {
    pub withdrawal_fee: ethers::types::U256,
}

/// The arguments of `setWithdrawalFeesAccumulated(uint256)` (selector 0x419dab14).
#[derive(Debug, Clone, Copy)]
pub struct SetWithdrawalFeesAccumulatedCall {
    pub withdrawal_fees_accumulated: ethers::types::U256,
}

/// The arguments of `setWithdrawalWaitTime(uint256)` (selector 0xe9e7a425).
#[derive(Debug, Clone, Copy)]
pub struct SetWithdrawalWaitTimeCall {
    pub withdrawal_wait_time: ethers::types::U256,
}

/// The arguments of `stake(uint256)` (selector 0xa694fc3a).
#[derive(Debug, Clone, Copy)]
pub struct StakeCall {
    pub amount: ethers::types::U256,
}

/// The arguments of `stakePool()` (selector 0xf8ea4756).
#[derive(Debug, Clone, Copy, Default, PartialEq, Eq, Hash)]
pub struct StakePoolCall;

/// The arguments of `sweep(address,uint256)` (selector 0x6ea056a9).
#[derive(Debug, Clone, Copy)]
pub struct SweepCall {
    pub recipient: Address,
    pub amount: ethers::types::U256,
}

/// The arguments of `symbol()` (selector 0x95d89b41).
#[derive(Debug, Clone, Copy, Default, PartialEq, Eq, Hash)]
pub struct SymbolCall;

/// The arguments of `totalAssets()` (selector 0x01e1d114).
#[derive(Debug, Clone, Copy, Default, PartialEq, Eq, Hash)]
pub struct TotalAssetsCall;

/// The arguments of `totalPendingDeposit()` (selector 0x7d6f51b2).
#[derive(Debug, Clone, Copy, Default, PartialEq, Eq, Hash)]
pub struct TotalPendingDepositCall;

/// The arguments of `totalStaked()` (selector 0x817b1cd2).
#[derive(Debug, Clone, Copy, Default, PartialEq, Eq, Hash)]
pub struct TotalStakedCall;

/// The arguments of `totalSupply()` (selector 0x18160ddd).
#[derive(Debug, Clone, Copy, Default, PartialEq, Eq, Hash)]
pub struct TotalSupplyCall;

/// The arguments of `transfer(address,uint256)` (selector 0xa9059cbb).
#[derive(Debug, Clone, Copy)]
pub struct TransferCall {
    pub to: Address,
    pub value: ethers::types::U256,
}

/// The arguments of `transferFrom(address,address,uint256)` (selector 0x23b872dd).
#[derive(Debug, Clone, Copy)]
pub struct TransferFromCall {
    pub from: Address,
    pub to: Address,
    pub value: ethers::types::U256,
}

/// The arguments of `transferOwnership(address)` (selector 0xf2fde38b).
#[derive(Debug, Clone, Copy)]
pub struct TransferOwnershipCall {
    pub new_owner: Address,
}

/// The arguments of `unpause()` (selector 0x3f4ba83a).
#[derive(Debug, Clone, Copy, Default, PartialEq, Eq, Hash)]
pub struct UnpauseCall;

/// The arguments of `unstake(uint256)` (selector 0x2e17de78).
#[derive(Debug, Clone, Copy)]
pub struct UnstakeCall {
    pub amount: ethers::types::U256,
}

/// The arguments of `updateOracleData(uint256,uint256,uint256,uint256,uint256,uint256,uint256)` (selector 0x687c0d64).
#[derive(Debug, Clone, Copy)]
pub struct UpdateOracleDataCall {
    pub block_number: ethers::types::U256,
    pub pending_deposit_utilised_for_withdrawals: ethers::types::U256,
    pub rewards_after_processing_withdrawals: ethers::types::U256,
    pub total_staked: ethers::types::U256,
    pub burnable_shares: ethers::types::U256,
    pub last_processed_request_id: ethers::types::U256,
    pub reward_fees: ethers::types::U256,
}

/// The arguments of `withdrawalFee()` (selector 0x8bc7e8c4).
#[derive(Debug, Clone, Copy, Default, PartialEq, Eq, Hash)]
pub struct WithdrawalFeeCall;

/// The arguments of `withdrawalFeesAccumulated()` (selector 0x69b2cd8e).
#[derive(Debug, Clone, Copy, Default, PartialEq, Eq, Hash)]
pub struct WithdrawalFeesAccumulatedCall;

/// The arguments of `withdrawalWaitTime()` (selector 0x0b59bd0c).
#[derive(Debug, Clone, Copy, Default, PartialEq, Eq, Hash)]
pub struct WithdrawalWaitTimeCall;

/// A call of any function of the contract, with its arguments.
#[allow(non_camel_case_types)]
#[derive(Debug)]
pub enum aprMONCalls {
    MaxBasisPoints(MaxBasisPointsCall),
    MaxPercentage(MaxPercentageCall),
    Allowance(AllowanceCall),
    Approve(ApproveCall),
    Asset(AssetCall),
    BalanceOf(BalanceOfCall),
    BurnableShares(BurnableSharesCall),
    ClaimProtocolFees(ClaimProtocolFeesCall),
    ClaimRewards(ClaimRewardsCall),
    ClaimableRedeemRequest(ClaimableRedeemRequestCall),
    ConvertToAssets(ConvertToAssetsCall),
    ConvertToShares(ConvertToSharesCall),
    Decimals(DecimalsCall),
    Deposit(DepositCall),
    FeeVault(FeeVaultCall),
    GetPendingWithdrawalAmounts(GetPendingWithdrawalAmountsCall),
    Initialize(InitializeCall),
    IsOperator(IsOperatorCall),
    IsSufficientBurnableShares(IsSufficientBurnableSharesCall),
    LastProcessedBlockNumber(LastProcessedBlockNumberCall),
    LastProcessedRequestId(LastProcessedRequestIdCall),
    MaxDeposit(MaxDepositCall),
    MaxMint(MaxMintCall),
    MaxRedeem(MaxRedeemCall),
    MaxWithdraw(MaxWithdrawCall),
    MinimumRedeem(MinimumRedeemCall),
    Mint(MintCall),
    Name(NameCall),
    NextRequestId(NextRequestIdCall),
    OracleOperator(OracleOperatorCall),
    Owner(OwnerCall),
    Pause(PauseCall),
    Paused(PausedCall),
    PendingRedeemRequest(PendingRedeemRequestCall),
    PreviewDeposit(PreviewDepositCall),
    PreviewMint(PreviewMintCall),
    PreviewRedeem(PreviewRedeemCall),
    PreviewWithdraw(PreviewWithdrawCall),
    Redeem(RedeemCall),
    RedeemWithRequestId(RedeemWithRequestIdCall),
    RedeemRequests(RedeemRequestsCall),
    RenounceOwnership(RenounceOwnershipCall),
    RequestRedeem(RequestRedeemCall),
    RewardFee(RewardFeeCall),
    RewardFeesAccumulated(RewardFeesAccumulatedCall),
    SetBurnableShares(SetBurnableSharesCall),
    SetFeeVault(SetFeeVaultCall),
    SetLastProcessedBlockNumber(SetLastProcessedBlockNumberCall),
    SetLastProcessedRequestId(SetLastProcessedRequestIdCall),
    SetMinimumRedeem(SetMinimumRedeemCall),
    SetNextRequestId(SetNextRequestIdCall),
    SetOperator(SetOperatorCall),
    SetOracleOperator(SetOracleOperatorCall),
    SetRedeemRequest(SetRedeemRequestCall),
    SetRewardFee(SetRewardFeeCall),
    SetRewardFeesAccumulated(SetRewardFeesAccumulatedCall),
    SetStakePool(SetStakePoolCall),
    SetTotalPendingDeposit(SetTotalPendingDepositCall),
    SetTotalStaked(SetTotalStakedCall),
    SetWithdrawalFee(SetWithdrawalFeeCall),
    SetWithdrawalFeesAccumulated(SetWithdrawalFeesAccumulatedCall),
    SetWithdrawalWaitTime(SetWithdrawalWaitTimeCall),
    Stake(StakeCall),
    StakePool(StakePoolCall),
    Sweep(SweepCall),
    Symbol(SymbolCall),
    TotalAssets(TotalAssetsCall),
    TotalPendingDeposit(TotalPendingDepositCall),
    TotalStaked(TotalStakedCall),
    TotalSupply(TotalSupplyCall),
    Transfer(TransferCall),
    TransferFrom(TransferFromCall),
    TransferOwnership(TransferOwnershipCall),
    Unpause(UnpauseCall),
    Unstake(UnstakeCall),
    UpdateOracleData(UpdateOracleDataCall),
    WithdrawalFee(WithdrawalFeeCall),
    WithdrawalFeesAccumulated(WithdrawalFeesAccumulatedCall),
    WithdrawalWaitTime(WithdrawalWaitTimeCall),
}

impl aprMONCalls {
    pub open spec fn spec_selector(&self) -> Seq<u8> {
        match self {
            aprMONCalls::MaxBasisPoints(_) => seq![0xf4, 0xea, 0x93, 0xd8],
            aprMONCalls::MaxPercentage(_) => seq![0x4c, 0x25, 0x5c, 0x97],
            aprMONCalls::Allowance(_) => seq![0xdd, 0x62, 0xed, 0x3e],
            aprMONCalls::Approve(_) => seq![0x09, 0x5e, 0xa7, 0xb3],
            aprMONCalls::Asset(_) => seq![0x38, 0xd5, 0x2e, 0x0f],
            aprMONCalls::BalanceOf(_) => seq![0x70, 0xa0, 0x82, 0x31],
            aprMONCalls::BurnableShares(_) => seq![0x5a, 0x0b, 0x27, 0x53],
            aprMONCalls::ClaimProtocolFees(_) => seq![0x4a, 0x7d, 0x03, 0x69],
            aprMONCalls::ClaimRewards(_) => seq![0x37, 0x25, 0x00, 0xab],
            aprMONCalls::ClaimableRedeemRequest(_) => seq![0xea, 0xed, 0x1d, 0x07],
            aprMONCalls::ConvertToAssets(_) => seq![0x07, 0xa2, 0xd1, 0x3a],
            aprMONCalls::ConvertToShares(_) => seq![0xc6, 0xe6, 0xf5, 0x92],
            aprMONCalls::Decimals(_) => seq![0x31, 0x3c, 0xe5, 0x67],
            aprMONCalls::Deposit(_) => seq![0x6e, 0x55, 0x3f, 0x65],
            aprMONCalls::FeeVault(_) => seq![0x47, 0x82, 0x22, 0xc2],
            aprMONCalls::GetPendingWithdrawalAmounts(_) => seq![0x78, 0x59, 0x31, 0xc1],
            aprMONCalls::Initialize(_) => seq![0xf0, 0x0b, 0x05, 0x1e],
            aprMONCalls::IsOperator(_) => seq![0xb6, 0x36, 0x3c, 0xf2],
            aprMONCalls::IsSufficientBurnableShares(_) => seq![0x94, 0x24, 0xad, 0x09],
            aprMONCalls::LastProcessedBlockNumber(_) => seq![0x0d, 0x57, 0xa2, 0x5d],
            aprMONCalls::LastProcessedRequestId(_) => seq![0x6d, 0x67, 0x90, 0x95],
            aprMONCalls::MaxDeposit(_) => seq![0x40, 0x2d, 0x26, 0x7d],
            aprMONCalls::MaxMint(_) => seq![0xc6, 0x3d, 0x75, 0xb6],
            aprMONCalls::MaxRedeem(_) => seq![0xd9, 0x05, 0x77, 0x7e],
            aprMONCalls::MaxWithdraw(_) => seq![0xce, 0x96, 0xcb, 0x77],
            aprMONCalls::MinimumRedeem(_) => seq![0x57, 0x2c, 0x1f, 0x99],
            aprMONCalls::Mint(_) => seq![0x94, 0xbf, 0x80, 0x4d],
            aprMONCalls::Name(_) => seq![0x06, 0xfd, 0xde, 0x03],
            aprMONCalls::NextRequestId(_) => seq![0x6a, 0x84, 0xa9, 0x85],
            aprMONCalls::OracleOperator(_) => seq![0x11, 0x67, 0x9e, 0xf7],
            aprMONCalls::Owner(_) => seq![0x8d, 0xa5, 0xcb, 0x5b],
            aprMONCalls::Pause(_) => seq![0x84, 0x56, 0xcb, 0x59],
            aprMONCalls::Paused(_) => seq![0x5c, 0x97, 0x5a, 0xbb],
            aprMONCalls::PendingRedeemRequest(_) => seq![0xf5, 0xa2, 0x3d, 0x8d],
            aprMONCalls::PreviewDeposit(_) => seq![0xef, 0x8b, 0x30, 0xf7],
            aprMONCalls::PreviewMint(_) => seq![0xb3, 0xd7, 0xf6, 0xb9],
            aprMONCalls::PreviewRedeem(_) => seq![0x4c, 0xda, 0xd5, 0x06],
            aprMONCalls::PreviewWithdraw(_) => seq![0x0a, 0x28, 0xa4, 0x77],
            aprMONCalls::Redeem(_) => seq![0x49, 0x2e, 0x47, 0xd2],
            aprMONCalls::RedeemWithRequestId(_) => seq![0x7b, 0xde, 0x82, 0xf2],
            aprMONCalls::RedeemRequests(_) => seq![0xe8, 0x5b, 0xa3, 0xe9],
            aprMONCalls::RenounceOwnership(_) => seq![0x71, 0x50, 0x18, 0xa6],
            aprMONCalls::RequestRedeem(_) => seq![0x7d, 0x41, 0xc8, 0x6e],
            aprMONCalls::RewardFee(_) => seq![0x8b, 0x42, 0x42, 0x67],
            aprMONCalls::RewardFeesAccumulated(_) => seq![0x0f, 0x30, 0x2b, 0x97],
            aprMONCalls::SetBurnableShares(_) => seq![0x9c, 0xfb, 0x3b, 0x15],
            aprMONCalls::SetFeeVault(_) => seq![0xa5, 0x91, 0xf9, 0x7f],
            aprMONCalls::SetLastProcessedBlockNumber(_) => seq![0xdf, 0x78, 0x04, 0x36],
            aprMONCalls::SetLastProcessedRequestId(_) => seq![0xbc, 0xfe, 0xc4, 0x34],
            aprMONCalls::SetMinimumRedeem(_) => seq![0xd4, 0x30, 0x92, 0xa2],
            aprMONCalls::SetNextRequestId(_) => seq![0xfe, 0x6a, 0xf4, 0x03],
            aprMONCalls::SetOperator(_) => seq![0x55, 0x8a, 0x72, 0x97],
            aprMONCalls::SetOracleOperator(_) => seq![0xae, 0x2a, 0xd1, 0x11],
            aprMONCalls::SetRedeemRequest(_) => seq![0x1e, 0xb0, 0x49, 0x96],
            aprMONCalls::SetRewardFee(_) => seq![0xde, 0xf4, 0xaa, 0x4c],
            aprMONCalls::SetRewardFeesAccumulated(_) => seq![0xef, 0x1f, 0x79, 0x83],
            aprMONCalls::SetStakePool(_) => seq![0x3a, 0x0e, 0x92, 0x88],
            aprMONCalls::SetTotalPendingDeposit(_) => seq![0xa8, 0x79, 0xf7, 0x65],
            aprMONCalls::SetTotalStaked(_) => seq![0xe1, 0x7e, 0x7a, 0x20],
            aprMONCalls::SetWithdrawalFee(_) => seq![0xac, 0x1e, 0x50, 0x25],
            aprMONCalls::SetWithdrawalFeesAccumulated(_) => seq![0x41, 0x9d, 0xab, 0x14],
            aprMONCalls::SetWithdrawalWaitTime(_) => seq![0xe9, 0xe7, 0xa4, 0x25],
            aprMONCalls::Stake(_) => seq![0xa6, 0x94, 0xfc, 0x3a],
            aprMONCalls::StakePool(_) => seq![0xf8, 0xea, 0x47, 0x56],
            aprMONCalls::Sweep(_) => seq![0x6e, 0xa0, 0x56, 0xa9],
            aprMONCalls::Symbol(_) => seq![0x95, 0xd8, 0x9b, 0x41],
            aprMONCalls::TotalAssets(_) => seq![0x01, 0xe1, 0xd1, 0x14],
            aprMONCalls::TotalPendingDeposit(_) => seq![0x7d, 0x6f, 0x51, 0xb2],
            aprMONCalls::TotalStaked(_) => seq![0x81, 0x7b, 0x1c, 0xd2],
            aprMONCalls::TotalSupply(_) => seq![0x18, 0x16, 0x0d, 0xdd],
            aprMONCalls::Transfer(_) => seq![0xa9, 0x05, 0x9c, 0xbb],
            aprMONCalls::TransferFrom(_) => seq![0x23, 0xb8, 0x72, 0xdd],
            aprMONCalls::TransferOwnership(_) => seq![0xf2, 0xfd, 0xe3, 0x8b],
            aprMONCalls::Unpause(_) => seq![0x3f, 0x4b, 0xa8, 0x3a],
            aprMONCalls::Unstake(_) => seq![0x2e, 0x17, 0xde, 0x78],
            aprMONCalls::UpdateOracleData(_) => seq![0x68, 0x7c, 0x0d, 0x64],
            aprMONCalls::WithdrawalFee(_) => seq![0x8b, 0xc7, 0xe8, 0xc4],
            aprMONCalls::WithdrawalFeesAccumulated(_) => seq![0x69, 0xb2, 0xcd, 0x8e],
            aprMONCalls::WithdrawalWaitTime(_) => seq![0x0b, 0x59, 0xbd, 0x0c],
        }
    }

    /// The 4-byte selector of the function called.
    pub fn selector(&self) -> (r: [u8; 4])
        ensures
            r@ == self.spec_selector(),
    {
        let r = match self {
            aprMONCalls::MaxBasisPoints(_) => [0xf4, 0xea, 0x93, 0xd8],
            aprMONCalls::MaxPercentage(_) => [0x4c, 0x25, 0x5c, 0x97],
            aprMONCalls::Allowance(_) => [0xdd, 0x62, 0xed, 0x3e],
            aprMONCalls::Approve(_) => [0x09, 0x5e, 0xa7, 0xb3],
            aprMONCalls::Asset(_) => [0x38, 0xd5, 0x2e, 0x0f],
            aprMONCalls::BalanceOf(_) => [0x70, 0xa0, 0x82, 0x31],
            aprMONCalls::BurnableShares(_) => [0x5a, 0x0b, 0x27, 0x53],
            aprMONCalls::ClaimProtocolFees(_) => [0x4a, 0x7d, 0x03, 0x69],
            aprMONCalls::ClaimRewards(_) => [0x37, 0x25, 0x00, 0xab],
            aprMONCalls::ClaimableRedeemRequest(_) => [0xea, 0xed, 0x1d, 0x07],
            aprMONCalls::ConvertToAssets(_) => [0x07, 0xa2, 0xd1, 0x3a],
            aprMONCalls::ConvertToShares(_) => [0xc6, 0xe6, 0xf5, 0x92],
            aprMONCalls::Decimals(_) => [0x31, 0x3c, 0xe5, 0x67],
            aprMONCalls::Deposit(_) => [0x6e, 0x55, 0x3f, 0x65],
            aprMONCalls::FeeVault(_) => [0x47, 0x82, 0x22, 0xc2],
            aprMONCalls::GetPendingWithdrawalAmounts(_) => [0x78, 0x59, 0x31, 0xc1],
            aprMONCalls::Initialize(_) => [0xf0, 0x0b, 0x05, 0x1e],
            aprMONCalls::IsOperator(_) => [0xb6, 0x36, 0x3c, 0xf2],
            aprMONCalls::IsSufficientBurnableShares(_) => [0x94, 0x24, 0xad, 0x09],
            aprMONCalls::LastProcessedBlockNumber(_) => [0x0d, 0x57, 0xa2, 0x5d],
            aprMONCalls::LastProcessedRequestId(_) => [0x6d, 0x67, 0x90, 0x95],
            aprMONCalls::MaxDeposit(_) => [0x40, 0x2d, 0x26, 0x7d],
            aprMONCalls::MaxMint(_) => [0xc6, 0x3d, 0x75, 0xb6],
            aprMONCalls::MaxRedeem(_) => [0xd9, 0x05, 0x77, 0x7e],
            aprMONCalls::MaxWithdraw(_) => [0xce, 0x96, 0xcb, 0x77],
            aprMONCalls::MinimumRedeem(_) => [0x57, 0x2c, 0x1f, 0x99],
            aprMONCalls::Mint(_) => [0x94, 0xbf, 0x80, 0x4d],
            aprMONCalls::Name(_) => [0x06, 0xfd, 0xde, 0x03],
            aprMONCalls::NextRequestId(_) => [0x6a, 0x84, 0xa9, 0x85],
            aprMONCalls::OracleOperator(_) => [0x11, 0x67, 0x9e, 0xf7],
            aprMONCalls::Owner(_) => [0x8d, 0xa5, 0xcb, 0x5b],
            aprMONCalls::Pause(_) => [0x84, 0x56, 0xcb, 0x59],
            aprMONCalls::Paused(_) => [0x5c, 0x97, 0x5a, 0xbb],
            aprMONCalls::PendingRedeemRequest(_) => [0xf5, 0xa2, 0x3d, 0x8d],
            aprMONCalls::PreviewDeposit(_) => [0xef, 0x8b, 0x30, 0xf7],
            aprMONCalls::PreviewMint(_) => [0xb3, 0xd7, 0xf6, 0xb9],
            aprMONCalls::PreviewRedeem(_) => [0x4c, 0xda, 0xd5, 0x06],
            aprMONCalls::PreviewWithdraw(_) => [0x0a, 0x28, 0xa4, 0x77],
            aprMONCalls::Redeem(_) => [0x49, 0x2e, 0x47, 0xd2],
            aprMONCalls::RedeemWithRequestId(_) => [0x7b, 0xde, 0x82, 0xf2],
            aprMONCalls::RedeemRequests(_) => [0xe8, 0x5b, 0xa3, 0xe9],
            aprMONCalls::RenounceOwnership(_) => [0x71, 0x50, 0x18, 0xa6],
            aprMONCalls::RequestRedeem(_) => [0x7d, 0x41, 0xc8, 0x6e],
            aprMONCalls::RewardFee(_) => [0x8b, 0x42, 0x42, 0x67],
            aprMONCalls::RewardFeesAccumulated(_) => [0x0f, 0x30, 0x2b, 0x97],
            aprMONCalls::SetBurnableShares(_) => [0x9c, 0xfb, 0x3b, 0x15],
            aprMONCalls::SetFeeVault(_) => [0xa5, 0x91, 0xf9, 0x7f],
            aprMONCalls::SetLastProcessedBlockNumber(_) => [0xdf, 0x78, 0x04, 0x36],
            aprMONCalls::SetLastProcessedRequestId(_) => [0xbc, 0xfe, 0xc4, 0x34],
            aprMONCalls::SetMinimumRedeem(_) => [0xd4, 0x30, 0x92, 0xa2],
            aprMONCalls::SetNextRequestId(_) => [0xfe, 0x6a, 0xf4, 0x03],
            aprMONCalls::SetOperator(_) => [0x55, 0x8a, 0x72, 0x97],
            aprMONCalls::SetOracleOperator(_) => [0xae, 0x2a, 0xd1, 0x11],
            aprMONCalls::SetRedeemRequest(_) => [0x1e, 0xb0, 0x49, 0x96],
            aprMONCalls::SetRewardFee(_) => [0xde, 0xf4, 0xaa, 0x4c],
            aprMONCalls::SetRewardFeesAccumulated(_) => [0xef, 0x1f, 0x79, 0x83],
            aprMONCalls::SetStakePool(_) => [0x3a, 0x0e, 0x92, 0x88],
            aprMONCalls::SetTotalPendingDeposit(_) => [0xa8, 0x79, 0xf7, 0x65],
            aprMONCalls::SetTotalStaked(_) => [0xe1, 0x7e, 0x7a, 0x20],
            aprMONCalls::SetWithdrawalFee(_) => [0xac, 0x1e, 0x50, 0x25],
            aprMONCalls::SetWithdrawalFeesAccumulated(_) => [0x41, 0x9d, 0xab, 0x14],
            aprMONCalls::SetWithdrawalWaitTime(_) => [0xe9, 0xe7, 0xa4, 0x25],
            aprMONCalls::Stake(_) => [0xa6, 0x94, 0xfc, 0x3a],
            aprMONCalls::StakePool(_) => [0xf8, 0xea, 0x47, 0x56],
            aprMONCalls::Sweep(_) => [0x6e, 0xa0, 0x56, 0xa9],
            aprMONCalls::Symbol(_) => [0x95, 0xd8, 0x9b, 0x41],
            aprMONCalls::TotalAssets(_) => [0x01, 0xe1, 0xd1, 0x14],
            aprMONCalls::TotalPendingDeposit(_) => [0x7d, 0x6f, 0x51, 0xb2],
            aprMONCalls::TotalStaked(_) => [0x81, 0x7b, 0x1c, 0xd2],
            aprMONCalls::TotalSupply(_) => [0x18, 0x16, 0x0d, 0xdd],
            aprMONCalls::Transfer(_) => [0xa9, 0x05, 0x9c, 0xbb],
            aprMONCalls::TransferFrom(_) => [0x23, 0xb8, 0x72, 0xdd],
            aprMONCalls::TransferOwnership(_) => [0xf2, 0xfd, 0xe3, 0x8b],
            aprMONCalls::Unpause(_) => [0x3f, 0x4b, 0xa8, 0x3a],
            aprMONCalls::Unstake(_) => [0x2e, 0x17, 0xde, 0x78],
            aprMONCalls::UpdateOracleData(_) => [0x68, 0x7c, 0x0d, 0x64],
            aprMONCalls::WithdrawalFee(_) => [0x8b, 0xc7, 0xe8, 0xc4],
            aprMONCalls::WithdrawalFeesAccumulated(_) => [0x69, 0xb2, 0xcd, 0x8e],
            aprMONCalls::WithdrawalWaitTime(_) => [0x0b, 0x59, 0xbd, 0x0c],
        };
        assert(r@ =~= self.spec_selector());
        r
    }

    /// Whether `args` are the arguments of this call, in order.
    pub open spec fn has_args(&self, args: Seq<AbiValue>) -> bool {
        match self {
            aprMONCalls::MaxBasisPoints(c) => args.len() == 0,
            aprMONCalls::MaxPercentage(c) => args.len() == 0,
            aprMONCalls::Allowance(c) => args.len() == 2 && args[0] == AbiValue::Word(AbiWord::Address(c.owner)) && args[1] == AbiValue::Word(AbiWord::Address(c.spender)),
            aprMONCalls::Approve(c) => args.len() == 2 && args[0] == AbiValue::Word(AbiWord::Address(c.spender)) && args[1] == AbiValue::Word(AbiWord::Uint(c.value)),
            aprMONCalls::Asset(c) => args.len() == 0,
            aprMONCalls::BalanceOf(c) => args.len() == 1 && args[0] == AbiValue::Word(AbiWord::Address(c.account)),
            aprMONCalls::BurnableShares(c) => args.len() == 0,
            aprMONCalls::ClaimProtocolFees(c) => args.len() == 0,
            aprMONCalls::ClaimRewards(c) => args.len() == 0,
            aprMONCalls::ClaimableRedeemRequest(c) => args.len() == 2 && args[0] == AbiValue::Word(AbiWord::Uint(c.request_id)) && args[1] == AbiValue::Word(AbiWord::Address(c.controller)),
            aprMONCalls::ConvertToAssets(c) => args.len() == 1 && args[0] == AbiValue::Word(AbiWord::Uint(c.shares)),
            aprMONCalls::ConvertToShares(c) => args.len() == 1 && args[0] == AbiValue::Word(AbiWord::Uint(c.assets)),
            aprMONCalls::Decimals(c) => args.len() == 0,
            aprMONCalls::Deposit(c) => args.len() == 2 && args[0] == AbiValue::Word(AbiWord::Uint(c.assets)) && args[1] == AbiValue::Word(AbiWord::Address(c.receiver)),
            aprMONCalls::FeeVault(c) => args.len() == 0,
            aprMONCalls::GetPendingWithdrawalAmounts(c) => args.len() == 0,
            aprMONCalls::Initialize(c) => args.len() == 6 && args[0] == AbiValue::Word(AbiWord::Address(c.stake_pool)) && args[1] == AbiValue::Word(AbiWord::Address(c.fee_vault)) && args[2] == AbiValue::Word(AbiWord::Address(c.owner)) && args[3] == AbiValue::Word(AbiWord::Uint(c.minimum_redeem)) && args[4] == AbiValue::Word(AbiWord::Uint(c.withdrawal_fee)) && is_small_uint(args[5], c.reward_fee as nat),
            aprMONCalls::IsOperator(c) => args.len() == 2 && args[0] == AbiValue::Word(AbiWord::Address(c.controller)) && args[1] == AbiValue::Word(AbiWord::Address(c.operator)),
            aprMONCalls::IsSufficientBurnableShares(c) => args.len() == 0,
            aprMONCalls::LastProcessedBlockNumber(c) => args.len() == 0,
            aprMONCalls::LastProcessedRequestId(c) => args.len() == 0,
            aprMONCalls::MaxDeposit(c) => args.len() == 1 && args[0] == AbiValue::Word(AbiWord::Address(c.receiver)),
            aprMONCalls::MaxMint(c) => args.len() == 1 && args[0] == AbiValue::Word(AbiWord::Address(c.receiver)),
            aprMONCalls::MaxRedeem(c) => args.len() == 1 && args[0] == AbiValue::Word(AbiWord::Address(c.owner)),
            aprMONCalls::MaxWithdraw(c) => args.len() == 1 && args[0] == AbiValue::Word(AbiWord::Address(c.owner)),
            aprMONCalls::MinimumRedeem(c) => args.len() == 0,
            aprMONCalls::Mint(c) => args.len() == 2 && args[0] == AbiValue::Word(AbiWord::Uint(c.shares)) && args[1] == AbiValue::Word(AbiWord::Address(c.receiver)),
            aprMONCalls::Name(c) => args.len() == 0,
            aprMONCalls::NextRequestId(c) => args.len() == 0,
            aprMONCalls::OracleOperator(c) => args.len() == 0,
            aprMONCalls::Owner(c) => args.len() == 0,
            aprMONCalls::Pause(c) => args.len() == 0,
            aprMONCalls::Paused(c) => args.len() == 0,
            aprMONCalls::PendingRedeemRequest(c) => args.len() == 2 && args[0] == AbiValue::Word(AbiWord::Uint(c.request_id)) && args[1] == AbiValue::Word(AbiWord::Address(c.controller)),
            aprMONCalls::PreviewDeposit(c) => args.len() == 1 && args[0] == AbiValue::Word(AbiWord::Uint(c.assets)),
            aprMONCalls::PreviewMint(c) => args.len() == 1 && args[0] == AbiValue::Word(AbiWord::Uint(c.shares)),
            aprMONCalls::PreviewRedeem(c) => args.len() == 1 && args[0] == AbiValue::Word(AbiWord::Uint(c.shares)),
            aprMONCalls::PreviewWithdraw(c) => args.len() == 1 && args[0] == AbiValue::Word(AbiWord::Uint(c.assets)),
            aprMONCalls::Redeem(c) => args.len() == 2 && is_uint_array(args[0], c.request_i_ds@) && args[1] == AbiValue::Word(AbiWord::Address(c.receiver)),
            aprMONCalls::RedeemWithRequestId(c) => args.len() == 2 && args[0] == AbiValue::Word(AbiWord::Uint(c.request_id)) && args[1] == AbiValue::Word(AbiWord::Address(c.receiver)),
            aprMONCalls::RedeemRequests(c) => args.len() == 1 && args[0] == AbiValue::Word(AbiWord::Uint(c.0)),
            aprMONCalls::RenounceOwnership(c) => args.len() == 0,
            aprMONCalls::RequestRedeem(c) => args.len() == 3 && args[0] == AbiValue::Word(AbiWord::Uint(c.shares)) && args[1] == AbiValue::Word(AbiWord::Address(c.controller)) && args[2] == AbiValue::Word(AbiWord::Address(c.owner)),
            aprMONCalls::RewardFee(c) => args.len() == 0,
            aprMONCalls::RewardFeesAccumulated(c) => args.len() == 0,
            aprMONCalls::SetBurnableShares(c) => args.len() == 1 && args[0] == AbiValue::Word(AbiWord::Uint(c.burnable_shares)),
            aprMONCalls::SetFeeVault(c) => args.len() == 1 && args[0] == AbiValue::Word(AbiWord::Address(c.fee_vault)),
            aprMONCalls::SetLastProcessedBlockNumber(c) => args.len() == 1 && args[0] == AbiValue::Word(AbiWord::Uint(c.last_processed_block_number)),
            aprMONCalls::SetLastProcessedRequestId(c) => args.len() == 1 && args[0] == AbiValue::Word(AbiWord::Uint(c.last_processed_request_id)),
            aprMONCalls::SetMinimumRedeem(c) => args.len() == 1 && args[0] == AbiValue::Word(AbiWord::Uint(c.minimum_redeem)),
            aprMONCalls::SetNextRequestId(c) => args.len() == 1 && args[0] == AbiValue::Word(AbiWord::Uint(c.next_request_id)),
            aprMONCalls::SetOperator(c) => args.len() == 2 && args[0] == AbiValue::Word(AbiWord::Address(c.operator)) && args[1] == AbiValue::Word(AbiWord::Bool(c.approved)),
            aprMONCalls::SetOracleOperator(c) => args.len() == 1 && args[0] == AbiValue::Word(AbiWord::Address(c.oracle_operator)),
            aprMONCalls::SetRedeemRequest(c) => args.len() == 2 && args[0] == AbiValue::Word(AbiWord::Uint(c.request_id)) && is_tuple_of(args[1], c.redeem_data.spec_words()),
            aprMONCalls::SetRewardFee(c) => args.len() == 1 && is_small_uint(args[0], c.reward_fee as nat),
            aprMONCalls::SetRewardFeesAccumulated(c) => args.len() == 1 && args[0] == AbiValue::Word(AbiWord::Uint(c.reward_fees_accumulated)),
            aprMONCalls::SetStakePool(c) => args.len() == 1 && args[0] == AbiValue::Word(AbiWord::Address(c.stake_pool)),
            aprMONCalls::SetTotalPendingDeposit(c) => args.len() == 1 && args[0] == AbiValue::Word(AbiWord::Uint(c.total_pending_deposit)),
            aprMONCalls::SetTotalStaked(c) => args.len() == 1 && args[0] == AbiValue::Word(AbiWord::Uint(c.total_staked)),
            aprMONCalls::SetWithdrawalFee(c) => args.len() == 1 && args[0] == AbiValue::Word(AbiWord::Uint(c.withdrawal_fee)),
            aprMONCalls::SetWithdrawalFeesAccumulated(c) => args.len() == 1 && args[0] == AbiValue::Word(AbiWord::Uint(c.withdrawal_fees_accumulated)),
            aprMONCalls::SetWithdrawalWaitTime(c) => args.len() == 1 && args[0] == AbiValue::Word(AbiWord::Uint(c.withdrawal_wait_time)),
            aprMONCalls::Stake(c) => args.len() == 1 && args[0] == AbiValue::Word(AbiWord::Uint(c.amount)),
            aprMONCalls::StakePool(c) => args.len() == 0,
            aprMONCalls::Sweep(c) => args.len() == 2 && args[0] == AbiValue::Word(AbiWord::Address(c.recipient)) && args[1] == AbiValue::Word(AbiWord::Uint(c.amount)),
            aprMONCalls::Symbol(c) => args.len() == 0,
            aprMONCalls::TotalAssets(c) => args.len() == 0,
            aprMONCalls::TotalPendingDeposit(c) => args.len() == 0,
            aprMONCalls::TotalStaked(c) => args.len() == 0,
            aprMONCalls::TotalSupply(c) => args.len() == 0,
            aprMONCalls::Transfer(c) => args.len() == 2 && args[0] == AbiValue::Word(AbiWord::Address(c.to)) && args[1] == AbiValue::Word(AbiWord::Uint(c.value)),
            aprMONCalls::TransferFrom(c) => args.len() == 3 && args[0] == AbiValue::Word(AbiWord::Address(c.from)) && args[1] == AbiValue::Word(AbiWord::Address(c.to)) && args[2] == AbiValue::Word(AbiWord::Uint(c.value)),
            aprMONCalls::TransferOwnership(c) => args.len() == 1 && args[0] == AbiValue::Word(AbiWord::Address(c.new_owner)),
            aprMONCalls::Unpause(c) => args.len() == 0,
            aprMONCalls::Unstake(c) => args.len() == 1 && args[0] == AbiValue::Word(AbiWord::Uint(c.amount)),
            aprMONCalls::UpdateOracleData(c) => args.len() == 7 && args[0] == AbiValue::Word(AbiWord::Uint(c.block_number)) && args[1] == AbiValue::Word(AbiWord::Uint(c.pending_deposit_utilised_for_withdrawals)) && args[2] == AbiValue::Word(AbiWord::Uint(c.rewards_after_processing_withdrawals)) && args[3] == AbiValue::Word(AbiWord::Uint(c.total_staked)) && args[4] == AbiValue::Word(AbiWord::Uint(c.burnable_shares)) && args[5] == AbiValue::Word(AbiWord::Uint(c.last_processed_request_id)) && args[6] == AbiValue::Word(AbiWord::Uint(c.reward_fees)),
            aprMONCalls::WithdrawalFee(c) => args.len() == 0,
            aprMONCalls::WithdrawalFeesAccumulated(c) => args.len() == 0,
            aprMONCalls::WithdrawalWaitTime(c) => args.len() == 0,
        }
    }

    /// The call's arguments as ABI values.
    pub fn args(&self) -> (r: Vec<AbiValue>)
        ensures
            self.has_args(r@),
    {
        let mut args: Vec<AbiValue> = Vec::new();
        match self {
            aprMONCalls::MaxBasisPoints(_) => {},
            aprMONCalls::MaxPercentage(_) => {},
            aprMONCalls::Allowance(c) => {
                args.push(address_arg(c.owner));
                args.push(address_arg(c.spender));
            },
            aprMONCalls::Approve(c) => {
                args.push(address_arg(c.spender));
                args.push(uint_arg(c.value));
            },
            aprMONCalls::Asset(_) => {},
            aprMONCalls::BalanceOf(c) => {
                args.push(address_arg(c.account));
            },
            aprMONCalls::BurnableShares(_) => {},
            aprMONCalls::ClaimProtocolFees(_) => {},
            aprMONCalls::ClaimRewards(_) => {},
            aprMONCalls::ClaimableRedeemRequest(c) => {
                args.push(uint_arg(c.request_id));
                args.push(address_arg(c.controller));
            },
            aprMONCalls::ConvertToAssets(c) => {
                args.push(uint_arg(c.shares));
            },
            aprMONCalls::ConvertToShares(c) => {
                args.push(uint_arg(c.assets));
            },
            aprMONCalls::Decimals(_) => {},
            aprMONCalls::Deposit(c) => {
                args.push(uint_arg(c.assets));
                args.push(address_arg(c.receiver));
            },
            aprMONCalls::FeeVault(_) => {},
            aprMONCalls::GetPendingWithdrawalAmounts(_) => {},
            aprMONCalls::Initialize(c) => {
                args.push(address_arg(c.stake_pool));
                args.push(address_arg(c.fee_vault));
                args.push(address_arg(c.owner));
                args.push(uint_arg(c.minimum_redeem));
                args.push(uint_arg(c.withdrawal_fee));
                args.push(small_uint_arg(c.reward_fee as u64));
            },
            aprMONCalls::IsOperator(c) => {
                args.push(address_arg(c.controller));
                args.push(address_arg(c.operator));
            },
            aprMONCalls::IsSufficientBurnableShares(_) => {},
            aprMONCalls::LastProcessedBlockNumber(_) => {},
            aprMONCalls::LastProcessedRequestId(_) => {},
            aprMONCalls::MaxDeposit(c) => {
                args.push(address_arg(c.receiver));
            },
            aprMONCalls::MaxMint(c) => {
                args.push(address_arg(c.receiver));
            },
            aprMONCalls::MaxRedeem(c) => {
                args.push(address_arg(c.owner));
            },
            aprMONCalls::MaxWithdraw(c) => {
                args.push(address_arg(c.owner));
            },
            aprMONCalls::MinimumRedeem(_) => {},
            aprMONCalls::Mint(c) => {
                args.push(uint_arg(c.shares));
                args.push(address_arg(c.receiver));
            },
            aprMONCalls::Name(_) => {},
            aprMONCalls::NextRequestId(_) => {},
            aprMONCalls::OracleOperator(_) => {},
            aprMONCalls::Owner(_) => {},
            aprMONCalls::Pause(_) => {},
            aprMONCalls::Paused(_) => {},
            aprMONCalls::PendingRedeemRequest(c) => {
                args.push(uint_arg(c.request_id));
                args.push(address_arg(c.controller));
            },
            aprMONCalls::PreviewDeposit(c) => {
                args.push(uint_arg(c.assets));
            },
            aprMONCalls::PreviewMint(c) => {
                args.push(uint_arg(c.shares));
            },
            aprMONCalls::PreviewRedeem(c) => {
                args.push(uint_arg(c.shares));
            },
            aprMONCalls::PreviewWithdraw(c) => {
                args.push(uint_arg(c.assets));
            },
            aprMONCalls::Redeem(c) => {
                args.push(uint_array_arg(&c.request_i_ds));
                args.push(address_arg(c.receiver));
            },
            aprMONCalls::RedeemWithRequestId(c) => {
                args.push(uint_arg(c.request_id));
                args.push(address_arg(c.receiver));
            },
            aprMONCalls::RedeemRequests(c) => {
                args.push(uint_arg(c.0));
            },
            aprMONCalls::RenounceOwnership(_) => {},
            aprMONCalls::RequestRedeem(c) => {
                args.push(uint_arg(c.shares));
                args.push(address_arg(c.controller));
                args.push(address_arg(c.owner));
            },
            aprMONCalls::RewardFee(_) => {},
            aprMONCalls::RewardFeesAccumulated(_) => {},
            aprMONCalls::SetBurnableShares(c) => {
                args.push(uint_arg(c.burnable_shares));
            },
            aprMONCalls::SetFeeVault(c) => {
                args.push(address_arg(c.fee_vault));
            },
            aprMONCalls::SetLastProcessedBlockNumber(c) => {
                args.push(uint_arg(c.last_processed_block_number));
            },
            aprMONCalls::SetLastProcessedRequestId(c) => {
                args.push(uint_arg(c.last_processed_request_id));
            },
            aprMONCalls::SetMinimumRedeem(c) => {
                args.push(uint_arg(c.minimum_redeem));
            },
            aprMONCalls::SetNextRequestId(c) => {
                args.push(uint_arg(c.next_request_id));
            },
            aprMONCalls::SetOperator(c) => {
                args.push(address_arg(c.operator));
                args.push(bool_arg(c.approved));
            },
            aprMONCalls::SetOracleOperator(c) => {
                args.push(address_arg(c.oracle_operator));
            },
            aprMONCalls::SetRedeemRequest(c) => {
                args.push(uint_arg(c.request_id));
                args.push(c.redeem_data.to_abi());
            },
            aprMONCalls::SetRewardFee(c) => {
                args.push(small_uint_arg(c.reward_fee as u64));
            },
            aprMONCalls::SetRewardFeesAccumulated(c) => {
                args.push(uint_arg(c.reward_fees_accumulated));
            },
            aprMONCalls::SetStakePool(c) => {
                args.push(address_arg(c.stake_pool));
            },
            aprMONCalls::SetTotalPendingDeposit(c) => {
                args.push(uint_arg(c.total_pending_deposit));
            },
            aprMONCalls::SetTotalStaked(c) => {
                args.push(uint_arg(c.total_staked));
            },
            aprMONCalls::SetWithdrawalFee(c) => {
                args.push(uint_arg(c.withdrawal_fee));
            },
            aprMONCalls::SetWithdrawalFeesAccumulated(c) => {
                args.push(uint_arg(c.withdrawal_fees_accumulated));
            },
            aprMONCalls::SetWithdrawalWaitTime(c) => {
                args.push(uint_arg(c.withdrawal_wait_time));
            },
            aprMONCalls::Stake(c) => {
                args.push(uint_arg(c.amount));
            },
            aprMONCalls::StakePool(_) => {},
            aprMONCalls::Sweep(c) => {
                args.push(address_arg(c.recipient));
                args.push(uint_arg(c.amount));
            },
            aprMONCalls::Symbol(_) => {},
            aprMONCalls::TotalAssets(_) => {},
            aprMONCalls::TotalPendingDeposit(_) => {},
            aprMONCalls::TotalStaked(_) => {},
            aprMONCalls::TotalSupply(_) => {},
            aprMONCalls::Transfer(c) => {
                args.push(address_arg(c.to));
                args.push(uint_arg(c.value));
            },
            aprMONCalls::TransferFrom(c) => {
                args.push(address_arg(c.from));
                args.push(address_arg(c.to));
                args.push(uint_arg(c.value));
            },
            aprMONCalls::TransferOwnership(c) => {
                args.push(address_arg(c.new_owner));
            },
            aprMONCalls::Unpause(_) => {},
            aprMONCalls::Unstake(c) => {
                args.push(uint_arg(c.amount));
            },
            aprMONCalls::UpdateOracleData(c) => {
                args.push(uint_arg(c.block_number));
                args.push(uint_arg(c.pending_deposit_utilised_for_withdrawals));
                args.push(uint_arg(c.rewards_after_processing_withdrawals));
                args.push(uint_arg(c.total_staked));
                args.push(uint_arg(c.burnable_shares));
                args.push(uint_arg(c.last_processed_request_id));
                args.push(uint_arg(c.reward_fees));
            },
            aprMONCalls::WithdrawalFee(_) => {},
            aprMONCalls::WithdrawalFeesAccumulated(_) => {},
            aprMONCalls::WithdrawalWaitTime(_) => {},
        }
        args
    }

    /// The transaction input for this call: selector, then encoded arguments.
    pub fn encode(&self) -> (r: Vec<u8>)
        ensures
            exists|args: Seq<AbiValue>| self.has_args(args) && r@ == self.spec_selector() + abi_encoding(args),
    {
        calldata_of(self.selector(), &self.args())
    }
}

/// The custom error `AlreadyClaimed()` (selector 0x646cf558).
#[derive(Debug, Clone, Copy, Default, PartialEq, Eq, Hash)]
pub struct AlreadyClaimed;

/// The custom error `BelowMinimumRedeemAmount()` (selector 0x32cc1fef).
#[derive(Debug, Clone, Copy, Default, PartialEq, Eq, Hash)]
pub struct BelowMinimumRedeemAmount;

/// The custom error `ERC20InsufficientAllowance(address,uint256,uint256)` (selector 0xfb8f41b2).
#[derive(Debug, Clone, Copy)]
pub struct ERC20InsufficientAllowance {
    pub spender: Address,
    pub allowance: ethers::types::U256,
    pub needed: ethers::types::U256,
}

/// The custom error `ERC20InsufficientBalance(address,uint256,uint256)` (selector 0xe450d38c).
#[derive(Debug, Clone, Copy)]
pub struct ERC20InsufficientBalance {
    pub sender: Address,
    pub balance: ethers::types::U256,
    pub needed: ethers::types::U256,
}

/// The custom error `ERC20InvalidApprover(address)` (selector 0xe602df05).
#[derive(Debug, Clone, Copy)]
pub struct ERC20InvalidApprover {
    pub approver: Address,
}

/// The custom error `ERC20InvalidReceiver(address)` (selector 0xec442f05).
#[derive(Debug, Clone, Copy)]
pub struct ERC20InvalidReceiver {
    pub receiver: Address,
}

/// The custom error `ERC20InvalidSender(address)` (selector 0x96c6fd1e).
#[derive(Debug, Clone, Copy)]
pub struct ERC20InvalidSender {
    pub sender: Address,
}

/// The custom error `ERC20InvalidSpender(address)` (selector 0x94280d62).
#[derive(Debug, Clone, Copy)]
pub struct ERC20InvalidSpender {
    pub spender: Address,
}

/// The custom error `EnforcedPause()` (selector 0xd93c0665).
#[derive(Debug, Clone, Copy, Default, PartialEq, Eq, Hash)]
pub struct EnforcedPause;

/// The custom error `ExpectedPause()` (selector 0x8dfc202b).
#[derive(Debug, Clone, Copy, Default, PartialEq, Eq, Hash)]
pub struct ExpectedPause;

/// The custom error `InsufficientBalance()` (selector 0xf4d678b8).
#[derive(Debug, Clone, Copy, Default, PartialEq, Eq, Hash)]
pub struct InsufficientBalance;

/// The custom error `InvalidAmount()` (selector 0x2c5211c6).
#[derive(Debug, Clone, Copy, Default, PartialEq, Eq, Hash)]
pub struct InvalidAmount;

/// The custom error `InvalidBlockNumber()` (selector 0x4e47846c).
#[derive(Debug, Clone, Copy, Default, PartialEq, Eq, Hash)]
pub struct InvalidBlockNumber;

/// The custom error `InvalidBurnableShares()` (selector 0x9169e7eb).
#[derive(Debug, Clone, Copy, Default, PartialEq, Eq, Hash)]
pub struct InvalidBurnableShares;

/// The custom error `InvalidInitialization()` (selector 0xf92ee8a9).
#[derive(Debug, Clone, Copy, Default, PartialEq, Eq, Hash)]
pub struct InvalidInitialization;

/// The custom error `InvalidLastProcessedRequestId()` (selector 0xb8fb156d).
#[derive(Debug, Clone, Copy, Default, PartialEq, Eq, Hash)]
pub struct InvalidLastProcessedRequestId;

/// The custom error `InvalidRange()` (selector 0x561ce9bb).
#[derive(Debug, Clone, Copy, Default, PartialEq, Eq, Hash)]
pub struct InvalidRange;

/// The custom error `InvalidRequestId()` (selector 0xba0514c0).
#[derive(Debug, Clone, Copy, Default, PartialEq, Eq, Hash)]
pub struct InvalidRequestId;

/// The custom error `InvalidRewardFee()` (selector 0x0490bb2b).
#[derive(Debug, Clone, Copy, Default, PartialEq, Eq, Hash)]
pub struct InvalidRewardFee;

/// The custom error `InvalidRewards()` (selector 0xfc2e3fcb).
#[derive(Debug, Clone, Copy, Default, PartialEq, Eq, Hash)]
pub struct InvalidRewards;

/// The custom error `InvalidTotalStaked()` (selector 0xbb07fd38).
#[derive(Debug, Clone, Copy, Default, PartialEq, Eq, Hash)]
pub struct InvalidTotalStaked;

/// The custom error `InvalidUtilisedPendingDeposit()` (selector 0x2d9adf59).
#[derive(Debug, Clone, Copy, Default, PartialEq, Eq, Hash)]
pub struct InvalidUtilisedPendingDeposit;

/// The custom error `InvalidWithdrawalFee()` (selector 0xd7c4d24e).
#[derive(Debug, Clone, Copy, Default, PartialEq, Eq, Hash)]
pub struct InvalidWithdrawalFee;

/// The custom error `NoPendingWithdrawalRequests()` (selector 0xb7ecf630).
#[derive(Debug, Clone, Copy, Default, PartialEq, Eq, Hash)]
pub struct NoPendingWithdrawalRequests;

/// The custom error `NotInitializing()` (selector 0xd7e6bcf8).
#[derive(Debug, Clone, Copy, Default, PartialEq, Eq, Hash)]
pub struct NotInitializing;

/// The custom error `OnlyOracleOperatorAllowed()` (selector 0x12efe0a5).
#[derive(Debug, Clone, Copy, Default, PartialEq, Eq, Hash)]
pub struct OnlyOracleOperatorAllowed;

/// The custom error `OwnableInvalidOwner(address)` (selector 0x1e4fbdf7).
#[derive(Debug, Clone, Copy)]
pub struct OwnableInvalidOwner {
    pub owner: Address,
}

/// The custom error `OwnableUnauthorizedAccount(address)` (selector 0x118cdaa7).
#[derive(Debug, Clone, Copy)]
pub struct OwnableUnauthorizedAccount {
    pub account: Address,
}

/// The custom error `TotalAssetsIsZero()` (selector 0xf85d1c6b).
#[derive(Debug, Clone, Copy, Default, PartialEq, Eq, Hash)]
pub struct TotalAssetsIsZero;

/// The custom error `TransferFailed()` (selector 0x90b8ec18).
#[derive(Debug, Clone, Copy, Default, PartialEq, Eq, Hash)]
pub struct TransferFailed;

/// The custom error `UnauthorizedOperator()` (selector 0x4d739bfe).
#[derive(Debug, Clone, Copy, Default, PartialEq, Eq, Hash)]
pub struct UnauthorizedOperator;

/// The custom error `WaitMoreTime()` (selector 0xbeb98cab).
#[derive(Debug, Clone, Copy, Default, PartialEq, Eq, Hash)]
pub struct WaitMoreTime;

/// Any error the contract reverts with: its custom errors, or a revert
/// message (`Error(string)`, selector 0x08c379a0).
#[allow(non_camel_case_types)]
#[derive(Debug)]
pub enum aprMONErrors {
    AlreadyClaimed(AlreadyClaimed),
    BelowMinimumRedeemAmount(BelowMinimumRedeemAmount),
    ERC20InsufficientAllowance(ERC20InsufficientAllowance),
    ERC20InsufficientBalance(ERC20InsufficientBalance),
    ERC20InvalidApprover(ERC20InvalidApprover),
    ERC20InvalidReceiver(ERC20InvalidReceiver),
    ERC20InvalidSender(ERC20InvalidSender),
    ERC20InvalidSpender(ERC20InvalidSpender),
    EnforcedPause(EnforcedPause),
    ExpectedPause(ExpectedPause),
    InsufficientBalance(InsufficientBalance),
    InvalidAmount(InvalidAmount),
    InvalidBlockNumber(InvalidBlockNumber),
    InvalidBurnableShares(InvalidBurnableShares),
    InvalidInitialization(InvalidInitialization),
    InvalidLastProcessedRequestId(InvalidLastProcessedRequestId),
    InvalidRange(InvalidRange),
    InvalidRequestId(InvalidRequestId),
    InvalidRewardFee(InvalidRewardFee),
    InvalidRewards(InvalidRewards),
    InvalidTotalStaked(InvalidTotalStaked),
    InvalidUtilisedPendingDeposit(InvalidUtilisedPendingDeposit),
    InvalidWithdrawalFee(InvalidWithdrawalFee),
    NoPendingWithdrawalRequests(NoPendingWithdrawalRequests),
    NotInitializing(NotInitializing),
    OnlyOracleOperatorAllowed(OnlyOracleOperatorAllowed),
    OwnableInvalidOwner(OwnableInvalidOwner),
    OwnableUnauthorizedAccount(OwnableUnauthorizedAccount),
    TotalAssetsIsZero(TotalAssetsIsZero),
    TransferFailed(TransferFailed),
    UnauthorizedOperator(UnauthorizedOperator),
    WaitMoreTime(WaitMoreTime),
    RevertString(String),
}

impl aprMONErrors {
    /// The selectors of the revert message and of each custom error.
    pub open spec fn is_known_selector(s: Seq<u8>) -> bool {
        s == seq![0x08u8, 0xc3, 0x79, 0xa0]
            || s == seq![0x64u8, 0x6c, 0xf5, 0x58]
            || s == seq![0x32u8, 0xcc, 0x1f, 0xef]
            || s == seq![0xfbu8, 0x8f, 0x41, 0xb2]
            || s == seq![0xe4u8, 0x50, 0xd3, 0x8c]
            || s == seq![0xe6u8, 0x02, 0xdf, 0x05]
            || s == seq![0xecu8, 0x44, 0x2f, 0x05]
            || s == seq![0x96u8, 0xc6, 0xfd, 0x1e]
            || s == seq![0x94u8, 0x28, 0x0d, 0x62]
            || s == seq![0xd9u8, 0x3c, 0x06, 0x65]
            || s == seq![0x8du8, 0xfc, 0x20, 0x2b]
            || s == seq![0xf4u8, 0xd6, 0x78, 0xb8]
            || s == seq![0x2cu8, 0x52, 0x11, 0xc6]
            || s == seq![0x4eu8, 0x47, 0x84, 0x6c]
            || s == seq![0x91u8, 0x69, 0xe7, 0xeb]
            || s == seq![0xf9u8, 0x2e, 0xe8, 0xa9]
            || s == seq![0xb8u8, 0xfb, 0x15, 0x6d]
            || s == seq![0x56u8, 0x1c, 0xe9, 0xbb]
            || s == seq![0xbau8, 0x05, 0x14, 0xc0]
            || s == seq![0x04u8, 0x90, 0xbb, 0x2b]
            || s == seq![0xfcu8, 0x2e, 0x3f, 0xcb]
            || s == seq![0xbbu8, 0x07, 0xfd, 0x38]
            || s == seq![0x2du8, 0x9a, 0xdf, 0x59]
            || s == seq![0xd7u8, 0xc4, 0xd2, 0x4e]
            || s == seq![0xb7u8, 0xec, 0xf6, 0x30]
            || s == seq![0xd7u8, 0xe6, 0xbc, 0xf8]
            || s == seq![0x12u8, 0xef, 0xe0, 0xa5]
            || s == seq![0x1eu8, 0x4f, 0xbd, 0xf7]
            || s == seq![0x11u8, 0x8c, 0xda, 0xa7]
            || s == seq![0xf8u8, 0x5d, 0x1c, 0x6b]
            || s == seq![0x90u8, 0xb8, 0xec, 0x18]
            || s == seq![0x4du8, 0x73, 0x9b, 0xfe]
            || s == seq![0xbeu8, 0xb9, 0x8c, 0xab]
    }

    /// Whether revert data with this selector is one of the contract's errors.
    pub fn valid_selector(selector: [u8; 4]) -> (r: bool)
        ensures
            r == Self::is_known_selector(selector@),
    {
        selector_is(selector, 0x08, 0xc3, 0x79, 0xa0)
            || selector_is(selector, 0x64, 0x6c, 0xf5, 0x58)
            || selector_is(selector, 0x32, 0xcc, 0x1f, 0xef)
            || selector_is(selector, 0xfb, 0x8f, 0x41, 0xb2)
            || selector_is(selector, 0xe4, 0x50, 0xd3, 0x8c)
            || selector_is(selector, 0xe6, 0x02, 0xdf, 0x05)
            || selector_is(selector, 0xec, 0x44, 0x2f, 0x05)
            || selector_is(selector, 0x96, 0xc6, 0xfd, 0x1e)
            || selector_is(selector, 0x94, 0x28, 0x0d, 0x62)
            || selector_is(selector, 0xd9, 0x3c, 0x06, 0x65)
            || selector_is(selector, 0x8d, 0xfc, 0x20, 0x2b)
            || selector_is(selector, 0xf4, 0xd6, 0x78, 0xb8)
            || selector_is(selector, 0x2c, 0x52, 0x11, 0xc6)
            || selector_is(selector, 0x4e, 0x47, 0x84, 0x6c)
            || selector_is(selector, 0x91, 0x69, 0xe7, 0xeb)
            || selector_is(selector, 0xf9, 0x2e, 0xe8, 0xa9)
            || selector_is(selector, 0xb8, 0xfb, 0x15, 0x6d)
            || selector_is(selector, 0x56, 0x1c, 0xe9, 0xbb)
            || selector_is(selector, 0xba, 0x05, 0x14, 0xc0)
            || selector_is(selector, 0x04, 0x90, 0xbb, 0x2b)
            || selector_is(selector, 0xfc, 0x2e, 0x3f, 0xcb)
            || selector_is(selector, 0xbb, 0x07, 0xfd, 0x38)
            || selector_is(selector, 0x2d, 0x9a, 0xdf, 0x59)
            || selector_is(selector, 0xd7, 0xc4, 0xd2, 0x4e)
            || selector_is(selector, 0xb7, 0xec, 0xf6, 0x30)
            || selector_is(selector, 0xd7, 0xe6, 0xbc, 0xf8)
            || selector_is(selector, 0x12, 0xef, 0xe0, 0xa5)
            || selector_is(selector, 0x1e, 0x4f, 0xbd, 0xf7)
            || selector_is(selector, 0x11, 0x8c, 0xda, 0xa7)
            || selector_is(selector, 0xf8, 0x5d, 0x1c, 0x6b)
            || selector_is(selector, 0x90, 0xb8, 0xec, 0x18)
            || selector_is(selector, 0x4d, 0x73, 0x9b, 0xfe)
            || selector_is(selector, 0xbe, 0xb9, 0x8c, 0xab)
    }
}

/// `RedeemData(uint256,address,uint256,bool,uint256)`: a pending redemption.
#[derive(Debug, Clone, Copy)]
pub struct RedeemData {
    pub shares: ethers::types::U256,
    pub controller: Address,
    pub assets: ethers::types::U256,
    pub claimed: bool,
    pub timestamp: ethers::types::U256,
}

impl RedeemData {
    pub open spec fn spec_words(self) -> Seq<AbiWord> {
        seq![
            AbiWord::Uint(self.shares),
            AbiWord::Address(self.controller),
            AbiWord::Uint(self.assets),
            AbiWord::Bool(self.claimed),
            AbiWord::Uint(self.timestamp),
        ]
    }

    /// The struct as an ABI argument.
    pub fn to_abi(&self) -> (r: AbiValue)
        ensures
            is_tuple_of(r, self.spec_words()),
    {
        let mut ws: Vec<AbiWord> = Vec::new();
        ws.push(AbiWord::Uint(self.shares));
        ws.push(AbiWord::Address(self.controller));
        ws.push(AbiWord::Uint(self.assets));
        ws.push(AbiWord::Bool(self.claimed));
        ws.push(AbiWord::Uint(self.timestamp));
        assert(ws@ =~= self.spec_words());
        AbiValue::Tuple(ws)
    }
}

} // verus!
