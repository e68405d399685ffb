//! Magma's stake manager contract: a builder for each of its functions and
//! events, its calls as values, and its errors.
use vstd::prelude::*;
use vstd::string::StringSliceAdditionalSpecFns;

use crate::call::{
    abi_encoding, address_arg, bool_arg, calldata_of, selector_is, is_call_to, keccak_of, uint_arg,
    AbiValue, AbiWord, ContractCall, EventFilter,
};
use crate::eth::Address;

verus! {

#[allow(non_camel_case_types)]
#[derive(Debug, Clone, Copy)]
pub struct gMONStakeManager {
    pub address: Address,
}

impl gMONStakeManager {
    /// The contract deployed at `address`.
    pub fn new(address: Address) -> (r: Self)
        ensures
            r.address == address,
    {
        gMONStakeManager { address }
    }

    pub fn address(&self) -> (r: Address)
        ensures
            r == self.address,
    {
        self.address
    }

    /// Calls the contract's `calculateTVL` (0x5125105b) function.
    pub fn calculate_tvl(&self) -> (r: ContractCall)
        ensures
            is_call_to(r, self.address, seq![0x51, 0x25, 0x10, 0x5b], 0),
    {
        let args: Vec<AbiValue> = Vec::new();
        ContractCall::new(self.address, [0x51, 0x25, 0x10, 0x5b], args)
    }

    /// Calls the contract's `depositMon` (0xd5575982) function.
    pub fn deposit_mon(&self) -> (r: ContractCall)
        ensures
            is_call_to(r, self.address, seq![0xd5, 0x57, 0x59, 0x82], 0),
    {
        let args: Vec<AbiValue> = Vec::new();
        ContractCall::new(self.address, [0xd5, 0x57, 0x59, 0x82], args)
    }

    /// Calls the contract's `depositMon` (0xfef0b6fc) function.
    pub fn deposit_mon_with_referral_id(&self, referral_id: ethers::types::U256) -> (r: ContractCall)
        ensures
            is_call_to(r, self.address, seq![0xfe, 0xf0, 0xb6, 0xfc], 1),
            r.args@[0] == AbiValue::Word(AbiWord::Uint(referral_id)),
    {
        let mut args: Vec<AbiValue> = Vec::new();
        args.push(uint_arg(referral_id));
        ContractCall::new(self.address, [0xfe, 0xf0, 0xb6, 0xfc], args)
    }

    /// Calls the contract's `gMON` (0x98787171) function.
    pub fn g_mon(&self) -> (r: ContractCall)
        ensures
            is_call_to(r, self.address, seq![0x98, 0x78, 0x71, 0x71], 0),
    {
        let args: Vec<AbiValue> = Vec::new();
        ContractCall::new(self.address, [0x98, 0x78, 0x71, 0x71], args)
    }

    /// Calls the contract's `initialize` (0x485cc955) function.
    pub fn initialize(&self, role_manager: Address, g_mon: Address) -> (r: ContractCall)
        ensures
            is_call_to(r, self.address, seq![0x48, 0x5c, 0xc9, 0x55], 2),
            r.args@[0] == AbiValue::Word(AbiWord::Address(role_manager)),
            r.args@[1] == AbiValue::Word(AbiWord::Address(g_mon)),
    {
        let mut args: Vec<AbiValue> = Vec::new();
        args.push(address_arg(role_manager));
        args.push(address_arg(g_mon));
        ContractCall::new(self.address, [0x48, 0x5c, 0xc9, 0x55], args)
    }

    /// Calls the contract's `maxDepositTVL` (0xa088ebcf) function.
    pub fn max_deposit_tvl(&self) -> (r: ContractCall)
        ensures
            is_call_to(r, self.address, seq![0xa0, 0x88, 0xeb, 0xcf], 0),
    {
        let args: Vec<AbiValue> = Vec::new();
        ContractCall::new(self.address, [0xa0, 0x88, 0xeb, 0xcf], args)
    }

    /// Calls the contract's `paused` (0x5c975abb) function.
    pub fn paused(&self) -> (r: ContractCall)
        ensures
            is_call_to(r, self.address, seq![0x5c, 0x97, 0x5a, 0xbb], 0),
    {
        let args: Vec<AbiValue> = Vec::new();
        ContractCall::new(self.address, [0x5c, 0x97, 0x5a, 0xbb], args)
    }

    /// Calls the contract's `roleManager` (0x00435da5) function.
    pub fn role_manager(&self) -> (r: ContractCall)
        ensures
            is_call_to(r, self.address, seq![0x00, 0x43, 0x5d, 0xa5], 0),
    {
        let args: Vec<AbiValue> = Vec::new();
        ContractCall::new(self.address, [0x00, 0x43, 0x5d, 0xa5], args)
    }

    /// Calls the contract's `setMaxDepositTVL` (0x3ab1de82) function.
    pub fn set_max_deposit_tvl(&self, max_deposit_tvl: ethers::types::U256) -> (r: ContractCall)
        ensures
            is_call_to(r, self.address, seq![0x3a, 0xb1, 0xde, 0x82], 1),
            r.args@[0] == AbiValue::Word(AbiWord::Uint(max_deposit_tvl)),
    {
        let mut args: Vec<AbiValue> = Vec::new();
        args.push(uint_arg(max_deposit_tvl));
        ContractCall::new(self.address, [0x3a, 0xb1, 0xde, 0x82], args)
    }

    /// Calls the contract's `setPaused` (0x16c38b3c) function.
    pub fn set_paused(&self, paused: bool) -> (r: ContractCall)
        ensures
            is_call_to(r, self.address, seq![0x16, 0xc3, 0x8b, 0x3c], 1),
            r.args@[0] == AbiValue::Word(AbiWord::Bool(paused)),
    {
        let mut args: Vec<AbiValue> = Vec::new();
        args.push(bool_arg(paused));
        ContractCall::new(self.address, [0x16, 0xc3, 0x8b, 0x3c], args)
    }

    /// Calls the contract's `totalValueLocked` (0xec18154e) function.
    pub fn total_value_locked(&self) -> (r: ContractCall)
        ensures
            is_call_to(r, self.address, seq![0xec, 0x18, 0x15, 0x4e], 0),
    {
        let args: Vec<AbiValue> = Vec::new();
        ContractCall::new(self.address, [0xec, 0x18, 0x15, 0x4e], args)
    }

    /// Calls the contract's `withdrawMon` (0x6fed1ea7) function.
    pub fn withdraw_mon(&self, amount: ethers::types::U256) -> (r: ContractCall)
        ensures
            is_call_to(r, self.address, seq![0x6f, 0xed, 0x1e, 0xa7], 1),
            r.args@[0] == AbiValue::Word(AbiWord::Uint(amount)),
    {
        let mut args: Vec<AbiValue> = Vec::new();
        args.push(uint_arg(amount));
        ContractCall::new(self.address, [0x6f, 0xed, 0x1e, 0xa7], args)
    }

    /// The contract's `Deposit` event.
    pub fn deposit_filter(&self) -> (r: EventFilter)
        ensures
            r.address == self.address,
            r.topic0 is Some,
            r.topic0->Some_0@ == keccak_of("Deposit(address,uint256,uint256,uint256)".spec_bytes()),
    {
        EventFilter::event(self.address, "Deposit(address,uint256,uint256,uint256)")
    }

    /// The contract's `Initialized` event.
    pub fn initialized_filter(&self) -> (r: EventFilter)
        ensures
            r.address == self.address,
            r.topic0 is Some,
            r.topic0->Some_0@ == keccak_of("Initialized(uint64)".spec_bytes()),
    {
        EventFilter::event(self.address, "Initialized(uint64)")
    }

    /// The contract's `Withdraw` event.
    pub fn withdraw_filter(&self) -> (r: EventFilter)
        ensures
            r.address == self.address,
            r.topic0 is Some,
            r.topic0->Some_0@ == keccak_of("Withdraw(address,uint256,uint256)".spec_bytes()),
    {
        EventFilter::event(self.address, "Withdraw(address,uint256,uint256)")
    }

    /// Every event of this contract.
    pub fn events(&self) -> (r: EventFilter)
        ensures
            r.address == self.address,
            r.topic0 is None,
    {
        EventFilter::all(self.address)
    }
}

/// The arguments of `calculateTVL()` (selector 0x5125105b).
#[derive(Debug, Clone, Copy, Default, PartialEq, Eq, Hash)]
pub struct CalculateTVLCall;

/// The arguments of `depositMon()` (selector 0xd5575982).
#[derive(Debug, Clone, Copy, Default, PartialEq, Eq, Hash)]
pub struct DepositMonCall;

/// The arguments of `depositMon(uint256)` (selector 0xfef0b6fc).
#[derive(Debug, Clone, Copy)]
pub struct DepositMonWithReferralIdCall {
    pub referral_id: ethers::types::U256,
}

/// The arguments of `gMON()` (selector 0x98787171).
#[derive(Debug, Clone, Copy, Default, PartialEq, Eq, Hash)]
pub struct GmonCall;

/// The arguments of `initialize(address,address)` (selector 0x485cc955).
#[derive(Debug, Clone, Copy)]
pub struct InitializeCall {
    pub role_manager: Address,
    pub g_mon: Address,
}

/// The arguments of `maxDepositTVL()` (selector 0xa088ebcf).
#[derive(Debug, Clone, Copy, Default, PartialEq, Eq, Hash)]
pub struct MaxDepositTVLCall;

/// The arguments of `paused()` (selector 0x5c975abb).
#[derive(Debug, Clone, Copy, Default, PartialEq, Eq, Hash)]
pub struct PausedCall;

/// The arguments of `roleManager()` (selector 0x00435da5).
#[derive(Debug, Clone, Copy, Default, PartialEq, Eq, Hash)]
pub struct RoleManagerCall;

/// The arguments of `setMaxDepositTVL(uint256)` (selector 0x3ab1de82).
#[derive(Debug, Clone, Copy)]
pub struct SetMaxDepositTVLCall {
    pub max_deposit_tvl: ethers::types::U256,
}

/// The arguments of `setPaused(bool)` (selector 0x16c38b3c).
#[derive(Debug, Clone, Copy)]
pub struct SetPausedCall {
    pub paused: bool,
}

/// The arguments of `totalValueLocked()` (selector 0xec18154e).
#[derive(Debug, Clone, Copy, Default, PartialEq, Eq, Hash)]
pub struct TotalValueLockedCall;

/// The arguments of `withdrawMon(uint256)` (selector 0x6fed1ea7).
#[derive(Debug, Clone, Copy)]
pub struct WithdrawMonCall {
    pub amount: ethers::types::U256,
}

/// A call of any function of the contract, with its arguments.
#[allow(non_camel_case_types)]
#[derive(Debug)]
pub enum gMONStakeManagerCalls {
    CalculateTVL(CalculateTVLCall),
    DepositMon(DepositMonCall),
    DepositMonWithReferralId(DepositMonWithReferralIdCall),
    Gmon(GmonCall),
    Initialize(InitializeCall),
    MaxDepositTVL(MaxDepositTVLCall),
    Paused(PausedCall),
    RoleManager(RoleManagerCall),
    SetMaxDepositTVL(SetMaxDepositTVLCall),
    SetPaused(SetPausedCall),
    TotalValueLocked(TotalValueLockedCall),
    WithdrawMon(WithdrawMonCall),
}

impl gMONStakeManagerCalls {
    pub open spec fn spec_selector(&self) -> Seq<u8> {
        match self {
            gMONStakeManagerCalls::CalculateTVL(_) => seq![0x51, 0x25, 0x10, 0x5b],
            gMONStakeManagerCalls::DepositMon(_) => seq![0xd5, 0x57, 0x59, 0x82],
            gMONStakeManagerCalls::DepositMonWithReferralId(_) => seq![0xfe, 0xf0, 0xb6, 0xfc],
            gMONStakeManagerCalls::Gmon(_) => seq![0x98, 0x78, 0x71, 0x71],
            gMONStakeManagerCalls::Initialize(_) => seq![0x48, 0x5c, 0xc9, 0x55],
            gMONStakeManagerCalls::MaxDepositTVL(_) => seq![0xa0, 0x88, 0xeb, 0xcf],
            gMONStakeManagerCalls::Paused(_) => seq![0x5c, 0x97, 0x5a, 0xbb],
            gMONStakeManagerCalls::RoleManager(_) => seq![0x00, 0x43, 0x5d, 0xa5],
            gMONStakeManagerCalls::SetMaxDepositTVL(_) => seq![0x3a, 0xb1, 0xde, 0x82],
            gMONStakeManagerCalls::SetPaused(_) => seq![0x16, 0xc3, 0x8b, 0x3c],
            gMONStakeManagerCalls::TotalValueLocked(_) => seq![0xec, 0x18, 0x15, 0x4e],
            gMONStakeManagerCalls::WithdrawMon(_) => seq![0x6f, 0xed, 0x1e, 0xa7],
        }
    }

    /// The 4-byte selector of the function called.
    pub fn selector(&self) -> (r: [u8; 4])
        ensures
            r@ == self.spec_selector(),
    {
        let r = match self {
            gMONStakeManagerCalls::CalculateTVL(_) => [0x51, 0x25, 0x10, 0x5b],
            gMONStakeManagerCalls::DepositMon(_) => [0xd5, 0x57, 0x59, 0x82],
            gMONStakeManagerCalls::DepositMonWithReferralId(_) => [0xfe, 0xf0, 0xb6, 0xfc],
            gMONStakeManagerCalls::Gmon(_) => [0x98, 0x78, 0x71, 0x71],
            gMONStakeManagerCalls::Initialize(_) => [0x48, 0x5c, 0xc9, 0x55],
            gMONStakeManagerCalls::MaxDepositTVL(_) => [0xa0, 0x88, 0xeb, 0xcf],
            gMONStakeManagerCalls::Paused(_) => [0x5c, 0x97, 0x5a, 0xbb],
            gMONStakeManagerCalls::RoleManager(_) => [0x00, 0x43, 0x5d, 0xa5],
            gMONStakeManagerCalls::SetMaxDepositTVL(_) => [0x3a, 0xb1, 0xde, 0x82],
            gMONStakeManagerCalls::SetPaused(_) => [0x16, 0xc3, 0x8b, 0x3c],
            gMONStakeManagerCalls::TotalValueLocked(_) => [0xec, 0x18, 0x15, 0x4e],
            gMONStakeManagerCalls::WithdrawMon(_) => [0x6f, 0xed, 0x1e, 0xa7],
        };
        assert(r@ =~= self.spec_selector());
        r
    }

    /// Whether `args` are the arguments of this call, in order.
    pub open spec fn has_args(&self, args: Seq<AbiValue>) -> bool {
        match self {
            gMONStakeManagerCalls::CalculateTVL(c) => args.len() == 0,
            gMONStakeManagerCalls::DepositMon(c) => args.len() == 0,
            gMONStakeManagerCalls::DepositMonWithReferralId(c) => args.len() == 1 && args[0] == AbiValue::Word(AbiWord::Uint(c.referral_id)),
            gMONStakeManagerCalls::Gmon(c) => args.len() == 0,
            gMONStakeManagerCalls::Initialize(c) => args.len() == 2 && args[0] == AbiValue::Word(AbiWord::Address(c.role_manager)) && args[1] == AbiValue::Word(AbiWord::Address(c.g_mon)),
            gMONStakeManagerCalls::MaxDepositTVL(c) => args.len() == 0,
            gMONStakeManagerCalls::Paused(c) => args.len() == 0,
            gMONStakeManagerCalls::RoleManager(c) => args.len() == 0,
            gMONStakeManagerCalls::SetMaxDepositTVL(c) => args.len() == 1 && args[0] == AbiValue::Word(AbiWord::Uint(c.max_deposit_tvl)),
            gMONStakeManagerCalls::SetPaused(c) => args.len() == 1 && args[0] == AbiValue::Word(AbiWord::Bool(c.paused)),
            gMONStakeManagerCalls::TotalValueLocked(c) => args.len() == 0,
            gMONStakeManagerCalls::WithdrawMon(c) => args.len() == 1 && args[0] == AbiValue::Word(AbiWord::Uint(c.amount)),
        }
    }

    /// The call's arguments as ABI values.
    pub fn args(&self) -> (r: Vec<AbiValue>)
        ensures
            self.has_args(r@),
    {
        let mut args: Vec<AbiValue> = Vec::new();
        match self {
            gMONStakeManagerCalls::CalculateTVL(_) => {},
            gMONStakeManagerCalls::DepositMon(_) => {},
            gMONStakeManagerCalls::DepositMonWithReferralId(c) => {
                args.push(uint_arg(c.referral_id));
            },
            gMONStakeManagerCalls::Gmon(_) => {},
            gMONStakeManagerCalls::Initialize(c) => {
                args.push(address_arg(c.role_manager));
                args.push(address_arg(c.g_mon));
            },
            gMONStakeManagerCalls::MaxDepositTVL(_) => {},
            gMONStakeManagerCalls::Paused(_) => {},
            gMONStakeManagerCalls::RoleManager(_) => {},
            gMONStakeManagerCalls::SetMaxDepositTVL(c) => {
                args.push(uint_arg(c.max_deposit_tvl));
            },
            gMONStakeManagerCalls::SetPaused(c) => {
                args.push(bool_arg(c.paused));
            },
            gMONStakeManagerCalls::TotalValueLocked(_) => {},
            gMONStakeManagerCalls::WithdrawMon(c) => {
                args.push(uint_arg(c.amount));
            },
        }
        args
    }

    /// The transaction input for this call: selector, then encoded arguments.
    pub fn encode(&self) -> (r: Vec<u8>)
        ensures
            exists|args: Seq<AbiValue>| self.has_args(args) && r@ == self.spec_selector() + abi_encoding(args),
    {
        calldata_of(self.selector(), &self.args())
    }
}

/// The custom error `ContractPaused()` (selector 0xab35696f).
#[derive(Debug, Clone, Copy, Default, PartialEq, Eq, Hash)]
pub struct ContractPaused;

/// The custom error `FailedToSendMon()` (selector 0x24d04945).
#[derive(Debug, Clone, Copy, Default, PartialEq, Eq, Hash)]
pub struct FailedToSendMon;

/// The custom error `InsufficientBalance()` (selector 0xf4d678b8).
#[derive(Debug, Clone, Copy, Default, PartialEq, Eq, Hash)]
pub struct InsufficientBalance;

/// The custom error `InvalidInitialization()` (selector 0xf92ee8a9).
#[derive(Debug, Clone, Copy, Default, PartialEq, Eq, Hash)]
pub struct InvalidInitialization;

/// The custom error `InvalidZeroInput()` (selector 0x862a6067).
#[derive(Debug, Clone, Copy, Default, PartialEq, Eq, Hash)]
pub struct InvalidZeroInput;

/// The custom error `MaxTVLReached()` (selector 0x709994bc).
#[derive(Debug, Clone, Copy, Default, PartialEq, Eq, Hash)]
pub struct MaxTVLReached;

/// The custom error `NotDepositWithdrawPauser()` (selector 0xc2952d6b).
#[derive(Debug, Clone, Copy, Default, PartialEq, Eq, Hash)]
pub struct NotDepositWithdrawPauser;

/// The custom error `NotInitializing()` (selector 0xd7e6bcf8).
#[derive(Debug, Clone, Copy, Default, PartialEq, Eq, Hash)]
pub struct NotInitializing;

/// The custom error `NotStakeManagerAdmin()` (selector 0xb20d2320).
#[derive(Debug, Clone, Copy, Default, PartialEq, Eq, Hash)]
pub struct NotStakeManagerAdmin;

/// The custom error `ReentrancyGuardReentrantCall()` (selector 0x3ee5aeb5).
#[derive(Debug, Clone, Copy, Default, PartialEq, Eq, Hash)]
pub struct ReentrancyGuardReentrantCall;

/// Any error the contract reverts with: its custom errors, or a revert
/// message (`Error(string)`, selector 0x08c379a0).
#[allow(non_camel_case_types)]
#[derive(Debug)]
pub enum gMONStakeManagerErrors {
    ContractPaused(ContractPaused),
    FailedToSendMon(FailedToSendMon),
    InsufficientBalance(InsufficientBalance),
    InvalidInitialization(InvalidInitialization),
    InvalidZeroInput(InvalidZeroInput),
    MaxTVLReached(MaxTVLReached),
    NotDepositWithdrawPauser(NotDepositWithdrawPauser),
    NotInitializing(NotInitializing),
    NotStakeManagerAdmin(NotStakeManagerAdmin),
    ReentrancyGuardReentrantCall(ReentrancyGuardReentrantCall),
    RevertString(String),
}

impl gMONStakeManagerErrors {
    /// The selectors of the revert message and of each custom error.
    pub open spec fn is_known_selector(s: Seq<u8>) -> bool {
        s == seq![0x08u8, 0xc3, 0x79, 0xa0]
            || s == seq![0xabu8, 0x35, 0x69, 0x6f]
            || s == seq![0x24u8, 0xd0, 0x49, 0x45]
            || s == seq![0xf4u8, 0xd6, 0x78, 0xb8]
            || s == seq![0xf9u8, 0x2e, 0xe8, 0xa9]
            || s == seq![0x86u8, 0x2a, 0x60, 0x67]
            || s == seq![0x70u8, 0x99, 0x94, 0xbc]
            || s == seq![0xc2u8, 0x95, 0x2d, 0x6b]
            || s == seq![0xd7u8, 0xe6, 0xbc, 0xf8]
            || s == seq![0xb2u8, 0x0d, 0x23, 0x20]
            || s == seq![0x3eu8, 0xe5, 0xae, 0xb5]
    }

    /// Whether revert data with this selector is one of the contract's errors.
    pub fn valid_selector(selector: [u8; 4]) -> (r: bool)
        ensures
            r == Self::is_known_selector(selector@),
    {
        selector_is(selector, 0x08, 0xc3, 0x79, 0xa0)
            || selector_is(selector, 0xab, 0x35, 0x69, 0x6f)
            || selector_is(selector, 0x24, 0xd0, 0x49, 0x45)
            || selector_is(selector, 0xf4, 0xd6, 0x78, 0xb8)
            || selector_is(selector, 0xf9, 0x2e, 0xe8, 0xa9)
            || selector_is(selector, 0x86, 0x2a, 0x60, 0x67)
            || selector_is(selector, 0x70, 0x99, 0x94, 0xbc)
            || selector_is(selector, 0xc2, 0x95, 0x2d, 0x6b)
            || selector_is(selector, 0xd7, 0xe6, 0xbc, 0xf8)
            || selector_is(selector, 0xb2, 0x0d, 0x23, 0x20)
            || selector_is(selector, 0x3e, 0xe5, 0xae, 0xb5)
    }
}

} // verus!
