//! The three liquid staking protocols this server knows, and what each one
//! means on chain: its contract, its token, and the call that reads a
//! balance, reads the TVL, stakes or unstakes.
use vstd::prelude::*;
use vstd::string::StringSliceAdditionalSpecFns;

use crate::aprmon::aprMON;
use crate::call::{is_call, keccak_of, AbiValue, AbiWord, ContractCall};
use crate::constants::{
    aprmon_address, aprmon_address_bytes, gmon_address, gmon_address_bytes, gmon_stakemanager_address,
    gmon_stakemanager_address_bytes, shmon_address, shmon_address_bytes,
};
use crate::eth::Address;
use crate::gmonstakemanager::gMONStakeManager;
use crate::text::str_eq;
use crate::tokens::{calls_signature, erc20, gMON, shMON};

verus! {

#[derive(Debug, Clone, Copy, PartialEq, Eq, Structural)]
pub enum LstProtocol {
    AprMON,
    GMON,
    SHMON,
}

/// The protocol a tag names, if any.
pub open spec fn protocol_of(tag: Seq<char>) -> Option<LstProtocol> {
    if tag == "aprMON"@ {
        Some(LstProtocol::AprMON)
    } else if tag == "gMON"@ {
        Some(LstProtocol::GMON)
    } else if tag == "shMON"@ {
        Some(LstProtocol::SHMON)
    } else {
        None
    }
}

impl LstProtocol {
    pub open spec fn spec_name(self) -> Seq<char> {
        match self {
            LstProtocol::AprMON => "aprMON"@,
            LstProtocol::GMON => "gMON"@,
            LstProtocol::SHMON => "shMON"@,
        }
    }

    /// The protocol's contract: the vault, or Magma's stake manager.
    pub open spec fn spec_address(self) -> Seq<u8> {
        match self {
            LstProtocol::AprMON => aprmon_address_bytes(),
            LstProtocol::GMON => gmon_stakemanager_address_bytes(),
            LstProtocol::SHMON => shmon_address_bytes(),
        }
    }

    /// The token the protocol issues.
    pub open spec fn spec_token_address(self) -> Seq<u8> {
        match self {
            LstProtocol::AprMON => aprmon_address_bytes(),
            LstProtocol::GMON => gmon_address_bytes(),
            LstProtocol::SHMON => shmon_address_bytes(),
        }
    }

    pub open spec fn spec_description(self) -> Seq<char> {
        match self {
            LstProtocol::AprMON => "aPriori is the leading MEV-powered liquid staking platform on Monad."@,
            LstProtocol::GMON => "Magma enables Monad token holders to earn staking rewards while remaining liquid through Magma's Liquid Staking token, gMON."@,
            LstProtocol::SHMON => "shMONAD is an innovative Liquid Staking Token (LST) built on top of MON (Monad). Designed for users who wish to stake their MON while retaining liquidity, shMONAD allows holders to convert MON into shMON, bond their tokens within distinct policies, and later unbond them after an escrow period."@,
        }
    }

    /// The protocol's tag: "aprMON", "gMON" or "shMON".
    pub fn name(&self) -> (r: &'static str)
        ensures
            r@ == self.spec_name(),
    {
        match self {
            LstProtocol::AprMON => "aprMON",
            LstProtocol::GMON => "gMON",
            LstProtocol::SHMON => "shMON",
        }
    }

    /// The protocol's tag as an owned string.
    pub fn to_string(&self) -> (r: String)
        ensures
            r@ == self.spec_name(),
    {
        String::from_str(self.name())
    }

    /// The protocol that a tag names; tags are case sensitive.
    pub fn try_from(value: &str) -> (r: Result<LstProtocol, &'static str>)
        ensures
            match protocol_of(value@) {
                Some(p) => r == Ok::<LstProtocol, &'static str>(p),
                None => r is Err && r->Err_0@ == "Invalid LST protocol"@,
            },
    {
        if str_eq(value, "aprMON") {
            Ok(LstProtocol::AprMON)
        } else if str_eq(value, "gMON") {
            Ok(LstProtocol::GMON)
        } else if str_eq(value, "shMON") {
            Ok(LstProtocol::SHMON)
        } else {
            Err("Invalid LST protocol")
        }
    }

    pub fn address(&self) -> (r: Address)
        ensures
            r.0@ == self.spec_address(),
    {
        match self {
            LstProtocol::AprMON => aprmon_address(),
            LstProtocol::GMON => gmon_stakemanager_address(),
            LstProtocol::SHMON => shmon_address(),
        }
    }

    pub fn token_address(&self) -> (r: Address)
        ensures
            r.0@ == self.spec_token_address(),
    {
        match self {
            LstProtocol::AprMON => aprmon_address(),
            LstProtocol::GMON => gmon_address(),
            LstProtocol::SHMON => shmon_address(),
        }
    }

    pub fn description(&self) -> (r: &'static str)
        ensures
            r@ == self.spec_description(),
    {
        match self {
            LstProtocol::AprMON => "aPriori is the leading MEV-powered liquid staking platform on Monad.",
            LstProtocol::GMON => "Magma enables Monad token holders to earn staking rewards while remaining liquid through Magma's Liquid Staking token, gMON.",
            LstProtocol::SHMON => "shMONAD is an innovative Liquid Staking Token (LST) built on top of MON (Monad). Designed for users who wish to stake their MON while retaining liquidity, shMONAD allows holders to convert MON into shMON, bond their tokens within distinct policies, and later unbond them after an escrow period.",
        }
    }

    /// The call that reads `owner`'s balance of the protocol's token:
    /// `balanceOf(owner)` on the token contract.
    pub open spec fn is_balance_call(self, owner: Address, c: ContractCall) -> bool {
        let args = seq![AbiValue::Word(AbiWord::Address(owner))];
        &&& c.to.0@ == self.spec_token_address()
        &&& match self {
            LstProtocol::AprMON => is_call(c, c.to, seq![0x70, 0xa0, 0x82, 0x31], args),
            _ => calls_signature(c, c.to, "balanceOf(address)".spec_bytes(), args),
        }
    }

    /// The call that reads the protocol's total value locked.
    pub open spec fn is_tvl_call(self, c: ContractCall) -> bool {
        match self {
            LstProtocol::AprMON => c.to.0@ == self.spec_token_address() && is_call(
                c,
                c.to,
                seq![0x01, 0xe1, 0xd1, 0x14],
                seq![],
            ),
            LstProtocol::GMON => c.to.0@ == self.spec_address() && is_call(
                c,
                c.to,
                seq![0x51, 0x25, 0x10, 0x5b],
                seq![],
            ),
            LstProtocol::SHMON => c.to.0@ == self.spec_token_address() && calls_signature(
                c,
                c.to,
                "totalAssets()".spec_bytes(),
                seq![],
            ),
        }
    }

    /// The transaction that stakes `amount` of native currency, sent along,
    /// with the shares going to `signer`.
    pub open spec fn is_stake_call(self, signer: Address, amount: ethers::types::U256, c: ContractCall) -> bool {
        let args = seq![AbiValue::Word(AbiWord::Uint(amount)), AbiValue::Word(AbiWord::Address(signer))];
        &&& c.to.0@ == self.spec_address()
        &&& c.value == Some(amount)
        &&& c.args@ == match self {
            LstProtocol::GMON => seq![],
            _ => args,
        }
        &&& c.selector@ == match self {
            LstProtocol::AprMON => seq![0x6eu8, 0x55, 0x3f, 0x65],
            LstProtocol::GMON => seq![0xd5u8, 0x57, 0x59, 0x82],
            LstProtocol::SHMON => keccak_of("deposit(uint256,address)".spec_bytes()).take(4),
        }
    }

    /// The transaction that redeems `amount` of the protocol's token held by
    /// `signer`, the assets going back to `signer`.
    pub open spec fn is_unstake_call(self, signer: Address, amount: ethers::types::U256, c: ContractCall) -> bool {
        let args = seq![
            AbiValue::Word(AbiWord::Uint(amount)),
            AbiValue::Word(AbiWord::Address(signer)),
            AbiValue::Word(AbiWord::Address(signer)),
        ];
        &&& c.to.0@ == self.spec_address()
        &&& match self {
            LstProtocol::AprMON => is_call(c, c.to, seq![0x7d, 0x41, 0xc8, 0x6e], args),
            LstProtocol::GMON => is_call(
                c,
                c.to,
                seq![0x6f, 0xed, 0x1e, 0xa7],
                seq![AbiValue::Word(AbiWord::Uint(amount))],
            ),
            LstProtocol::SHMON => calls_signature(
                c,
                c.to,
                "redeem(uint256,address,address)".spec_bytes(),
                args,
            ),
        }
    }

    /// The call that reads `owner`'s balance of the protocol's token.
    pub fn read_balance(&self, owner: Address) -> (r: ContractCall)
        ensures
            self.is_balance_call(owner, r),
    {
        let r = match self {
            LstProtocol::AprMON => aprMON::new(self.token_address()).balance_of(owner),
            LstProtocol::GMON => gMON::new(self.token_address()).balance_of(owner),
            LstProtocol::SHMON => erc20::new(self.token_address()).balance_of(owner),
        };
        assert(r.args@ =~= seq![AbiValue::Word(AbiWord::Address(owner))]);
        r
    }

    /// The call that reads the protocol's total value locked.
    pub fn tvl(&self) -> (r: ContractCall)
        ensures
            self.is_tvl_call(r),
    {
        let r = match self {
            LstProtocol::AprMON => aprMON::new(self.token_address()).total_assets(),
            LstProtocol::GMON => gMONStakeManager::new(self.address()).calculate_tvl(),
            LstProtocol::SHMON => shMON::new(self.token_address()).total_assets(),
        };
        assert(r.args@ =~= seq![]);
        r
    }

    /// The transaction that stakes `amount` for `signer_address`.
    pub fn stake(&self, signer_address: Address, amount: ethers::types::U256) -> (r: ContractCall)
        ensures
            self.is_stake_call(signer_address, amount, r),
    {
        let r = match self {
            LstProtocol::AprMON => aprMON::new(self.address()).deposit(amount, signer_address).value(amount),
            LstProtocol::GMON => gMONStakeManager::new(self.address()).deposit_mon().value(amount),
            LstProtocol::SHMON => shMON::new(self.address()).deposit(amount, signer_address).value(amount),
        };
        assert(r.args@ =~= match self {
            LstProtocol::GMON => seq![],
            _ => seq![AbiValue::Word(AbiWord::Uint(amount)), AbiValue::Word(AbiWord::Address(signer_address))],
        });
        r
    }

    /// The transaction that unstakes `amount` for `signer_address`.
    pub fn unstake(&self, signer_address: Address, amount: ethers::types::U256) -> (r: ContractCall)
        ensures
            self.is_unstake_call(signer_address, amount, r),
    {
        let r = match self {
            LstProtocol::AprMON => aprMON::new(self.address()).request_redeem(amount, signer_address, signer_address),
            LstProtocol::GMON => gMONStakeManager::new(self.address()).withdraw_mon(amount),
            LstProtocol::SHMON => shMON::new(self.address()).redeem(amount, signer_address, signer_address),
        };
        assert(r.args@ =~= match self {
            LstProtocol::GMON => seq![AbiValue::Word(AbiWord::Uint(amount))],
            _ => seq![
                AbiValue::Word(AbiWord::Uint(amount)),
                AbiValue::Word(AbiWord::Address(signer_address)),
                AbiValue::Word(AbiWord::Address(signer_address)),
            ],
        });
        r
    }
}

} // verus!

verus! {

/// Each protocol's tag looks up that protocol, and only the three tags look
/// up any: lookup and naming agree.
pub proof fn lemma_protocol_lookup(p: LstProtocol, tag: Seq<char>)
    ensures
        protocol_of(p.spec_name()) == Some(p),
        protocol_of(tag) is Some <==> (tag == "aprMON"@ || tag == "gMON"@ || tag == "shMON"@),
        protocol_of(tag) matches Some(q) ==> q.spec_name() == tag,
{
    reveal_strlit("aprMON");
    reveal_strlit("gMON");
    reveal_strlit("shMON");
    assert("aprMON"@ != "gMON"@) by {
        assert("aprMON"@.len() != "gMON"@.len());
    }
    assert("aprMON"@ != "shMON"@) by {
        assert("aprMON"@[0] != "shMON"@[0]);
    }
    assert("gMON"@ != "shMON"@) by {
        assert("gMON"@.len() != "shMON"@.len());
    }
}

} // verus!
