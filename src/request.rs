//! The two tools, stake and unstake: checking what the caller sent and
//! preparing the one transaction each makes. Both checks, of the private key
//! and of the amount, come before any transaction exists, so nothing reaches
//! the network on a malformed request.
use vstd::prelude::*;

use crate::call::ContractCall;
use crate::eth::{
    hash_text, hex_text, is_private_key_text, key_address, private_key_bytes, signer_address, Address,
};
use crate::protocol::LstProtocol;
use crate::units::{amount_value, is_amount_text, parse_ether, AmountError};
use crate::eth::u256_bound;

verus! {

#[derive(Debug)]
pub struct StakeRequest {
    pub protocol: LstProtocol,
    pub private_key: String,
    pub amount: String,
}

#[derive(Debug)]
pub struct UnstakeRequest {
    pub protocol: LstProtocol,
    pub private_key: String,
    pub amount: String,
}

#[derive(Debug, Clone, Copy, PartialEq, Eq, Structural)]
pub enum ToolError {
    /// The private key is not 32 hex bytes of a valid secp256k1 scalar.
    InvalidPrivateKey,
    /// The amount is not a decimal number that fits in 256 bits at 18 decimals.
    InvalidAmount(AmountError),
}

/// A checked request: who signs, how much, and the call to send.
#[derive(Debug)]
pub struct TransactionPlan {
    pub signer: Address,
    pub amount: ethers::types::U256,
    pub call: ContractCall,
}

/// The error a request with this key and amount gets, if any, in the order
/// the checks run: the key first, then the amount.
pub open spec fn request_error(private_key: Seq<char>, amount: Seq<char>) -> Option<ToolError> {
    if !is_private_key_text(private_key) {
        Some(ToolError::InvalidPrivateKey)
    } else if !is_amount_text(amount) {
        Some(ToolError::InvalidAmount(AmountError::Malformed))
    } else if amount_value(amount) >= u256_bound() {
        Some(ToolError::InvalidAmount(AmountError::TooLarge))
    } else {
        None
    }
}

/// The signer and amount of a request that passed the checks.
pub open spec fn plan_matches(private_key: Seq<char>, amount: Seq<char>, plan: TransactionPlan) -> bool {
    &&& plan.signer.0@ == key_address(private_key_bytes(private_key))
    &&& crate::eth::u256_value(plan.amount) == amount_value(amount)
}

/// Checks a private key and an amount, in that order.
fn check_request(private_key: &str, amount: &str) -> (r: Result<
    (Address, ethers::types::U256),
    ToolError,
>)
    ensures
        match request_error(private_key@, amount@) {
            Some(e) => r == Err::<(Address, ethers::types::U256), ToolError>(e),
            None => r is Ok && r->Ok_0.0.0@ == key_address(private_key_bytes(private_key@))
                && crate::eth::u256_value(r->Ok_0.1) == amount_value(amount@),
        },
{
    let signer = match signer_address(private_key) {
        Some(a) => a,
        None => {
            return Err(ToolError::InvalidPrivateKey);
        },
    };
    match parse_ether(amount) {
        Ok(v) => Ok((signer, v)),
        Err(e) => Err(ToolError::InvalidAmount(e)),
    }
}

impl StakeRequest {
    /// The staking transaction this request asks for.
    pub fn plan(&self) -> (r: Result<TransactionPlan, ToolError>)
        ensures
            match request_error(self.private_key@, self.amount@) {
                Some(e) => r == Err::<TransactionPlan, ToolError>(e),
                None => r is Ok && plan_matches(self.private_key@, self.amount@, r->Ok_0)
                    && self.protocol.is_stake_call(r->Ok_0.signer, r->Ok_0.amount, r->Ok_0.call),
            },
    {
        let (signer, amount) = check_request(self.private_key.as_str(), self.amount.as_str())?;
        let call = self.protocol.stake(signer, amount);
        Ok(TransactionPlan { signer, amount, call })
    }
}

impl UnstakeRequest {
    /// The unstaking transaction this request asks for.
    pub fn plan(&self) -> (r: Result<TransactionPlan, ToolError>)
        ensures
            match request_error(self.private_key@, self.amount@) {
                Some(e) => r == Err::<TransactionPlan, ToolError>(e),
                None => r is Ok && plan_matches(self.private_key@, self.amount@, r->Ok_0)
                    && self.protocol.is_unstake_call(r->Ok_0.signer, r->Ok_0.amount, r->Ok_0.call),
            },
    {
        let (signer, amount) = check_request(self.private_key.as_str(), self.amount.as_str())?;
        let call = self.protocol.unstake(signer, amount);
        Ok(TransactionPlan { signer, amount, call })
    }
}

/// "{verb} {amount} {protocol} tokens successfully. Transaction hash: 0x…".
pub open spec fn success_text(verb: Seq<char>, amount: Seq<char>, protocol: LstProtocol, hash: Seq<u8>) -> Seq<char> {
    verb + " "@ + amount + " "@ + protocol.spec_name() + " tokens successfully. Transaction hash: "@ + "0x"@
        + hex_text(hash)
}

fn success_message(verb: &str, amount: &str, protocol: LstProtocol, hash: [u8; 32]) -> (r: String)
    ensures
        r@ == success_text(verb@, amount@, protocol, hash@),
{
    let mut r = String::from_str(verb);
    r.append(" ");
    r.append(amount);
    r.append(" ");
    r.append(protocol.name());
    r.append(" tokens successfully. Transaction hash: ");
    let h = hash_text(hash);
    r.append(h.as_str());
    assert(r@ =~= success_text(verb@, amount@, protocol, hash@));
    r
}

/// What the stake tool answers once the transaction with this hash is confirmed.
pub fn staked_message(amount: &str, protocol: LstProtocol, hash: [u8; 32]) -> (r: String)
    ensures
        r@ == success_text("Staked"@, amount@, protocol, hash@),
{
    success_message("Staked", amount, protocol, hash)
}

/// What the unstake tool answers once the transaction with this hash is confirmed.
pub fn unstaked_message(amount: &str, protocol: LstProtocol, hash: [u8; 32]) -> (r: String)
    ensures
        r@ == success_text("Unstaked"@, amount@, protocol, hash@),
{
    success_message("Unstaked", amount, protocol, hash)
}

} // verus!

verus! {

/// A request whose private key or amount is malformed gets an error, and so
/// no transaction: the checks need nothing from the network.
pub proof fn lemma_malformed_requests_rejected(private_key: Seq<char>, amount: Seq<char>)
    requires
        !is_private_key_text(private_key) || !is_amount_text(amount),
    ensures
        request_error(private_key, amount) is Some,
        !is_private_key_text(private_key) ==> request_error(private_key, amount) == Some(
            ToolError::InvalidPrivateKey,
        ),
{
}

} // verus!
