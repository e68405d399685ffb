//! A call to a deployed contract, described as plain values: the contract's
//! address, the function's 4-byte selector, the arguments and the native
//! amount sent along. ABI encoding and hashing are ethers' work.
use vstd::prelude::*;
use vstd::string::StringSliceAdditionalSpecFns;

use crate::eth::Address;

verus! {

/// A value that the ABI encodes in one 32-byte word.
#[derive(Debug, Clone, Copy)]
pub enum AbiWord {
    Address(Address),
    Uint(ethers::types::U256),
    Bool(bool),
}

/// An argument of a contract function.
#[derive(Debug, Clone)]
pub enum AbiValue {
    Word(AbiWord),
    /// A dynamic array, `T[]`.
    Array(Vec<AbiWord>),
    /// A struct of one-word fields.
    Tuple(Vec<AbiWord>),
}

/// The bytes that ethers' `abi::encode` gives for these arguments.
pub uninterp spec fn abi_encoding(args: Seq<AbiValue>) -> Seq<u8>;

/// The 32 bytes that ethers' `keccak256` gives for a byte string.
pub uninterp spec fn keccak_of(bytes: Seq<u8>) -> Seq<u8>;

/// Relies on ethers::abi::encode, after turning each argument into the
/// ethers token of the same ABI type.
#[verifier::external_body]
fn abi_encode(args: &Vec<AbiValue>) -> (r: Vec<u8>)
    ensures
        r@ == abi_encoding(args@),
{
    let word = |w: &AbiWord| match w {
        AbiWord::Address(a) => ethers::abi::Token::Address(*a),
        AbiWord::Uint(x) => ethers::abi::Token::Uint(*x),
        AbiWord::Bool(b) => ethers::abi::Token::Bool(*b),
    };
    let tokens: Vec<ethers::abi::Token> = args.iter().map(|v| match v {
        AbiValue::Word(w) => word(w),
        AbiValue::Array(ws) => ethers::abi::Token::Array(ws.iter().map(word).collect()),
        AbiValue::Tuple(ws) => ethers::abi::Token::Tuple(ws.iter().map(word).collect()),
    }).collect();
    ethers::abi::encode(&tokens)
}

/// Relies on ethers::utils::keccak256, which always gives 32 bytes.
#[verifier::external_body]
fn keccak256(bytes: &[u8]) -> (r: [u8; 32])
    ensures
        r@ == keccak_of(bytes@),
{
    ethers::utils::keccak256(bytes)
}

/// The hash of a function's or an event's signature text; an event's topic,
/// and in its first four bytes a function's selector.
pub fn signature_hash(signature: &str) -> (r: [u8; 32])
    ensures
        r@ == keccak_of(signature.spec_bytes()),
{
    keccak256(signature.as_bytes())
}

pub fn address_arg(a: Address) -> (r: AbiValue)
    ensures
        r == AbiValue::Word(AbiWord::Address(a)),
{
    AbiValue::Word(AbiWord::Address(a))
}

pub fn uint_arg(x: ethers::types::U256) -> (r: AbiValue)
    ensures
        r == AbiValue::Word(AbiWord::Uint(x)),
{
    AbiValue::Word(AbiWord::Uint(x))
}

pub fn bool_arg(b: bool) -> (r: AbiValue)
    ensures
        r == AbiValue::Word(AbiWord::Bool(b)),
{
    AbiValue::Word(AbiWord::Bool(b))
}

/// `v` is an unsigned word holding `x`.
pub open spec fn is_small_uint(v: AbiValue, x: nat) -> bool {
    v matches AbiValue::Word(AbiWord::Uint(w)) && crate::eth::u256_value(w) == x
}

/// `v` is the dynamic array of the unsigned words `xs`.
pub open spec fn is_uint_array(v: AbiValue, xs: Seq<ethers::types::U256>) -> bool {
    v matches AbiValue::Array(ws) && ws@ == xs.map_values(|x| AbiWord::Uint(x))
}

/// `v` is the struct whose fields are `words`.
pub open spec fn is_tuple_of(v: AbiValue, words: Seq<AbiWord>) -> bool {
    v matches AbiValue::Tuple(ws) && ws@ == words
}

/// A small unsigned integer widened to the ABI's 256-bit word.
pub fn small_uint_arg(x: u64) -> (r: AbiValue)
    ensures
        is_small_uint(r, x as nat),
{
    AbiValue::Word(AbiWord::Uint(ethers::types::U256([x, 0, 0, 0])))
}

pub fn uint_array_arg(xs: &Vec<ethers::types::U256>) -> (r: AbiValue)
    ensures
        is_uint_array(r, xs@),
{
    let mut ws: Vec<AbiWord> = Vec::new();
    let mut i: usize = 0;
    while i < xs.len()
        invariant
            i <= xs.len(),
            ws@ == xs@.take(i as int).map_values(|x| AbiWord::Uint(x)),
        decreases xs.len() - i,
    {
        ws.push(AbiWord::Uint(xs[i]));
        i = i + 1;
        assert(xs@.take(i as int).map_values(|x| AbiWord::Uint(x)) =~= ws@);
    }
    assert(xs@.take(xs.len() as int) =~= xs@);
    AbiValue::Array(ws)
}

/// The input of a transaction that calls function `selector` with `args`.
pub fn calldata_of(selector: [u8; 4], args: &Vec<AbiValue>) -> (r: Vec<u8>)
    ensures
        r@ == selector@ + abi_encoding(args@),
{
    let mut r: Vec<u8> = Vec::new();
    r.push(selector[0]);
    r.push(selector[1]);
    r.push(selector[2]);
    r.push(selector[3]);
    let mut tail = abi_encode(args);
    r.append(&mut tail);
    assert(r@ =~= selector@ + abi_encoding(args@));
    r
}

/// Whether a selector is the four bytes `a`, `b`, `c`, `d`.
pub fn selector_is(s: [u8; 4], a: u8, b: u8, c: u8, d: u8) -> (r: bool)
    ensures
        r == (s@ == seq![a, b, c, d]),
{
    let r = s[0] == a && s[1] == b && s[2] == c && s[3] == d;
    if r {
        assert(s@ =~= seq![a, b, c, d]);
    } else {
        assert(s@ != seq![a, b, c, d]) by {
            if s@ == seq![a, b, c, d] {
                assert(s@[0] == a && s@[1] == b && s@[2] == c && s@[3] == d);
            }
        }
    }
    r
}

/// A prepared call of a contract function.
#[derive(Debug)]
pub struct ContractCall {
    pub to: Address,
    pub selector: [u8; 4],
    pub args: Vec<AbiValue>,
    /// Native currency sent along, if any.
    pub value: Option<ethers::types::U256>,
}

/// `c` calls function `selector` of the contract at `to` with `args` and
/// sends no native currency.
pub open spec fn is_call(c: ContractCall, to: Address, selector: Seq<u8>, args: Seq<AbiValue>) -> bool {
    &&& c.to == to
    &&& c.selector@ == selector
    &&& c.args@ == args
    &&& c.value is None
}

/// `c` calls function `selector` of the contract at `to` with `n` arguments
/// and sends no native currency.
pub open spec fn is_call_to(c: ContractCall, to: Address, selector: Seq<u8>, n: nat) -> bool {
    &&& c.to == to
    &&& c.selector@ == selector
    &&& c.args@.len() == n
    &&& c.value is None
}

impl ContractCall {
    pub fn new(to: Address, selector: [u8; 4], args: Vec<AbiValue>) -> (r: ContractCall)
        ensures
            is_call(r, to, selector@, args@),
    {
        ContractCall { to, selector, args, value: None }
    }

    /// A call of the function with this signature text, e.g. "balanceOf(address)".
    pub fn from_signature(to: Address, signature: &str, args: Vec<AbiValue>) -> (r: ContractCall)
        ensures
            is_call(r, to, keccak_of(signature.spec_bytes()).take(4), args@),
    {
        let h = signature_hash(signature);
        let selector: [u8; 4] = [h[0], h[1], h[2], h[3]];
        assert(selector@ =~= keccak_of(signature.spec_bytes()).take(4));
        ContractCall { to, selector, args, value: None }
    }

    /// The same call, sending `amount` along.
    pub fn value(self, amount: ethers::types::U256) -> (r: ContractCall)
        ensures
            r.to == self.to,
            r.selector == self.selector,
            r.args@ == self.args@,
            r.value == Some(amount),
    {
        ContractCall { value: Some(amount), ..self }
    }

    /// The transaction input: the selector, then the encoded arguments.
    pub fn calldata(&self) -> (r: Vec<u8>)
        ensures
            r@ == self.selector@ + abi_encoding(self.args@),
    {
        calldata_of(self.selector, &self.args)
    }
}

/// A filter for the logs of one contract: all of them, or those of one event.
#[derive(Debug, Clone, Copy)]
pub struct EventFilter {
    pub address: Address,
    pub topic0: Option<[u8; 32]>,
}

impl EventFilter {
    /// Every log of the contract at `address`.
    pub fn all(address: Address) -> (r: EventFilter)
        ensures
            r.address == address,
            r.topic0 is None,
    {
        EventFilter { address, topic0: None }
    }

    /// The logs of the contract at `address` for the event with this signature.
    pub fn event(address: Address, signature: &str) -> (r: EventFilter)
        ensures
            r.address == address,
            r.topic0 is Some,
            r.topic0->Some_0@ == keccak_of(signature.spec_bytes()),
    {
        EventFilter { address, topic0: Some(signature_hash(signature)) }
    }
}

} // verus!
