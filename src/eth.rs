//! Ethereum value types shared by the whole library: 256-bit unsigned
//! integers and 20-byte addresses, both taken from ethers.
use vstd::prelude::*;

pub use ethers::types::Address;

verus! {

/// 2^64.
pub open spec fn word_base() -> nat {
    0x1_0000_0000_0000_0000
}

/// The integer that a `U256` holds: four little-endian 64-bit limbs.
pub open spec fn u256_value(x: ethers::types::U256) -> nat {
    x.0[0] as nat + word_base() * (x.0[1] as nat + word_base() * (x.0[2] as nat + word_base()
        * x.0[3] as nat))
}

} // verus!

verus! {

/// 2^256: one more than the largest `U256`.
pub open spec fn u256_bound() -> nat {
    word_base() * word_base() * word_base() * word_base()
}

pub proof fn lemma_u256_value_bound(x: ethers::types::U256)
    ensures
        u256_value(x) < u256_bound(),
{
    let b = word_base();
    let (a0, a1, a2, a3) = (x.0[0] as nat, x.0[1] as nat, x.0[2] as nat, x.0[3] as nat);
    assert(a0 < b && a1 < b && a2 < b && a3 < b);
    assert(a0 + b * (a1 + b * (a2 + b * a3)) < b * b * b * b) by (nonlinear_arith)
        requires
            a0 < b,
            a1 < b,
            a2 < b,
            a3 < b,
            b > 0,
    ;
}

} // verus!

verus! {

pub open spec fn is_hex_digit(c: char) -> bool {
    ('0' <= c && c <= '9') || ('a' <= c && c <= 'f') || ('A' <= c && c <= 'F')
}

pub open spec fn hex_value(c: char) -> nat {
    if '0' <= c && c <= '9' {
        (c as u32 - '0' as u32) as nat
    } else if 'a' <= c && c <= 'f' {
        (c as u32 - 'a' as u32 + 10) as nat
    } else {
        (c as u32 - 'A' as u32 + 10) as nat
    }
}

/// The blanks that hex decoding of a hash skips.
pub open spec fn is_hex_blank(c: char) -> bool {
    c == ' ' || c == '\r' || c == '\n' || c == '\t'
}

pub open spec fn strip_0x(s: Seq<char>) -> Seq<char> {
    if s.len() >= 2 && s[0] == '0' && s[1] == 'x' {
        s.skip(2)
    } else {
        s
    }
}

pub open spec fn address_digits(s: Seq<char>) -> Seq<char> {
    strip_0x(s).filter(|c: char| is_hex_digit(c))
}

/// The texts that read as an address: an optional `0x`, then 40 hex digits
/// in either case, blanks allowed between them.
pub open spec fn is_address_text(s: Seq<char>) -> bool {
    &&& forall|i: int|
        0 <= i < strip_0x(s).len() ==> is_hex_digit(#[trigger] strip_0x(s)[i]) || is_hex_blank(
            strip_0x(s)[i],
        )
    &&& address_digits(s).len() == 40
}

/// The twenty bytes an address text spells, two hex digits each, big-endian.
pub open spec fn address_bytes(s: Seq<char>) -> Seq<u8> {
    Seq::new(
        20,
        |i: int|
            (hex_value(address_digits(s)[2 * i]) * 16 + hex_value(address_digits(s)[2 * i + 1])) as u8,
    )
}

/// Relies on the `FromStr` of ethers' `H160` (fixed-hash with rustc-hex): it
/// drops a leading `0x`, skips blanks, and wants exactly 40 hex digits.
#[verifier::external_body]
fn parse_h160(s: &str) -> (r: Option<Address>)
    ensures
        r is Some == is_address_text(s@),
        r is Some ==> r->Some_0.0@ == address_bytes(s@),
{
    s.parse::<ethers::types::H160>().ok()
}

/// Reads an Ethereum address from text such as "0xb2f82D0f38dc453D596Ad40A37799446Cc89274A".
pub fn parse_address(s: &str) -> (r: Option<Address>)
    ensures
        r is Some == is_address_text(s@),
        r is Some ==> r->Some_0.0@ == address_bytes(s@),
{
    parse_h160(s)
}

} // verus!

verus! {

/// The bytes that pairs of hex digits spell.
pub open spec fn hex_pairs(u: Seq<char>) -> Seq<u8> {
    Seq::new(u.len() / 2, |i: int| (hex_value(u[2 * i]) * 16 + hex_value(u[2 * i + 1])) as u8)
}

/// The number that bytes spell, most significant first.
pub open spec fn be_value(b: Seq<u8>) -> nat
    decreases b.len(),
{
    if b.len() == 0 {
        0
    } else {
        be_value(b.drop_last()) * 256 + b.last() as nat
    }
}

/// The order of the secp256k1 group: private keys lie strictly between 0 and it.
pub open spec fn secp256k1_order() -> nat {
    0xFFFF_FFFF_FFFF_FFFF_FFFF_FFFF_FFFF_FFFE_BAAE_DCE6_AF48_A03B_BFD2_5E8C_D036_4141nat
}

/// The hex digits of a private key text: a leading `0X` is dropped, then one
/// leading `0x` or `0X`.
pub open spec fn private_key_digits(s: Seq<char>) -> Seq<char> {
    let t = if s.len() >= 2 && s[0] == '0' && s[1] == 'X' {
        s.skip(2)
    } else {
        s
    };
    if t.len() >= 2 && t[0] == '0' && (t[1] == 'x' || t[1] == 'X') {
        t.skip(2)
    } else {
        t
    }
}

pub open spec fn private_key_bytes(s: Seq<char>) -> Seq<u8> {
    hex_pairs(private_key_digits(s))
}

/// The texts that read as a secp256k1 private key: 64 hex digits after the
/// prefixes, for a number strictly between 0 and the group order.
pub open spec fn is_private_key_text(s: Seq<char>) -> bool {
    &&& private_key_digits(s).len() == 64
    &&& forall|i: int|
        0 <= i < private_key_digits(s).len() ==> is_hex_digit(#[trigger] private_key_digits(s)[i])
    &&& 0 < be_value(private_key_bytes(s)) < secp256k1_order()
}

/// The address that signs with a private key: the tail of the hash of its
/// public key.
pub uninterp spec fn key_address(secret: Seq<u8>) -> Seq<u8>;

/// Relies on the `FromStr` of ethers' `LocalWallet`: it hex-decodes the text
/// (after a leading `0X`, then `0x` or `0X`), wants 32 bytes, and accepts
/// any scalar in 1..n of secp256k1; the wallet's address follows from the key.
#[verifier::external_body]
fn wallet_address(private_key: &str) -> (r: Option<Address>)
    ensures
        r is Some == is_private_key_text(private_key@),
        r is Some ==> r->Some_0.0@ == key_address(private_key_bytes(private_key@)),
{
    let wallet = private_key.parse::<ethers::signers::LocalWallet>().ok();
    wallet.map(|w| ethers::signers::Signer::address(&w))
}

/// Checks a private key and gives the address it signs for.
pub fn signer_address(private_key: &str) -> (r: Option<Address>)
    ensures
        r is Some == is_private_key_text(private_key@),
        r is Some ==> r->Some_0.0@ == key_address(private_key_bytes(private_key@)),
{
    wallet_address(private_key)
}

/// Lowercase hex digits.
pub open spec fn hex_char(d: nat) -> char {
    seq!['0', '1', '2', '3', '4', '5', '6', '7', '8', '9', 'a', 'b', 'c', 'd', 'e', 'f'][d as int]
}

/// Two lowercase hex digits per byte.
pub open spec fn hex_text(b: Seq<u8>) -> Seq<char>
    decreases b.len(),
{
    if b.len() == 0 {
        Seq::empty()
    } else {
        hex_text(b.drop_last()) + seq![hex_char(b.last() as nat / 16), hex_char(b.last() as nat % 16)]
    }
}

/// Relies on ethers::utils::hex::encode_prefixed: "0x" and two lowercase hex
/// digits per byte.
#[verifier::external_body]
fn encode_prefixed(b: &[u8]) -> (r: String)
    ensures
        r@ == "0x"@ + hex_text(b@),
{
    ethers::utils::hex::encode_prefixed(b)
}

/// A transaction hash as text: "0x" and 64 lowercase hex digits.
pub fn hash_text(hash: [u8; 32]) -> (r: String)
    ensures
        r@ == "0x"@ + hex_text(hash@),
{
    encode_prefixed(&hash)
}

/// Relies on U256::from_big_endian, which reads up to 32 bytes, most
/// significant first.
#[verifier::external_body]
fn u256_from_big_endian(b: &[u8]) -> (r: ethers::types::U256)
    requires
        b@.len() <= 32,
    ensures
        u256_value(r) == be_value(b@),
{
    ethers::types::U256::from_big_endian(b)
}

/// Reads the first 32-byte word of a call's return data as an unsigned
/// integer, the ABI's `uint256`; `None` when there is no full word.
pub fn decode_uint_word(data: &[u8]) -> (r: Option<ethers::types::U256>)
    ensures
        r is Some == (data@.len() >= 32),
        r is Some ==> u256_value(r->Some_0) == be_value(data@.take(32)),
{
    if data.len() < 32 {
        return None;
    }
    let mut word: Vec<u8> = Vec::new();
    let mut i: usize = 0;
    while i < 32
        invariant
            i <= 32,
            data@.len() >= 32,
            word@ == data@.take(i as int),
        decreases 32 - i,
    {
        word.push(data[i]);
        i = i + 1;
        assert(word@ =~= data@.take(i as int));
    }
    Some(u256_from_big_endian(word.as_slice()))
}

} // verus!
