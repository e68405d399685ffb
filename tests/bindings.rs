use ethers::types::{Address, U256};
use monad_mcp::aprmon::{aprMON, aprMONCalls, aprMONErrors, BalanceOfCall};
use monad_mcp::call::{signature_hash, ContractCall};
use monad_mcp::eth::{decode_uint_word, hash_text, parse_address, signer_address};
use monad_mcp::gmonstakemanager::{gMONStakeManager, gMONStakeManagerErrors};

fn addr(s: &str) -> Address {
    s.parse::<Address>().unwrap()
}

#[test]
fn builder_calldata() {
    let owner = addr("0x00000000000000000000000000000000000000ff");
    let c = aprMON::new(addr("0xb2f82D0f38dc453D596Ad40A37799446Cc89274A")).balance_of(owner);
    let data = c.calldata();
    let mut expected = vec![0x70, 0xa0, 0x82, 0x31];
    expected.extend_from_slice(&[0u8; 31]);
    expected.push(0xff);
    assert_eq!(data, expected);
}

#[test]
fn calls_enum_encodes_like_builder() {
    let owner = addr("0x00000000000000000000000000000000000000ff");
    let from_enum = aprMONCalls::BalanceOf(BalanceOfCall { account: owner }).encode();
    let from_builder = aprMON::new(owner).balance_of(owner).calldata();
    assert_eq!(from_enum, from_builder);
    assert_eq!(aprMONCalls::BalanceOf(BalanceOfCall { account: owner }).selector(), [0x70, 0xa0, 0x82, 0x31]);
}

#[test]
fn withdraw_mon_encodes_amount() {
    let c = gMONStakeManager::new(Address::zero()).withdraw_mon(U256::from(258u64));
    let data = c.calldata();
    assert_eq!(&data[0..4], &[0x6f, 0xed, 0x1e, 0xa7]);
    assert_eq!(data.len(), 36);
    assert_eq!(data[34], 1);
    assert_eq!(data[35], 2);
}

#[test]
fn selector_from_signature() {
    let c = ContractCall::from_signature(Address::zero(), "balanceOf(address)", vec![]);
    assert_eq!(c.selector, [0x70, 0xa0, 0x82, 0x31]);
    let h = signature_hash("Transfer(address,address,uint256)");
    assert_eq!(&h[0..4], &[0xdd, 0xf2, 0x52, 0xad]);
}

#[test]
fn event_filters() {
    let c = aprMON::new(Address::zero());
    let f = c.transfer_filter();
    assert_eq!(f.address, Address::zero());
    assert_eq!(&f.topic0.unwrap()[0..4], &[0xdd, 0xf2, 0x52, 0xad]);
    assert!(c.events().topic0.is_none());
}

#[test]
fn error_selectors() {
    assert!(gMONStakeManagerErrors::valid_selector([0x08, 0xc3, 0x79, 0xa0]));
    assert!(gMONStakeManagerErrors::valid_selector([0xab, 0x35, 0x69, 0x6f]));
    assert!(!gMONStakeManagerErrors::valid_selector([0, 0, 0, 0]));
    assert!(aprMONErrors::valid_selector([0x08, 0xc3, 0x79, 0xa0]));
    assert!(!aprMONErrors::valid_selector([0x70, 0xa0, 0x82, 0x31]));
}

#[test]
fn address_text() {
    let a = parse_address("0xb2f82D0f38dc453D596Ad40A37799446Cc89274A").unwrap();
    assert_eq!(a.as_bytes()[0], 0xb2);
    assert!(parse_address("b2f82D0f38dc453D596Ad40A37799446Cc89274A").is_some());
    assert!(parse_address("0xb2f8").is_none());
    assert!(parse_address("0xg2f82D0f38dc453D596Ad40A37799446Cc89274A").is_none());
}

#[test]
fn signer_of_key() {
    let a = signer_address("ac0974bec39a17e36ba4a6b4d238ff944bacb478cbed5efcae784d7bf4f2ff80").unwrap();
    assert_eq!(a, addr("0xf39Fd6e51aad88F6F4ce6aB8827279cffFb92266"));
    assert!(signer_address("0xff").is_none());
}

#[test]
fn return_words_and_hashes() {
    let mut data = vec![0u8; 32];
    data[31] = 7;
    data.push(9);
    assert_eq!(decode_uint_word(&data), Some(U256::from(7u64)));
    assert_eq!(decode_uint_word(&data[..31]), None);
    assert_eq!(hash_text([0x0f; 32]).len(), 66);
    assert!(hash_text([0x0f; 32]).starts_with("0x0f0f"));
}
