use ethers::types::Address;
use monad_mcp::protocol::LstProtocol;

fn addr(s: &str) -> Address {
    s.parse::<Address>().unwrap()
}

#[test]
fn lookup_known_tags() {
    assert_eq!(LstProtocol::try_from("aprMON"), Ok(LstProtocol::AprMON));
    assert_eq!(LstProtocol::try_from("gMON"), Ok(LstProtocol::GMON));
    assert_eq!(LstProtocol::try_from("shMON"), Ok(LstProtocol::SHMON));
}

#[test]
fn lookup_unknown_tags_fail() {
    for tag in ["", "aprmon", "GMON", "shMON ", "stMON", "evm"] {
        assert_eq!(LstProtocol::try_from(tag), Err("Invalid LST protocol"));
    }
}

#[test]
fn fixed_addresses() {
    let apr = addr("0xb2f82D0f38dc453D596Ad40A37799446Cc89274A");
    let gmon = addr("0xaEef2f6B429Cb59C9B2D7bB2141ADa993E8571c3");
    let manager = addr("0x2c9C959516e9AAEdB2C748224a41249202ca8BE7");
    let shmon = addr("0x3a98250F98Dd388C211206983453837C8365BDc1");
    assert_eq!(LstProtocol::AprMON.address(), apr);
    assert_eq!(LstProtocol::AprMON.token_address(), apr);
    assert_eq!(LstProtocol::GMON.address(), manager);
    assert_eq!(LstProtocol::GMON.token_address(), gmon);
    assert_eq!(LstProtocol::SHMON.address(), shmon);
    assert_eq!(LstProtocol::SHMON.token_address(), shmon);
}

#[test]
fn names_and_descriptions() {
    assert_eq!(LstProtocol::AprMON.to_string(), "aprMON");
    assert_eq!(LstProtocol::GMON.name(), "gMON");
    assert_eq!(LstProtocol::SHMON.name(), "shMON");
    assert!(LstProtocol::AprMON.description().starts_with("aPriori"));
    assert!(LstProtocol::GMON.description().starts_with("Magma"));
    assert!(LstProtocol::SHMON.description().starts_with("shMONAD"));
}

#[test]
fn balance_call_targets_token() {
    let owner = addr("0x00000000000000000000000000000000000000aa");
    let call = LstProtocol::GMON.read_balance(owner);
    assert_eq!(call.to, LstProtocol::GMON.token_address());
    assert_eq!(call.selector, [0x70, 0xa0, 0x82, 0x31]);
    assert!(call.value.is_none());
    let data = call.calldata();
    assert_eq!(data.len(), 36);
    assert_eq!(&data[16..36], owner.as_bytes());
}

#[test]
fn tvl_calls() {
    assert_eq!(LstProtocol::AprMON.tvl().selector, [0x01, 0xe1, 0xd1, 0x14]);
    assert_eq!(LstProtocol::GMON.tvl().selector, [0x51, 0x25, 0x10, 0x5b]);
    assert_eq!(LstProtocol::GMON.tvl().to, LstProtocol::GMON.address());
    assert_eq!(LstProtocol::SHMON.tvl().selector, [0x01, 0xe1, 0xd1, 0x14]);
}

#[test]
fn stake_and_unstake_calls() {
    let me = addr("0xf39Fd6e51aad88F6F4ce6aB8827279cffFb92266");
    let amount = ethers::types::U256::from(5_000_000_000_000_000u64);
    let s = LstProtocol::AprMON.stake(me, amount);
    assert_eq!(s.selector, [0x6e, 0x55, 0x3f, 0x65]);
    assert_eq!(s.value, Some(amount));
    let s = LstProtocol::GMON.stake(me, amount);
    assert_eq!(s.selector, [0xd5, 0x57, 0x59, 0x82]);
    assert!(s.args.is_empty());
    assert_eq!(s.to, LstProtocol::GMON.address());
    let s = LstProtocol::SHMON.stake(me, amount);
    assert_eq!(s.selector, [0x6e, 0x55, 0x3f, 0x65]);
    assert_eq!(s.value, Some(amount));
    let u = LstProtocol::AprMON.unstake(me, amount);
    assert_eq!(u.selector, [0x7d, 0x41, 0xc8, 0x6e]);
    assert!(u.value.is_none());
    let u = LstProtocol::GMON.unstake(me, amount);
    assert_eq!(u.selector, [0x6f, 0xed, 0x1e, 0xa7]);
    let u = LstProtocol::SHMON.unstake(me, amount);
    assert_eq!(u.selector, [0xba, 0x08, 0x76, 0x52]);
    assert_eq!(u.args.len(), 3);
}
