use ethers::types::Address;
use monad_mcp::protocol::LstProtocol;
use monad_mcp::request::{staked_message, unstaked_message, StakeRequest, ToolError, UnstakeRequest};
use monad_mcp::units::AmountError;

const KEY: &str = "0xac0974bec39a17e36ba4a6b4d238ff944bacb478cbed5efcae784d7bf4f2ff80";
const KEY_ADDRESS: &str = "0xf39Fd6e51aad88F6F4ce6aB8827279cffFb92266";

fn stake(protocol: LstProtocol, key: &str, amount: &str) -> StakeRequest {
    StakeRequest { protocol, private_key: key.to_string(), amount: amount.to_string() }
}

#[test]
fn malformed_private_key_rejected() {
    for key in ["", "0x12", "not a key", "0x0000000000000000000000000000000000000000000000000000000000000000"] {
        let r = stake(LstProtocol::AprMON, key, "1").plan();
        assert_eq!(r.unwrap_err(), ToolError::InvalidPrivateKey, "{}", key);
    }
}

#[test]
fn malformed_amount_rejected() {
    let r = stake(LstProtocol::GMON, KEY, "one").plan();
    assert_eq!(r.unwrap_err(), ToolError::InvalidAmount(AmountError::Malformed));
    let r = UnstakeRequest {
        protocol: LstProtocol::SHMON,
        private_key: KEY.to_string(),
        amount: "1..0".to_string(),
    }
    .plan();
    assert_eq!(r.unwrap_err(), ToolError::InvalidAmount(AmountError::Malformed));
}

#[test]
fn key_checked_before_amount() {
    let r = stake(LstProtocol::GMON, "zz", "bad").plan();
    assert_eq!(r.unwrap_err(), ToolError::InvalidPrivateKey);
}

#[test]
fn stake_plan() {
    let plan = stake(LstProtocol::AprMON, KEY, "0.005").plan().unwrap();
    let me: Address = KEY_ADDRESS.parse().unwrap();
    assert_eq!(plan.signer, me);
    assert_eq!(plan.amount, ethers::types::U256::from(5_000_000_000_000_000u64));
    assert_eq!(plan.call.to, LstProtocol::AprMON.address());
    assert_eq!(plan.call.value, Some(plan.amount));
}

#[test]
fn unstake_plan() {
    let r = UnstakeRequest {
        protocol: LstProtocol::GMON,
        private_key: KEY.trim_start_matches("0x").to_string(),
        amount: "2".to_string(),
    };
    let plan = r.plan().unwrap();
    assert_eq!(plan.call.selector, [0x6f, 0xed, 0x1e, 0xa7]);
    assert_eq!(plan.call.to, LstProtocol::GMON.address());
    assert!(plan.call.value.is_none());
}

#[test]
fn success_messages() {
    let mut hash = [0u8; 32];
    hash[0] = 0xab;
    hash[31] = 0x01;
    let m = staked_message("0.005", LstProtocol::SHMON, hash);
    assert_eq!(
        m,
        "Staked 0.005 shMON tokens successfully. Transaction hash: 0xab00000000000000000000000000000000000000000000000000000000000001"
    );
    let m = unstaked_message("1", LstProtocol::GMON, hash);
    assert!(m.starts_with("Unstaked 1 gMON tokens successfully. Transaction hash: 0xab00"));
}
