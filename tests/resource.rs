use ethers::types::{Address, U256};
use monad_mcp::protocol::LstProtocol;
use monad_mcp::resource::{
    balance_content, list_resource_templates, list_resources, route, tvl_content, ResourceError,
    ResourceQuery,
};

fn text_of(uri: &str) -> String {
    route(uri).unwrap().static_text().unwrap().to_string()
}

#[test]
fn networks_resource() {
    assert!(matches!(route("evm://networks"), Ok(ResourceQuery::Networks)));
    assert_eq!(text_of("evm://networks"), "Supported networks: monadTestnet");
}

#[test]
fn protocol_listing_resource() {
    assert!(matches!(route("evm://monadTestnet/lsts"), Ok(ResourceQuery::Protocols)));
    let text = text_of("evm://monadTestnet/lsts");
    assert!(text.contains("aprMON, gMON, shMON"));
}

#[test]
fn protocol_detail_resource() {
    assert!(matches!(
        route("evm://monadTestnet/lsts/gMON"),
        Ok(ResourceQuery::Protocol(LstProtocol::GMON))
    ));
    assert_eq!(text_of("evm://monadTestnet/lsts/shMON"), LstProtocol::SHMON.description());
    assert_eq!(route("evm://monadTestnet/lsts/xMON").unwrap_err(), ResourceError::InvalidProtocol);
}

#[test]
fn tvl_resource() {
    let q = route("evm://monadTestnet/lsts/aprMON/tvl").unwrap();
    assert!(matches!(q, ResourceQuery::Tvl(LstProtocol::AprMON)));
    assert!(q.needs_chain());
    assert!(q.static_text().is_none());
    let tvl = U256::from(1_500_000_000_000_000_000u64);
    assert_eq!(tvl_content(tvl), "TVL: 1.500000000000000000 ether");
}

#[test]
fn balance_resource() {
    let uri = "evm://monadTestnet/address/0xf39Fd6e51aad88F6F4ce6aB8827279cffFb92266/lsts/shMON/balance";
    match route(uri).unwrap() {
        ResourceQuery::Balance { owner, protocol } => {
            let expected: Address = "0xf39Fd6e51aad88F6F4ce6aB8827279cffFb92266".parse().unwrap();
            assert_eq!(owner, expected);
            assert_eq!(protocol, LstProtocol::SHMON);
        }
        other => panic!("unexpected {:?}", other),
    }
    assert_eq!(
        balance_content(U256::from(2u64), LstProtocol::SHMON),
        "Balance: 0.000000000000000002 shMON"
    );
}

#[test]
fn balance_resource_errors() {
    let bad_addr = "evm://monadTestnet/address/0x1234/lsts/shMON/balance";
    assert_eq!(route(bad_addr).unwrap_err(), ResourceError::InvalidAddress);
    let bad_lst =
        "evm://monadTestnet/address/0xf39Fd6e51aad88F6F4ce6aB8827279cffFb92266/lsts/foo/balance";
    assert_eq!(route(bad_lst).unwrap_err(), ResourceError::InvalidProtocol);
}

#[test]
fn unsupported_network() {
    assert_eq!(route("evm://mainnet/lsts").unwrap_err(), ResourceError::UnsupportedNetwork);
    assert_eq!(route("evm://").unwrap_err(), ResourceError::UnsupportedNetwork);
    assert_eq!(route("evm://networks/").unwrap_err(), ResourceError::UnsupportedNetwork);
}

#[test]
fn other_shapes_not_found() {
    for uri in [
        "",
        "evm:/x",
        "http://monadTestnet/lsts",
        "evm://monadTestnet",
        "evm://monadTestnet/",
        "evm://monadTestnet/lsts/aprMON/apr",
        "evm://monadTestnet/lsts/aprMON/tvl/extra",
        "evm://monadTestnet/address/0x00/lsts/aprMON/supply",
    ] {
        assert_eq!(route(uri).unwrap_err(), ResourceError::NotFound, "{}", uri);
    }
}

#[test]
fn listings() {
    let r = list_resources();
    assert_eq!(r.len(), 1);
    assert_eq!(r[0].uri_template, "evm://networks");
    let t = list_resource_templates();
    assert_eq!(t.len(), 3);
    assert_eq!(t[2].uri_template, "evm://{network}/address/{address}/lsts/{lst}/balance");
}
