//! The resources this server offers, addressed by URIs of the form
//! `evm://{network}/...`, and the text each one reads as.
use vstd::prelude::*;

use crate::constants::MONAD_TESTNET;
use crate::eth::{address_bytes, is_address_text, parse_address, Address};
use crate::protocol::{protocol_of, LstProtocol};
use crate::text::{
    lemma_split_join, lemma_split_no_slash, no_slash, split_slash, split_slash_exec, str_eq, views,
};
use crate::units::{ether_text, format_ether};

verus! {

/// What a resource URI asks for.
#[derive(Debug, Clone, Copy)]
pub enum ResourceQuery {
    /// `evm://networks`
    Networks,
    /// `evm://{network}/lsts`
    Protocols,
    /// `evm://{network}/lsts/{protocol}`
    Protocol(LstProtocol),
    /// `evm://{network}/lsts/{protocol}/tvl`
    Tvl(LstProtocol),
    /// `evm://{network}/address/{address}/lsts/{protocol}/balance`
    Balance { owner: Address, protocol: LstProtocol },
}

#[derive(Debug, Clone, Copy, PartialEq, Eq, Structural)]
pub enum ResourceError {
    /// The URI has none of the known shapes.
    NotFound,
    /// The URI names a network other than the Monad testnet.
    UnsupportedNetwork,
    /// The protocol segment is not a known protocol tag.
    InvalidProtocol,
    /// The address segment is not an address.
    InvalidAddress,
}

/// What `route` answers for `uri`. The URI is split on every `/`, and the
/// pieces are read by position: `evm:`, anything, the network, then the rest.
pub open spec fn routes_to(uri: Seq<char>, r: Result<ResourceQuery, ResourceError>) -> bool {
    let p = split_slash(uri);
    if uri == "evm://networks"@ {
        r matches Ok(ResourceQuery::Networks)
    } else if !(p.len() >= 3 && p[0] == "evm:"@) {
        r == Err::<ResourceQuery, ResourceError>(ResourceError::NotFound)
    } else if p[2] != "monadTestnet"@ {
        r == Err::<ResourceQuery, ResourceError>(ResourceError::UnsupportedNetwork)
    } else if p.len() == 4 && p[3] == "lsts"@ {
        r matches Ok(ResourceQuery::Protocols)
    } else if p.len() == 5 && p[3] == "lsts"@ {
        match protocol_of(p[4]) {
            Some(x) => r matches Ok(ResourceQuery::Protocol(y)) && y == x,
            None => r == Err::<ResourceQuery, ResourceError>(ResourceError::InvalidProtocol),
        }
    } else if p.len() == 6 && p[3] == "lsts"@ && p[5] == "tvl"@ {
        match protocol_of(p[4]) {
            Some(x) => r matches Ok(ResourceQuery::Tvl(y)) && y == x,
            None => r == Err::<ResourceQuery, ResourceError>(ResourceError::InvalidProtocol),
        }
    } else if p.len() == 8 && p[3] == "address"@ && p[5] == "lsts"@ && p[7] == "balance"@ {
        if !is_address_text(p[4]) {
            r == Err::<ResourceQuery, ResourceError>(ResourceError::InvalidAddress)
        } else {
            match protocol_of(p[6]) {
                Some(x) => r matches Ok(ResourceQuery::Balance { owner, protocol }) && protocol == x
                    && owner.0@ == address_bytes(p[4]),
                None => r == Err::<ResourceQuery, ResourceError>(ResourceError::InvalidProtocol),
            }
        }
    } else {
        r == Err::<ResourceQuery, ResourceError>(ResourceError::NotFound)
    }
}

/// Reads a resource URI into the query it makes.
pub fn route(uri: &str) -> (r: Result<ResourceQuery, ResourceError>)
    ensures
        routes_to(uri@, r),
{
    if str_eq(uri, "evm://networks") {
        return Ok(ResourceQuery::Networks);
    }
    let parts = split_slash_exec(uri);
    let ghost p = split_slash(uri@);
    assert(parts@.len() == p.len());
    assert(forall|i: int| 0 <= i < p.len() ==> #[trigger] parts@[i]@ == p[i]) by {
        assert forall|i: int| 0 <= i < p.len() implies #[trigger] parts@[i]@ == p[i] by {
            assert(views(parts@)[i] == parts@[i]@);
        }
    }
    let n = parts.len();
    if !(n >= 3 && str_eq(parts[0].as_str(), "evm:")) {
        return Err(ResourceError::NotFound);
    }
    if !str_eq(parts[2].as_str(), MONAD_TESTNET) {
        return Err(ResourceError::UnsupportedNetwork);
    }
    let lsts3 = n >= 4 && str_eq(parts[3].as_str(), "lsts");
    if n == 4 && lsts3 {
        return Ok(ResourceQuery::Protocols);
    }
    if n == 5 && lsts3 {
        return match LstProtocol::try_from(parts[4].as_str()) {
            Ok(x) => Ok(ResourceQuery::Protocol(x)),
            Err(_) => Err(ResourceError::InvalidProtocol),
        };
    }
    if n == 6 && lsts3 && str_eq(parts[5].as_str(), "tvl") {
        return match LstProtocol::try_from(parts[4].as_str()) {
            Ok(x) => Ok(ResourceQuery::Tvl(x)),
            Err(_) => Err(ResourceError::InvalidProtocol),
        };
    }
    if n == 8 && str_eq(parts[3].as_str(), "address") && str_eq(parts[5].as_str(), "lsts") && str_eq(
        parts[7].as_str(),
        "balance",
    ) {
        let owner = match parse_address(parts[4].as_str()) {
            Some(a) => a,
            None => {
                return Err(ResourceError::InvalidAddress);
            },
        };
        return match LstProtocol::try_from(parts[6].as_str()) {
            Ok(x) => Ok(ResourceQuery::Balance { owner, protocol: x }),
            Err(_) => Err(ResourceError::InvalidProtocol),
        };
    }
    Err(ResourceError::NotFound)
}

} // verus!

verus! {

pub open spec fn networks_text() -> Seq<char> {
    "Supported networks: monadTestnet"@
}

pub open spec fn protocols_text() -> Seq<char> {
    "Available LST protocols: aprMON, gMON, shMON"@
}

/// "TVL: {amount} ether".
pub open spec fn tvl_text(tvl: nat) -> Seq<char> {
    "TVL: "@ + ether_text(tvl) + " ether"@
}

/// "Balance: {amount} {protocol}".
pub open spec fn balance_text(balance: nat, protocol: LstProtocol) -> Seq<char> {
    "Balance: "@ + ether_text(balance) + " "@ + protocol.spec_name()
}

impl ResourceQuery {
    /// Whether answering needs a read from the chain.
    pub open spec fn spec_needs_chain(self) -> bool {
        self is Tvl || self is Balance
    }

    pub fn needs_chain(&self) -> (r: bool)
        ensures
            r == self.spec_needs_chain(),
    {
        match self {
            ResourceQuery::Tvl(_) | ResourceQuery::Balance { .. } => true,
            _ => false,
        }
    }

    /// The text of a resource that needs nothing from the chain.
    pub fn static_text(&self) -> (r: Option<&'static str>)
        ensures
            r is Some == !self.spec_needs_chain(),
            self is Networks ==> r->Some_0@ == networks_text(),
            self is Protocols ==> r->Some_0@ == protocols_text(),
            self matches ResourceQuery::Protocol(p) ==> r->Some_0@ == p.spec_description(),
    {
        match self {
            ResourceQuery::Networks => Some("Supported networks: monadTestnet"),
            ResourceQuery::Protocols => Some("Available LST protocols: aprMON, gMON, shMON"),
            ResourceQuery::Protocol(p) => Some(p.description()),
            _ => None,
        }
    }
}

/// The text of the TVL resource for a TVL read from the chain.
pub fn tvl_content(tvl: ethers::types::U256) -> (r: String)
    ensures
        r@ == tvl_text(crate::eth::u256_value(tvl)),
{
    let mut r = String::from_str("TVL: ");
    let amount = format_ether(tvl);
    r.append(amount.as_str());
    r.append(" ether");
    r
}

/// The text of the balance resource for a balance read from the chain.
pub fn balance_content(balance: ethers::types::U256, protocol: LstProtocol) -> (r: String)
    ensures
        r@ == balance_text(crate::eth::u256_value(balance), protocol),
{
    let mut r = String::from_str("Balance: ");
    let amount = format_ether(balance);
    r.append(amount.as_str());
    r.append(" ");
    r.append(protocol.name());
    r
}

/// A resource URI template with its human name.
#[derive(Debug, Clone, Copy)]
pub struct ResourceTemplate {
    pub uri_template: &'static str,
    pub name: &'static str,
}

/// The resources listed directly: the network listing.
pub fn list_resources() -> (r: Vec<ResourceTemplate>)
    ensures
        r@.len() == 1,
        r@[0].uri_template@ == "evm://networks"@,
        r@[0].name@ == "Get supported networks"@,
{
    let mut r: Vec<ResourceTemplate> = Vec::new();
    r.push(ResourceTemplate { uri_template: "evm://networks", name: "Get supported networks" });
    r
}

/// The parameterised resources, all served as text.
pub fn list_resource_templates() -> (r: Vec<ResourceTemplate>)
    ensures
        r@.len() == 3,
        r@[0].uri_template@ == "evm://{network}/lsts"@,
        r@[0].name@ == "List of available LST protocols"@,
        r@[1].uri_template@ == "evm://{network}/lsts/{lst}"@,
        r@[1].name@ == "Details of a specific LST protocol"@,
        r@[2].uri_template@ == "evm://{network}/address/{address}/lsts/{lst}/balance"@,
        r@[2].name@ == "Get balance of LST token for a given address"@,
{
    let mut r: Vec<ResourceTemplate> = Vec::new();
    r.push(
        ResourceTemplate {
            uri_template: "evm://{network}/lsts",
            name: "List of available LST protocols",
        },
    );
    r.push(
        ResourceTemplate {
            uri_template: "evm://{network}/lsts/{lst}",
            name: "Details of a specific LST protocol",
        },
    );
    r.push(
        ResourceTemplate {
            uri_template: "evm://{network}/address/{address}/lsts/{lst}/balance",
            name: "Get balance of LST token for a given address",
        },
    );
    r
}

/// What the server tells a client about itself.
pub fn instructions() -> (r: &'static str)
    ensures
        r@ == "This server provides a LST (Liquid Staking Token) tool that can be used by staking native token and receive a LST token."@,
{
    "This server provides a LST (Liquid Staking Token) tool that can be used by staking native token and receive a LST token."
}

} // verus!

verus! {

pub open spec fn protocols_uri() -> Seq<char> {
    "evm://monadTestnet/lsts"@
}

pub open spec fn protocol_uri(tag: Seq<char>) -> Seq<char> {
    "evm://monadTestnet/lsts/"@ + tag
}

pub open spec fn tvl_uri(tag: Seq<char>) -> Seq<char> {
    "evm://monadTestnet/lsts/"@ + tag + "/tvl"@
}

pub open spec fn balance_uri(address: Seq<char>, tag: Seq<char>) -> Seq<char> {
    "evm://monadTestnet/address/"@ + address + "/lsts/"@ + tag + "/balance"@
}

/// The five resource shapes on the Monad testnet: each reads as its query,
/// for every tag and address text without a slash; an unknown tag or a bad
/// address is reported as such.
pub proof fn lemma_resource_shapes(tag: Seq<char>, address: Seq<char>, owner: Address)
    requires
        no_slash(tag),
        no_slash(address),
        owner.0@ == address_bytes(address),
    ensures
        routes_to("evm://networks"@, Ok(ResourceQuery::Networks)),
        routes_to(protocols_uri(), Ok(ResourceQuery::Protocols)),
        match protocol_of(tag) {
            Some(p) => {
                &&& routes_to(protocol_uri(tag), Ok(ResourceQuery::Protocol(p)))
                &&& routes_to(tvl_uri(tag), Ok(ResourceQuery::Tvl(p)))
                &&& is_address_text(address) ==> routes_to(
                    balance_uri(address, tag),
                    Ok(ResourceQuery::Balance { owner, protocol: p }),
                )
            },
            None => {
                &&& routes_to(protocol_uri(tag), Err(ResourceError::InvalidProtocol))
                &&& routes_to(tvl_uri(tag), Err(ResourceError::InvalidProtocol))
                &&& is_address_text(address) ==> routes_to(
                    balance_uri(address, tag),
                    Err(ResourceError::InvalidProtocol),
                )
            },
        },
        !is_address_text(address) ==> routes_to(
            balance_uri(address, tag),
            Err(ResourceError::InvalidAddress),
        ),
{
    reveal_strlit("evm://networks");
    reveal_strlit("evm://monadTestnet/lsts");
    reveal_strlit("evm://monadTestnet/lsts/");
    reveal_strlit("/tvl");
    reveal_strlit("evm://monadTestnet/address/");
    reveal_strlit("/lsts/");
    reveal_strlit("/balance");
    reveal_strlit("evm:");
    reveal_strlit("monadTestnet");
    reveal_strlit("lsts");
    reveal_strlit("tvl");
    reveal_strlit("address");
    reveal_strlit("balance");
    let s = seq!['/'];
    let e = "evm:"@;
    let m = "monadTestnet"@;
    let l = "lsts"@;
    let t = "tvl"@;
    let a = "address"@;
    let b = "balance"@;
    let z = Seq::<char>::empty();
    assert(no_slash(e));
    assert(no_slash(m));
    assert(no_slash(l));
    assert(no_slash(t));
    assert(no_slash(a));
    assert(no_slash(b));
    assert(no_slash(z));
    lemma_split_no_slash(e);
    lemma_split_no_slash(m);
    lemma_split_no_slash(l);
    lemma_split_no_slash(t);
    lemma_split_no_slash(a);
    lemma_split_no_slash(b);
    lemma_split_no_slash(z);
    lemma_split_no_slash(tag);
    lemma_split_no_slash(address);
    let x2 = e + s + z;
    let x3 = x2 + s + m;
    let x4 = x3 + s + l;
    let x5 = x4 + s + tag;
    let x6 = x5 + s + t;
    lemma_split_join(e, z);
    lemma_split_join(x2, m);
    lemma_split_join(x3, l);
    lemma_split_join(x4, tag);
    lemma_split_join(x5, t);
    assert(protocols_uri() =~= x4);
    assert(protocol_uri(tag) =~= x5);
    assert(tvl_uri(tag) =~= x6);
    assert(split_slash(x4) =~= seq![e, z, m, l]);
    assert(split_slash(x5) =~= seq![e, z, m, l, tag]);
    assert(split_slash(x6) =~= seq![e, z, m, l, tag, t]);
    let y4 = x3 + s + a;
    let y5 = y4 + s + address;
    let y6 = y5 + s + l;
    let y7 = y6 + s + tag;
    let y8 = y7 + s + b;
    lemma_split_join(x3, a);
    lemma_split_join(y4, address);
    lemma_split_join(y5, l);
    lemma_split_join(y6, tag);
    lemma_split_join(y7, b);
    assert(balance_uri(address, tag) =~= y8);
    assert(split_slash(y8) =~= seq![e, z, m, a, address, l, tag, b]);
    assert(protocols_uri() != "evm://networks"@);
    assert(protocol_uri(tag) != "evm://networks"@) by {
        assert(protocol_uri(tag).len() != "evm://networks"@.len());
    }
    assert(tvl_uri(tag) != "evm://networks"@) by {
        assert(tvl_uri(tag).len() != "evm://networks"@.len());
    }
    assert(balance_uri(address, tag) != "evm://networks"@) by {
        assert(balance_uri(address, tag).len() != "evm://networks"@.len());
    }
    assert(l != a);
    assert(t != b);
}

} // verus!
