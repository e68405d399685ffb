//! An MCP server's core for three liquid staking protocols on the Monad
//! testnet: protocol lookup, resource URI routing, amount conversion, and the
//! contract calls that read balances and TVL or stake and unstake.
pub mod aprmon;
pub mod call;
pub mod constants;
pub mod decimal;
pub mod eth;
pub mod gmonstakemanager;
pub mod text;
pub mod tokens;
pub mod outside;
pub mod protocol;
pub mod request;
pub mod resource;
pub mod units;
