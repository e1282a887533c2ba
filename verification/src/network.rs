//! The catalogue of networks and their chain configuration.

use vstd::prelude::*;
use crate::text::str_eq;

verus! {

/// Network types
#[derive(Hash, Eq, PartialEq, Copy, Clone, Debug, Structural)]
pub enum Network {
    Mainnet,
    Kepler,
    Testnet,
}

/// Default network that all services use now.
pub const CURRENT_NETWORK: Network = Network::Kepler;

/// Network native currency config
pub struct NetworkCurrency {
    /// Currency name
    pub name: String,
    /// Currency symbol
    pub symbol: String,
    /// Currency decimals
    pub decimals: i32,
}

/// Network config information, use EIP-3085
pub struct NetworkConfig {
    /// Chain id
    pub chain_id: i32,
    /// Chain name
    pub chain_name: String,
    /// List of endpoints
    pub rpc_urls: Vec<String>,
    /// list of block explorer urls
    pub block_explorer_urls: Vec<String>,
    /// List of chain icon urls
    pub icon_urls: Vec<String>,
    /// Native currency config
    pub native_currency: NetworkCurrency,
    /// Subql network graphql endpoints
    pub subql_urls: Vec<String>,
    /// IPFS endpoints
    pub ipfs_urls: Vec<String>,
    /// Explorer endpoints
    pub explorer_urls: Vec<String>,
}

pub const CHAIN_ICON_URL: &'static str = "https://icons.llamao.fi/icons/chains/rsz_polygon.jpg";
pub const CHAIN_TOKEN_NAME: &'static str = "Matic Token";
pub const CHAIN_TOKEN_SYMBOL: &'static str = "MATIC";
pub const CHAIN_TOKEN_DECIMALS: i32 = 18;

pub const BLOCK_EXPLORER_MAINNET: &'static str = "";
pub const BLOCK_EXPLORER_KEPLER: &'static str = "https://polygonscan.com";
pub const BLOCK_EXPLORER_TESTNET: &'static str = "https://mumbai.polygonscan.com";

pub const CHAIN_ID_MAINNET: i32 = 137;
pub const CHAIN_ID_KEPLER: i32 = 137;
pub const CHAIN_ID_TESTNET: i32 = 80001;
pub const CHAIN_NAME_MAINNET: &'static str = "";
pub const CHAIN_NAME_KEPLER: &'static str = "Polygon";
pub const CHAIN_NAME_TESTNET: &'static str = "Polygon Mumbai";

pub const RPC_MAINNET1: &'static str = "";
pub const RPC_MAINNET2: &'static str = "";
pub const RPC_KEPLER1: &'static str = "https://polygon-rpc.com";
pub const RPC_KEPLER2: &'static str = "https://polygon.api.onfinality.io/rpc";
pub const RPC_TESTNET1: &'static str = "https://rpc.ankr.com/polygon_mumbai";
pub const RPC_TESTNET2: &'static str = "https://polygon-mumbai.api.onfinality.io/rpc";

pub const IPFS_MAINNET: &'static str = "";
pub const IPFS_KEPLER: &'static str = "https://unauthipfs.subquery.network/ipfs/api/v0";
pub const IPFS_TESTNET: &'static str = "https://unauthipfs.subquery.network/ipfs/api/v0";

pub const SUBQL_MAINNET: &'static str = "";
pub const SUBQL_KEPLER: &'static str = "https://api.subquery.network/sq/subquery/kepler-network";
pub const SUBQL_TESTNET: &'static str = "https://api.subquery.network/sq/subquery/kepler-testnet";

pub const EXPLORER_MAINNET: &'static str = "";
pub const EXPLORER_KEPLER: &'static str = "https://kepler.subquery.network";
pub const EXPLORER_TESTNET: &'static str = "https://kepler.thechaindata.com";

/// The chain id each network runs on.
pub open spec fn spec_chain_id(n: Network) -> i32 {
    match n {
        Network::Mainnet => CHAIN_ID_MAINNET,
        Network::Kepler => CHAIN_ID_KEPLER,
        Network::Testnet => CHAIN_ID_TESTNET,
    }
}

/// The chain name of each network.
pub open spec fn spec_chain_name(n: Network) -> Seq<char> {
    match n {
        Network::Mainnet => CHAIN_NAME_MAINNET@,
        Network::Kepler => CHAIN_NAME_KEPLER@,
        Network::Testnet => CHAIN_NAME_TESTNET@,
    }
}

/// The RPC endpoints of each network.
pub open spec fn spec_rpc_urls(n: Network) -> Seq<Seq<char>> {
    match n {
        Network::Mainnet => seq![RPC_MAINNET1@, RPC_MAINNET2@],
        Network::Kepler => seq![RPC_KEPLER1@, RPC_KEPLER2@],
        Network::Testnet => seq![RPC_TESTNET1@, RPC_TESTNET2@],
    }
}

/// The block explorer endpoints of each network.
pub open spec fn spec_block_explorer_urls(n: Network) -> Seq<Seq<char>> {
    match n {
        Network::Mainnet => seq![BLOCK_EXPLORER_MAINNET@],
        Network::Kepler => seq![BLOCK_EXPLORER_KEPLER@],
        Network::Testnet => seq![BLOCK_EXPLORER_TESTNET@],
    }
}

/// The chain icon, shared by every network.
pub open spec fn spec_icon_urls(n: Network) -> Seq<Seq<char>> {
    seq![CHAIN_ICON_URL@]
}

/// The subql graphql endpoints of each network.
pub open spec fn spec_subql_urls(n: Network) -> Seq<Seq<char>> {
    match n {
        Network::Mainnet => seq![SUBQL_MAINNET@],
        Network::Kepler => seq![SUBQL_KEPLER@],
        Network::Testnet => seq![SUBQL_TESTNET@],
    }
}

/// The IPFS endpoints of each network.
pub open spec fn spec_ipfs_urls(n: Network) -> Seq<Seq<char>> {
    match n {
        Network::Mainnet => seq![IPFS_MAINNET@],
        Network::Kepler => seq![IPFS_KEPLER@],
        Network::Testnet => seq![IPFS_TESTNET@],
    }
}

/// The explorer endpoints of each network.
pub open spec fn spec_explorer_urls(n: Network) -> Seq<Seq<char>> {
    match n {
        Network::Mainnet => seq![EXPLORER_MAINNET@],
        Network::Kepler => seq![EXPLORER_KEPLER@],
        Network::Testnet => seq![EXPLORER_TESTNET@],
    }
}

/// Which network a lower-case name denotes. A name that is not known
/// denotes the default network, never an error.
pub open spec fn network_of_name(s: Seq<char>) -> Network {
    if s == "mainnet"@ {
        Network::Mainnet
    } else if s == "kepler"@ {
        Network::Kepler
    } else if s == "testnet"@ {
        Network::Testnet
    } else {
        CURRENT_NETWORK
    }
}

/// Whether a name is one of the known network names.
pub open spec fn is_known_network_name(s: Seq<char>) -> bool {
    s == "mainnet"@ || s == "kepler"@ || s == "testnet"@
}

impl Network {
    /// Get the network from lower-case string
    pub fn from_str(s: &str) -> (r: Self)
        ensures
            r == network_of_name(s@),
    {
        if str_eq(s, "mainnet") {
            Network::Mainnet
        } else if str_eq(s, "kepler") {
            Network::Kepler
        } else if str_eq(s, "testnet") {
            Network::Testnet
        } else {
            CURRENT_NETWORK
        }
    }

    /// Get the network from lower-case string, strictly: an unknown name is
    /// reported rather than redirected to the default network.
    pub fn try_from_str(s: &str) -> (r: Option<Self>)
        ensures
            is_known_network_name(s@) ==> r == Some(network_of_name(s@)),
            !is_known_network_name(s@) ==> r is None,
    {
        if str_eq(s, "mainnet") {
            Some(Network::Mainnet)
        } else if str_eq(s, "kepler") {
            Some(Network::Kepler)
        } else if str_eq(s, "testnet") {
            Some(Network::Testnet)
        } else {
            None
        }
    }

    /// Get the network config
    pub fn config(&self) -> (c: NetworkConfig)
        ensures
            c.chain_id == spec_chain_id(*self),
            c.chain_name@ == spec_chain_name(*self),
            c.rpc_urls.deep_view() == spec_rpc_urls(*self),
            c.block_explorer_urls.deep_view() == spec_block_explorer_urls(*self),
            c.icon_urls.deep_view() == spec_icon_urls(*self),
            c.native_currency.name@ == CHAIN_TOKEN_NAME@,
            c.native_currency.symbol@ == CHAIN_TOKEN_SYMBOL@,
            c.native_currency.decimals == CHAIN_TOKEN_DECIMALS,
            c.subql_urls.deep_view() == spec_subql_urls(*self),
            c.ipfs_urls.deep_view() == spec_ipfs_urls(*self),
            c.explorer_urls.deep_view() == spec_explorer_urls(*self),
    {
        let c = match self {
            Network::Mainnet => NetworkConfig {
                chain_id: CHAIN_ID_MAINNET,
                chain_name: CHAIN_NAME_MAINNET.to_owned(),
                rpc_urls: vec![RPC_MAINNET1.to_owned(), RPC_MAINNET2.to_owned()],
                icon_urls: vec![CHAIN_ICON_URL.to_owned()],
                block_explorer_urls: vec![BLOCK_EXPLORER_MAINNET.to_owned()],
                native_currency: NetworkCurrency {
                    name: CHAIN_TOKEN_NAME.to_owned(),
                    symbol: CHAIN_TOKEN_SYMBOL.to_owned(),
                    decimals: CHAIN_TOKEN_DECIMALS,
                },
                subql_urls: vec![SUBQL_MAINNET.to_owned()],
                ipfs_urls: vec![IPFS_MAINNET.to_owned()],
                explorer_urls: vec![EXPLORER_MAINNET.to_owned()],
            },
            Network::Kepler => NetworkConfig {
                chain_id: CHAIN_ID_KEPLER,
                chain_name: CHAIN_NAME_KEPLER.to_owned(),
                rpc_urls: vec![RPC_KEPLER1.to_owned(), RPC_KEPLER2.to_owned()],
                icon_urls: vec![CHAIN_ICON_URL.to_owned()],
                block_explorer_urls: vec![BLOCK_EXPLORER_KEPLER.to_owned()],
                native_currency: NetworkCurrency {
                    name: CHAIN_TOKEN_NAME.to_owned(),
                    symbol: CHAIN_TOKEN_SYMBOL.to_owned(),
                    decimals: CHAIN_TOKEN_DECIMALS,
                },
                subql_urls: vec![SUBQL_KEPLER.to_owned()],
                ipfs_urls: vec![IPFS_KEPLER.to_owned()],
                explorer_urls: vec![EXPLORER_KEPLER.to_owned()],
            },
            Network::Testnet => NetworkConfig {
                chain_id: CHAIN_ID_TESTNET,
                chain_name: CHAIN_NAME_TESTNET.to_owned(),
                rpc_urls: vec![RPC_TESTNET1.to_owned(), RPC_TESTNET2.to_owned()],
                icon_urls: vec![CHAIN_ICON_URL.to_owned()],
                block_explorer_urls: vec![BLOCK_EXPLORER_TESTNET.to_owned()],
                native_currency: NetworkCurrency {
                    name: CHAIN_TOKEN_NAME.to_owned(),
                    symbol: CHAIN_TOKEN_SYMBOL.to_owned(),
                    decimals: CHAIN_TOKEN_DECIMALS,
                },
                subql_urls: vec![SUBQL_TESTNET.to_owned()],
                ipfs_urls: vec![IPFS_TESTNET.to_owned()],
                explorer_urls: vec![EXPLORER_TESTNET.to_owned()],
            },
        };
        proof {
            assert(c.rpc_urls.deep_view() =~= spec_rpc_urls(*self));
            assert(c.block_explorer_urls.deep_view() =~= spec_block_explorer_urls(*self));
            assert(c.icon_urls.deep_view() =~= spec_icon_urls(*self));
            assert(c.subql_urls.deep_view() =~= spec_subql_urls(*self));
            assert(c.ipfs_urls.deep_view() =~= spec_ipfs_urls(*self));
            assert(c.explorer_urls.deep_view() =~= spec_explorer_urls(*self));
        }
        c
    }
}

/// Map a network name to its variant; an unrecognized name maps to the
/// default network.
pub fn resolve_network(name: &str) -> (r: Network)
    ensures
        r == network_of_name(name@),
{
    Network::from_str(name)
}

} // verus!
