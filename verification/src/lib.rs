//! Control plane for rollup deployments: records, their lifecycle, the
//! contract deployment pipeline and the container orchestration around them.
//!
//! The library decides and computes; it never touches the file system, a
//! process or the network. Every long-running operation is a transition
//! function: it takes the answer to the previous request and returns the next
//! request, which the surrounding program carries out.

use vstd::prelude::*;
use vstd::string::*;

pub mod address;
pub mod deployer;
pub mod docker;
pub mod error;
pub mod host;
pub mod text;

pub use deployer::DeploymentResult;
pub use docker::{
    create_rollup, delete_rollup, get_rollup_status, list_rollups, start_rollup, stop_rollup,
    EspressoDockerManager, RollupInfo, RollupManager,
};
pub use error::{ErrorKind, RaasError};

verus! {

/// The chain that a rollup settles to.
#[derive(Clone, Copy, Debug, PartialEq, Eq, Structural)]
pub enum NetworkType {
    Geth,
    ArbitrumMainnet,
    ArbitrumSepolia,
}

impl Default for NetworkType {
    fn default() -> (network: Self)
        ensures
            network == NetworkType::Geth,
    {
        NetworkType::Geth
    }
}

impl NetworkType {
    /// Where the chain's RPC endpoint is.
    pub open spec fn rpc_url_text(self) -> Seq<char> {
        match self {
            NetworkType::Geth => "http://localhost:8545"@,
            NetworkType::ArbitrumMainnet => "https://arb1.arbitrum.io/rpc"@,
            NetworkType::ArbitrumSepolia => "https://sepolia-rollup.arbitrum.io/rpc"@,
        }
    }

    /// The chain id of the chain's own parent.
    pub open spec fn parent_chain(self) -> u64 {
        match self {
            NetworkType::ArbitrumMainnet => 1,
            NetworkType::ArbitrumSepolia => 11155111,
            NetworkType::Geth => 1337,
        }
    }

    /// The short name of the chain.
    pub open spec fn name(self) -> Seq<char> {
        match self {
            NetworkType::Geth => "geth"@,
            NetworkType::ArbitrumMainnet => "arb1"@,
            NetworkType::ArbitrumSepolia => "arbSepolia"@,
        }
    }

    pub fn rpc_url(&self) -> (url: &str)
        ensures
            url@ == self.rpc_url_text(),
    {
        match self {
            NetworkType::Geth => "http://localhost:8545",
            NetworkType::ArbitrumMainnet => "https://arb1.arbitrum.io/rpc",
            NetworkType::ArbitrumSepolia => "https://sepolia-rollup.arbitrum.io/rpc",
        }
    }

    pub fn parent_chain_id(&self) -> (id: u64)
        ensures
            id == self.parent_chain(),
    {
        match self {
            NetworkType::ArbitrumMainnet => 1,
            NetworkType::ArbitrumSepolia => 11155111,
            NetworkType::Geth => 1337,
        }
    }

    pub fn to_string(&self) -> (name: String)
        ensures
            name@ == self.name(),
    {
        match self {
            NetworkType::Geth => String::from_str("geth"),
            NetworkType::ArbitrumMainnet => String::from_str("arb1"),
            NetworkType::ArbitrumSepolia => String::from_str("arbSepolia"),
        }
    }
}

/// The configuration of a rollup as a request carries it.
#[derive(Debug)]
pub struct RollupConfigParams {
    pub chain_id: u64,
    pub initial_chain_owner: [u8; 20],
    pub validators: Vec<[u8; 20]>,
    pub batch_poster_address: [u8; 20],
    pub batch_poster_manager: [u8; 20],
    pub is_mainnet: bool,
    pub network: NetworkType,
}

/// The configuration of a rollup.
#[derive(Debug)]
pub struct RollupConfig {
    pub chain_id: u64,
    pub initial_chain_owner: [u8; 20],
    pub validators: Vec<[u8; 20]>,
    pub batch_poster_address: [u8; 20],
    pub batch_poster_manager: [u8; 20],
    pub network: NetworkType,
}

/// The mathematical value of a `RollupConfig`.
pub struct RollupConfigView {
    pub chain_id: u64,
    pub initial_chain_owner: Seq<u8>,
    pub validators: Seq<Seq<u8>>,
    pub batch_poster_address: Seq<u8>,
    pub batch_poster_manager: Seq<u8>,
    pub network: NetworkType,
}

/// The addresses of `list` as sequences of bytes.
pub open spec fn address_views(list: Seq<[u8; 20]>) -> Seq<Seq<u8>> {
    Seq::new(list.len(), |i: int| list[i]@)
}

impl View for RollupConfig {
    type V = RollupConfigView;

    open spec fn view(&self) -> RollupConfigView {
        RollupConfigView {
            chain_id: self.chain_id,
            initial_chain_owner: self.initial_chain_owner@,
            validators: address_views(self.validators@),
            batch_poster_address: self.batch_poster_address@,
            batch_poster_manager: self.batch_poster_manager@,
            network: self.network,
        }
    }
}

/// The mathematical value of a `RollupConfigParams`.
pub struct RollupConfigParamsView {
    pub chain_id: u64,
    pub initial_chain_owner: Seq<u8>,
    pub validators: Seq<Seq<u8>>,
    pub batch_poster_address: Seq<u8>,
    pub batch_poster_manager: Seq<u8>,
    pub is_mainnet: bool,
    pub network: NetworkType,
}

impl View for RollupConfigParams {
    type V = RollupConfigParamsView;

    open spec fn view(&self) -> RollupConfigParamsView {
        RollupConfigParamsView {
            chain_id: self.chain_id,
            initial_chain_owner: self.initial_chain_owner@,
            validators: address_views(self.validators@),
            batch_poster_address: self.batch_poster_address@,
            batch_poster_manager: self.batch_poster_manager@,
            is_mainnet: self.is_mainnet,
            network: self.network,
        }
    }
}

impl RollupConfigParamsView {
    /// The configuration that the request asks for: every field but
    /// `is_mainnet`.
    pub open spec fn config(self) -> RollupConfigView {
        RollupConfigView {
            chain_id: self.chain_id,
            initial_chain_owner: self.initial_chain_owner,
            validators: self.validators,
            batch_poster_address: self.batch_poster_address,
            batch_poster_manager: self.batch_poster_manager,
            network: self.network,
        }
    }
}

/// A copy of `list`.
pub fn copy_addresses(list: &Vec<[u8; 20]>) -> (copy: Vec<[u8; 20]>)
    ensures
        copy@ == list@,
{
    let mut copy: Vec<[u8; 20]> = Vec::new();
    let mut i: usize = 0;
    while i < list.len()
        invariant
            i <= list@.len(),
            copy@ == list@.take(i as int),
        decreases list@.len() - i,
    {
        copy.push(list[i]);
        i += 1;
    }
    copy
}

impl Default for RollupConfigParams {
    fn default() -> (params: Self)
        ensures
            params.chain_id == 0,
            params.validators@.len() == 0,
            !params.is_mainnet,
            params.network == NetworkType::Geth,
            params.initial_chain_owner@ == Seq::new(20, |i: int| 0u8),
            params.batch_poster_address@ == Seq::new(20, |i: int| 0u8),
            params.batch_poster_manager@ == Seq::new(20, |i: int| 0u8),
    {
        let params = RollupConfigParams {
            chain_id: 0,
            initial_chain_owner: [0u8; 20],
            validators: Vec::new(),
            batch_poster_address: [0u8; 20],
            batch_poster_manager: [0u8; 20],
            is_mainnet: false,
            network: NetworkType::Geth,
        };
        params
    }
}

impl Clone for RollupConfigParams {
    fn clone(&self) -> (copy: Self)
        ensures
            copy@ == self@,
    {
        RollupConfigParams {
            chain_id: self.chain_id,
            initial_chain_owner: self.initial_chain_owner,
            validators: copy_addresses(&self.validators),
            batch_poster_address: self.batch_poster_address,
            batch_poster_manager: self.batch_poster_manager,
            is_mainnet: self.is_mainnet,
            network: self.network,
        }
    }
}

impl Clone for RollupConfig {
    fn clone(&self) -> (copy: Self)
        ensures
            copy@ == self@,
    {
        RollupConfig {
            chain_id: self.chain_id,
            initial_chain_owner: self.initial_chain_owner,
            validators: copy_addresses(&self.validators),
            batch_poster_address: self.batch_poster_address,
            batch_poster_manager: self.batch_poster_manager,
            network: self.network,
        }
    }
}

impl From<RollupConfigParams> for RollupConfig {
    fn from(params: RollupConfigParams) -> (config: Self) {
        RollupConfig {
            chain_id: params.chain_id,
            initial_chain_owner: params.initial_chain_owner,
            validators: params.validators,
            batch_poster_address: params.batch_poster_address,
            batch_poster_manager: params.batch_poster_manager,
            network: params.network,
        }
    }
}

impl vstd::std_specs::convert::FromSpecImpl<RollupConfigParams> for RollupConfig {
    open spec fn obeys_from_spec() -> bool {
        true
    }

    open spec fn from_spec(params: RollupConfigParams) -> RollupConfig {
        RollupConfig {
            chain_id: params.chain_id,
            initial_chain_owner: params.initial_chain_owner,
            validators: params.validators,
            batch_poster_address: params.batch_poster_address,
            batch_poster_manager: params.batch_poster_manager,
            network: params.network,
        }
    }
}

} // verus!
