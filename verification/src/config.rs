//! The settings a test node starts with.
//!
//! [`NodeSettings`] is a plain record of every choice made here for a
//! single-authority node that talks over in-memory transport and keeps its
//! keystore and database under the base path. Sections that the record does
//! not list are left to the node framework's own defaults.

use vstd::prelude::*;
use vstd::string::*;
use crate::path::{base_path, bytes_of, resolved, BasePath, BasePathView};

verus! {

/// What part a node plays in the network.
#[derive(Clone, Copy, Debug, PartialEq, Eq, Structural)]
pub enum Role {
    Full,
    Light,
    Authority,
}

/// How a node reaches its peers.
#[derive(Clone, Copy, Debug, PartialEq, Eq, Structural)]
pub enum Transport {
    /// Over the operating system's network stack.
    Normal,
    /// Only between nodes of the same process.
    MemoryOnly,
}

/// How the runtime's WebAssembly is run.
#[derive(Clone, Copy, Debug, PartialEq, Eq, Structural)]
pub enum WasmExecutionMethod {
    Interpreted,
    Compiled,
}

/// Whether a call runs in the native runtime or in WebAssembly.
#[derive(Clone, Copy, Debug, PartialEq, Eq, Structural)]
pub enum ExecutionStrategy {
    NativeWhenPossible,
    AlwaysWasm,
    Both,
    NativeElseWasm,
}

/// The execution strategy of each kind of call.
#[derive(Clone, Copy, Debug, PartialEq, Eq, Structural)]
pub struct ExecutionStrategies {
    pub syncing: ExecutionStrategy,
    pub importing: ExecutionStrategy,
    pub block_construction: ExecutionStrategy,
    pub offchain_worker: ExecutionStrategy,
    pub other: ExecutionStrategy,
}

/// How many finalized blocks are kept.
#[derive(Clone, Copy, Debug, PartialEq, Eq, Structural)]
pub enum KeepBlocks {
    All,
    /// Only this many of the latest blocks.
    Latest(u32),
}

/// Where transactions are stored.
#[derive(Clone, Copy, Debug, PartialEq, Eq, Structural)]
pub enum TransactionStorageMode {
    BlockBody,
    StorageChain,
}

/// An IPv4 socket address.
#[derive(Clone, Copy, Debug, PartialEq, Eq)]
pub struct SocketAddress {
    pub ip: (u8, u8, u8, u8),
    pub port: u16,
}

/// Marks that telemetry goes over a transport of the embedder's own, which
/// the embedder hands to the node as an object.
#[derive(Clone, Copy, Debug, PartialEq, Eq, Structural)]
pub struct ExternalTransport {}

/// View of an optional string.
pub open spec fn text_of(value: Option<String>) -> Option<Seq<char>> {
    match value {
        Some(text) => Some(text@),
        None => None,
    }
}

/// View of an optional list of strings.
pub open spec fn texts_of(value: Option<Vec<String>>) -> Option<Seq<Seq<char>>> {
    match value {
        Some(texts) => Some(texts.deep_view()),
        None => None,
    }
}

/// View of an optional list of telemetry endpoints, each a URL and the
/// verbosity reported to it.
pub open spec fn endpoints_of(value: Option<Vec<(String, u8)>>) -> Option<Seq<(Seq<char>, u8)>> {
    match value {
        Some(endpoints) => Some(endpoints@.map_values(|endpoint: (String, u8)| (endpoint.0@, endpoint.1))),
        None => None,
    }
}

/// Network settings of a node.
#[derive(Clone, Debug, PartialEq, Eq)]
pub struct NetworkSettings {
    pub node_name: String,
    pub client_version: String,
    pub allow_non_globals_in_dht: bool,
    /// Ports of the in-memory addresses the node listens on.
    pub listen_memory_ports: Vec<u64>,
    pub transport: Transport,
}

/// Mathematical value of [`NetworkSettings`].
pub struct NetworkSettingsView {
    pub node_name: Seq<char>,
    pub client_version: Seq<char>,
    pub allow_non_globals_in_dht: bool,
    pub listen_memory_ports: Seq<u64>,
    pub transport: Transport,
}

impl View for NetworkSettings {
    type V = NetworkSettingsView;

    open spec fn view(&self) -> NetworkSettingsView {
        NetworkSettingsView {
            node_name: self.node_name@,
            client_version: self.client_version@,
            allow_non_globals_in_dht: self.allow_non_globals_in_dht,
            listen_memory_ports: self.listen_memory_ports@,
            transport: self.transport,
        }
    }
}

/// Everything a test node is started with. Directories are given as the
/// components that lead to them from the base path.
#[derive(Clone, Debug, PartialEq, Eq)]
pub struct NodeSettings {
    pub impl_name: String,
    pub impl_version: String,
    pub role: Role,
    pub network: NetworkSettings,
    pub keystore_path: Vec<String>,
    pub keystore_password: Option<String>,
    pub keystore_remote: Option<String>,
    pub database_path: Vec<String>,
    pub database_cache_size: usize,
    pub state_cache_size: usize,
    pub state_cache_child_ratio: Option<usize>,
    pub wasm_method: WasmExecutionMethod,
    pub execution_strategies: ExecutionStrategies,
    pub rpc_http: Option<SocketAddress>,
    pub rpc_ws: Option<SocketAddress>,
    pub rpc_ipc: Option<String>,
    pub rpc_ws_max_connections: Option<usize>,
    pub rpc_http_threads: Option<usize>,
    pub rpc_cors: Option<Vec<String>>,
    pub rpc_max_payload: Option<usize>,
    pub prometheus_config: Option<SocketAddress>,
    pub telemetry_endpoints: Option<Vec<(String, u8)>>,
    pub telemetry_external_transport: Option<ExternalTransport>,
    pub default_heap_pages: Option<u64>,
    pub force_authoring: bool,
    pub disable_grandpa: bool,
    pub dev_key_seed: Option<String>,
    pub tracing_targets: Option<String>,
    pub max_runtime_instances: usize,
    pub announce_block: bool,
    pub base_path: BasePath,
    pub wasm_runtime_overrides: Option<String>,
    pub informant_enable_color: bool,
    pub disable_log_reloading: bool,
    pub keep_blocks: KeepBlocks,
    pub transaction_storage: TransactionStorageMode,
}

/// Mathematical value of [`NodeSettings`].
pub struct NodeSettingsView {
    pub impl_name: Seq<char>,
    pub impl_version: Seq<char>,
    pub role: Role,
    pub network: NetworkSettingsView,
    pub keystore_path: Seq<Seq<char>>,
    pub keystore_password: Option<Seq<char>>,
    pub keystore_remote: Option<Seq<char>>,
    pub database_path: Seq<Seq<char>>,
    pub database_cache_size: usize,
    pub state_cache_size: usize,
    pub state_cache_child_ratio: Option<usize>,
    pub wasm_method: WasmExecutionMethod,
    pub execution_strategies: ExecutionStrategies,
    pub rpc_http: Option<SocketAddress>,
    pub rpc_ws: Option<SocketAddress>,
    pub rpc_ipc: Option<Seq<char>>,
    pub rpc_ws_max_connections: Option<usize>,
    pub rpc_http_threads: Option<usize>,
    pub rpc_cors: Option<Seq<Seq<char>>>,
    pub rpc_max_payload: Option<usize>,
    pub prometheus_config: Option<SocketAddress>,
    pub telemetry_endpoints: Option<Seq<(Seq<char>, u8)>>,
    pub telemetry_external_transport: Option<ExternalTransport>,
    pub default_heap_pages: Option<u64>,
    pub force_authoring: bool,
    pub disable_grandpa: bool,
    pub dev_key_seed: Option<Seq<char>>,
    pub tracing_targets: Option<Seq<char>>,
    pub max_runtime_instances: usize,
    pub announce_block: bool,
    pub base_path: BasePathView,
    pub wasm_runtime_overrides: Option<Seq<char>>,
    pub informant_enable_color: bool,
    pub disable_log_reloading: bool,
    pub keep_blocks: KeepBlocks,
    pub transaction_storage: TransactionStorageMode,
}

impl View for NodeSettings {
    type V = NodeSettingsView;

    open spec fn view(&self) -> NodeSettingsView {
        NodeSettingsView {
            impl_name: self.impl_name@,
            impl_version: self.impl_version@,
            role: self.role,
            network: self.network@,
            keystore_path: self.keystore_path.deep_view(),
            keystore_password: text_of(self.keystore_password),
            keystore_remote: text_of(self.keystore_remote),
            database_path: self.database_path.deep_view(),
            database_cache_size: self.database_cache_size,
            state_cache_size: self.state_cache_size,
            state_cache_child_ratio: self.state_cache_child_ratio,
            wasm_method: self.wasm_method,
            execution_strategies: self.execution_strategies,
            rpc_http: self.rpc_http,
            rpc_ws: self.rpc_ws,
            rpc_ipc: text_of(self.rpc_ipc),
            rpc_ws_max_connections: self.rpc_ws_max_connections,
            rpc_http_threads: self.rpc_http_threads,
            rpc_cors: texts_of(self.rpc_cors),
            rpc_max_payload: self.rpc_max_payload,
            prometheus_config: self.prometheus_config,
            telemetry_endpoints: endpoints_of(self.telemetry_endpoints),
            telemetry_external_transport: self.telemetry_external_transport,
            default_heap_pages: self.default_heap_pages,
            force_authoring: self.force_authoring,
            disable_grandpa: self.disable_grandpa,
            dev_key_seed: text_of(self.dev_key_seed),
            tracing_targets: text_of(self.tracing_targets),
            max_runtime_instances: self.max_runtime_instances,
            announce_block: self.announce_block,
            base_path: self.base_path@,
            wasm_runtime_overrides: text_of(self.wasm_runtime_overrides),
            informant_enable_color: self.informant_enable_color,
            disable_log_reloading: self.disable_log_reloading,
            keep_blocks: self.keep_blocks,
            transaction_storage: self.transaction_storage,
        }
    }
}

/// The seed of the development key that a test node signs with.
pub open spec fn dev_seed() -> Seq<char> {
    "//Alice"@
}

/// Components, below the base path, of the directory that holds the state of
/// the chain with the given id.
pub open spec fn chain_dir(chain_id: Seq<char>) -> Seq<Seq<char>> {
    seq!["chains"@, chain_id]
}

/// The settings of a test node for a base path and a chain id. Every
/// optional outward endpoint is off: no RPC server, no Prometheus exporter,
/// no telemetry, no remote keystore.
pub open spec fn test_defaults(base_path: BasePathView, chain_id: Seq<char>) -> NodeSettingsView {
    NodeSettingsView {
        impl_name: "test-node"@,
        impl_version: "0.1"@,
        role: Role::Authority,
        network: NetworkSettingsView {
            node_name: "Test Node for: "@ + dev_seed(),
            client_version: "network/test/0.1"@,
            allow_non_globals_in_dht: true,
            listen_memory_ports: seq![0u64],
            transport: Transport::MemoryOnly,
        },
        keystore_path: chain_dir(chain_id).push("key"@),
        keystore_password: None,
        keystore_remote: None,
        database_path: chain_dir(chain_id).push("db"@),
        database_cache_size: 128,
        state_cache_size: 16777216,
        state_cache_child_ratio: None,
        wasm_method: WasmExecutionMethod::Interpreted,
        execution_strategies: ExecutionStrategies {
            syncing: ExecutionStrategy::AlwaysWasm,
            importing: ExecutionStrategy::AlwaysWasm,
            block_construction: ExecutionStrategy::AlwaysWasm,
            offchain_worker: ExecutionStrategy::AlwaysWasm,
            other: ExecutionStrategy::AlwaysWasm,
        },
        rpc_http: None,
        rpc_ws: None,
        rpc_ipc: None,
        rpc_ws_max_connections: None,
        rpc_http_threads: None,
        rpc_cors: None,
        rpc_max_payload: None,
        prometheus_config: None,
        telemetry_endpoints: None,
        telemetry_external_transport: None,
        default_heap_pages: None,
        force_authoring: false,
        disable_grandpa: false,
        dev_key_seed: Some(dev_seed()),
        tracing_targets: None,
        max_runtime_instances: 8,
        announce_block: true,
        base_path,
        wasm_runtime_overrides: None,
        informant_enable_color: false,
        disable_log_reloading: false,
        keep_blocks: KeepBlocks::All,
        transaction_storage: TransactionStorageMode::BlockBody,
    }
}

/// The seed of the `Alice` development key.
///
/// Trusted: calls `sp_keyring::sr25519::Keyring::to_seed` on `Alice`, which
/// formats two slashes followed by the variant's name.
#[verifier::external_body]
fn alice_seed() -> (seed: String)
    ensures
        seed@ == dev_seed(),
{
    sp_keyring::sr25519::Keyring::Alice.to_seed()
}

/// The directory of a chain's state followed by one more component.
fn chain_subdir(chain_id: &str, leaf: &str) -> (dir: Vec<String>)
    ensures
        dir.deep_view() == chain_dir(chain_id@).push(leaf@),
{
    let mut dir: Vec<String> = Vec::new();
    dir.push("chains".to_owned());
    dir.push(chain_id.to_owned());
    dir.push(leaf.to_owned());
    assert(dir.deep_view() =~= chain_dir(chain_id@).push(leaf@));
    dir
}

/// Produces the settings of a test node, suitable for most set-ups: a single
/// authority that signs with the `Alice` development key, listens on the
/// in-memory address 0, and keeps its keystore and database in the `key` and
/// `db` directories of the chain, below `chains` in the base path that
/// `db_base_path` resolves to.
pub fn default_config(db_base_path: Option<Vec<u8>>, chain_id: &str) -> (settings: NodeSettings)
    ensures
        settings@ == test_defaults(resolved(bytes_of(db_base_path)), chain_id@),
{
    let base_path = base_path(db_base_path);
    let key_seed = alice_seed();
    let mut node_name = "Test Node for: ".to_owned();
    node_name.append(key_seed.as_str());
    let mut listen_memory_ports: Vec<u64> = Vec::new();
    listen_memory_ports.push(0);
    let network = NetworkSettings {
        node_name,
        client_version: "network/test/0.1".to_owned(),
        allow_non_globals_in_dht: true,
        listen_memory_ports,
        transport: Transport::MemoryOnly,
    };
    assert(network@.listen_memory_ports =~= seq![0u64]);
    NodeSettings {
        impl_name: "test-node".to_owned(),
        impl_version: "0.1".to_owned(),
        role: Role::Authority,
        network,
        keystore_path: chain_subdir(chain_id, "key"),
        keystore_password: None,
        keystore_remote: None,
        database_path: chain_subdir(chain_id, "db"),
        database_cache_size: 128,
        state_cache_size: 16777216,
        state_cache_child_ratio: None,
        wasm_method: WasmExecutionMethod::Interpreted,
        execution_strategies: ExecutionStrategies {
            syncing: ExecutionStrategy::AlwaysWasm,
            importing: ExecutionStrategy::AlwaysWasm,
            block_construction: ExecutionStrategy::AlwaysWasm,
            offchain_worker: ExecutionStrategy::AlwaysWasm,
            other: ExecutionStrategy::AlwaysWasm,
        },
        rpc_http: None,
        rpc_ws: None,
        rpc_ipc: None,
        rpc_ws_max_connections: None,
        rpc_http_threads: None,
        rpc_cors: None,
        rpc_max_payload: None,
        prometheus_config: None,
        telemetry_endpoints: None,
        telemetry_external_transport: None,
        default_heap_pages: None,
        force_authoring: false,
        disable_grandpa: false,
        dev_key_seed: Some(key_seed),
        tracing_targets: None,
        max_runtime_instances: 8,
        announce_block: true,
        base_path,
        wasm_runtime_overrides: None,
        informant_enable_color: false,
        disable_log_reloading: false,
        keep_blocks: KeepBlocks::All,
        transaction_storage: TransactionStorageMode::BlockBody,
    }
}

} // verus!
