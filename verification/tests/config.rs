use test_runner::config::{
    ExecutionStrategies, ExecutionStrategy, KeepBlocks, NetworkSettings, NodeSettings, Role,
    TransactionStorageMode, Transport, WasmExecutionMethod,
};
use test_runner::{default_config, BasePath};

fn strings(parts: &[&str]) -> Vec<String> {
    parts.iter().map(|part| part.to_string()).collect()
}

#[test]
fn default_config_for_a_temporary_base_path() {
    let settings = default_config(None, "dev");
    let expected = NodeSettings {
        impl_name: "test-node".to_string(),
        impl_version: "0.1".to_string(),
        role: Role::Authority,
        network: NetworkSettings {
            node_name: "Test Node for: //Alice".to_string(),
            client_version: "network/test/0.1".to_string(),
            allow_non_globals_in_dht: true,
            listen_memory_ports: vec![0],
            transport: Transport::MemoryOnly,
        },
        keystore_path: strings(&["chains", "dev", "key"]),
        keystore_password: None,
        keystore_remote: None,
        database_path: strings(&["chains", "dev", "db"]),
        database_cache_size: 128,
        state_cache_size: 16777216,
        state_cache_child_ratio: None,
        wasm_method: WasmExecutionMethod::Interpreted,
        execution_strategies: ExecutionStrategies {
            syncing: ExecutionStrategy::AlwaysWasm,
            importing: ExecutionStrategy::AlwaysWasm,
            block_construction: ExecutionStrategy::AlwaysWasm,
            offchain_worker: ExecutionStrategy::AlwaysWasm,
            other: ExecutionStrategy::AlwaysWasm,
        },
        rpc_http: None,
        rpc_ws: None,
        rpc_ipc: None,
        rpc_ws_max_connections: None,
        rpc_http_threads: None,
        rpc_cors: None,
        rpc_max_payload: None,
        prometheus_config: None,
        telemetry_endpoints: None,
        telemetry_external_transport: None,
        default_heap_pages: None,
        force_authoring: false,
        disable_grandpa: false,
        dev_key_seed: Some("//Alice".to_string()),
        tracing_targets: None,
        max_runtime_instances: 8,
        announce_block: true,
        base_path: BasePath::Temporary,
        wasm_runtime_overrides: None,
        informant_enable_color: false,
        disable_log_reloading: false,
        keep_blocks: KeepBlocks::All,
        transaction_storage: TransactionStorageMode::BlockBody,
    };
    assert_eq!(settings, expected);
}

#[test]
fn default_config_takes_the_base_path_from_the_variable() {
    let settings = default_config(Some(b"/data/node".to_vec()), "dev");
    assert_eq!(settings.base_path, BasePath::Permanent(b"/data/node".to_vec()));
    assert_eq!(settings.keystore_path, strings(&["chains", "dev", "key"]));
    assert_eq!(settings.database_path, strings(&["chains", "dev", "db"]));
}

#[test]
fn default_config_differs_for_two_base_paths_only_in_the_base_path() {
    let temporary = default_config(None, "local_testnet");
    let mut permanent = default_config(Some(b"/data/node".to_vec()), "local_testnet");
    assert_ne!(temporary, permanent);
    permanent.base_path = BasePath::Temporary;
    assert_eq!(temporary, permanent);
}

#[test]
fn chain_id_names_the_directory_below_chains() {
    let settings = default_config(None, "mandala-pc-dev");
    assert_eq!(settings.keystore_path, strings(&["chains", "mandala-pc-dev", "key"]));
    assert_eq!(settings.database_path, strings(&["chains", "mandala-pc-dev", "db"]));
}

#[test]
fn empty_chain_id_is_kept_as_an_empty_component() {
    let settings = default_config(None, "");
    assert_eq!(settings.keystore_path, strings(&["chains", "", "key"]));
    assert_eq!(settings.database_path, strings(&["chains", "", "db"]));
}

#[test]
fn node_signs_with_the_alice_development_key() {
    let settings = default_config(None, "dev");
    assert_eq!(settings.dev_key_seed, Some("//Alice".to_string()));
    assert_eq!(settings.network.node_name, "Test Node for: //Alice");
}

#[test]
fn node_is_an_authority_on_memory_transport() {
    let settings = default_config(None, "dev");
    assert_eq!(settings.role, Role::Authority);
    assert_eq!(settings.network.transport, Transport::MemoryOnly);
    assert_eq!(settings.network.listen_memory_ports, vec![0]);
    assert!(settings.network.allow_non_globals_in_dht);
}

#[test]
fn cache_sizes_and_instance_limit() {
    let settings = default_config(None, "dev");
    assert_eq!(settings.database_cache_size, 128);
    assert_eq!(settings.state_cache_size, 16 * 1024 * 1024);
    assert_eq!(settings.max_runtime_instances, 8);
}

#[test]
fn every_optional_outward_endpoint_is_off() {
    for db_base_path in [None, Some(b"/data/node".to_vec()), Some(vec![0xff])] {
        let settings = default_config(db_base_path, "dev");
        assert_eq!(settings.rpc_http, None);
        assert_eq!(settings.rpc_ws, None);
        assert_eq!(settings.rpc_ipc, None);
        assert_eq!(settings.rpc_cors, None);
        assert_eq!(settings.prometheus_config, None);
        assert_eq!(settings.telemetry_endpoints, None);
        assert_eq!(settings.telemetry_external_transport, None);
        assert_eq!(settings.keystore_remote, None);
        assert_eq!(settings.wasm_runtime_overrides, None);
    }
}

#[test]
fn base_path_that_is_not_unicode_is_kept() {
    let settings = default_config(Some(vec![b'/', 0xc3, 0x28]), "dev");
    assert_eq!(settings.base_path, BasePath::Permanent(vec![b'/', 0xc3, 0x28]));
}
