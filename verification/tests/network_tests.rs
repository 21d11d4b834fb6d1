use prism::network::{
    default_network, resolve_network, Network, NetworkConfig, PrismConfig,
    DEFAULT_REQUEST_TIMEOUT_SECS,
};

#[test]
fn default_timeout_is_30s() {
    let cfg = NetworkConfig::testnet();
    assert_eq!(cfg.request_timeout_secs, DEFAULT_REQUEST_TIMEOUT_SECS);
    assert_eq!(cfg.request_timeout_secs, 30);
}

#[test]
fn resolves_names_and_aliases_ignoring_case() {
    assert_eq!(resolve_network("mainnet").network, Network::Mainnet);
    assert_eq!(resolve_network("MAIN").network, Network::Mainnet);
    assert_eq!(resolve_network("PubNet").network, Network::Mainnet);
    assert_eq!(resolve_network("testnet").network, Network::Testnet);
    assert_eq!(resolve_network("Test").network, Network::Testnet);
    assert_eq!(resolve_network("futurenet").network, Network::Futurenet);
    assert_eq!(resolve_network("FUTURE").network, Network::Futurenet);
}

#[test]
fn resolves_urls_to_custom_networks() {
    let cfg = resolve_network("HTTP://Localhost:8000/RPC");
    assert_eq!(cfg.network, Network::Custom);
    assert_eq!(cfg.rpc_url, "http://localhost:8000/rpc");
    assert_eq!(cfg.network_passphrase, "");
    assert!(cfg.archive_urls.is_empty());
}

#[test]
fn unknown_names_fall_back_to_testnet() {
    let cfg = resolve_network("nowhere");
    assert_eq!(cfg.network, Network::Testnet);
    assert_eq!(cfg.rpc_url, NetworkConfig::testnet().rpc_url);
}

#[test]
fn default_network_is_testnet() {
    let cfg = default_network();
    assert_eq!(cfg.network, Network::Testnet);
    assert_eq!(cfg.network_passphrase, "Test SDF Network ; September 2015");
    assert!(!cfg.no_cache);
}

#[test]
fn prism_config_default_lists_builtin_networks() {
    let cfg = PrismConfig::default();
    assert_eq!(cfg.default_network, Network::Testnet);
    let kinds: Vec<Network> = cfg.networks.iter().map(|n| n.network).collect();
    assert_eq!(kinds, vec![Network::Testnet, Network::Mainnet, Network::Futurenet, Network::Local]);
    assert!(cfg.cache_dir.is_none());
    assert_eq!(cfg.max_cache_size_mb, 512);
    assert!(cfg.networks.iter().all(|n| n.request_timeout_secs == 30));
}

#[test]
fn duplicate_copies_every_field() {
    let cfg = NetworkConfig::mainnet();
    let copy = cfg.duplicate();
    assert_eq!(copy.rpc_url, cfg.rpc_url);
    assert_eq!(copy.archive_urls, cfg.archive_urls);
    assert_eq!(copy.network, cfg.network);
}
