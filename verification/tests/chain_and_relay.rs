use tinkernet_node::relay::RelayChainCli;
use tinkernet_node::spec_source::{load_spec, ChainSpecSource};

#[test]
fn built_in_chains_by_name() {
    assert_eq!(load_spec("solo-dev"), ChainSpecSource::SoloDev);
    assert_eq!(load_spec("dev"), ChainSpecSource::Development);
    assert_eq!(load_spec("template-rococo"), ChainSpecSource::LocalTestnet);
    assert_eq!(load_spec("local"), ChainSpecSource::LocalTestnet);
    assert_eq!(load_spec(""), ChainSpecSource::LocalTestnet);
}

#[test]
fn other_ids_are_json_paths() {
    assert_eq!(
        load_spec("res/tinkernet-raw.json"),
        ChainSpecSource::JsonFile("res/tinkernet-raw.json".to_string())
    );
    assert_eq!(load_spec("Dev"), ChainSpecSource::JsonFile("Dev".to_string()));
    assert_eq!(load_spec("local "), ChainSpecSource::JsonFile("local ".to_string()));
}

fn relay(chain_id: Option<&str>, base_path: Option<&str>) -> RelayChainCli {
    RelayChainCli {
        chain_id: chain_id.map(|s| s.to_string()),
        base_path: base_path.map(|s| s.to_string()),
    }
}

#[test]
fn relay_chain_id_prefers_arguments() {
    let cli = relay(Some("rococo-local"), None);
    assert_eq!(cli.chain_id("kusama".to_string()), "kusama");
    assert_eq!(cli.chain_id(String::new()), "rococo-local");
    assert_eq!(relay(None, None).chain_id(String::new()), "");
    assert_eq!(relay(None, None).chain_id("polkadot".to_string()), "polkadot");
}

#[test]
fn relay_base_path_prefers_arguments() {
    let cli = relay(None, Some("/data/polkadot"));
    assert_eq!(cli.base_path(Some("/tmp/x".to_string())), Some("/tmp/x".to_string()));
    assert_eq!(cli.base_path(None), Some("/data/polkadot".to_string()));
    assert_eq!(relay(None, None).base_path(None), None);
}

#[test]
fn relay_argv_starts_with_executable() {
    let args = vec!["--chain".to_string(), "kusama".to_string()];
    assert_eq!(
        RelayChainCli::argv("tinkernet-collator".to_string(), &args),
        vec!["tinkernet-collator".to_string(), "--chain".to_string(), "kusama".to_string()]
    );
    assert_eq!(RelayChainCli::argv("node".to_string(), &vec![]), vec!["node".to_string()]);
}

#[test]
fn relay_identity_and_ports() {
    assert_eq!(RelayChainCli::impl_name(), "InvArch Tinkernet Collator");
    assert!(RelayChainCli::description().starts_with("InvArch Tinkernet Collator\n\n"));
    assert!(RelayChainCli::description()
        .ends_with("\n\nparachain-collator <parachain-args> -- <relay-chain-args>"));
    assert_eq!(RelayChainCli::support_url(), "https://github.com/InvArch/InvArch-node/issues/new");
    assert_eq!(RelayChainCli::copyright_start_year(), 2021);
    assert_eq!(RelayChainCli::p2p_listen_port(), 30334);
    assert_eq!(RelayChainCli::rpc_listen_port(), 9945);
    assert_eq!(RelayChainCli::prometheus_listen_port(), 9616);
}
