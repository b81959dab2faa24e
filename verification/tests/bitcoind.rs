use garde::rules::contains::Contains;
use nixbitcoin_config::formatter::Status;
use nixbitcoin_config::models::{BitcoinDaemonService, BitcoinNetwork, PruneOptions};

fn _get_network_test_string(network: &BitcoinNetwork) -> String {
    alejandra::format::in_memory(
        "".to_string(),
        match network {
            BitcoinNetwork::Mainnet => {
                "{ services.bitcoin = { enable = true; mainnet = true; }; }".to_string()
            }
            BitcoinNetwork::Testnet => {
                "{ services.bitcoin = { enable = true; testnet = true; }; }".to_string()
            }
            BitcoinNetwork::Regtest => {
                "{ services.bitcoin = { enable = true; regtest = true; }; }".to_string()
            }
            BitcoinNetwork::Signet => {
                "{ services.bitcoin = { enable = true; signet = true; }; }".to_string()
            }
        },
    )
    .1
}

#[test]
fn bitcoind_test_bitcoin_daemon_service_creation() {
    let service = BitcoinDaemonService {
        name: Some("TestInstance".to_string()),
        user: Some("testuser".to_string()),
        port: Some(8333),
        rpc_port: Some(9333),
        ..BitcoinDaemonService::default()
    };

    assert_eq!(service.name, Some("TestInstance".to_string()));
    assert_eq!(service.user, Some("testuser".to_string()));
    assert_eq!(service.rpc_port, Some(9333));
    assert_eq!(service.port, Some(8333));
    assert_eq!(service.network, BitcoinNetwork::Mainnet);
    assert!(service.rpc_users.is_none());
    assert!(service.prune.is_none());
    assert!(service.pid_file.is_none());
    assert!(service.package.is_none());
    assert!(service.group.is_none());
    assert!(service.extra_config.is_none());
    assert!(service.extra_cmd_line_options.is_none());
    assert!(service.db_cache.is_none());
    assert!(service.data_dir.is_none());
    assert!(service.config_file_path.is_none());
}

#[test]
fn test_render_full() {
    let service = BitcoinDaemonService {
        name: Some("TestInstance".to_string()),
        user: Some("testuser".to_string()),
        port: Some(8333),
        rpc_port: Some(9333),
        prune: Some(PruneOptions::Automatic { prune_at: 1024 }),
        ..BitcoinDaemonService::default()
    };

    println!("{}", service.render().1);
}

#[test]
fn test_prune_default_options() {
    let service = BitcoinDaemonService {
        prune: None,
        ..BitcoinDaemonService::default()
    };

    let res = service.validate();
    assert!(res.is_ok());
    let nix = service.render().1;
    assert!(!nix.validate_contains("prune ="));
}

#[test]
fn test_prune_manual_options() {
    let service = BitcoinDaemonService {
        prune: Some(PruneOptions::Manual),
        ..BitcoinDaemonService::default()
    };

    let res = service.validate();
    assert!(res.is_ok());
    let nix = service.render().1;
    assert!(nix.validate_contains("prune = 1;"));
}

#[test]
fn test_prune_automatic_options() {
    let service = BitcoinDaemonService {
        prune: Some(PruneOptions::Automatic { prune_at: 1024 }),
        ..BitcoinDaemonService::default()
    };

    let res = service.validate();
    assert!(res.is_ok());
    let nix = service.render().1;
    assert!(nix.validate_contains("prune = 1024;"));

    let service_nok = BitcoinDaemonService {
        prune: Some(PruneOptions::Automatic { prune_at: 234 }),
        ..BitcoinDaemonService::default()
    };
    let res = service_nok.validate();
    assert!(res.is_err());
}

#[test]
fn test_render_network() {
    for network in [
        BitcoinNetwork::Mainnet,
        BitcoinNetwork::Testnet,
        BitcoinNetwork::Regtest,
        BitcoinNetwork::Signet,
    ] {
        let nix = _get_network_test_string(&network);
        let service = BitcoinDaemonService {
            network,
            ..Default::default()
        };

        let (status, res) = service.render();

        assert!(!matches!(status, Status::Error(_)));
        assert_eq!(res.trim(), nix.trim());
    }
}
