use nixbitcoin_config::models::{BitcoinDaemonService, BitcoinNetwork};

#[test]
fn models_test_bitcoin_daemon_service_creation() {
    let service = BitcoinDaemonService {
        name: Some("TestInstance".to_string()),
        user: Some("testuser".to_string()),
        port: Some(8333),
        rpc_port: Some(9333),
        ..BitcoinDaemonService::default()
    };

    assert_eq!(service.name, Some("TestInstance".to_string()));
    assert_eq!(service.user, Some("testuser".to_string()));
    assert_eq!(service.rpc_port, Some(9333));
    assert_eq!(service.port, Some(8333));
    assert_eq!(service.network, BitcoinNetwork::Mainnet);
    assert!(service.rpc_users.is_none());
    assert!(service.prune.is_none());
    assert!(service.pid_file.is_none());
    assert!(service.package.is_none());
    assert!(service.group.is_none());
    assert!(service.extra_config.is_none());
    assert!(service.extra_cmd_line_options.is_none());
    assert!(service.db_cache.is_none());
    assert!(service.data_dir.is_none());
    assert!(service.config_file_path.is_none());
}
