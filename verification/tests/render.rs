use nixbitcoin_config::bitcoind::RenderError;
use nixbitcoin_config::formatter::{
    check_attribute_name, check_stays_quoted, Status, MAX_TEXT_BYTES,
};
use nixbitcoin_config::models::{
    BitcoinDaemonService, BitcoinDaemonServiceRPCUser, BitcoinNetwork, PruneOptions,
};
use nixbitcoin_config::validation::{Field, Rule, Violation};

const HMAC_A: &str = "a1b2c3d4$f7efda5c189b999524f151318c0c86d5c7186e9af3f6b9173d0f37ae19ab3e09";
const HMAC_B: &str = "00ff$0123456789abcdef0123456789abcdef0123456789abcdef0123456789abcdef";

const NETWORK_FLAGS: [&str; 4] = [
    "mainnet = true;",
    "testnet = true;",
    "regtest = true;",
    "signet = true;",
];

fn user(name: &str, password_hmac: &str) -> BitcoinDaemonServiceRPCUser {
    BitcoinDaemonServiceRPCUser {
        password_hmac: password_hmac.to_string(),
        name: name.to_string(),
    }
}

fn lines_of(text: &str) -> Vec<&str> {
    assert!(text.ends_with('\n'));
    text[..text.len() - 1].split('\n').collect()
}

#[test]
fn emit_of_unset_configuration() {
    let text = BitcoinDaemonService::default().emit();
    assert_eq!(
        text,
        "{\nservices.bitcoin = {\nenable = true;\nmainnet = true;\n};}\n"
    );
}

#[test]
fn emit_writes_one_flag_for_each_network() {
    let cases = [
        (BitcoinNetwork::Mainnet, "mainnet = true;"),
        (BitcoinNetwork::Testnet, "testnet = true;"),
        (BitcoinNetwork::Regtest, "regtest = true;"),
        (BitcoinNetwork::Signet, "signet = true;"),
    ];
    for (network, flag) in cases {
        let service = BitcoinDaemonService {
            network,
            user: Some("bitcoin".to_string()),
            rpc_port: Some(8332),
            prune: Some(PruneOptions::Manual),
            rpc_users: Some(vec![user("alice", HMAC_A)]),
            ..BitcoinDaemonService::default()
        };
        let text = service.emit();
        let lines = lines_of(&text);
        let flags: Vec<&str> = lines
            .iter()
            .copied()
            .filter(|line| NETWORK_FLAGS.contains(line))
            .collect();
        assert_eq!(flags, vec![flag]);
        assert_eq!(lines[3], flag);
    }
}

#[test]
fn emit_without_pruning_has_no_prune_line() {
    for prune in [None, Some(PruneOptions::Disable)] {
        let service = BitcoinDaemonService {
            prune,
            prune_size: Some(2000),
            ..BitcoinDaemonService::default()
        };
        let text = service.emit();
        assert!(!text.contains("prune"));
        assert_eq!(
            text,
            "{\nservices.bitcoin = {\nenable = true;\nmainnet = true;\n};}\n"
        );
    }
}

#[test]
fn emit_manual_pruning() {
    let service = BitcoinDaemonService {
        prune: Some(PruneOptions::Manual),
        ..BitcoinDaemonService::default()
    };
    assert_eq!(
        service.emit(),
        "{\nservices.bitcoin = {\nenable = true;\nmainnet = true;\nprune = 1;\n};}\n"
    );
}

#[test]
fn emit_automatic_pruning() {
    for (prune_at, line) in [
        (551u32, "prune = 551;"),
        (1024, "prune = 1024;"),
        (100000, "prune = 100000;"),
        (u32::MAX, "prune = 4294967295;"),
    ] {
        let service = BitcoinDaemonService {
            prune: Some(PruneOptions::Automatic { prune_at }),
            ..BitcoinDaemonService::default()
        };
        let text = service.emit();
        let lines = lines_of(&text);
        let prune_lines: Vec<&str> = lines
            .iter()
            .copied()
            .filter(|line| line.starts_with("prune = "))
            .collect();
        assert_eq!(prune_lines, vec![line]);
        assert_eq!(
            text,
            format!(
                "{{\nservices.bitcoin = {{\nenable = true;\nmainnet = true;\n{}\n}};}}\n",
                line
            )
        );
    }
}

#[test]
fn emit_without_rpc_users() {
    for rpc_users in [None, Some(vec![])] {
        let service = BitcoinDaemonService {
            rpc_users,
            rpc_port: Some(8332),
            ..BitcoinDaemonService::default()
        };
        let text = service.emit();
        assert!(!text.contains("rpc.users"));
        assert!(!text.contains("passwordHMAC"));
        assert_eq!(
            text,
            "{\nservices.bitcoin = {\nenable = true;\nmainnet = true;\nrpc.port = 8332;\n};}\n"
        );
    }
}

#[test]
fn emit_single_rpc_user() {
    let service = BitcoinDaemonService {
        rpc_users: Some(vec![user("alice", HMAC_A)]),
        ..BitcoinDaemonService::default()
    };
    let expected = format!(
        "{{\nservices.bitcoin = {{\nenable = true;\nmainnet = true;\n\
         rpc.users.alice = {{\nname = \"alice\";\npasswordHMAC = \"{}\";\n}};\n}};}}\n",
        HMAC_A
    );
    let text = service.emit();
    assert_eq!(text, expected);
    assert_eq!(text.matches("rpc.users").count(), 1);
}

#[test]
fn emit_several_rpc_users() {
    let service = BitcoinDaemonService {
        rpc_users: Some(vec![
            user("alice", HMAC_A),
            user("bob", HMAC_B),
            user("carol", HMAC_A),
        ]),
        ..BitcoinDaemonService::default()
    };
    let expected = format!(
        "{{\nservices.bitcoin = {{\nenable = true;\nmainnet = true;\n\
         rpc.users = {{\nalice = {{\npasswordHMAC = \"{a}\";\n}};}};\n\
         rpc.users = {{\nbob = {{\npasswordHMAC = \"{b}\";\n}};}};\n\
         rpc.users = {{\ncarol = {{\npasswordHMAC = \"{a}\";\n}};}};\n\
         }};}}\n",
        a = HMAC_A,
        b = HMAC_B
    );
    let text = service.emit();
    assert_eq!(text, expected);
    assert_eq!(text.matches("rpc.users = {").count(), 3);
    assert!(!text.contains("name = "));
}

#[test]
fn emit_two_rpc_users_keeps_their_order() {
    let service = BitcoinDaemonService {
        rpc_users: Some(vec![user("zed", HMAC_B), user("amy", HMAC_A)]),
        ..BitcoinDaemonService::default()
    };
    let text = service.emit();
    let lines = lines_of(&text);
    assert_eq!(lines.len(), 4 + 8 + 1);
    assert_eq!(lines[4], "rpc.users = {");
    assert_eq!(lines[5], "zed = {");
    assert_eq!(lines[6], format!("passwordHMAC = \"{}\";", HMAC_B));
    assert_eq!(lines[7], "};};");
    assert_eq!(lines[8], "rpc.users = {");
    assert_eq!(lines[9], "amy = {");
    assert_eq!(lines[10], format!("passwordHMAC = \"{}\";", HMAC_A));
    assert_eq!(lines[11], "};};");
}

#[test]
fn emit_everything_in_order() {
    let service = BitcoinDaemonService {
        name: Some("TestInstance".to_string()),
        user: Some("testuser".to_string()),
        network: BitcoinNetwork::Testnet,
        rpc_users: Some(vec![user("alice", HMAC_A)]),
        rpc_port: Some(9333),
        prune: Some(PruneOptions::Automatic { prune_at: 1024 }),
        port: Some(8333),
        ..BitcoinDaemonService::default()
    };
    let expected = format!(
        "{{\nservices.bitcoin = {{\nenable = true;\ntestnet = true;\n\
         rpc.users.alice = {{\nname = \"alice\";\npasswordHMAC = \"{}\";\n}};\n\
         rpc.port = 9333;\nuser = \"testuser\";\nprune = 1024;\n}};}}\n",
        HMAC_A
    );
    assert_eq!(service.emit(), expected);
}

#[test]
fn emit_port_bounds() {
    for (port, line) in [(1024u16, "rpc.port = 1024;"), (65535, "rpc.port = 65535;")] {
        let service = BitcoinDaemonService {
            rpc_port: Some(port),
            ..BitcoinDaemonService::default()
        };
        assert_eq!(lines_of(&service.emit())[4], line);
    }
}

#[test]
fn fields_that_are_not_written_leave_no_trace() {
    let plain = BitcoinDaemonService {
        user: Some("testuser".to_string()),
        rpc_port: Some(9333),
        ..BitcoinDaemonService::default()
    };
    let loaded = BitcoinDaemonService {
        name: Some("TestInstance".to_string()),
        prune_size: Some(600),
        port: Some(8333),
        pid_file: Some("/run/bitcoind.pid".to_string()),
        package: Some("bitcoind".to_string()),
        group: Some("bitcoin".to_string()),
        extra_config: Some("par=16".to_string()),
        extra_cmd_line_options: Some(vec!["-reindex".to_string()]),
        db_cache: Some(450),
        data_dir: Some("/var/lib/bitcoind".to_string()),
        config_file_path: Some("/etc/bitcoin.conf".to_string()),
        tx_index: Some(true),
        ..plain.clone()
    };
    assert_eq!(plain.emit(), loaded.emit());
    assert_eq!(plain.render(), loaded.render());
}

#[test]
fn render_round_trip() {
    let service = BitcoinDaemonService {
        user: Some("testuser".to_string()),
        port: Some(8333),
        rpc_port: Some(9333),
        ..BitcoinDaemonService::default()
    };
    assert_eq!(service.network, BitcoinNetwork::Mainnet);
    assert_eq!(service.validate(), Ok(()));
    let (status, text) = service.render();
    assert_eq!(status, Status::Changed(true));
    assert!(text.contains("mainnet = true;"));
    assert!(text.contains("rpc.port = 9333;"));
    assert!(text.contains("user = \"testuser\";"));
    assert!(!text.contains("prune ="));
    let raw = service.emit();
    assert!(raw.contains("mainnet = true;\n"));
    assert!(raw.contains("rpc.port = 9333;\n"));
    assert!(raw.contains("user = \"testuser\";\n"));
    assert!(!raw.contains("prune ="));
}

#[test]
fn render_formats_the_emitted_text() {
    let service = BitcoinDaemonService::default();
    let raw = service.emit();
    let (status, text) = service.render();
    assert_eq!(status, Status::Changed(true));
    assert_ne!(text, raw);
    assert_eq!(
        text,
        alejandra::format::in_memory("<convert bitcoind>".to_string(), raw).1
    );
    let words: Vec<&str> = text.split_whitespace().collect();
    assert_eq!(
        words,
        vec![
            "{",
            "services.bitcoin",
            "=",
            "{",
            "enable",
            "=",
            "true;",
            "mainnet",
            "=",
            "true;",
            "};",
            "}"
        ]
    );
}

#[test]
fn render_lays_out_the_attribute_set() {
    let (status, text) = BitcoinDaemonService::default().render();
    assert_eq!(status, Status::Changed(true));
    assert_eq!(
        text,
        "{\n  services.bitcoin = {\n    enable = true;\n    mainnet = true;\n  };\n}\n"
    );
}

#[test]
fn render_several_users_is_well_formed() {
    let service = BitcoinDaemonService {
        rpc_users: Some(vec![user("alice", HMAC_A), user("bob", HMAC_B)]),
        ..BitcoinDaemonService::default()
    };
    assert_eq!(service.validate(), Ok(()));
    let (status, text) = service.render();
    assert_eq!(status, Status::Changed(true));
    assert_eq!(text.matches("rpc.users = {").count(), 2);
    assert!(text.contains("alice = {"));
    assert!(text.contains("bob = {"));
    assert!(text.contains(&format!("passwordHMAC = \"{}\";", HMAC_A)));
    assert!(text.contains(&format!("passwordHMAC = \"{}\";", HMAC_B)));
}

#[test]
fn render_twice_gives_the_same() {
    let service = BitcoinDaemonService {
        user: Some("testuser".to_string()),
        network: BitcoinNetwork::Signet,
        rpc_users: Some(vec![user("alice", HMAC_A), user("bob", HMAC_B)]),
        rpc_port: Some(9333),
        prune: Some(PruneOptions::Automatic { prune_at: 2048 }),
        ..BitcoinDaemonService::default()
    };
    assert_eq!(service.emit(), service.emit());
    let first = service.render();
    let second = service.render();
    assert_eq!(first, second);
    let copy = service.clone();
    assert_eq!(copy.render(), first);
}

#[test]
fn render_single_user_is_well_formed() {
    let service = BitcoinDaemonService {
        rpc_users: Some(vec![user("alice", HMAC_A)]),
        ..BitcoinDaemonService::default()
    };
    let (status, text) = service.render();
    assert_eq!(status, Status::Changed(true));
    assert!(text.contains("rpc.users.alice = {"));
    assert!(text.contains("name = \"alice\";"));
    assert!(text.contains(&format!("passwordHMAC = \"{}\";", HMAC_A)));
}

#[test]
fn render_reports_text_that_is_not_nix() {
    let service = BitcoinDaemonService {
        rpc_users: Some(vec![user("inherit", HMAC_A)]),
        ..BitcoinDaemonService::default()
    };
    assert_eq!(service.validate(), Ok(()));
    assert!(service.is_plain());
    let (status, text) = service.render();
    assert!(matches!(status, Status::Error(_)));
    if let Status::Error(reason) = status {
        assert!(!reason.is_empty());
    }
    assert_eq!(text, service.emit());
}

#[test]
fn render_checked_renders_what_is_valid() {
    let service = BitcoinDaemonService {
        user: Some("testuser".to_string()),
        prune: Some(PruneOptions::Manual),
        ..BitcoinDaemonService::default()
    };
    assert_eq!(service.render_checked(), Ok(service.render()));
}

#[test]
fn render_checked_refuses_what_is_invalid() {
    let service = BitcoinDaemonService {
        user: Some("tu".to_string()),
        prune: Some(PruneOptions::Automatic { prune_at: 234 }),
        ..BitcoinDaemonService::default()
    };
    assert_eq!(
        service.render_checked(),
        Err(RenderError::Invalid(vec![
            Violation {
                field: Field::User,
                index: None,
                rule: Rule::Length { min_bytes: 3 }
            },
            Violation {
                field: Field::PruneAt,
                index: None,
                rule: Rule::Range {
                    min: 551,
                    max: None
                }
            },
        ]))
    );
}

#[test]
fn render_checked_reports_violations_first() {
    let service = BitcoinDaemonService {
        user: Some("\"$".to_string()),
        ..BitcoinDaemonService::default()
    };
    assert!(!service.is_plain());
    assert_eq!(
        service.render_checked(),
        Err(RenderError::Invalid(vec![Violation {
            field: Field::User,
            index: None,
            rule: Rule::Length { min_bytes: 3 }
        }]))
    );
}

#[test]
fn render_checked_keeps_what_is_not_plain_from_the_formatter() {
    let mark = "4d13159079d76c1398db5f3ab0c62325f884b545e63226f7ec8aad96c52e13e8\
                6b219abc9462c41b87e47344752e9940abf9353565f69a5db5c672b89372b84c";
    let users = [
        "bad\"quote".to_string(),
        "back\\slash".to_string(),
        "a${b}".to_string(),
        format!("abc\"; x = ''{}{}''; y = \"", mark, mark),
        format!("abc\"; x = {}1{}; y = \"", "(".repeat(20000), ")".repeat(20000)),
    ];
    for name in users {
        let service = BitcoinDaemonService {
            user: Some(name),
            ..BitcoinDaemonService::default()
        };
        assert_eq!(service.validate(), Ok(()));
        assert!(!service.is_plain());
        assert_eq!(
            service.render_checked(),
            Err(RenderError::NotPlain(service.emit()))
        );
    }

    let names = [
        "/*\n\u{3000}\u{3000}x\n\u{3000}y\n*/ bob",
        "two words",
        "1st",
        "-dash",
        "'alice",
        "''x",
        "jos\u{e9}",
        "a.b",
        "a/*b",
    ];
    for name in names {
        for others in [vec![], vec![user("alice", HMAC_A)]] {
            let mut users = others;
            users.push(user(name, HMAC_B));
            let service = BitcoinDaemonService {
                rpc_users: Some(users),
                ..BitcoinDaemonService::default()
            };
            assert_eq!(service.validate(), Ok(()));
            assert!(!service.is_plain());
            assert_eq!(
                service.render_checked(),
                Err(RenderError::NotPlain(service.emit()))
            );
        }
    }
}

#[test]
fn render_checked_exact_text_of_what_is_not_plain() {
    let service = BitcoinDaemonService {
        user: Some("a\"b".to_string()),
        ..BitcoinDaemonService::default()
    };
    assert_eq!(
        service.render_checked(),
        Err(RenderError::NotPlain(
            "{\nservices.bitcoin = {\nenable = true;\nmainnet = true;\nuser = \"a\"b\";\n};}\n"
                .to_string()
        ))
    );
}

#[test]
fn render_takes_a_user_that_stays_quoted() {
    let users = [
        "a/*b",
        "/*\n\u{3000}\u{3000}x\n\u{3000}y\n*/",
        "jos\u{e9}",
        "# no comment",
        "''x''",
        "two words",
        "a; b = { c = [ ( ",
        "line\nfeed",
        "a$b",
        "$$$",
        "cost $ {",
    ];
    for name in users {
        let service = BitcoinDaemonService {
            user: Some(name.to_string()),
            ..BitcoinDaemonService::default()
        };
        assert!(service.is_plain());
        let out = service.render();
        assert_eq!(out.0, Status::Changed(true));
        assert!(out.1.contains(&format!("user = \"{}\";", name)));
        assert_eq!(service.render_checked(), Ok(out));
    }
}

#[test]
fn render_takes_names_that_are_identifiers() {
    let names = [
        "alice", "Bob", "_x_", "a-b", "a--", "a_1", "abc", "rpc-user-01", "true", "null", "orr",
        "al'ice", "a''",
    ];
    for name in names {
        for others in [vec![], vec![user("alice", HMAC_A)]] {
            let mut users = others;
            users.push(user(name, HMAC_B));
            let service = BitcoinDaemonService {
                rpc_users: Some(users),
                ..BitcoinDaemonService::default()
            };
            assert!(service.is_plain());
            let out = service.render();
            assert_eq!(out.0, Status::Changed(true));
            assert!(out.1.contains(name));
            assert_eq!(service.render_checked(), Ok(out));
        }
    }
}

#[test]
fn render_returns_for_names_that_are_keywords() {
    let names = [
        "assert", "else", "inherit", "let", "rec", "then", "with",
    ];
    for name in names {
        for others in [vec![], vec![user("alice", HMAC_A)]] {
            let mut users = others;
            users.push(user(name, HMAC_B));
            let service = BitcoinDaemonService {
                rpc_users: Some(users),
                ..BitcoinDaemonService::default()
            };
            assert_eq!(service.validate(), Ok(()));
            assert!(service.is_plain());
            let (status, text) = service.render();
            match status {
                Status::Error(_) => assert_eq!(text, service.emit()),
                Status::Changed(changed) => assert_eq!(changed, text != service.emit()),
            }
        }
    }
}

#[test]
fn plain_needs_a_password_hmac_in_shape() {
    let service = BitcoinDaemonService {
        rpc_users: Some(vec![user("alice", "a\"b")]),
        ..BitcoinDaemonService::default()
    };
    assert!(!service.is_plain());
    let service = BitcoinDaemonService {
        rpc_users: Some(vec![user("alice", HMAC_A), user("bob", HMAC_B)]),
        user: Some("bitcoin".to_string()),
        ..BitcoinDaemonService::default()
    };
    assert!(service.is_plain());
    assert!(BitcoinDaemonService::default().is_plain());
}

#[test]
fn attribute_names() {
    for text in ["a", "_", "Z", "abc", "a1", "a-b", "a_b", "a-", "_1", "x--y", "a'", "a''b"] {
        assert!(check_attribute_name(text));
    }
    for text in [
        "", "1", "1a", "-a", "a b", "a.b", "'", "'a", "a\"", "a$", "\u{e9}", "a\u{e9}", "a\n", " a", "a/", "a*",
    ] {
        assert!(!check_attribute_name(text));
    }
}

#[test]
fn text_that_stays_quoted() {
    for text in [
        "", "abc", "a b", "a/*b", "''", "#", "{}", "jos\u{e9}", "a\nb", "a'b", "$", "a$b", "$$", "{$",
        "$ {", "$\u{e9}{",
    ] {
        assert!(check_stays_quoted(text));
    }
    for text in ["\"", "a\"", "\\", "a\\b", "${", "a${b}", "$${", "\u{e9}\"", "\u{e9}${"] {
        assert!(!check_stays_quoted(text));
    }
}

#[test]
fn render_checked_takes_text_of_ordinary_length() {
    let service = BitcoinDaemonService {
        user: Some("a".repeat(100_000)),
        rpc_users: Some((0..200).map(|i| user(&format!("user{}", i), HMAC_A)).collect()),
        ..BitcoinDaemonService::default()
    };
    assert!(service.emit().len() <= MAX_TEXT_BYTES);
    match service.render_checked() {
        Ok((status, text)) => {
            assert_eq!(status, Status::Changed(true));
            assert!(text.len() > service.emit().len());
        }
        Err(_) => panic!("the configuration can be rendered"),
    }
}

#[test]
fn formatter_takes_a_quarter_of_what_32_bits_count() {
    assert_eq!(MAX_TEXT_BYTES, 1_073_741_823);
}
