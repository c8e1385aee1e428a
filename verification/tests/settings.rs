use base64::Engine;
use peat_sapient::config::{Cli, Config, SapientConfig, TakConfig};
use peat_sapient::settings::{
    base64_default_key, build_sapient_tls, formation_id, id_hex, key_text, node_name, peer_spec,
    resolve_sapient_role, role_summary, shared_key, split_peer, tak_plan, SettingsError, TlsFiles,
};
use peat_sapient::transport::SapientRole;

fn is_address(addr: &str) -> bool {
    match addr.rsplit_once(':') {
        Some((host, port)) => !host.is_empty() && port.parse::<u16>().is_ok(),
        None => false,
    }
}

fn parse_peer(spec: &str) -> Result<(String, Vec<String>), SettingsError> {
    peat_sapient::settings::parse_peer(spec, is_address)
}

#[test]
fn parse_peer_valid() {
    let id = "a".repeat(64);
    let spec = format!("{id}@127.0.0.1:9001");
    let (parsed_id, addrs) = parse_peer(&spec).unwrap();
    assert_eq!(parsed_id, id);
    assert_eq!(addrs, vec!["127.0.0.1:9001"]);
}

#[test]
fn parse_peer_missing_at() {
    assert_eq!(parse_peer("no-at-sign"), Err(SettingsError::PeerWithoutAddress));
}

#[test]
fn parse_peer_bad_hex() {
    let spec = format!("{}@127.0.0.1:9001", "zz".repeat(32));
    assert!(matches!(parse_peer(&spec), Err(SettingsError::PeerIdNotHex(_))));
}

#[test]
fn parse_peer_wrong_length() {
    let short = "aa".repeat(16);
    let spec = format!("{short}@127.0.0.1:9001");
    let err = parse_peer(&spec).unwrap_err();
    assert_eq!(err, SettingsError::PeerIdLength(16));
    assert!(err.message().contains("16 bytes"));
}

#[test]
fn parse_peer_bad_addr() {
    let id = "bb".repeat(32);
    let spec = format!("{id}@not-an-address");
    assert_eq!(
        parse_peer(&spec),
        Err(SettingsError::PeerAddress("not-an-address".to_string()))
    );
}

#[test]
fn peer_is_split_at_its_first_at() {
    let id = "CD".repeat(32);
    let split = split_peer(&format!("{id}@a@b")).unwrap();
    assert_eq!(split.id_hex, id);
    assert_eq!(split.addr, "a@b");
}

#[test]
fn resolve_role_default_is_hldmm() {
    let role = resolve_sapient_role(&SapientConfig::default()).unwrap();
    assert!(matches!(role, SapientRole::Hldmm { .. }));
}

#[test]
fn resolve_role_hldmm_explicit() {
    let cfg = SapientConfig {
        role: Some("hldmm".into()),
        listen: Some("0.0.0.0:5000".into()),
        ..Default::default()
    };
    match resolve_sapient_role(&cfg).unwrap() {
        SapientRole::Hldmm { listen_addr } => assert_eq!(listen_addr, "0.0.0.0:5000"),
        _ => panic!("expected HLDMM"),
    }
}

#[test]
fn resolve_role_dlmm() {
    let cfg = SapientConfig {
        role: Some("dlmm".into()),
        remote: Some("10.0.0.1:12000".into()),
        ..Default::default()
    };
    assert!(matches!(resolve_sapient_role(&cfg).unwrap(), SapientRole::Dlmm { .. }));
}

#[test]
fn resolve_role_dlmm_missing_remote() {
    let cfg = SapientConfig { role: Some("dlmm".into()), ..Default::default() };
    assert_eq!(resolve_sapient_role(&cfg), Err(SettingsError::RemoteMissing));
}

#[test]
fn resolve_role_unknown() {
    let cfg = SapientConfig { role: Some("bogus".into()), ..Default::default() };
    let err = resolve_sapient_role(&cfg).unwrap_err();
    assert_eq!(err, SettingsError::UnknownRole("bogus".to_string()));
    assert!(err.message().contains("bogus"));
}

fn bare_cli() -> Cli {
    Cli {
        config: None,
        name: None,
        bind: None,
        peer: vec![],
        sapient_listen: None,
        sapient_remote: None,
        sapient_peer_id: None,
        sapient_tls: None,
        sapient_cert: None,
        sapient_key: None,
        sapient_ca_cert: None,
        sapient_server_name: None,
        storage: None,
        tak_server: None,
        tak_tls: None,
        tak_cert: None,
        tak_key: None,
        tak_ca_cert: None,
        tak_callsign: None,
        tak_server_name: None,
        tak_max_message_bytes: None,
        tak_peer_id: None,
    }
}

#[test]
fn config_cli_tls_overrides_file_on() {
    let mut config = Config::default();
    config.sapient.tls = Some(true);
    let cli = Cli { sapient_tls: Some(false), ..bare_cli() };
    assert_eq!(Config::load(&cli, Some(config)).sapient.tls, Some(false));
    assert_eq!(Config::load(&cli, None).sapient.tls, Some(false));
}

#[test]
fn config_cli_tls_overrides_file_off() {
    let cli = Cli { sapient_tls: Some(true), ..bare_cli() };
    assert_eq!(Config::load(&cli, None).sapient.tls, Some(true));
}

#[test]
fn config_cli_tak_tls_overrides() {
    let cli = Cli { tak_tls: Some(false), ..bare_cli() };
    assert_eq!(Config::load(&cli, None).tak.tls, Some(false));
}

#[test]
fn config_no_tls_flags_leaves_none() {
    let loaded = Config::load(&bare_cli(), None);
    assert_eq!(loaded.sapient.tls, None);
    assert_eq!(loaded.tak.tls, None);
}

#[test]
fn command_line_goes_over_the_file() {
    let mut file = Config::default();
    file.node.name = Some("from-file".into());
    file.mesh.peers = vec!["p1".into()];
    file.sapient.role = Some("hldmm".into());
    file.tak.peer_node_id = Some("file-tak".into());
    file.tak.max_message_bytes = Some(10);
    let kept = Config::load(&bare_cli(), Some(file.clone()));
    assert_eq!(kept, file);
    let cli = Cli {
        name: Some("from-cli".into()),
        peer: vec!["p2".into()],
        sapient_remote: Some("10.0.0.1:1".into()),
        sapient_listen: Some("0.0.0.0:2".into()),
        tak_peer_id: Some("cli-tak".into()),
        tak_max_message_bytes: Some(20),
        ..bare_cli()
    };
    let loaded = Config::load(&cli, Some(file));
    assert_eq!(loaded.node.name.as_deref(), Some("from-cli"));
    assert_eq!(loaded.mesh.peers, ["p1", "p2"]);
    assert_eq!(loaded.sapient.role.as_deref(), Some("dlmm"));
    assert_eq!(loaded.sapient.remote.as_deref(), Some("10.0.0.1:1"));
    assert_eq!(loaded.tak.peer_node_id.as_deref(), Some("cli-tak"));
    assert_eq!(loaded.tak.max_message_bytes, Some(20));
    let listening = Cli { sapient_listen: Some("0.0.0.0:2".into()), ..bare_cli() };
    assert_eq!(Config::load(&listening, None).sapient.role.as_deref(), Some("hldmm"));
    let bare = Config::load(&bare_cli(), None);
    assert_eq!(bare.tak.peer_node_id.as_deref(), Some("tak-server-0"));
}

#[test]
fn base64_default_key_is_valid() {
    let key = base64_default_key();
    let decoded = base64::engine::general_purpose::STANDARD.decode(&key).unwrap();
    assert_eq!(decoded.len(), 32);
    assert_ne!(decoded, vec![0u8; 32]);
}

#[test]
fn key_text_is_base64() {
    let secret: Vec<u8> = (0..32).map(|i| i * 8 + 3).collect();
    let text = key_text(&secret);
    assert_eq!(text.len(), 44);
    assert_eq!(text, base64::engine::general_purpose::STANDARD.encode(&secret));
    assert_eq!(
        key_text(&vec![0u8; 32]),
        "AAAAAAAAAAAAAAAAAAAAAAAAAAAAAAAAAAAAAAAAAAA="
    );
}

#[test]
fn defaults_name_the_node_and_its_formation() {
    let mut config = Config::default();
    assert_eq!(node_name(&config), "sapient-bridge");
    assert_eq!(formation_id(&config), "sapient-bridge-default");
    assert_eq!(shared_key(&config).len(), 44);
    config.mesh.shared_key = Some("given".into());
    config.mesh.formation_id = Some("alpha".into());
    assert_eq!(shared_key(&config), "given");
    assert_eq!(formation_id(&config), "alpha");
}

#[test]
fn tls_needs_its_files() {
    let manager = SapientRole::Hldmm { listen_addr: "0.0.0.0:1".into() };
    let node =
        SapientRole::Dlmm { remote_addr: "10.0.0.1:1".into(), peer_node_id: "m".into() };
    let mut cfg = SapientConfig::default();
    assert_eq!(build_sapient_tls(&cfg, &manager), Err(SettingsError::CertMissing));
    cfg.cert = Some("c".into());
    assert_eq!(build_sapient_tls(&cfg, &manager), Err(SettingsError::KeyMissing));
    cfg.key = Some("k".into());
    assert_eq!(
        build_sapient_tls(&cfg, &manager),
        Ok(TlsFiles::Server { cert: "c".into(), key: "k".into(), ca_cert: None })
    );
    assert_eq!(build_sapient_tls(&cfg, &node), Err(SettingsError::CaCertMissing));
    cfg.ca_cert = Some("ca".into());
    assert_eq!(
        build_sapient_tls(&cfg, &node),
        Ok(TlsFiles::Client {
            ca_cert: "ca".into(),
            identity: Some(("c".into(), "k".into()))
        })
    );
}

#[test]
fn client_without_an_identity_needs_only_the_authority() {
    let node =
        SapientRole::Dlmm { remote_addr: "10.0.0.1:1".into(), peer_node_id: "m".into() };
    let mut cfg = SapientConfig::default();
    cfg.ca_cert = Some("ca".into());
    assert_eq!(
        build_sapient_tls(&cfg, &node),
        Ok(TlsFiles::Client { ca_cert: "ca".into(), identity: None })
    );
    cfg.ca_cert = None;
    assert_eq!(build_sapient_tls(&cfg, &node), Err(SettingsError::CaCertMissing));
}

#[test]
fn client_with_half_an_identity_is_refused() {
    let node =
        SapientRole::Dlmm { remote_addr: "10.0.0.1:1".into(), peer_node_id: "m".into() };
    for ca_cert in [None, Some("ca".to_string())] {
        let mut cfg = SapientConfig { ca_cert, ..Default::default() };
        cfg.cert = Some("c".into());
        assert_eq!(build_sapient_tls(&cfg, &node), Err(SettingsError::KeyMissing));
        cfg.cert = None;
        cfg.key = Some("k".into());
        assert_eq!(build_sapient_tls(&cfg, &node), Err(SettingsError::CertMissing));
    }
}

#[test]
fn node_is_reached_under_what_it_prints() {
    let id: [u8; 32] = std::array::from_fn(|i| (i * 8 + 3) as u8);
    let hex = id_hex(&id);
    assert!(hex.starts_with("030b131b"));
    assert!(hex.ends_with("ebf3fb"));
    assert_eq!(hex, hex::encode(id));
    let spec = peer_spec(&id, "10.0.0.1:9001");
    assert_eq!(spec, format!("{hex}@10.0.0.1:9001"));
    let peer = split_peer(&spec).unwrap();
    assert_eq!(peer.id_hex, hex);
    assert_eq!(peer.addr, "10.0.0.1:9001");
}

#[test]
fn tak_plan_follows_the_configuration() {
    assert_eq!(tak_plan(&TakConfig::default()), Ok(None));
    let mut cfg = TakConfig { server: Some("10.0.0.9:8089".into()), ..Default::default() };
    let plan = tak_plan(&cfg).unwrap().unwrap();
    assert_eq!(plan.server, "10.0.0.9:8089");
    assert_eq!(plan.peer_node_id, "tak-server-0");
    assert!(!plan.use_tls);
    assert_eq!(plan.max_message_bytes, 65536);
    cfg.max_message_bytes = Some(1);
    assert_eq!(tak_plan(&cfg).unwrap().unwrap().max_message_bytes, 1);
    cfg.tls = Some(true);
    assert_eq!(tak_plan(&cfg), Err(SettingsError::TakCertMissing));
    cfg.client_cert = Some("c".into());
    assert_eq!(tak_plan(&cfg), Err(SettingsError::TakKeyMissing));
    cfg.client_key = Some("k".into());
    assert_eq!(tak_plan(&cfg), Err(SettingsError::TakCaCertMissing));
    cfg.ca_cert = Some("ca".into());
    let identity = tak_plan(&cfg).unwrap().unwrap().identity.unwrap();
    assert_eq!(identity.client_cert, "c");
    assert_eq!(identity.client_key, "k");
    assert_eq!(identity.ca_cert, "ca");
    assert_eq!(identity.callsign, "Peat-BRIDGE");
}

#[test]
fn messages_of_settings_errors() {
    let errors = vec![
        SettingsError::PeerWithoutAddress,
        SettingsError::RemoteMissing,
        SettingsError::CertMissing,
        SettingsError::KeyMissing,
        SettingsError::CaCertMissing,
        SettingsError::TakCertMissing,
        SettingsError::TakKeyMissing,
        SettingsError::TakCaCertMissing,
    ];
    for error in errors {
        assert!(!error.message().is_empty());
    }
    assert!(SettingsError::PeerIdNotHex("zz".into()).message().contains("zz"));
    assert!(SettingsError::PeerAddress("here".into()).message().contains("here"));
    let summary = role_summary(&SapientRole::Hldmm { listen_addr: "0.0.0.0:1".into() });
    assert!(summary.contains("0.0.0.0:1"));
}
