use unbundle_engine::cmdlib::{ArgGroup, MononokeApp};
use std::time::Duration;

use unbundle_engine::edenapi::{server_url_from_value, Builder, ClientCreds, ConfigError};
use unbundle_engine::movement::MovementConfig;
use unbundle_engine::processing::{get_pushrebase_hooks, ProcessingConfig, PushrebaseHookKind};
use unbundle_engine::sql_options::{MysqlConnectionType, MysqlOptions, ReadConnectionType};
use unbundle_engine::wire::{
    is_default, HgId, Parents, RevisionstoreMetadata, ToApi, WireHgId, WireParents, WireRevisionstoreMetadata,
    WireToApiConversionError,
};

#[test]
fn mononoke_app_defaults() {
    let app = MononokeApp::new("admin".to_string());
    assert_eq!(app.name(), "admin");
    let s = app.settings();
    assert!(!s.all_repos && !s.repo_required && !s.test_args && !s.fb303);
    assert_eq!(
        app.arg_groups(),
        vec![
            ArgGroup::ConfigPath,
            ArgGroup::Repo { required: false, conflicts_with_target_only: false },
            ArgGroup::Logger,
            ArgGroup::MysqlOptions,
            ArgGroup::Blobstore,
            ArgGroup::Cachelib { hidden: false },
            ArgGroup::Runtime,
            ArgGroup::Tunables,
        ]
    );
}

#[test]
fn mononoke_app_builders() {
    let app = MononokeApp::new("sync".to_string())
        .with_repo_required()
        .with_source_repos()
        .with_advanced_args_hidden()
        .with_shutdown_timeout_args()
        .with_scuba_logging_args()
        .with_disabled_hooks_args()
        .with_fb303_args()
        .with_test_args();
    let s = app.settings();
    assert!(s.repo_required && s.source_repo && s.hide_advanced_args && s.shutdown_timeout);
    assert!(s.scuba_logging && s.disabled_hooks && s.fb303 && s.test_args);
    assert!(!s.all_repos && !s.source_and_target_repos);
    assert_eq!(
        app.arg_groups(),
        vec![
            ArgGroup::ConfigPath,
            ArgGroup::Repo { required: true, conflicts_with_target_only: true },
            ArgGroup::SourceRepo,
            ArgGroup::Logger,
            ArgGroup::MysqlOptions,
            ArgGroup::Blobstore,
            ArgGroup::Cachelib { hidden: true },
            ArgGroup::Runtime,
            ArgGroup::Tunables,
            ArgGroup::ShutdownTimeout,
            ArgGroup::ScubaLogging,
            ArgGroup::DisabledHooks,
            ArgGroup::Fb303,
            ArgGroup::Test,
        ]
    );
}

#[test]
fn mononoke_app_repo_selection() {
    let all = MononokeApp::new("x".to_string()).with_all_repos();
    assert!(all.settings().all_repos);
    assert!(!all.arg_groups().iter().any(|g| matches!(g, ArgGroup::Repo { .. })));
    let cross = MononokeApp::new("x".to_string()).with_source_and_target_repos();
    let groups = cross.arg_groups();
    assert_eq!(groups[1], ArgGroup::Repo { required: false, conflicts_with_target_only: false });
    assert_eq!(groups[2], ArgGroup::SourceRepo);
    assert_eq!(groups[3], ArgGroup::TargetRepo);
}

#[test]
fn mysql_read_connection_type() {
    let master = MysqlOptions { connection_type: MysqlConnectionType::Myrouter(4000), master_only: true };
    assert_eq!(master.read_connection_type(), ReadConnectionType::Master);
    let replica = MysqlOptions { connection_type: MysqlConnectionType::Mysql, master_only: false };
    assert_eq!(replica.read_connection_type(), ReadConnectionType::Replica);
}

#[test]
fn client_creds_need_both_parts() {
    let creds = ClientCreds::from_options(Some("cert.pem".to_string()), Some("key.pem".to_string()));
    let creds = creds.unwrap();
    assert_eq!(creds.cert, "cert.pem");
    assert_eq!(creds.key, "key.pem");
    assert!(ClientCreds::from_options(Some("cert.pem".to_string()), None).is_none());
    assert!(ClientCreds::from_options(None, Some("key.pem".to_string())).is_none());
}

#[test]
fn wire_conversions() {
    assert_eq!(WireHgId::len(), 20);
    let mut bytes = [0u8; 20];
    bytes[0] = 0xab;
    bytes[19] = 0x01;
    let id = WireHgId(bytes).to_api().ok().unwrap();
    assert_eq!(id.bytes, bytes);
    match WireParents::Two(WireHgId(bytes), WireHgId([7u8; 20])).to_api() {
        Ok(Parents::Two(a, b)) => {
            assert_eq!(a.bytes, bytes);
            assert_eq!(b.bytes, [7u8; 20]);
        }
        other => panic!("unexpected result {:?}", other),
    }
    assert!(matches!(WireParents::NoParents.to_api(), Ok(Parents::NoParents)));
    match WireParents::Unknown.to_api() {
        Err(WireToApiConversionError::UnrecognizedEnumVariant(name)) => assert_eq!(name, "WireParents"),
        other => panic!("unexpected result {:?}", other),
    }
    let meta = WireRevisionstoreMetadata { size: Some(12), flags: None }.to_api().ok().unwrap();
    assert_eq!(meta.size, Some(12));
    assert_eq!(meta.flags, None);
}

#[test]
fn default_values() {
    assert!(is_default(&0u64));
    assert!(!is_default(&3u64));
    assert!(is_default(&Option::<u64>::None));
    assert!(!is_default(&Some(1u64)));
}

#[test]
fn pushrebase_hooks_follow_config() {
    let mut cfg = ProcessingConfig {
        movement: MovementConfig { scratch_namespace: None, fast_forward_only: vec![] },
        mutation_accept: false,
        preserve_bundles: false,
        push_commit_log_category: None,
        infinitepush_commit_log_category: None,
        pushrebase_commit_log_category: None,
        assign_globalrevs: false,
        populate_git_mapping: false,
    };
    assert!(get_pushrebase_hooks(&cfg).is_empty());
    cfg.assign_globalrevs = true;
    cfg.populate_git_mapping = true;
    assert_eq!(
        get_pushrebase_hooks(&cfg),
        vec![PushrebaseHookKind::Globalrev, PushrebaseHookKind::GitMapping]
    );
    cfg.assign_globalrevs = false;
    assert_eq!(get_pushrebase_hooks(&cfg), vec![PushrebaseHookKind::GitMapping]);
}

#[test]
fn builder_from_config_parses_url() {
    let b = Builder::from_config(
        Some("https://example.com/edenapi".to_string()),
        None,
        Some("ca.pem".to_string()),
        vec![("x-a".to_string(), "1".to_string())],
        Some(10),
        Some(0),
        None,
        Some(Duration::from_secs(5)),
    )
    .ok()
    .unwrap();
    assert_eq!(b.server_url.as_ref().unwrap().as_str(), "https://example.com/edenapi");
    assert_eq!(b.ca_bundle.as_deref(), Some("ca.pem"));
    let config = b.build().ok().unwrap();
    assert_eq!(config.max_files, Some(10));
    assert_eq!(config.max_trees, None);
    assert_eq!(config.max_history, None);
    assert_eq!(config.timeout, Some(Duration::from_secs(5)));
    assert_eq!(config.headers, vec![("x-a".to_string(), "1".to_string())]);
}

#[test]
fn builder_url_errors() {
    assert!(matches!(server_url_from_value(None), Err(ConfigError::MissingUrl)));
    assert!(matches!(
        server_url_from_value(Some("not a url".to_string())),
        Err(ConfigError::InvalidUrl(_))
    ));
    let u = server_url_from_value(Some("http://localhost:8080".to_string())).ok().unwrap();
    assert_eq!(u.as_str(), "http://localhost:8080/");
    assert!(matches!(Builder::new().build(), Err(ConfigError::MissingUrl)));
}

#[test]
fn builder_setters() {
    let url = url::Url::parse("https://host/").unwrap();
    let b = Builder::new()
        .server_url(url)
        .client_creds("c.pem".to_string(), "k.pem".to_string())
        .ca_bundle("ca.pem".to_string())
        .headers(vec![])
        .max_files(Some(0))
        .max_trees(Some(3))
        .max_history(Some(4))
        .timeout(Duration::from_secs(1));
    assert_eq!(b.client_creds.as_ref().unwrap().key, "k.pem");
    let config = b.build().ok().unwrap();
    assert_eq!(config.server_url.as_str(), "https://host/");
    assert_eq!(config.max_files, None);
    assert_eq!(config.max_trees, Some(3));
    assert_eq!(config.max_history, Some(4));
}

#[test]
fn wire_round_trip_values() {
    let id = HgId { bytes: [3u8; 20] };
    let back = id.to_wire().to_api().ok().unwrap();
    assert_eq!(back.bytes, [3u8; 20]);
    let parents = Parents::One(id);
    match parents.to_wire().to_api() {
        Ok(Parents::One(p)) => assert_eq!(p.bytes, [3u8; 20]),
        other => panic!("unexpected result {:?}", other),
    }
    assert!(matches!(Parents::NoParents.to_wire(), WireParents::NoParents));
    let meta = RevisionstoreMetadata { size: None, flags: Some(2) };
    let back = meta.to_wire().to_api().ok().unwrap();
    assert_eq!(back, meta);
}
