use gromnie_client::cli::{build_client_config, resolve_reconnect, resolve_server_and_account, uptime_text};
use gromnie_client::config::{
    default_hot_reload, default_hot_reload_interval, default_true, AccountConfig, ClientConfig, ConfigLoadError,
    GromnieConfig, PathEnv, ProjectPaths, ReconnectConfig, ScriptingConfig, ServerConfig,
};

fn home_env() -> PathEnv {
    PathEnv {
        home: Some("/home/player".to_string()),
        userprofile: None,
        xdg_config_home: None,
        xdg_data_home: None,
        xdg_cache_home: None,
    }
}

#[test]
fn test_project_paths_creation() {
    let paths = ProjectPaths::new("gromnie", home_env());
    assert!(paths.is_some());
}

#[test]
fn test_config_dir_contains_name() {
    if let Some(paths) = ProjectPaths::new("gromnie", home_env()) {
        let config_dir = paths.config_dir();
        assert!(config_dir.contains("gromnie"));
    }
}

#[test]
fn test_data_dir_contains_name() {
    if let Some(paths) = ProjectPaths::new("gromnie", home_env()) {
        let data_dir = paths.data_dir();
        assert!(data_dir.contains("gromnie"));
    }
}

#[test]
fn test_xdg_config_dir_uses_config_path() {
    let paths = ProjectPaths::new("test", home_env()).unwrap();
    assert!(paths.config_dir().contains(".config"));
}

#[test]
fn test_xdg_data_dir_uses_local_share_path() {
    let paths = ProjectPaths::new("test", home_env()).unwrap();
    assert!(paths.data_dir().contains(".local/share"));
}

#[test]
fn project_paths_follow_the_xdg_layout() {
    let paths = ProjectPaths::new("gromnie", home_env()).unwrap();
    assert_eq!(paths.config_dir(), "/home/player/.config/gromnie");
    assert_eq!(paths.data_dir(), "/home/player/.local/share/gromnie");
    assert_eq!(paths.cache_dir(), "/home/player/.cache/gromnie");
    assert_eq!(GromnieConfig::config_path(&paths), "/home/player/.config/gromnie/config.toml");
}

#[test]
fn project_paths_prefer_xdg_variables() {
    let env = PathEnv {
        home: Some("/home/player".to_string()),
        userprofile: None,
        xdg_config_home: Some("/etc/xdg/".to_string()),
        xdg_data_home: Some("/data".to_string()),
        xdg_cache_home: None,
    };
    let paths = ProjectPaths::new("gromnie", env).unwrap();
    assert_eq!(paths.config_dir(), "/etc/xdg/gromnie");
    assert_eq!(paths.data_dir(), "/data/gromnie");
    assert_eq!(paths.cache_dir(), "/home/player/.cache/gromnie");
}

#[test]
fn project_paths_need_a_home() {
    let env = PathEnv { home: None, userprofile: None, xdg_config_home: None, xdg_data_home: None, xdg_cache_home: None };
    assert!(ProjectPaths::new("gromnie", env.clone()).is_none());
    let with_profile = PathEnv { userprofile: Some("C:/Users/p".to_string()), ..env };
    let paths = ProjectPaths::new("gromnie", with_profile).unwrap();
    assert_eq!(paths.config_dir(), "C:/Users/p/.config/gromnie");
}

#[test]
fn script_dir_defaults_to_data_dir() {
    let scripting = ScriptingConfig::default();
    assert_eq!(scripting.script_dir(home_env()), "/home/player/.local/share/gromnie/scripts");
    let env = PathEnv { home: None, userprofile: None, xdg_config_home: None, xdg_data_home: None, xdg_cache_home: None };
    assert_eq!(scripting.script_dir(env), ".scripts");
    let custom = ScriptingConfig { script_dir: Some("/opt/scripts".to_string()), ..ScriptingConfig::default() };
    assert_eq!(custom.script_dir(home_env()), "/opt/scripts");
}

#[test]
fn wasm_dir_defaults_to_data_dir() {
    let scripting = ScriptingConfig::default();
    assert_eq!(scripting.wasm_dir(home_env()), "/home/player/.local/share/gromnie/wasm");
    let env = PathEnv { home: None, userprofile: None, xdg_config_home: None, xdg_data_home: None, xdg_cache_home: None };
    assert_eq!(scripting.wasm_dir(env), ".wasm");
    let custom = ScriptingConfig { wasm_dir: Some("/opt/wasm".to_string()), ..ScriptingConfig::default() };
    assert_eq!(custom.wasm_dir(home_env()), "/opt/wasm");
}

#[test]
fn defaults_of_the_config_file() {
    assert!(default_true());
    assert!(default_hot_reload());
    assert_eq!(default_hot_reload_interval(), 500);
    let r = ReconnectConfig::default();
    assert!(!r.enabled);
    assert_eq!(r.max_attempts, 0);
    assert_eq!(r.initial_delay_secs, 10);
    assert_eq!(r.max_delay_secs, 600);
}

#[test]
fn reconnect_attempts_are_limited_by_max_attempts() {
    let unlimited = ReconnectConfig::default();
    assert!(unlimited.should_attempt_reconnect(1_000_000));
    let limited = ReconnectConfig { max_attempts: 3, ..ReconnectConfig::default() };
    assert!(limited.should_attempt_reconnect(2));
    assert!(!limited.should_attempt_reconnect(3));
}

#[test]
fn resolve_reconnect_precedence() {
    assert!(!resolve_reconnect(true, true, true));
    assert!(resolve_reconnect(false, true, false));
    assert!(resolve_reconnect(false, false, true));
    assert!(!resolve_reconnect(false, false, false));
}

fn sample_config() -> GromnieConfig {
    GromnieConfig {
        servers: vec![
            ("local".to_string(), ServerConfig { host: "localhost".to_string(), port: 9000 }),
            ("remote".to_string(), ServerConfig { host: "play.example.com".to_string(), port: 9050 }),
        ],
        accounts: vec![(
            "main".to_string(),
            AccountConfig { username: "acct".to_string(), password: "pw".to_string(), character: None },
        )],
        scripting: ScriptingConfig::default(),
        reconnect: false,
    }
}

#[test]
fn resolve_server_and_account_finds_both() {
    let config = sample_config();
    let (server, account) = resolve_server_and_account(&config, "remote", "main").unwrap();
    assert_eq!(server.host, "play.example.com");
    assert_eq!(server.port, 9050);
    assert_eq!(account.username, "acct");
}

#[test]
fn resolve_server_and_account_lists_what_is_available() {
    let config = sample_config();
    let err = resolve_server_and_account(&config, "nowhere", "main").unwrap_err();
    assert_eq!(err, "Server 'nowhere' not found. Available servers: local, remote");
    let err = resolve_server_and_account(&config, "local", "other").unwrap_err();
    assert_eq!(err, "Account 'other' not found. Available accounts: main");
}

#[test]
fn build_client_config_joins_host_and_port() {
    let server = ServerConfig { host: "localhost".to_string(), port: 9000 };
    let account = AccountConfig { username: "acct".to_string(), password: "pw".to_string(), character: None };
    let cfg = build_client_config(&server, &account, true, Some("Hero".to_string()));
    assert_eq!(cfg.id, 0);
    assert_eq!(cfg.address, "localhost:9000");
    assert_eq!(cfg.account_name, "acct");
    assert_eq!(cfg.password, "pw");
    assert!(cfg.reconnect);
    assert_eq!(cfg.character_name, Some("Hero".to_string()));
    assert_eq!(server.display(), "localhost:9000");
    assert_eq!(account.display(), "acct");
}

#[test]
fn client_config_builders() {
    let cfg = ClientConfig::new(7, "h:1".to_string(), "a".to_string(), "p".to_string());
    assert!(!cfg.reconnect);
    assert!(cfg.character_name.is_none());
    let cfg = cfg.with_reconnect(true).with_character_name("Hero".to_string());
    assert!(cfg.reconnect);
    assert_eq!(cfg.character_name, Some("Hero".to_string()));
    assert_eq!(cfg.id, 7);
}

#[test]
fn config_load_error_messages() {
    assert_eq!(ConfigLoadError::NotFound.message(), "Config file not found");
    assert_eq!(ConfigLoadError::ParseError("bad".to_string()).message(), "Failed to parse config: bad");
    assert_eq!(ConfigLoadError::IoError("gone".to_string()).message(), "IO error reading config: gone");
}

#[test]
fn uptime_text_pads_each_field() {
    assert_eq!(uptime_text(3725, None), "**Bot Uptime:** 01:02:05\n**In-Game Time:** Not logged in yet");
    assert_eq!(
        uptime_text(360_000, Some(59)),
        "**Bot Uptime:** 100:00:00\n**In-Game Time:** 00:00:59"
    );
}
