use ivoryvalley::config::CliArgs;
use ivoryvalley::config::Config;
use ivoryvalley::config::FileConfig;

fn no_args() -> CliArgs {
    CliArgs {
        upstream_url: None,
        host: None,
        port: None,
        database_path: None,
        max_body_size: None,
        connect_timeout_secs: None,
        request_timeout_secs: None,
        record_traffic_path: None,
        config: None,
    }
}

#[test]
fn test_config_default() {
    let config = Config::default();
    assert_eq!(config.upstream_url, "https://mastodon.social");
    assert_eq!(config.host, "0.0.0.0");
    assert_eq!(config.port, 8080);
    assert_eq!(config.database_path, "ivoryvalley.db");
    assert_eq!(config.max_body_size, 50 * 1024 * 1024);
    assert_eq!(config.connect_timeout_secs, 10);
    assert_eq!(config.request_timeout_secs, 30);
}

#[test]
fn test_config_new() {
    let config = Config::new(
        "https://example.com",
        "127.0.0.1",
        3000,
        "/data/test.db".to_string(),
    );
    assert_eq!(config.upstream_url, "https://example.com");
    assert_eq!(config.host, "127.0.0.1");
    assert_eq!(config.port, 3000);
    assert_eq!(config.database_path, "/data/test.db");
}

#[test]
fn test_config_new_uses_default_limits() {
    let config = Config::new("https://example.com", "127.0.0.1", 3000, "x.db".to_string());
    assert_eq!(config.max_body_size, 50 * 1024 * 1024);
    assert_eq!(config.connect_timeout_secs, 10);
    assert_eq!(config.request_timeout_secs, 30);
    assert_eq!(config.record_traffic_path, None);
}

#[test]
fn test_config_with_max_body_size() {
    let config = Config::with_max_body_size(
        "https://example.com",
        "127.0.0.1",
        3000,
        "x.db".to_string(),
        1024,
    );
    assert_eq!(config.upstream_url, "https://example.com");
    assert_eq!(config.host, "127.0.0.1");
    assert_eq!(config.port, 3000);
    assert_eq!(config.database_path, "x.db");
    assert_eq!(config.max_body_size, 1024);
    assert_eq!(config.connect_timeout_secs, 10);
    assert_eq!(config.request_timeout_secs, 30);
    assert_eq!(config.record_traffic_path, None);
}

#[test]
fn test_bind_addr() {
    let config = Config::new(
        "https://mastodon.social",
        "127.0.0.1",
        3000,
        "test.db".to_string(),
    );
    assert_eq!(config.bind_addr(), "127.0.0.1:3000");
}

#[test]
fn test_bind_addr_port_edges() {
    let low = Config::new("http://u", "localhost", 0, "x.db".to_string());
    assert_eq!(low.bind_addr(), "localhost:0");
    let high = Config::new("http://u", "::1", 65535, "x.db".to_string());
    assert_eq!(high.bind_addr(), "::1:65535");
    let ten = Config::new("http://u", "h", 10, "x.db".to_string());
    assert_eq!(ten.bind_addr(), "h:10");
}

#[test]
fn test_load_defaults_when_no_config() {
    let config = Config::load_from_args(no_args(), FileConfig::empty());
    assert_eq!(config.upstream_url, "https://mastodon.social");
    assert_eq!(config.host, "0.0.0.0");
    assert_eq!(config.port, 8080);
    assert_eq!(config.database_path, "ivoryvalley.db");
    assert_eq!(config.max_body_size, 50 * 1024 * 1024);
    assert_eq!(config.connect_timeout_secs, 10);
    assert_eq!(config.request_timeout_secs, 30);
    assert_eq!(config.record_traffic_path, None);
}

#[test]
fn test_load_from_cli_args() {
    let args = CliArgs {
        upstream_url: Some("https://cli.example.com".to_string()),
        host: Some("192.168.1.1".to_string()),
        port: Some(9000),
        database_path: Some("/cli/path.db".to_string()),
        max_body_size: Some(100 * 1024 * 1024),
        connect_timeout_secs: Some(5),
        request_timeout_secs: Some(60),
        record_traffic_path: Some("/tmp/traffic.jsonl".to_string()),
        config: None,
    };
    let config = Config::load_from_args(args, FileConfig::empty());
    assert_eq!(config.upstream_url, "https://cli.example.com");
    assert_eq!(config.host, "192.168.1.1");
    assert_eq!(config.port, 9000);
    assert_eq!(config.database_path, "/cli/path.db");
    assert_eq!(config.max_body_size, 100 * 1024 * 1024);
    assert_eq!(config.connect_timeout_secs, 5);
    assert_eq!(config.request_timeout_secs, 60);
    assert_eq!(
        config.record_traffic_path,
        Some("/tmp/traffic.jsonl".to_string())
    );
}

#[test]
fn test_load_from_toml_file() {
    let file = FileConfig {
        upstream_url: Some("https://toml.example.com".to_string()),
        host: Some("10.0.0.1".to_string()),
        port: Some(7000),
        database_path: Some("/toml/db.sqlite".to_string()),
        max_body_size: None,
        connect_timeout_secs: Some(15),
        request_timeout_secs: Some(45),
        record_traffic_path: None,
    };
    let config = Config::load_from_args(no_args(), file);
    assert_eq!(config.upstream_url, "https://toml.example.com");
    assert_eq!(config.host, "10.0.0.1");
    assert_eq!(config.port, 7000);
    assert_eq!(config.database_path, "/toml/db.sqlite");
    assert_eq!(config.connect_timeout_secs, 15);
    assert_eq!(config.request_timeout_secs, 45);
}

#[test]
fn test_load_from_yaml_file() {
    let file = FileConfig {
        upstream_url: Some("https://yaml.example.com".to_string()),
        host: Some("10.0.0.2".to_string()),
        port: Some(6000),
        database_path: Some("/yaml/db.sqlite".to_string()),
        max_body_size: None,
        connect_timeout_secs: Some(20),
        request_timeout_secs: Some(120),
        record_traffic_path: None,
    };
    let config = Config::load_from_args(no_args(), file);
    assert_eq!(config.upstream_url, "https://yaml.example.com");
    assert_eq!(config.host, "10.0.0.2");
    assert_eq!(config.port, 6000);
    assert_eq!(config.database_path, "/yaml/db.sqlite");
    assert_eq!(config.connect_timeout_secs, 20);
    assert_eq!(config.request_timeout_secs, 120);
}

#[test]
fn test_cli_overrides_file() {
    let file = FileConfig {
        upstream_url: Some("https://file.example.com".to_string()),
        host: Some("10.0.0.1".to_string()),
        port: Some(7000),
        database_path: Some("/file/db.sqlite".to_string()),
        max_body_size: None,
        connect_timeout_secs: Some(15),
        request_timeout_secs: Some(45),
        record_traffic_path: None,
    };
    let args = CliArgs {
        upstream_url: Some("https://cli.example.com".to_string()),
        host: None,
        port: Some(9999),
        database_path: None,
        max_body_size: None,
        connect_timeout_secs: Some(5),
        request_timeout_secs: None,
        record_traffic_path: None,
        config: Some("config.toml".to_string()),
    };
    let config = Config::load_from_args(args, file);
    assert_eq!(config.upstream_url, "https://cli.example.com");
    assert_eq!(config.host, "10.0.0.1");
    assert_eq!(config.port, 9999);
    assert_eq!(config.database_path, "/file/db.sqlite");
    assert_eq!(config.connect_timeout_secs, 5);
    assert_eq!(config.request_timeout_secs, 45);
}

#[test]
fn test_partial_file_config_uses_defaults() {
    let file = FileConfig {
        upstream_url: Some("https://partial.example.com".to_string()),
        host: None,
        port: None,
        database_path: None,
        max_body_size: None,
        connect_timeout_secs: None,
        request_timeout_secs: None,
        record_traffic_path: None,
    };
    let config = Config::load_from_args(no_args(), file);
    assert_eq!(config.upstream_url, "https://partial.example.com");
    assert_eq!(config.host, "0.0.0.0");
    assert_eq!(config.port, 8080);
    assert_eq!(config.database_path, "ivoryvalley.db");
    assert_eq!(config.max_body_size, 50 * 1024 * 1024);
    assert_eq!(config.connect_timeout_secs, 10);
    assert_eq!(config.request_timeout_secs, 30);
    assert_eq!(config.record_traffic_path, None);
}

#[test]
fn test_file_record_path_survives_silent_cli() {
    let file = FileConfig {
        upstream_url: None,
        host: None,
        port: None,
        database_path: None,
        max_body_size: Some(7),
        connect_timeout_secs: None,
        request_timeout_secs: None,
        record_traffic_path: Some("/file/traffic.jsonl".to_string()),
    };
    let config = Config::load_from_args(no_args(), file);
    assert_eq!(
        config.record_traffic_path,
        Some("/file/traffic.jsonl".to_string())
    );
    assert_eq!(config.max_body_size, 7);
}
