use ivoryvalley::config::Config;
use std::path::PathBuf;

/// Test configuration builder for creating test instances of the proxy.
struct TestConfig {
    db_path: Option<PathBuf>,
    upstream_url: String,
}

impl TestConfig {
    fn new() -> Self {
        TestConfig {
            db_path: None,
            upstream_url: "http://localhost:3000".to_string(),
        }
    }

    fn with_db_path(mut self, path: PathBuf) -> Self {
        self.db_path = Some(path);
        self
    }

    fn with_upstream_url(mut self, url: &str) -> Self {
        self.upstream_url = url.to_string();
        self
    }
}

#[test]
fn test_create_temp_dir() {
    let dir = tempfile::tempdir().expect("Failed to create temporary directory");
    assert!(dir.path().exists());
}

#[test]
fn test_config_builder() {
    let config = TestConfig::new().with_upstream_url("http://example.com");
    assert_eq!(config.upstream_url, "http://example.com");
}

#[test]
fn test_proxy_config_creation() {
    let temp_dir = tempfile::tempdir().expect("Failed to create temporary directory");
    let config = TestConfig::new()
        .with_db_path(temp_dir.path().join("test.db"))
        .with_upstream_url("http://mastodon.example.com");

    assert!(config.db_path.is_some());
    assert_eq!(config.upstream_url, "http://mastodon.example.com");

    let path = config.db_path.unwrap().to_string_lossy().into_owned();
    let proxy = Config::new(&config.upstream_url, "0.0.0.0", 0, path.clone());
    assert_eq!(proxy.upstream_url, "http://mastodon.example.com");
    assert_eq!(proxy.database_path, path);
}
