use socialvoid::config::CACHE_REFRESH_SECS;
use socialvoid::{CachedStuff, ClientInfo, Config};

#[test]
fn hashes_are_sha256_of_the_secrets() {
    let info = ClientInfo::from_secrets("publicsecret", "privatesecret", "Linux".to_string());
    assert_eq!(
        info.public_hash,
        "f1b51e91eb449e3db093f612bae0fc4e23c41945c5355a8164e35d6efd6f6e96"
    );
    assert_eq!(
        info.private_hash,
        "f0685e09ca07b49a018353b80576d0679283924efbefcd84c3e74b0258cb31ab"
    );
    assert_eq!(info.name, "Social Void Rust");
    assert_eq!(info.platform, "Linux");
    assert_eq!(info.version, "0.0.1");
}

#[test]
fn generated_identities_are_independent() {
    let a = ClientInfo::generate("Linux".to_string());
    let b = ClientInfo::generate("Linux".to_string());
    assert_eq!(a.public_hash.len(), 64);
    assert_eq!(a.private_hash.len(), 64);
    assert!(a.public_hash.chars().all(|c| c.is_ascii_digit() || ('a'..='f').contains(&c)));
    assert_ne!(a.public_hash, a.private_hash);
    assert_ne!(a.public_hash, b.public_hash);
    assert_eq!(a.platform, "Linux");
    let copy = a.clone();
    assert_eq!(copy.private_hash, a.private_hash);
}

#[test]
fn random_secrets_are_alphanumeric() {
    let s = ClientInfo::random_secret();
    assert_eq!(s.chars().count(), 30);
    assert!(s.chars().all(|c| c.is_ascii_alphanumeric()));
}

#[test]
fn config_layout_under_base() {
    let config = Config::under("/home/me/.sv-cli".to_string());
    assert_eq!(config.base_path, "/home/me/.sv-cli");
    assert_eq!(config.config_path, "/home/me/.sv-cli/config.json");
    assert_eq!(config.session_file, "/home/me/.sv-cli/session");
    assert_eq!(config.cached_stuff_path, "/home/me/.sv-cli/cached_stuff");
}

#[test]
fn cache_staleness() {
    let mut cached = CachedStuff::default();
    assert_eq!(cached.update_after, CACHE_REFRESH_SECS);
    assert_eq!(cached.rpc_url.as_deref(), Some("http://socialvoid.qlg1.com:5601/"));
    assert!(cached.is_stale(86401));
    assert!(!cached.is_stale(86400));
    cached.last_updated_on = 1000;
    assert!(cached.is_stale(999));
    assert!(!cached.is_stale(1000));
}
