use sha2::Digest;
use skillset::cache::CachePaths;

#[test]
fn test_cache_paths_creation() {
    let paths = CachePaths::new();
    assert!(paths.is_ok());

    let paths = paths.unwrap();
    assert!(paths.base_dir().ends_with("skillset"));
    assert!(paths.git_dir().ends_with("skillset/git"));
    assert!(paths.metadata_dir().ends_with("skillset/metadata"));
}

#[test]
fn test_cache_key_generation() {
    let paths = CachePaths::new().unwrap();

    let key1 = paths.git_cache_key("https://github.com/user/repo.git", None);
    let key2 = paths.git_cache_key("https://github.com/user/repo.git", Some("main"));
    let key3 = paths.git_cache_key("https://github.com/user/repo.git", None);

    assert_eq!(key1, key3); // Same URL + no reference = same key
    assert_ne!(key1, key2); // Different reference = different key
    assert_eq!(key1.len(), 64); // SHA256 hex length

    // Different URLs should have different keys
    let key4 = paths.git_cache_key("https://github.com/user/other.git", None);
    assert_ne!(key1, key4);
}

#[test]
fn test_path_construction() {
    let paths = CachePaths::new().unwrap();
    let cache_key = "abcd1234";

    let bare_path = paths.git_bare_path(cache_key);
    assert!(bare_path.ends_with("skillset/git/db/abcd1234"));

    let checkout_path = paths.git_checkout_path("my-skill");
    assert!(checkout_path.ends_with("skillset/git/checkouts/my-skill"));

    let metadata_path = paths.metadata_path(cache_key);
    assert!(metadata_path.ends_with("skillset/metadata/abcd1234.json"));
}

#[test]
fn test_cache_key_matches_direct_digest() {
    // The key must be the hex digest of "url#reference", computed here
    // independently of the library's own hashing path.
    let paths = CachePaths::new().unwrap();
    let key = paths.git_cache_key("https://example.com/a/b.git", Some("v1"));

    let digest = sha2::Sha256::digest("https://example.com/a/b.git#v1".as_bytes());
    let mut expected = String::new();
    for byte in digest.iter() {
        expected.push_str(&format!("{:02x}", byte));
    }
    assert_eq!(key, expected);

    // An absent reference hashes as the literal "latest".
    let key_none = paths.git_cache_key("https://example.com/a/b.git", None);
    let key_latest = paths.git_cache_key("https://example.com/a/b.git", Some("latest"));
    assert_eq!(key_none, key_latest);
}

#[test]
fn test_cache_key_is_lower_hex() {
    let paths = CachePaths::new().unwrap();
    let key = paths.git_cache_key("u", None);
    assert_eq!(key.len(), 64);
    assert!(key.chars().all(|c| c.is_ascii_hexdigit() && !c.is_uppercase()));
}
