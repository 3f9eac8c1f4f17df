use skillset::error::SkillsetError;
use skillset::sources::{GitSource, SkillSource, SourceRegistry, SourceType};

#[test]
fn test_parse_reference() {
    let source = GitSource::new().unwrap();

    // Test basic URL
    let (url, reference) = source.parse_reference("https://github.com/user/repo.git").unwrap();
    assert_eq!(url, "https://github.com/user/repo.git");
    assert_eq!(reference, None);

    // Test with git: prefix
    let (url, reference) = source.parse_reference("git:https://github.com/user/repo.git").unwrap();
    assert_eq!(url, "https://github.com/user/repo.git");
    assert_eq!(reference, None);
}

#[test]
fn test_extract_skill_name_from_url() {
    let source = GitSource::new().unwrap();

    // Test HTTPS URL
    let name = source.extract_skill_name_from_url("https://github.com/user/skill-name.git").unwrap();
    assert_eq!(name, "skill-name");

    // Test without .git extension
    let name = source.extract_skill_name_from_url("https://github.com/user/skill-name").unwrap();
    assert_eq!(name, "skill-name");

    // Test invalid URL
    let result = source.extract_skill_name_from_url("invalid-url");
    assert!(result.is_err());
    assert!(matches!(result, Err(SkillsetError::Source(_))));
}

#[test]
fn test_fetched_skill_record() {
    let source = GitSource::new().unwrap();
    let fetched = source.fetched_skill_record(
        "repo".to_string(),
        None,
        "/tmp/checkout/repo".to_string(),
    );
    assert_eq!(fetched.name, "repo");
    assert_eq!(fetched.version, "latest");
    assert_eq!(fetched.source_path, "/tmp/checkout/repo");
    assert_eq!(fetched.metadata.repo_path, "/tmp/checkout/repo");
    assert_eq!(fetched.metadata.convention, "unknown");
    assert!(fetched.metadata.checksum.is_none());
    assert!(fetched.metadata.dependencies.is_empty());

    let pinned = source.fetched_skill_record(
        "repo".to_string(),
        Some("main".to_string()),
        "/tmp/checkout/repo".to_string(),
    );
    assert_eq!(pinned.version, "main");
}

#[test]
fn test_source_registry() {
    let mut registry = SourceRegistry::new();
    assert!(registry.get("git").is_none());

    registry.register(SourceType::Git);
    registry.register(SourceType::Oci);
    registry.register(SourceType::Git); // re-registration keeps its place

    assert_eq!(registry.get("git"), Some(SourceType::Git));
    assert_eq!(registry.get("oci"), Some(SourceType::Oci));
    assert!(registry.get("local").is_none());

    let git = GitSource::new().unwrap();
    assert_eq!(git.source_type(), SourceType::Git);
}
