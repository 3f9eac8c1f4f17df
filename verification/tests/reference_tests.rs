use skillset::error::SkillsetError;
use skillset::reference::{
    is_simplified_skill_reference, parse_skill_reference, validate_skill_name, validate_version,
};

#[test]
fn test_parse_scoped_reference() {
    // "@user/skill@2.0.0" splits into user "user", skill "skill",
    // version "2.0.0" at the last @.
    let (name, version) = parse_skill_reference("@user/skill@2.0.0").unwrap();
    assert_eq!(name, "@user/skill");
    assert_eq!(version, "2.0.0");
    let scoped = name.strip_prefix('@').unwrap();
    let (user, skill) = scoped.split_once('/').unwrap();
    assert_eq!(user, "user");
    assert_eq!(skill, "skill");
}

#[test]
fn test_parse_unscoped_reference() {
    let (name, version) = parse_skill_reference("file-analyzer@1.0.0").unwrap();
    assert_eq!(name, "file-analyzer");
    assert_eq!(version, "1.0.0");
}

#[test]
fn test_reference_without_at_fails() {
    let r = parse_skill_reference("file-analyzer");
    assert!(matches!(r, Err(SkillsetError::InvalidSkillName(_))));
}

#[test]
fn test_forty_character_username_fails() {
    let name = format!("@{}/skill@1.0.0", "a".repeat(40));
    let r = parse_skill_reference(&name);
    assert!(matches!(r, Err(SkillsetError::InvalidSkillName(_))));

    // A 39-character username is still fine.
    let name = format!("@{}/skill@1.0.0", "a".repeat(39));
    assert!(parse_skill_reference(&name).is_ok());
}

#[test]
fn test_skill_name_with_space_fails() {
    let r = parse_skill_reference("my skill@1.0.0");
    assert!(matches!(r, Err(SkillsetError::InvalidSkillName(_))));
    assert!(matches!(
        validate_skill_name("my skill"),
        Err(SkillsetError::InvalidSkillName(_))
    ));
}

#[test]
fn test_validate_skill_name_rules() {
    assert!(validate_skill_name("file-analyzer").is_ok());
    assert!(validate_skill_name("a_b-c9").is_ok());
    assert!(validate_skill_name(&"a".repeat(100)).is_ok());
    assert!(validate_skill_name("@user/skill").is_ok());

    assert!(validate_skill_name("").is_err());
    assert!(validate_skill_name(&"a".repeat(101)).is_err());
    assert!(validate_skill_name("@").is_err());
    assert!(validate_skill_name("@user").is_err());
    assert!(validate_skill_name("@user/a/b").is_err());
    assert!(validate_skill_name("@user/").is_err());
    assert!(validate_skill_name("@/skill").is_err());
    assert!(validate_skill_name(&format!("@user/{}", "s".repeat(101))).is_err());
}

#[test]
fn test_validate_version_rules() {
    assert!(validate_version("latest").is_ok());
    assert!(validate_version("1.0").is_ok());
    assert!(validate_version("1.0.0").is_ok());
    assert!(validate_version("v1.0.0").is_ok());
    assert!(validate_version("1.2.3.4").is_ok());
    assert!(validate_version("1.0.0-rc1+build5").is_ok());

    assert!(matches!(validate_version(""), Err(SkillsetError::InvalidSkillName(_))));
    assert!(validate_version("1").is_err()); // one segment
    assert!(validate_version("1.2.3.4.5").is_err()); // five segments
    assert!(validate_version("1..2").is_err()); // empty segment
    assert!(validate_version(".1.2").is_err()); // leading dot
    assert!(validate_version("1.2.").is_err()); // trailing dot
    assert!(validate_version("1.0 .0").is_err()); // bad character
    assert!(validate_version("v").is_err());
}

#[test]
fn test_is_simplified_skill_reference() {
    assert!(is_simplified_skill_reference("file-analyzer@1.0.0"));
    assert!(is_simplified_skill_reference("@user/skill@2.0.0"));

    assert!(!is_simplified_skill_reference("git:https://github.com/u/r.git"));
    assert!(!is_simplified_skill_reference("oci:ghcr.io/u/r:v1"));
    assert!(!is_simplified_skill_reference("https://github.com/u/r"));
    assert!(!is_simplified_skill_reference("http://example.com/r"));
    assert!(!is_simplified_skill_reference("/abs/path"));
    assert!(!is_simplified_skill_reference("./rel/path"));
    assert!(!is_simplified_skill_reference("../up/path"));
    assert!(!is_simplified_skill_reference("no-version-marker"));
}
