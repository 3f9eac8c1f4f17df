use skillset::config::{SkillConfig, SkillsetConfig};
use skillset::error::SkillsetError;

#[test]
fn test_default_config_uses_implicit_defaults() {
    let config = SkillsetConfig::default();

    // Both fields should be None initially
    assert!(config.registry.is_none());
    assert!(config.conventions.is_none());

    // Helper methods should provide runtime defaults
    assert_eq!(config.get_registry(), "ghcr.io/skillset");
    assert_eq!(config.get_conventions(), vec!["autogpt", "langchain", "agent-skills"]);
}

#[test]
fn test_explicit_registry_override() {
    let config = SkillsetConfig {
        skills: Vec::new(),
        registry: Some("my-registry.example.com/custom".to_string()),
        conventions: None,
    };

    assert_eq!(config.get_registry(), "my-registry.example.com/custom");
    // Still uses default
    assert_eq!(config.get_conventions(), vec!["autogpt", "langchain", "agent-skills"]);
}

#[test]
fn test_explicit_conventions_override() {
    let config = SkillsetConfig {
        skills: Vec::new(),
        registry: None,
        conventions: Some(vec!["autogpt".to_string()]), // Only autogpt
    };

    assert_eq!(config.get_registry(), "ghcr.io/skillset"); // Still uses default
    assert_eq!(config.get_conventions(), vec!["autogpt"]);
}

#[test]
fn test_empty_conventions_disables_all() {
    let config = SkillsetConfig {
        skills: Vec::new(),
        registry: None,
        conventions: Some(vec![]), // Empty list
    };

    assert_eq!(config.get_conventions(), Vec::<String>::new());
}

#[test]
fn test_minimal_config_serialization() {
    let config = SkillsetConfig { skills: Vec::new(), registry: None, conventions: None };

    let json = config.to_json_pretty();

    // Should not include registry or conventions fields when None
    assert!(!json.contains("registry"));
    assert!(!json.contains("conventions"));
    assert!(json.contains("\"skills\": {}"));
}

#[test]
fn test_partial_config_serialization() {
    let mut config = SkillsetConfig {
        skills: Vec::new(),
        registry: Some("custom-registry.com".to_string()),
        conventions: None,
    };
    config.insert_skill("test-skill".to_string(), SkillConfig::Simple("1.0.0".to_string()));

    let json = config.to_json_pretty();

    // Should include registry but not conventions
    assert!(json.contains("registry"));
    assert!(json.contains("custom-registry.com"));
    assert!(!json.contains("conventions"));
    assert!(json.contains("test-skill"));
    assert!(json.contains("1.0.0"));
}

#[test]
fn test_resolve_reference_with_default_registry() {
    let config = SkillsetConfig {
        skills: Vec::new(),
        registry: None, // Use default
        conventions: None,
    };

    let skill_config = SkillConfig::Simple("1.0.0".to_string());
    let resolved = config.resolve_skill_reference("file-analyzer", &skill_config).unwrap();

    // Should use default registry
    assert_eq!(resolved, "oci:ghcr.io/skillset/file-analyzer:v1.0.0");
}

#[test]
fn test_resolve_reference_with_custom_registry() {
    let config = SkillsetConfig {
        skills: Vec::new(),
        registry: Some("my-registry.com/ns".to_string()),
        conventions: None,
    };

    let skill_config = SkillConfig::Simple("1.0.0".to_string());
    let resolved = config.resolve_skill_reference("file-analyzer", &skill_config).unwrap();

    // Should use custom registry
    assert_eq!(resolved, "oci:my-registry.com/ns/file-analyzer:v1.0.0");
}

#[test]
fn test_resolve_scoped_reference_with_default_registry() {
    let config = SkillsetConfig::default();

    let skill_config = SkillConfig::Simple("2.1.0".to_string());
    let resolved = config.resolve_skill_reference("@johndoe/web-scraper", &skill_config).unwrap();

    // Should extract domain from default registry and user from scope
    assert_eq!(resolved, "oci:ghcr.io/johndoe/web-scraper:v2.1.0");
}

#[test]
fn test_resolve_prefers_explicit_source() {
    let config = SkillsetConfig::default();
    let skill_config = SkillConfig::Detailed {
        version: "1.0.0".to_string(),
        source: Some("git:https://example.com/x/y.git".to_string()),
        convention: None,
    };
    let resolved = config.resolve_skill_reference("whatever", &skill_config).unwrap();
    assert_eq!(resolved, "git:https://example.com/x/y.git");
}

#[test]
fn test_resolve_keeps_v_prefix() {
    let config = SkillsetConfig::default();
    let skill_config = SkillConfig::Simple("v2.0.0".to_string());
    let resolved = config.resolve_skill_reference("tool", &skill_config).unwrap();
    assert_eq!(resolved, "oci:ghcr.io/skillset/tool:v2.0.0");
}

#[test]
fn test_resolve_scoped_without_slash_fails() {
    let config = SkillsetConfig::default();
    let skill_config = SkillConfig::Simple("1.0.0".to_string());
    let r = config.resolve_skill_reference("@lonely", &skill_config);
    assert!(matches!(r, Err(SkillsetError::InvalidSkillName(_))));
}

fn reload_from_json(text: &str) -> SkillsetConfig {
    // Rebuild a configuration from JSON text the way the command-line
    // front end does: a general JSON parse, then plain conversions.
    let v: serde_json::Value = serde_json::from_str(text).expect("emitted text must be JSON");
    let obj = v.as_object().unwrap();
    let mut config = SkillsetConfig::default();
    for (name, val) in obj.get("skills").unwrap().as_object().unwrap() {
        let entry = match val {
            serde_json::Value::String(s) => SkillConfig::Simple(s.clone()),
            serde_json::Value::Object(m) => SkillConfig::Detailed {
                version: m.get("version").unwrap().as_str().unwrap().to_string(),
                source: m.get("source").and_then(|s| s.as_str()).map(|s| s.to_string()),
                convention: m.get("convention").and_then(|s| s.as_str()).map(|s| s.to_string()),
            },
            _ => panic!("unexpected entry shape"),
        };
        config.insert_skill(name.clone(), entry);
    }
    config.registry = obj.get("registry").map(|r| r.as_str().unwrap().to_string());
    config.conventions = obj.get("conventions").map(|c| {
        c.as_array().unwrap().iter().map(|x| x.as_str().unwrap().to_string()).collect()
    });
    config
}

#[test]
fn test_round_trip_defaults_survive_reload() {
    // A configuration with no explicit registry or conventions,
    // serialized and reloaded, falls back to the default registry and
    // the default convention triple.
    let mut config = SkillsetConfig::default();
    config.insert_skill("test-skill".to_string(), SkillConfig::Simple("1.0.0".to_string()));
    config.insert_skill(
        "other".to_string(),
        SkillConfig::Detailed {
            version: "2.0.0".to_string(),
            source: Some("git:https://example.com/a/b.git".to_string()),
            convention: Some("langchain".to_string()),
        },
    );

    let reloaded = reload_from_json(&config.to_json_pretty());

    assert!(reloaded.registry.is_none());
    assert!(reloaded.conventions.is_none());
    assert_eq!(reloaded.get_registry(), "ghcr.io/skillset");
    assert_eq!(reloaded.get_conventions(), vec!["autogpt", "langchain", "agent-skills"]);
    assert_eq!(reloaded.skills.len(), 2);
    assert_eq!(reloaded.get_skill("test-skill").unwrap().get_version(), "1.0.0");
    let other = reloaded.get_skill("other").unwrap();
    assert_eq!(other.get_version(), "2.0.0");
    assert_eq!(other.get_explicit_source().unwrap(), "git:https://example.com/a/b.git");
    assert_eq!(other.get_explicit_convention().unwrap(), "langchain");
}

#[test]
fn test_round_trip_empty_conventions_stay_empty() {
    // conventions: [] reloads as an empty effective list, not the
    // default triple.
    let config = SkillsetConfig {
        skills: Vec::new(),
        registry: None,
        conventions: Some(vec![]),
    };

    let reloaded = reload_from_json(&config.to_json_pretty());

    assert_eq!(reloaded.conventions, Some(vec![]));
    assert_eq!(reloaded.get_conventions(), Vec::<String>::new());
}

#[test]
fn test_json_escapes_quotes_and_backslashes() {
    let mut config = SkillsetConfig::default();
    config.insert_skill(
        "weird".to_string(),
        SkillConfig::Detailed {
            version: "1.0.0".to_string(),
            source: Some("C:\\repos\\\"quoted\"".to_string()),
            convention: None,
        },
    );
    let reloaded = reload_from_json(&config.to_json_pretty());
    assert_eq!(
        reloaded.get_skill("weird").unwrap().get_explicit_source().unwrap(),
        "C:\\repos\\\"quoted\""
    );
}

#[test]
fn test_enable_convention() {
    let mut config = SkillsetConfig {
        skills: Vec::new(),
        registry: None,
        conventions: Some(vec!["autogpt".to_string()]),
    };

    // Enabling a new built-in appends it.
    assert_eq!(config.enable_convention("langchain").unwrap(), true);
    assert_eq!(config.get_conventions(), vec!["autogpt", "langchain"]);

    // Enabling one already in force changes nothing.
    assert_eq!(config.enable_convention("autogpt").unwrap(), false);
    assert_eq!(config.get_conventions(), vec!["autogpt", "langchain"]);

    // A name outside the built-in triple is refused.
    let r = config.enable_convention("made-up");
    assert!(matches!(r, Err(SkillsetError::Config(_))));
}

#[test]
fn test_disable_convention() {
    let mut config = SkillsetConfig::default();

    // Disabling from the implicit default pins the remaining pair.
    assert_eq!(config.disable_convention("langchain"), true);
    assert_eq!(config.get_conventions(), vec!["autogpt", "agent-skills"]);

    // Disabling one not in force changes nothing.
    assert_eq!(config.disable_convention("langchain"), false);
    assert_eq!(config.get_conventions(), vec!["autogpt", "agent-skills"]);
}

#[test]
fn test_load_from_file_flexible_outcomes() {
    // A missing file yields the empty default configuration.
    let loaded = SkillsetConfig::load_from_file_flexible(None).unwrap();
    assert!(loaded.skills.is_empty());
    assert!(loaded.registry.is_none());
    assert!(loaded.conventions.is_none());

    // Unreadable content yields a configuration error.
    let r = SkillsetConfig::load_from_file_flexible(Some(Err(SkillsetError::JsonSerialization(
        "bad".to_string(),
    ))));
    assert!(matches!(r, Err(SkillsetError::Config(_))));

    // Readable content passes through.
    let mut inner = SkillsetConfig::default();
    inner.insert_skill("a".to_string(), SkillConfig::Simple("1.0".to_string()));
    let loaded = SkillsetConfig::load_from_file_flexible(Some(Ok(inner))).unwrap();
    assert_eq!(loaded.get_skill("a").unwrap().get_version(), "1.0");
}

#[test]
fn test_insert_skill_replaces_same_name() {
    let mut config = SkillsetConfig::default();
    config.insert_skill("a".to_string(), SkillConfig::Simple("1.0.0".to_string()));
    config.insert_skill("a".to_string(), SkillConfig::Simple("2.0.0".to_string()));
    assert_eq!(config.skills.len(), 1);
    assert_eq!(config.get_skill("a").unwrap().get_version(), "2.0.0");
}
