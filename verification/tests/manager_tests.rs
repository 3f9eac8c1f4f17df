use skillset::cli::skill_config_for_add;
use skillset::config::{SkillConfig, SkillsetConfig};
use skillset::conventions::{
    AgentSkillsConvention, AutoGptConvention, Convention, ConventionKind, ConventionRegistry,
    DirProbe, LangchainConvention,
};
use skillset::error::SkillsetError;
use skillset::manager::SkillManager;
use skillset::skill_types::{FetchedSkill, SkillMetadata};

fn empty_probe() -> DirProbe {
    DirProbe {
        has_skill_py: false,
        has_requirements_txt: false,
        has_tool_yaml: false,
        has_py_file: false,
        has_skill_md: false,
        has_skill_yaml: false,
        has_scripts_dir: false,
        has_references_dir: false,
    }
}

fn fetched(name: &str, version: &str, path: &str) -> FetchedSkill {
    FetchedSkill {
        name: name.to_string(),
        version: version.to_string(),
        source_path: path.to_string(),
        metadata: SkillMetadata {
            installed_at: "2024-01-01T00:00:00+00:00".to_string(),
            repo_path: path.to_string(),
            convention: "unknown".to_string(),
            checksum: None,
            description: None,
            author: None,
            dependencies: Vec::new(),
        },
    }
}

#[test]
fn test_list_skills_empty() {
    let manager = SkillManager::new("/proj".to_string(), SkillsetConfig::default());
    let lines = manager.list_skills(false);
    assert_eq!(lines, vec!["No skills installed."]);
    let lines = manager.list_skills(true);
    assert_eq!(lines, vec!["No skills installed."]);
}

#[test]
fn test_list_skills_after_add() {
    let mut manager = SkillManager::new("/proj".to_string(), SkillsetConfig::default());
    manager.update_config(&fetched("Hello-World", "latest", "/cache/checkouts/Hello-World"), "autogpt");

    let lines = manager.list_skills(false);
    assert_eq!(lines, vec!["Installed skills:", "  Hello-World (vlatest)"]);

    let lines = manager.list_skills(true);
    assert_eq!(
        lines,
        vec![
            "Installed skills:",
            "  Hello-World (vlatest) - Source: /cache/checkouts/Hello-World - Convention: autogpt",
        ]
    );
}

#[test]
fn test_list_skills_verbose_resolves_sources() {
    let mut config = SkillsetConfig::default();
    // A bare entry has no explicit source: the verbose line carries
    // the registry-resolved reference.
    config.insert_skill("simple".to_string(), SkillConfig::Simple("1.0.0".to_string()));
    // A recorded convention appears even without an explicit source.
    config.insert_skill(
        "conv-only".to_string(),
        SkillConfig::Detailed {
            version: "2.0.0".to_string(),
            source: None,
            convention: Some("langchain".to_string()),
        },
    );
    // An unresolvable name drops the source part, nothing else.
    config.insert_skill("@lonely".to_string(), SkillConfig::Simple("3.0.0".to_string()));
    let manager = SkillManager::new("/proj".to_string(), config);

    let lines = manager.list_skills(true);
    assert_eq!(
        lines,
        vec![
            "Installed skills:",
            "  simple (v1.0.0) - Source: oci:ghcr.io/skillset/simple:v1.0.0",
            "  conv-only (v2.0.0) - Source: oci:ghcr.io/skillset/conv-only:v2.0.0 - Convention: langchain",
            "  @lonely (v3.0.0)",
        ]
    );

    // The terse form stays bare.
    let lines = manager.list_skills(false);
    assert_eq!(
        lines,
        vec![
            "Installed skills:",
            "  simple (v1.0.0)",
            "  conv-only (v2.0.0)",
            "  @lonely (v3.0.0)",
        ]
    );
}

#[test]
fn test_remove_then_info_fails_with_skill_not_found() {
    let mut manager = SkillManager::new("/proj".to_string(), SkillsetConfig::default());
    manager.update_config(&fetched("tool", "latest", "/cache/checkouts/tool"), "autogpt");
    assert!(manager.show_skill_info("tool").is_ok());

    manager.remove_skill("tool").unwrap();

    let r = manager.show_skill_info("tool");
    assert!(matches!(r, Err(SkillsetError::SkillNotFound(_))));
}

#[test]
fn test_remove_unknown_skill_fails() {
    let mut manager = SkillManager::new("/proj".to_string(), SkillsetConfig::default());
    let r = manager.remove_skill("nothing");
    assert!(matches!(r, Err(SkillsetError::SkillNotFound(_))));
}

#[test]
fn test_show_skill_info_lines() {
    let mut config = SkillsetConfig::default();
    config.insert_skill("simple".to_string(), SkillConfig::Simple("1.0.0".to_string()));
    config.insert_skill(
        "detailed".to_string(),
        SkillConfig::Detailed {
            version: "2.0.0".to_string(),
            source: Some("git:https://example.com/a/b.git".to_string()),
            convention: Some("langchain".to_string()),
        },
    );
    let manager = SkillManager::new("/proj".to_string(), config);

    let lines = manager.show_skill_info("simple").unwrap();
    assert_eq!(
        lines,
        vec![
            "Skill: simple",
            "Version: 1.0.0",
            "Resolved Source: oci:ghcr.io/skillset/simple:v1.0.0",
        ]
    );

    let lines = manager.show_skill_info("detailed").unwrap();
    assert_eq!(
        lines,
        vec![
            "Skill: detailed",
            "Version: 2.0.0",
            "Source: git:https://example.com/a/b.git",
            "Convention: langchain",
        ]
    );
}

#[test]
fn test_manager_parse_reference() {
    let manager = SkillManager::new("/proj".to_string(), SkillsetConfig::default());

    let (ty, source, name) = manager.parse_reference("git:https://github.com/u/repo.git").unwrap();
    assert_eq!(ty, "git");
    assert_eq!(source, "https://github.com/u/repo.git");
    assert_eq!(name, "repo");

    let (ty, source, name) = manager.parse_reference("https://github.com/u/repo").unwrap();
    assert_eq!(ty, "git");
    assert_eq!(source, "https://github.com/u/repo");
    assert_eq!(name, "repo");

    // Any https:// or http:// URL is an explicit git source.
    let (ty, source, name) = manager.parse_reference("https://gitlab.com/u/proj.git").unwrap();
    assert_eq!(ty, "git");
    assert_eq!(source, "https://gitlab.com/u/proj.git");
    assert_eq!(name, "proj");

    let (ty, source, name) = manager.parse_reference("http://example.com/u/tool").unwrap();
    assert_eq!(ty, "git");
    assert_eq!(source, "http://example.com/u/tool");
    assert_eq!(name, "tool");

    let (ty, source, name) = manager.parse_reference("oci:ghcr.io/u/tool:v1.0.0").unwrap();
    assert_eq!(ty, "oci");
    assert_eq!(source, "ghcr.io/u/tool:v1.0.0");
    assert_eq!(name, "tool");

    let (ty, source, name) = manager.parse_reference("ghcr.io/u/tool").unwrap();
    assert_eq!(ty, "oci");
    assert_eq!(source, "ghcr.io/u/tool");
    assert_eq!(name, "tool");

    let (ty, source, name) = manager.parse_reference("./skills/local-tool").unwrap();
    assert_eq!(ty, "local");
    assert_eq!(source, "./skills/local-tool");
    assert_eq!(name, "local-tool");

    let (ty, source, name) = manager.parse_reference("../shared/up-tool").unwrap();
    assert_eq!(ty, "local");
    assert_eq!(source, "../shared/up-tool");
    assert_eq!(name, "up-tool");

    // A simplified name belongs to the front end, not here.
    let r = manager.parse_reference("file-analyzer@1.0.0");
    assert!(matches!(r, Err(SkillsetError::Source(_))));

    // An OCI reference too short to name a skill.
    let r = manager.parse_reference("oci:justonepart");
    assert!(matches!(r, Err(SkillsetError::Source(_))));

    // A path with no final component.
    let r = manager.parse_reference("/");
    assert!(matches!(r, Err(SkillsetError::Source(_))));
}

#[test]
fn test_determine_convention_precedence() {
    let mut config = SkillsetConfig::default();
    config.insert_skill(
        "x".to_string(),
        SkillConfig::Detailed {
            version: "1.0.0".to_string(),
            source: None,
            convention: Some("agent-skills".to_string()),
        },
    );
    let manager = SkillManager::new("/proj".to_string(), config);

    let mut probe = empty_probe();
    probe.has_py_file = true; // langchain would detect

    // Explicit override wins over everything.
    let over = "custom".to_string();
    let conf = "agent-skills".to_string();
    assert_eq!(manager.determine_convention(Some(&over), Some(&conf), &probe), "custom");

    // The configured convention wins over detection.
    assert_eq!(manager.determine_convention(None, Some(&conf), &probe), "agent-skills");

    // Detection in registration order.
    assert_eq!(manager.determine_convention(None, None, &probe), "langchain");

    // Nothing detected: the default.
    assert_eq!(manager.determine_convention(None, None, &empty_probe()), "autogpt");
}

#[test]
fn test_detection_order_and_rules() {
    let mut registry = ConventionRegistry::new();
    registry.register(ConventionKind::AutoGpt);
    registry.register(ConventionKind::Langchain);
    registry.register(ConventionKind::AgentSkills);

    // Auto-GPT needs both of its files.
    let mut probe = empty_probe();
    probe.has_skill_py = true;
    assert_eq!(registry.detect_convention(&probe), None);
    probe.has_requirements_txt = true;
    assert_eq!(registry.detect_convention(&probe).unwrap(), "autogpt");

    // LangChain: tool.yaml or any .py file.
    let mut probe = empty_probe();
    probe.has_tool_yaml = true;
    assert_eq!(registry.detect_convention(&probe).unwrap(), "langchain");

    // agent-skills: any of its four markers.
    let mut probe = empty_probe();
    probe.has_references_dir = true;
    assert_eq!(registry.detect_convention(&probe).unwrap(), "agent-skills");

    // The first match in registration order wins.
    let mut probe = empty_probe();
    probe.has_skill_py = true;
    probe.has_requirements_txt = true;
    probe.has_py_file = true;
    probe.has_skill_md = true;
    assert_eq!(registry.detect_convention(&probe).unwrap(), "autogpt");
}

#[test]
fn test_convention_registry_get_and_list() {
    let mut registry = ConventionRegistry::new();
    registry.register(ConventionKind::AutoGpt);
    registry.register(ConventionKind::Langchain);

    assert_eq!(registry.get("autogpt"), Some(ConventionKind::AutoGpt));
    assert_eq!(registry.get("langchain"), Some(ConventionKind::Langchain));
    assert_eq!(registry.get("agent-skills"), None);
    assert_eq!(registry.list(), vec!["autogpt", "langchain"]);
}

#[test]
fn test_convention_identities_and_paths() {
    let a = AutoGptConvention::new();
    let l = LangchainConvention::new();
    let s = AgentSkillsConvention::new();
    assert_eq!(a.name(), "autogpt");
    assert_eq!(l.name(), "langchain");
    assert_eq!(s.name(), "agent-skills");
    assert_eq!(a.version(), "1.0.0");
    assert!(!a.description().is_empty());

    let mut probe = empty_probe();
    probe.has_skill_py = true;
    probe.has_requirements_txt = true;
    assert!(a.detect(&probe));
    assert!(!l.detect(&probe));

    assert_eq!(
        a.organize_path("Hello-World", "/proj"),
        "/proj/skills/autogpt/Hello-World"
    );
    assert_eq!(
        l.organize_path("tool", "/proj"),
        "/proj/skills/langchain/tool"
    );
}

#[test]
fn test_update_config_records_detailed_entry() {
    let mut manager = SkillManager::new("/proj".to_string(), SkillsetConfig::default());
    manager.update_config(&fetched("repo", "latest", "/cache/checkouts/repo"), "autogpt");

    let config = manager.config();
    let entry = config.get_skill("repo").unwrap();
    assert_eq!(entry.get_version(), "latest");
    assert_eq!(entry.get_explicit_source().unwrap(), "/cache/checkouts/repo");
    assert_eq!(entry.get_explicit_convention().unwrap(), "autogpt");
}

#[test]
fn test_skill_config_for_add() {
    // A version override yields a detailed entry carrying the override.
    let entry = skill_config_for_add("1.0.0", Some("3.0.0".to_string()), Some("autogpt".to_string()));
    assert_eq!(entry.get_version(), "3.0.0");
    assert!(entry.get_explicit_source().is_none());
    assert_eq!(entry.get_explicit_convention().unwrap(), "autogpt");

    // Without one, the parsed version stands in a bare entry.
    let entry = skill_config_for_add("1.0.0", None, None);
    assert_eq!(entry.get_version(), "1.0.0");
    assert!(matches!(entry, SkillConfig::Simple(_)));
}

#[test]
fn test_config_mut_updates_in_place() {
    let mut manager = SkillManager::new("/proj".to_string(), SkillsetConfig::default());
    manager.config_mut().insert_skill("a".to_string(), SkillConfig::Simple("1.0.0".to_string()));
    assert_eq!(manager.config().get_skill("a").unwrap().get_version(), "1.0.0");
    assert_eq!(manager.project_path(), "/proj");
}

#[test]
fn test_error_messages() {
    assert_eq!(
        SkillsetError::SkillNotFound("x".to_string()).message(),
        "Skill not found: x"
    );
    assert_eq!(
        SkillsetError::InvalidSkillName("bad".to_string()).message(),
        "Invalid skill name: bad"
    );
    assert_eq!(SkillsetError::Config("c".to_string()).message(), "Configuration error: c");
    assert_eq!(SkillsetError::Source("s".to_string()).message(), "Source error: s");
    assert_eq!(
        SkillsetError::ConventionNotFound("n".to_string()).message(),
        "Convention not found: n"
    );
}
