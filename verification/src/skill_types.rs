//! The records the acquisition pipeline produces: an installed skill,
//! its origin, its metadata, and the transient result of a fetch.

use vstd::prelude::*;

verus! {

/// Metadata recorded about an installed skill.
#[derive(Debug, Clone)]
pub struct SkillMetadata {
    /// When the skill was installed, rendered in RFC 3339.
    pub installed_at: String,
    /// The working tree the skill was fetched into.
    pub repo_path: String,
    /// The convention the skill was organized under.
    pub convention: String,
    /// A checksum of the skill's contents, when one was computed.
    pub checksum: Option<String>,
    /// A description, when one is known.
    pub description: Option<String>,
    /// An author, when one is known.
    pub author: Option<String>,
    /// Named dependencies; a placeholder, nothing reads it.
    pub dependencies: Vec<String>,
}

/// The origin a skill was acquired from.
#[derive(Debug, Clone)]
pub enum SkillSource {
    /// A git repository, optionally pinned to a branch or tag.
    Git { url: String, branch: Option<String>, tag: Option<String> },
    /// An OCI registry artifact.
    Oci { reference: String, registry: Option<String> },
    /// A local directory.
    Local { path: String },
}

/// An installed skill.
#[derive(Debug, Clone)]
pub struct Skill {
    /// The skill's name.
    pub name: String,
    /// The skill's version.
    pub version: String,
    /// Where the skill came from.
    pub source: SkillSource,
    /// What is recorded about it.
    pub metadata: SkillMetadata,
}

/// What a fetch hands back: the skill's name and version, the transient
/// path its files were placed at, and its metadata.
#[derive(Debug, Clone)]
pub struct FetchedSkill {
    /// The name derived from the source.
    pub name: String,
    /// The version the fetch honored.
    pub version: String,
    /// The working tree holding the fetched files.
    pub source_path: String,
    /// The metadata recorded for the fetch.
    pub metadata: SkillMetadata,
}

} // verus!
