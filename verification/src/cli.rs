//! The command surface as plain data, and the rule that turns a parsed
//! `add` into a configuration entry. Argument parsing itself, and the
//! handlers' I/O, are the caller's.

use vstd::prelude::*;

use crate::config::{SkillConfig, SkillConfigView};

verus! {

/// A parsed invocation.
pub struct Cli {
    /// The command to run.
    pub command: Commands,
}

/// The commands the tool serves.
pub enum Commands {
    /// Add a new skill from a reference.
    Add {
        /// A simplified name, git URL, OCI reference, or local path.
        reference: String,
        /// Overrides convention detection.
        convention: Option<String>,
        /// Overrides the version, for explicit source references.
        version: Option<String>,
    },
    /// Remove an installed skill.
    Remove {
        /// The skill to remove.
        name: String,
    },
    /// List installed skills.
    List {
        /// Show recorded source and convention too.
        verbose: bool,
    },
    /// Update skills; a placeholder, out of scope.
    Update {
        /// A specific skill to update.
        name: Option<String>,
    },
    /// Show what is recorded about a skill.
    Info {
        /// The skill to describe.
        name: String,
    },
    /// Manage conventions.
    Convention {
        /// The convention subcommand.
        command: ConventionCommands,
    },
    /// Publish a skill to a registry; a placeholder, out of scope.
    Publish {
        /// The local skill path to publish.
        path: String,
        /// The target OCI reference.
        reference: String,
        /// The registry to publish to.
        registry: Option<String>,
    },
}

/// The convention subcommands.
pub enum ConventionCommands {
    /// List enabled conventions.
    List,
    /// Enable a convention.
    Enable {
        /// The convention to enable.
        name: String,
    },
    /// Disable a convention.
    Disable {
        /// The convention to disable.
        name: String,
    },
    /// Configure a convention; a placeholder, out of scope.
    Configure {
        /// The convention to configure.
        name: String,
    },
}

/// The entry an `add` of a simplified reference records before
/// fetching: a detailed entry carrying the overridden version and the
/// convention flag when a version override was given, else a bare entry
/// with the parsed version.
pub fn skill_config_for_add(
    parsed_version: &str,
    version_override: Option<String>,
    convention: Option<String>,
) -> (r: SkillConfig)
    ensures
        r@ == match version_override {
            Some(v) => SkillConfigView::Detailed {
                version: v@,
                source: None,
                convention: match convention {
                    Some(c) => Some(c@),
                    None => None,
                },
            },
            None => SkillConfigView::Simple(parsed_version@),
        },
{
    match version_override {
        Some(v) => SkillConfig::Detailed { version: v, source: None, convention },
        None => SkillConfig::Simple(parsed_version.to_owned()),
    }
}

} // verus!
