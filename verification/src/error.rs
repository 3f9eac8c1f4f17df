//! The error taxonomy shared by every component: configuration,
//! reference parsing, convention lookup, fetch transport, and the
//! not-found / invalid-name failures of the manager commands.

use vstd::prelude::*;

verus! {

/// Every failure a command can surface. Variants that wrap an outside
/// failure (filesystem, git transport, JSON, HTTP) carry its message as
/// a plain string.
#[derive(Debug, Clone)]
pub enum SkillsetError {
    /// Malformed or missing configuration file.
    Config(String),
    /// Reference classification or parsing failure.
    Source(String),
    /// Convention subsystem failure.
    Convention(String),
    /// Filesystem failure.
    Io(String),
    /// Git protocol failure (clone, auth, missing ref, corruption).
    Git(String),
    /// Serialization failure while writing configuration.
    SerializationError(String),
    /// JSON read failure.
    JsonSerialization(String),
    /// Registry network failure (reserved for the remote-pull path).
    Http(String),
    /// OCI registry failure.
    Oci(String),
    /// A command named a skill the configuration does not hold.
    SkillNotFound(String),
    /// A command named a convention the registry does not hold.
    ConventionNotFound(String),
    /// A source type no fetcher is registered for.
    SourceNotFound(String),
    /// Name or version grammar violation.
    InvalidSkillName(String),
}

impl SkillsetError {
    /// The human-readable message, prefixed as the error is printed.
    pub fn message(&self) -> (r: String)
        ensures
            r@ == self.spec_message(),
    {
        match self {
            SkillsetError::Config(m) => join_prefix("Configuration error: ", m),
            SkillsetError::Source(m) => join_prefix("Source error: ", m),
            SkillsetError::Convention(m) => join_prefix("Convention error: ", m),
            SkillsetError::Io(m) => join_prefix("IO error: ", m),
            SkillsetError::Git(m) => join_prefix("Git error: ", m),
            SkillsetError::SerializationError(m) => join_prefix("Serialization error: ", m),
            SkillsetError::JsonSerialization(m) => join_prefix("JSON serialization error: ", m),
            SkillsetError::Http(m) => join_prefix("HTTP error: ", m),
            SkillsetError::Oci(m) => join_prefix("OCI error: ", m),
            SkillsetError::SkillNotFound(m) => join_prefix("Skill not found: ", m),
            SkillsetError::ConventionNotFound(m) => join_prefix("Convention not found: ", m),
            SkillsetError::SourceNotFound(m) => join_prefix("Source not found: ", m),
            SkillsetError::InvalidSkillName(m) => join_prefix("Invalid skill name: ", m),
        }
    }

    /// What `message` returns, at the specification level.
    pub open spec fn spec_message(&self) -> Seq<char> {
        match self {
            SkillsetError::Config(m) => "Configuration error: "@ + m@,
            SkillsetError::Source(m) => "Source error: "@ + m@,
            SkillsetError::Convention(m) => "Convention error: "@ + m@,
            SkillsetError::Io(m) => "IO error: "@ + m@,
            SkillsetError::Git(m) => "Git error: "@ + m@,
            SkillsetError::SerializationError(m) => "Serialization error: "@ + m@,
            SkillsetError::JsonSerialization(m) => "JSON serialization error: "@ + m@,
            SkillsetError::Http(m) => "HTTP error: "@ + m@,
            SkillsetError::Oci(m) => "OCI error: "@ + m@,
            SkillsetError::SkillNotFound(m) => "Skill not found: "@ + m@,
            SkillsetError::ConventionNotFound(m) => "Convention not found: "@ + m@,
            SkillsetError::SourceNotFound(m) => "Source not found: "@ + m@,
            SkillsetError::InvalidSkillName(m) => "Invalid skill name: "@ + m@,
        }
    }
}

/// Concatenates a fixed prefix and a message.
fn join_prefix(prefix: &str, m: &String) -> (r: String)
    ensures
        r@ == prefix@ + m@,
{
    let mut s = prefix.to_owned();
    s.append(m.as_str());
    s
}

/// The result type every fallible operation of the library returns.
pub type SkillsetResult<T> = Result<T, SkillsetError>;

} // verus!
