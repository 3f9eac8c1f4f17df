//! The source-fetcher capability set: source types, the registry that
//! names them, and the git fetcher's reference handling — everything of
//! a fetch that is a function of plain values. The clone itself, a
//! network transfer, is the caller's.

use vstd::prelude::*;

use crate::cache::CachePaths;
use crate::error::{SkillsetError, SkillsetResult};
use crate::skill_types::{FetchedSkill, SkillMetadata};
use crate::strutil::{
    last_index_of, lemma_last_index_of, push_str, rfind_char, starts_with, str_ends_with,
    str_starts_with, substr,
};

verus! {

/// The kinds of source a skill can be fetched from.
#[derive(Debug, Clone, Copy, PartialEq, Eq, Structural)]
pub enum SourceType {
    /// A git repository.
    Git,
    /// An OCI registry artifact.
    Oci,
    /// A local directory.
    Local,
}

/// The name a source type is registered under.
pub open spec fn source_type_name(t: SourceType) -> Seq<char> {
    match t {
        SourceType::Git => "git"@,
        SourceType::Oci => "oci"@,
        SourceType::Local => "local"@,
    }
}

impl SourceType {
    /// The name the type is registered under.
    pub fn name(&self) -> (r: &'static str)
        ensures
            r@ == source_type_name(*self),
    {
        match self {
            SourceType::Git => "git",
            SourceType::Oci => "oci",
            SourceType::Local => "local",
        }
    }
}

/// A fetcher capability. The retrieval itself reaches the network and
/// the filesystem and is the caller's; the capability's identity is
/// what the registry keys on.
pub trait SkillSource {
    /// The source type the fetcher serves, at the specification level.
    spec fn spec_source_type(&self) -> SourceType;

    /// The source type the fetcher serves.
    fn source_type(&self) -> (r: SourceType)
        ensures
            r == self.spec_source_type(),
    ;
}

/// The registered fetcher capabilities, keyed by their type name.
pub struct SourceRegistry {
    sources: Vec<SourceType>,
}

impl View for SourceRegistry {
    type V = Seq<SourceType>;

    closed spec fn view(&self) -> Seq<SourceType> {
        self.sources@
    }
}

impl SourceRegistry {
    /// An empty registry.
    pub fn new() -> (r: Self)
        ensures
            r@ == Seq::<SourceType>::empty(),
    {
        let r = SourceRegistry { sources: Vec::new() };
        proof {
            assert(r@ =~= Seq::<SourceType>::empty());
        }
        r
    }

    /// Registers a capability under its type name; one already
    /// registered keeps its place.
    pub fn register(&mut self, source_type: SourceType)
        ensures
            final(self)@ == if old(self)@.contains(source_type) {
                old(self)@
            } else {
                old(self)@.push(source_type)
            },
    {
        let n: usize = self.sources.len();
        let mut i: usize = 0;
        while i < n
            invariant
                i <= n,
                n == self.sources@.len(),
                forall|j: int| 0 <= j < i ==> self.sources@[j] != source_type,
            decreases n - i,
        {
            if self.sources[i] == source_type {
                return ;
            }
            i += 1;
        }
        assert(!self@.contains(source_type));
        self.sources.push(source_type);
    }

    /// The registered capability of this type name, if any.
    pub fn get(&self, source_type: &str) -> (r: Option<SourceType>)
        ensures
            match r {
                Some(t) => self@.contains(t) && source_type_name(t) == source_type@,
                None => forall|i: int|
                    0 <= i < self@.len() ==> source_type_name(#[trigger] self@[i]) != source_type@,
            },
    {
        let n: usize = self.sources.len();
        let mut i: usize = 0;
        while i < n
            invariant
                i <= n,
                n == self.sources@.len(),
                forall|j: int|
                    0 <= j < i ==> source_type_name(#[trigger] self.sources@[j]) != source_type@,
            decreases n - i,
        {
            let t = self.sources[i];
            if crate::strutil::str_eq(t.name(), source_type) {
                return Some(t);
            }
            i += 1;
        }
        None
    }
}

/// A git reference with an optional `git:` prefix removed.
pub open spec fn strip_git_prefix(s: Seq<char>) -> Seq<char> {
    if starts_with(s, "git:"@) {
        s.subrange(4, s.len() as int)
    } else {
        s
    }
}

/// A name with every trailing `.git` run removed.
pub open spec fn trim_git_suffix(s: Seq<char>) -> Seq<char>
    decreases s.len(),
{
    if ".git"@.is_suffix_of(s) && s.len() >= 4 {
        trim_git_suffix(s.subrange(0, s.len() - 4))
    } else {
        s
    }
}

/// The skill name a git URL yields: the part after its last slash, with
/// any trailing `.git` removed. Meaningful when the URL has a slash.
pub open spec fn spec_skill_name_from_url(url: Seq<char>) -> Seq<char> {
    trim_git_suffix(url.subrange(last_index_of(url, '/') + 1, url.len() as int))
}

/// The skill name a git URL yields: its final path segment with any
/// trailing `.git` removed. A URL without a slash yields none and fails
/// with a `Source` error.
#[verifier::loop_isolation(false)]
pub(crate) fn git_url_skill_name(git_url: &str) -> (r: SkillsetResult<String>)
    ensures
        match r {
            Ok(name) => git_url@.contains('/') && name@ == spec_skill_name_from_url(git_url@),
            Err(e) => !git_url@.contains('/') && e is Source,
        },
{
    let n: usize = git_url.unicode_len();
    let k = match rfind_char(git_url, '/') {
        Some(k) => k,
        None => {
            let mut msg = "Unable to extract skill name from git URL: ".to_owned();
            push_str(&mut msg, git_url);
            return Err(SkillsetError::Source(msg));
        },
    };
    proof {
        lemma_last_index_of(git_url@, '/', k as int);
    }
    let mut name = substr(git_url, k + 1, n);
    loop
        invariant
            trim_git_suffix(name@) == spec_skill_name_from_url(git_url@),
        decreases name@.len(),
    {
        let m: usize = name.as_str().unicode_len();
        if m >= 4 && str_ends_with(name.as_str(), ".git") {
            proof {
                reveal_strlit(".git");
            }
            let shorter = substr(name.as_str(), 0, m - 4);
            name = shorter;
        } else {
            proof {
                reveal_strlit(".git");
                if ".git"@.is_suffix_of(name@) {
                    assert(name@.len() >= 4);
                }
                assert(trim_git_suffix(name@) == name@);
            }
            return Ok(name);
        }
    }
}

/// Fetches skills from git repositories into the shared cache.
pub struct GitSource {
    cache: CachePaths,
}

impl SkillSource for GitSource {
    open spec fn spec_source_type(&self) -> SourceType {
        SourceType::Git
    }

    fn source_type(&self) -> (r: SourceType) {
        SourceType::Git
    }
}

impl GitSource {
    /// The cache the fetcher works against.
    pub closed spec fn spec_cache(&self) -> CachePaths {
        self.cache
    }

    /// A fetcher against the shared cache. Fails when the platform
    /// names no cache directory.
    pub fn new() -> (r: SkillsetResult<GitSource>)
        ensures
            match r {
                Ok(g) => g.spec_cache().wf(),
                Err(e) => e is Config,
            },
    {
        match CachePaths::new() {
            Ok(cache) => Ok(GitSource { cache }),
            Err(e) => Err(e),
        }
    }

    /// A fetcher against a given cache layout.
    pub fn with_cache(cache: CachePaths) -> (r: GitSource)
        ensures
            r.spec_cache() == cache,
    {
        GitSource { cache }
    }

    /// The cache the fetcher works against.
    pub fn cache(&self) -> (r: &CachePaths)
        ensures
            *r == self.spec_cache(),
    {
        &self.cache
    }

    /// Splits a raw git reference into a URL — the reference with any
    /// `git:` prefix removed — and a pin, which no reference carries
    /// yet.
    pub fn parse_reference(&self, reference: &str) -> (r: SkillsetResult<(String, Option<String>)>)
        ensures
            match r {
                Ok(p) => p.0@ == strip_git_prefix(reference@) && p.1 is None,
                Err(_) => false,
            },
    {
        let n: usize = reference.unicode_len();
        let url: String;
        if str_starts_with(reference, "git:") {
            proof {
                reveal_strlit("git:");
            }
            url = substr(reference, 4, n);
        } else {
            url = reference.to_owned();
        }
        Ok((url, None))
    }

    /// The skill name a git URL yields: its final path segment with any
    /// trailing `.git` removed. A URL without a slash yields none and
    /// fails with a `Source` error.
    pub fn extract_skill_name_from_url(&self, git_url: &str) -> (r: SkillsetResult<String>)
        ensures
            match r {
                Ok(name) => git_url@.contains('/') && name@ == spec_skill_name_from_url(git_url@),
                Err(e) => !git_url@.contains('/') && e is Source,
            },
    {
        git_url_skill_name(git_url)
    }

    /// The record of a completed fetch: the derived name, the pin or
    /// `latest`, the working tree it was placed at, and fresh metadata
    /// stamped with the time of the fetch, the convention still
    /// unknown.
    pub fn fetched_skill_record(
        &self,
        skill_name: String,
        reference: Option<String>,
        checkout_path: String,
    ) -> (r: FetchedSkill)
        ensures
            r.name@ == skill_name@,
            r.version@ == match reference {
                Some(rf) => rf@,
                None => "latest"@,
            },
            r.source_path@ == checkout_path@,
            r.metadata.repo_path@ == checkout_path@,
            r.metadata.convention@ == "unknown"@,
            r.metadata.checksum is None,
            r.metadata.description is None,
            r.metadata.author is None,
            r.metadata.dependencies@.len() == 0,
    {
        let version = match reference {
            Some(rf) => rf,
            None => "latest".to_owned(),
        };
        let installed_at = now_rfc3339();
        FetchedSkill {
            name: skill_name,
            version,
            source_path: checkout_path.clone(),
            metadata: SkillMetadata {
                installed_at,
                repo_path: checkout_path,
                convention: "unknown".to_owned(),
                checksum: None,
                description: None,
                author: None,
                dependencies: Vec::new(),
            },
        }
    }
}

/// Relies on chrono's Utc::now and to_rfc3339: the current time
/// rendered in RFC 3339; nothing is promised of its value.
#[verifier::external_body]
fn now_rfc3339() -> (r: String) {
    chrono::Utc::now().to_rfc3339()
}

} // verus!
