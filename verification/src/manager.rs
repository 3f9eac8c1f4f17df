//! The skill manager: it owns the in-memory configuration and the
//! convention registry, classifies raw references, decides the
//! effective convention, and records every mutation the commands make.
//! The fetch, the copying and the persistence — all of it I/O — are the
//! caller's; every decision here is a function of plain values.

use vstd::prelude::*;

use crate::config::{
    SkillConfig, SkillConfigView, SkillsetConfig, SkillsetConfigView, spec_resolve_skill_reference,
};
use crate::conventions::{ConventionKind, ConventionRegistry, kind_detects, kind_name, DirProbe};
use crate::error::{SkillsetError, SkillsetResult};
use crate::skill_types::FetchedSkill;
use crate::sources::{git_url_skill_name, spec_skill_name_from_url, strip_git_prefix};
use crate::strutil::{
    contains_seq, find_char, first_index_of, last_index_of, lemma_first_index_of,
    lemma_last_index_of, push_str, rfind_char, starts_with, str_contains_str, str_count_char,
    str_eq, str_starts_with, substr,
};

verus! {

/// Whether a raw reference classifies as a git source: a `git:` or
/// `git@` marker, or a plain `https://` or `http://` URL.
pub open spec fn ref_is_git(s: Seq<char>) -> bool {
    ||| starts_with(s, "git:"@)
    ||| starts_with(s, "git@"@)
    ||| starts_with(s, "https://"@)
    ||| starts_with(s, "http://"@)
}

/// Whether a raw reference classifies as an OCI source: not git, and
/// marked `oci:` or naming a known registry domain.
pub open spec fn ref_is_oci(s: Seq<char>) -> bool {
    &&& !ref_is_git(s)
    &&& (starts_with(s, "oci:"@) || contains_seq(s, "ghcr.io"@) || contains_seq(s, "docker.io"@))
}

/// Whether a raw reference classifies as a local source: neither git
/// nor OCI, and opening like a path.
pub open spec fn ref_is_local(s: Seq<char>) -> bool {
    &&& !ref_is_git(s)
    &&& !ref_is_oci(s)
    &&& (starts_with(s, "/"@) || starts_with(s, "./"@) || starts_with(s, "../"@))
}

/// A reference with an optional `oci:` prefix removed.
pub open spec fn strip_oci_prefix(s: Seq<char>) -> Seq<char> {
    if starts_with(s, "oci:"@) {
        s.subrange(4, s.len() as int)
    } else {
        s
    }
}

/// The skill name an OCI reference yields: the part after its last
/// slash, cut at its first colon. Meaningful when the reference has at
/// least two slashes.
pub open spec fn spec_skill_name_from_oci(s: Seq<char>) -> Seq<char> {
    let last = s.subrange(last_index_of(s, '/') + 1, s.len() as int);
    if last.contains(':') {
        last.subrange(0, first_index_of(last, ':'))
    } else {
        last
    }
}

/// A path with every trailing slash removed.
pub open spec fn trim_trailing_slashes(s: Seq<char>) -> Seq<char>
    decreases s.len(),
{
    if s.len() > 0 && s.last() == '/' {
        trim_trailing_slashes(s.drop_last())
    } else {
        s
    }
}

/// The final component of a path: what stands after its last slash once
/// trailing slashes are gone. A root, empty or dot-only path has none.
pub open spec fn spec_file_name(s: Seq<char>) -> Option<Seq<char>> {
    let t = trim_trailing_slashes(s);
    let nm = if t.contains('/') {
        t.subrange(last_index_of(t, '/') + 1, t.len() as int)
    } else {
        t
    };
    if nm.len() == 0 || nm == "."@ || nm == ".."@ {
        None
    } else {
        Some(nm)
    }
}

/// One line of a listing: the name and version, and in verbose form
/// the entry's source — explicit when recorded, else resolved against
/// the registry, omitted only when the name cannot be resolved — and
/// the convention whenever the entry records one.
pub open spec fn spec_entry_line(
    cfg: SkillsetConfigView,
    name: Seq<char>,
    entry: SkillConfigView,
    verbose: bool,
) -> Seq<char> {
    let base = "  "@ + name + " (v"@ + entry.version() + ")"@;
    if verbose {
        let with_source = match spec_resolve_skill_reference(cfg, name, entry) {
            Some(src) => base + " - Source: "@ + src,
            None => base,
        };
        match entry.convention() {
            Some(c) => with_source + " - Convention: "@ + c,
            None => with_source,
        }
    } else {
        base
    }
}

/// The listing lines for a configuration's entries.
pub open spec fn spec_entry_lines(cfg: SkillsetConfigView, verbose: bool) -> Seq<Seq<char>> {
    cfg.skills.map_values(|e: (Seq<char>, SkillConfigView)| spec_entry_line(cfg, e.0, e.1, verbose))
}

/// What `list_skills` prints: a no-skills notice for an empty
/// configuration, else a heading and one line per entry in insertion
/// order.
pub open spec fn spec_list_lines(cfg: SkillsetConfigView, verbose: bool) -> Seq<Seq<char>> {
    if cfg.skills.len() == 0 {
        seq!["No skills installed."@]
    } else {
        seq!["Installed skills:"@] + spec_entry_lines(cfg, verbose)
    }
}

/// What `show_skill_info` prints for a held, resolvable entry: the name
/// and version, the explicit source or the resolved reference, and the
/// recorded convention where the entry has one.
pub open spec fn spec_skill_info_lines(cfg: SkillsetConfigView, name: Seq<char>) -> Seq<Seq<char>> {
    let entry = cfg.skills_map()[name];
    let head = seq!["Skill: "@ + name, "Version: "@ + entry.version()];
    let src = match spec_resolve_skill_reference(cfg, name, entry) {
        Some(resolved) => match entry.source() {
            Some(s) => seq!["Source: "@ + s],
            None => seq!["Resolved Source: "@ + resolved],
        },
        None => Seq::empty(),
    };
    let conv = match entry.convention() {
        Some(c) => seq!["Convention: "@ + c],
        None => Seq::<Seq<char>>::empty(),
    };
    head + src + conv
}

/// The manager: the loaded configuration, the convention registry with
/// its explicit registration order, and the project root.
pub struct SkillManager {
    convention_registry: ConventionRegistry,
    config: SkillsetConfig,
    project_path: String,
}

impl SkillManager {
    /// The configuration the manager holds.
    pub closed spec fn spec_config(&self) -> SkillsetConfig {
        self.config
    }

    /// The registered conventions, in registration order.
    pub closed spec fn spec_registry(&self) -> Seq<ConventionKind> {
        self.convention_registry@
    }

    /// The project root.
    pub closed spec fn spec_project_path(&self) -> Seq<char> {
        self.project_path@
    }

    /// The configuration's names are unique.
    pub open spec fn wf(&self) -> bool {
        self.spec_config()@.wf()
    }

    /// A manager over a loaded configuration, with the three built-in
    /// conventions registered in their documented order.
    pub fn new(project_path: String, config: SkillsetConfig) -> (r: SkillManager)
        ensures
            r.spec_config() == config,
            r.spec_project_path() == project_path@,
            r.spec_registry() == seq![
                ConventionKind::AutoGpt,
                ConventionKind::Langchain,
                ConventionKind::AgentSkills,
            ],
    {
        let mut convention_registry = ConventionRegistry::new();
        convention_registry.register(ConventionKind::AutoGpt);
        proof {
            assert(!Seq::<ConventionKind>::empty().contains(ConventionKind::AutoGpt));
            assert(convention_registry@ =~= seq![ConventionKind::AutoGpt]);
        }
        convention_registry.register(ConventionKind::Langchain);
        proof {
            assert(!seq![ConventionKind::AutoGpt].contains(ConventionKind::Langchain)) by {
                assert(seq![ConventionKind::AutoGpt][0] == ConventionKind::AutoGpt);
            }
            assert(convention_registry@ =~= seq![
                ConventionKind::AutoGpt,
                ConventionKind::Langchain,
            ]);
        }
        convention_registry.register(ConventionKind::AgentSkills);
        proof {
            assert(!seq![ConventionKind::AutoGpt, ConventionKind::Langchain].contains(
                ConventionKind::AgentSkills,
            )) by {
                assert(seq![ConventionKind::AutoGpt, ConventionKind::Langchain][0]
                    == ConventionKind::AutoGpt);
                assert(seq![ConventionKind::AutoGpt, ConventionKind::Langchain][1]
                    == ConventionKind::Langchain);
            }
            assert(convention_registry@ =~= seq![
                ConventionKind::AutoGpt,
                ConventionKind::Langchain,
                ConventionKind::AgentSkills,
            ]);
        }
        SkillManager { convention_registry, config, project_path }
    }

    /// The configuration, read-only.
    pub fn config(&self) -> (r: &SkillsetConfig)
        ensures
            *r == self.spec_config(),
    {
        &self.config
    }

    /// The configuration, for mutation in place.
    pub fn config_mut(&mut self) -> (r: &mut SkillsetConfig)
        ensures
            *r == old(self).spec_config(),
            final(self).spec_config() == *final(r),
            final(self).spec_registry() == old(self).spec_registry(),
            final(self).spec_project_path() == old(self).spec_project_path(),
    {
        &mut self.config
    }

    /// The project root as a string.
    pub fn project_path(&self) -> (r: &str)
        ensures
            r@ == self.spec_project_path(),
    {
        self.project_path.as_str()
    }

    /// Classifies a raw reference and derives its source type, concrete
    /// source string and skill name. `git:`, `git@`, `https://` and
    /// `http://` references are git: they lose a `git:` marker and name
    /// the final path segment without `.git`. `oci:` references and
    /// known registry domains are OCI: they lose an `oci:` marker and
    /// name the last segment up to its tag. Paths are local and name
    /// their final component. Anything else — a simplified name among
    /// them — fails with a `Source` error.
    pub fn parse_reference(&self, reference: &str) -> (r: SkillsetResult<(String, String, String)>)
        ensures
            match r {
                Ok(t) => {
                    if ref_is_git(reference@) {
                        let url = strip_git_prefix(reference@);
                        &&& t.0@ == "git"@
                        &&& t.1@ == url
                        &&& url.contains('/')
                        &&& t.2@ == spec_skill_name_from_url(url)
                    } else if ref_is_oci(reference@) {
                        let oci = strip_oci_prefix(reference@);
                        &&& t.0@ == "oci"@
                        &&& t.1@ == oci
                        &&& crate::strutil::count_char(oci, '/') >= 2
                        &&& t.2@ == spec_skill_name_from_oci(oci)
                    } else if ref_is_local(reference@) {
                        &&& t.0@ == "local"@
                        &&& t.1@ == reference@
                        &&& spec_file_name(reference@) == Some(t.2@)
                    } else {
                        false
                    }
                },
                Err(e) => {
                    &&& e is Source
                    &&& {
                        ||| (ref_is_git(reference@) && !strip_git_prefix(reference@).contains('/'))
                        ||| (ref_is_oci(reference@) && crate::strutil::count_char(
                            strip_oci_prefix(reference@),
                            '/',
                        ) < 2)
                        ||| (ref_is_local(reference@) && spec_file_name(reference@) is None)
                        ||| (!ref_is_git(reference@) && !ref_is_oci(reference@) && !ref_is_local(
                            reference@,
                        ))
                    }
                },
            },
    {
        let n: usize = reference.unicode_len();
        if str_starts_with(reference, "git:") || str_starts_with(reference, "git@")
            || str_starts_with(reference, "https://") || str_starts_with(reference, "http://") {
            let source_ref: String;
            if str_starts_with(reference, "git:") {
                proof {
                    reveal_strlit("git:");
                }
                source_ref = substr(reference, 4, n);
            } else {
                source_ref = reference.to_owned();
            }
            let skill_name = match git_url_skill_name(source_ref.as_str()) {
                Ok(nm) => nm,
                Err(e) => {
                    return Err(e);
                },
            };
            Ok(("git".to_owned(), source_ref, skill_name))
        } else if str_starts_with(reference, "oci:") || str_contains_str(reference, "ghcr.io")
            || str_contains_str(reference, "docker.io") {
            let source_ref: String;
            if str_starts_with(reference, "oci:") {
                proof {
                    reveal_strlit("oci:");
                }
                source_ref = substr(reference, 4, n);
            } else {
                source_ref = reference.to_owned();
            }
            let skill_name = match self.extract_skill_name_from_oci(source_ref.as_str()) {
                Ok(nm) => nm,
                Err(e) => {
                    return Err(e);
                },
            };
            Ok(("oci".to_owned(), source_ref, skill_name))
        } else if str_starts_with(reference, "/") || str_starts_with(reference, "./")
            || str_starts_with(reference, "../") {
            let skill_name = match self.extract_skill_name_from_path(reference) {
                Ok(nm) => nm,
                Err(e) => {
                    return Err(e);
                },
            };
            Ok(("local".to_owned(), reference.to_owned(), skill_name))
        } else {
            let mut msg = "Simplified skill names should be resolved at CLI level: ".to_owned();
            push_str(&mut msg, reference);
            Err(SkillsetError::Source(msg))
        }
    }

    /// The skill name a git URL yields: its final path segment with any
    /// trailing `.git` removed; a `Source` error for a URL without a
    /// slash.
    pub fn extract_skill_name_from_git(&self, git_url: &str) -> (r: SkillsetResult<String>)
        ensures
            match r {
                Ok(name) => git_url@.contains('/') && name@ == spec_skill_name_from_url(git_url@),
                Err(e) => !git_url@.contains('/') && e is Source,
            },
    {
        git_url_skill_name(git_url)
    }

    /// The skill name an OCI reference yields: its last path segment up
    /// to the tag colon; a `Source` error for a reference with fewer
    /// than two slashes.
    pub fn extract_skill_name_from_oci(&self, oci_ref: &str) -> (r: SkillsetResult<String>)
        ensures
            match r {
                Ok(name) => crate::strutil::count_char(oci_ref@, '/') >= 2 && name@
                    == spec_skill_name_from_oci(oci_ref@),
                Err(e) => crate::strutil::count_char(oci_ref@, '/') < 2 && e is Source,
            },
    {
        let n: usize = oci_ref.unicode_len();
        let slashes = str_count_char(oci_ref, '/');
        if slashes < 2 {
            let mut msg = "Unable to extract skill name from OCI reference: ".to_owned();
            push_str(&mut msg, oci_ref);
            return Err(SkillsetError::Source(msg));
        }
        let k = match rfind_char(oci_ref, '/') {
            Some(k) => k,
            None => {
                proof {
                    crate::strutil::lemma_count_char_zero(oci_ref@, '/');
                }
                unreached()
            },
        };
        proof {
            lemma_last_index_of(oci_ref@, '/', k as int);
        }
        let last = substr(oci_ref, k + 1, n);
        let m: usize = last.as_str().unicode_len();
        match find_char(last.as_str(), ':') {
            Some(c) => {
                proof {
                    lemma_first_index_of(last@, ':', c as int);
                }
                Ok(substr(last.as_str(), 0, c))
            },
            None => Ok(last),
        }
    }

    /// The skill name a local path yields: its final component; a
    /// `Source` error for a path without one.
    #[verifier::loop_isolation(false)]
    pub fn extract_skill_name_from_path(&self, path: &str) -> (r: SkillsetResult<String>)
        ensures
            match r {
                Ok(name) => spec_file_name(path@) == Some(name@),
                Err(e) => spec_file_name(path@) is None && e is Source,
            },
    {
        let mut t = path.to_owned();
        loop
            invariant
                trim_trailing_slashes(t@) == trim_trailing_slashes(path@),
            decreases t@.len(),
        {
            let m: usize = t.as_str().unicode_len();
            if m > 0 && t.as_str().get_char(m - 1) == '/' {
                let shorter = substr(t.as_str(), 0, m - 1);
                proof {
                    assert(t@.drop_last() =~= t@.subrange(0, t@.len() - 1));
                }
                t = shorter;
            } else {
                break ;
            }
        }
        assert(trim_trailing_slashes(t@) == t@);
        let m: usize = t.as_str().unicode_len();
        let nm: String;
        match rfind_char(t.as_str(), '/') {
            Some(k) => {
                proof {
                    lemma_last_index_of(t@, '/', k as int);
                }
                nm = substr(t.as_str(), k + 1, m);
            },
            None => {
                nm = t;
            },
        }
        if nm.as_str().unicode_len() == 0 || str_eq(nm.as_str(), ".") || str_eq(nm.as_str(), "..") {
            let mut msg = "Unable to extract skill name from path: ".to_owned();
            push_str(&mut msg, path);
            return Err(SkillsetError::Source(msg));
        }
        Ok(nm)
    }

    /// The convention in force for an add: an explicit override first,
    /// then the convention the configuration records, then the first
    /// detection match in registration order, then `autogpt`.
    pub fn determine_convention(
        &self,
        override_name: Option<&String>,
        configured: Option<&String>,
        probe: &DirProbe,
    ) -> (r: String)
        ensures
            match override_name {
                Some(o) => r@ == o@,
                None => match configured {
                    Some(c) => r@ == c@,
                    None => (exists|i: int|
                        {
                            &&& 0 <= i < self.spec_registry().len()
                            &&& kind_detects(#[trigger] self.spec_registry()[i], *probe)
                            &&& r@ == kind_name(self.spec_registry()[i])
                            &&& forall|j: int|
                                0 <= j < i ==> !kind_detects(
                                    #[trigger] self.spec_registry()[j],
                                    *probe,
                                )
                        }) || ((forall|i: int|
                        0 <= i < self.spec_registry().len() ==> !kind_detects(
                            #[trigger] self.spec_registry()[i],
                            *probe,
                        )) && r@ == "autogpt"@),
                },
            },
    {
        match override_name {
            Some(o) => o.clone(),
            None => match configured {
                Some(c) => c.clone(),
                None => match self.convention_registry.detect_convention(probe) {
                    Some(nm) => nm,
                    None => "autogpt".to_owned(),
                },
            },
        }
    }

    /// Records a fetched skill in the configuration: a detailed entry
    /// under the skill's name with its version, its source path as the
    /// explicit source, and the convention it was organized under.
    pub fn update_config(&mut self, fetched_skill: &FetchedSkill, convention_name: &str)
        requires
            old(self).wf(),
        ensures
            final(self).wf(),
            final(self).spec_config()@.skills_map() == old(self).spec_config()@.skills_map().insert(
                fetched_skill.name@,
                SkillConfigView::Detailed {
                    version: fetched_skill.version@,
                    source: Some(fetched_skill.source_path@),
                    convention: Some(convention_name@),
                },
            ),
            final(self).spec_config()@.registry == old(self).spec_config()@.registry,
            final(self).spec_config()@.conventions == old(self).spec_config()@.conventions,
            final(self).spec_registry() == old(self).spec_registry(),
            final(self).spec_project_path() == old(self).spec_project_path(),
    {
        let entry = SkillConfig::Detailed {
            version: fetched_skill.version.clone(),
            source: Some(fetched_skill.source_path.clone()),
            convention: Some(convention_name.to_owned()),
        };
        self.config.insert_skill(fetched_skill.name.clone(), entry);
    }

    /// Drops a skill from the configuration. A name the configuration
    /// does not hold fails with `SkillNotFound` and changes nothing.
    pub fn remove_skill(&mut self, skill_name: &str) -> (r: SkillsetResult<()>)
        requires
            old(self).wf(),
        ensures
            final(self).wf(),
            match r {
                Ok(_) => {
                    &&& old(self).spec_config()@.skills_map().contains_key(skill_name@)
                    &&& final(self).spec_config()@.skills_map() == old(
                        self,
                    ).spec_config()@.skills_map().remove(skill_name@)
                    &&& final(self).spec_config()@.registry == old(self).spec_config()@.registry
                    &&& final(self).spec_config()@.conventions == old(
                        self,
                    ).spec_config()@.conventions
                    &&& final(self).spec_registry() == old(self).spec_registry()
                    &&& final(self).spec_project_path() == old(self).spec_project_path()
                },
                Err(e) => {
                    &&& e is SkillNotFound
                    &&& !old(self).spec_config()@.skills_map().contains_key(skill_name@)
                    &&& *final(self) == *old(self)
                },
            },
    {
        if !self.config.contains_skill(skill_name) {
            return Err(SkillsetError::SkillNotFound(skill_name.to_owned()));
        }
        let _removed = self.config.remove_skill_entry(skill_name);
        Ok(())
    }

    /// The lines `show_skill_info` prints for a skill: its version, its
    /// explicit or resolved source, and its recorded convention. A name
    /// the configuration does not hold fails with `SkillNotFound`; one
    /// whose entry cannot be resolved fails with `InvalidSkillName`.
    pub fn show_skill_info(&self, skill_name: &str) -> (r: SkillsetResult<Vec<String>>)
        requires
            self.wf(),
        ensures
            match r {
                Ok(lines) => {
                    &&& self.spec_config()@.skills_map().contains_key(skill_name@)
                    &&& spec_resolve_skill_reference(
                        self.spec_config()@,
                        skill_name@,
                        self.spec_config()@.skills_map()[skill_name@],
                    ) is Some
                    &&& lines.deep_view() == spec_skill_info_lines(self.spec_config()@, skill_name@)
                },
                Err(e) => {
                    ||| (e is SkillNotFound && !self.spec_config()@.skills_map().contains_key(
                        skill_name@,
                    ))
                    ||| (e is InvalidSkillName && self.spec_config()@.skills_map().contains_key(
                        skill_name@,
                    ) && spec_resolve_skill_reference(
                        self.spec_config()@,
                        skill_name@,
                        self.spec_config()@.skills_map()[skill_name@],
                    ) is None)
                },
            },
    {
        let skill_config = match self.config.get_skill(skill_name) {
            Some(c) => c,
            None => {
                return Err(SkillsetError::SkillNotFound(skill_name.to_owned()));
            },
        };
        let mut lines: Vec<String> = Vec::new();
        let mut line1 = "Skill: ".to_owned();
        push_str(&mut line1, skill_name);
        lines.push(line1);
        let mut line2 = "Version: ".to_owned();
        push_str(&mut line2, skill_config.get_version());
        lines.push(line2);
        match skill_config.get_explicit_source() {
            Some(source) => {
                let mut line3 = "Source: ".to_owned();
                push_str(&mut line3, source.as_str());
                lines.push(line3);
            },
            None => {
                let resolved = match self.config.resolve_skill_reference(
                    skill_name,
                    skill_config,
                ) {
                    Ok(resolved) => resolved,
                    Err(e) => {
                        return Err(e);
                    },
                };
                let mut line3 = "Resolved Source: ".to_owned();
                push_str(&mut line3, resolved.as_str());
                lines.push(line3);
            },
        }
        match skill_config.get_explicit_convention() {
            Some(convention) => {
                let mut line4 = "Convention: ".to_owned();
                push_str(&mut line4, convention.as_str());
                lines.push(line4);
            },
            None => {},
        }
        proof {
            assert(lines.deep_view() =~= spec_skill_info_lines(self.spec_config()@, skill_name@));
        }
        Ok(lines)
    }

    /// The lines `list_skills` prints: a no-skills notice for an empty
    /// configuration, else a heading and one line per entry in
    /// insertion order, the verbose form carrying recorded source and
    /// convention.
    #[verifier::loop_isolation(false)]
    pub fn list_skills(&self, verbose: bool) -> (r: Vec<String>)
        ensures
            r.deep_view() == spec_list_lines(self.spec_config()@, verbose),
    {
        let mut lines: Vec<String> = Vec::new();
        if self.config.skills_is_empty() {
            lines.push("No skills installed.".to_owned());
            proof {
                assert(lines.deep_view() =~= spec_list_lines(self.spec_config()@, verbose));
            }
            return lines;
        }
        lines.push("Installed skills:".to_owned());
        let n: usize = self.config.skills.len();
        let mut i: usize = 0;
        proof {
            assert(lines.deep_view() =~= seq!["Installed skills:"@] + spec_entry_lines(
                self.spec_config()@,
                verbose,
            ).take(0));
        }
        while i < n
            invariant
                i <= n,
                n == self.config.skills@.len(),
                lines.deep_view() =~= seq!["Installed skills:"@] + spec_entry_lines(
                    self.spec_config()@,
                    verbose,
                ).take(i as int),
            decreases n - i,
        {
            let entry = &self.config.skills[i];
            let ghost prev = lines.deep_view();
            let line = entry_line(&self.config, entry.name.as_str(), &entry.config, verbose);
            proof {
                assert(self.spec_config()@.skills[i as int]
                    == (entry.name@, entry.config@));
                assert(spec_entry_lines(self.spec_config()@, verbose)[i as int]
                    == spec_entry_line(self.spec_config()@, entry.name@, entry.config@, verbose));
            }
            lines.push(line);
            proof {
                assert(lines.deep_view() =~= prev.push(
                    spec_entry_line(self.spec_config()@, entry.name@, entry.config@, verbose),
                ));
                assert(lines.deep_view() =~= seq!["Installed skills:"@] + spec_entry_lines(
                    self.spec_config()@,
                    verbose,
                ).take(i + 1));
            }
            i += 1;
        }
        proof {
            let all = spec_entry_lines(self.spec_config()@, verbose);
            assert(all.take(n as int) =~= all);
        }
        lines
    }
}

/// After a removal the configuration holds no entry under the removed
/// name: `remove_skill` leaves the skills map without the name, and
/// `show_skill_info` fails with `SkillNotFound` exactly on a name the
/// map lacks, so an info lookup after a removal must so fail.
pub proof fn lemma_removed_skill_not_found(cfg: SkillsetConfigView, name: Seq<char>)
    ensures
        !cfg.skills_map().remove(name).contains_key(name),
{
}

/// One listing line for an entry.
fn entry_line(config: &SkillsetConfig, name: &str, entry: &SkillConfig, verbose: bool) -> (r:
    String)
    ensures
        r@ == spec_entry_line(config@, name@, entry@, verbose),
{
    let mut base = "  ".to_owned();
    push_str(&mut base, name);
    push_str(&mut base, " (v");
    push_str(&mut base, entry.get_version());
    push_str(&mut base, ")");
    if verbose {
        match config.resolve_skill_reference(name, entry) {
            Ok(source) => {
                push_str(&mut base, " - Source: ");
                push_str(&mut base, source.as_str());
            },
            Err(_) => {},
        }
        match entry.get_explicit_convention() {
            Some(convention) => {
                push_str(&mut base, " - Convention: ");
                push_str(&mut base, convention.as_str());
            },
            None => {},
        }
    }
    base
}

} // verus!
