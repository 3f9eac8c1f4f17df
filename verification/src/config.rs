//! The project's skill configuration: per-skill entries, the optional
//! registry override, the optional list of enabled conventions, and the
//! resolution of simplified names to OCI references.

use vstd::prelude::*;

use crate::error::{SkillsetError, SkillsetResult};
use crate::strutil::{
    clone_string_vec, find_char, first_index_of, lemma_first_index_of, push_str, str_eq, substr,
};

verus! {

/// The registry assumed when the configuration names none.
pub open spec fn default_registry() -> Seq<char> {
    "ghcr.io/skillset"@
}

/// The conventions enabled when the configuration names none.
pub open spec fn default_conventions() -> Seq<Seq<char>> {
    seq!["autogpt"@, "langchain"@, "agent-skills"@]
}

/// The abstract value of one skill's configuration entry.
pub enum SkillConfigView {
    /// Just a version.
    Simple(Seq<char>),
    /// A version with optional explicit source and convention.
    Detailed { version: Seq<char>, source: Option<Seq<char>>, convention: Option<Seq<char>> },
}

impl SkillConfigView {
    /// The version recorded in the entry.
    pub open spec fn version(self) -> Seq<char> {
        match self {
            SkillConfigView::Simple(v) => v,
            SkillConfigView::Detailed { version, .. } => version,
        }
    }

    /// The explicit source, when the entry records one.
    pub open spec fn source(self) -> Option<Seq<char>> {
        match self {
            SkillConfigView::Simple(_) => None,
            SkillConfigView::Detailed { source, .. } => source,
        }
    }

    /// The explicit convention, when the entry records one.
    pub open spec fn convention(self) -> Option<Seq<char>> {
        match self {
            SkillConfigView::Simple(_) => None,
            SkillConfigView::Detailed { convention, .. } => convention,
        }
    }
}

/// One skill's configuration entry: either a bare version, or a version
/// with optional source and convention overrides.
#[derive(Debug, Clone)]
pub enum SkillConfig {
    /// Just a version.
    Simple(String),
    /// A version with optional explicit source and convention.
    Detailed { version: String, source: Option<String>, convention: Option<String> },
}

impl View for SkillConfig {
    type V = SkillConfigView;

    open spec fn view(&self) -> SkillConfigView {
        match self {
            SkillConfig::Simple(v) => SkillConfigView::Simple(v@),
            SkillConfig::Detailed { version, source, convention } => SkillConfigView::Detailed {
                version: version.deep_view(),
                source: source.deep_view(),
                convention: convention.deep_view(),
            },
        }
    }
}

impl SkillConfig {
    /// The version recorded in the entry.
    pub fn get_version(&self) -> (r: &str)
        ensures
            r@ == self@.version(),
    {
        match self {
            SkillConfig::Simple(version) => version.as_str(),
            SkillConfig::Detailed { version, .. } => version.as_str(),
        }
    }

    /// Whether the entry records an explicit source.
    pub fn has_explicit_source(&self) -> (r: bool)
        ensures
            r == (self@.source() is Some),
    {
        match self {
            SkillConfig::Detailed { source: Some(_), .. } => true,
            _ => false,
        }
    }

    /// The explicit source, when the entry records one.
    pub fn get_explicit_source(&self) -> (r: Option<&String>)
        ensures
            match r {
                Some(s) => self@.source() == Some(s@),
                None => self@.source() is None,
            },
    {
        match self {
            SkillConfig::Detailed { source: Some(s), .. } => Some(s),
            _ => None,
        }
    }

    /// The explicit convention, when the entry records one.
    pub fn get_explicit_convention(&self) -> (r: Option<&String>)
        ensures
            match r {
                Some(c) => self@.convention() == Some(c@),
                None => self@.convention() is None,
            },
    {
        match self {
            SkillConfig::Detailed { convention: Some(c), .. } => Some(c),
            _ => None,
        }
    }
}

/// A named configuration entry.
#[derive(Debug, Clone)]
pub struct SkillEntry {
    /// The skill's name, unique within a configuration.
    pub name: String,
    /// The skill's entry.
    pub config: SkillConfig,
}

/// The abstract value of a whole configuration.
pub struct SkillsetConfigView {
    /// The entries, in insertion order.
    pub skills: Seq<(Seq<char>, SkillConfigView)>,
    /// The registry override, if any.
    pub registry: Option<Seq<char>>,
    /// The explicit convention list, if any.
    pub conventions: Option<Seq<Seq<char>>>,
}

/// The entries as a map, later entries winning.
pub open spec fn entries_map(s: Seq<(Seq<char>, SkillConfigView)>) -> Map<
    Seq<char>,
    SkillConfigView,
>
    decreases s.len(),
{
    if s.len() == 0 {
        Map::empty()
    } else {
        entries_map(s.drop_last()).insert(s.last().0, s.last().1)
    }
}

/// Whether some entry carries the name `n`.
pub open spec fn entries_have_name(s: Seq<(Seq<char>, SkillConfigView)>, n: Seq<char>) -> bool {
    exists|i: int| 0 <= i < s.len() && (#[trigger] s[i]).0 == n
}

/// Entry names are pairwise distinct.
pub open spec fn entries_unique(s: Seq<(Seq<char>, SkillConfigView)>) -> bool {
    forall|i: int, j: int| 0 <= i < j < s.len() ==> (#[trigger] s[i]).0 != (#[trigger] s[j]).0
}

/// The entry map holds a name exactly when some entry carries it.
pub proof fn lemma_entries_map_contains(s: Seq<(Seq<char>, SkillConfigView)>, n: Seq<char>)
    ensures
        entries_map(s).contains_key(n) <==> entries_have_name(s, n),
    decreases s.len(),
{
    if s.len() > 0 {
        lemma_entries_map_contains(s.drop_last(), n);
        if s.last().0 == n {
            assert((s[s.len() - 1]).0 == n);
        }
        if entries_have_name(s.drop_last(), n) {
            let i = choose|i: int| 0 <= i < s.drop_last().len() && (#[trigger] s.drop_last()[i]).0 == n;
            assert((s[i]).0 == n);
        }
        if entries_have_name(s, n) && s.last().0 != n {
            let i = choose|i: int| 0 <= i < s.len() && (#[trigger] s[i]).0 == n;
            assert(i < s.len() - 1);
            assert((s.drop_last()[i]).0 == n);
        }
    }
}

/// With unique names, the entry map sends a carried name to its entry's value.
pub proof fn lemma_entries_map_lookup(s: Seq<(Seq<char>, SkillConfigView)>, i: int)
    requires
        entries_unique(s),
        0 <= i < s.len(),
    ensures
        entries_map(s).contains_key(s[i].0),
        entries_map(s)[s[i].0] == s[i].1,
    decreases s.len(),
{
    if i == s.len() - 1 {
    } else {
        assert(s.drop_last()[i] == s[i]);
        lemma_entries_map_lookup(s.drop_last(), i);
        assert(s.last().0 != s[i].0);
    }
}

/// Replacing the entry that carries a name updates the map at that name.
pub proof fn lemma_entries_map_update(
    s: Seq<(Seq<char>, SkillConfigView)>,
    i: int,
    e: (Seq<char>, SkillConfigView),
)
    requires
        entries_unique(s),
        0 <= i < s.len(),
        s[i].0 == e.0,
    ensures
        entries_map(s.update(i, e)) == entries_map(s).insert(e.0, e.1),
        entries_unique(s.update(i, e)),
    decreases s.len(),
{
    let su = s.update(i, e);
    assert(entries_unique(su)) by {
        assert(forall|a: int| 0 <= a < s.len() && a != i ==> (#[trigger] su[a]).0 == s[a].0);
        assert(su[i].0 == s[i].0);
    }
    if i == s.len() - 1 {
        assert(su.drop_last() =~= s.drop_last());
        assert(su.last() == e);
        assert(entries_map(s.drop_last()).insert(s.last().0, s.last().1).insert(e.0, e.1)
            =~= entries_map(s.drop_last()).insert(e.0, e.1));
    } else {
        assert(su.drop_last() =~= s.drop_last().update(i, e));
        assert(s.drop_last()[i] == s[i]);
        lemma_entries_map_update(s.drop_last(), i, e);
        assert(su.last() == s.last());
        assert(s.last().0 != e.0);
        assert(entries_map(s.drop_last()).insert(e.0, e.1).insert(s.last().0, s.last().1)
            =~= entries_map(s.drop_last()).insert(s.last().0, s.last().1).insert(e.0, e.1));
    }
}

/// Appending an entry with a fresh name inserts it into the map.
pub proof fn lemma_entries_map_push(
    s: Seq<(Seq<char>, SkillConfigView)>,
    e: (Seq<char>, SkillConfigView),
)
    requires
        entries_unique(s),
        !entries_have_name(s, e.0),
    ensures
        entries_map(s.push(e)) == entries_map(s).insert(e.0, e.1),
        entries_unique(s.push(e)),
{
    let sp = s.push(e);
    assert(sp.drop_last() =~= s);
    assert(sp.last() == e);
    assert(entries_unique(sp)) by {
        assert(forall|a: int| 0 <= a < s.len() ==> (#[trigger] sp[a]).0 == s[a].0);
        assert(forall|a: int| 0 <= a < s.len() ==> s[a].0 != e.0) by {
            assert(forall|a: int| 0 <= a < s.len() ==> (#[trigger] s[a]).0 == s[a].0);
        }
    }
}

/// Removing the entry that carries a name removes that name from the map.
pub proof fn lemma_entries_map_remove(s: Seq<(Seq<char>, SkillConfigView)>, i: int)
    requires
        entries_unique(s),
        0 <= i < s.len(),
    ensures
        entries_map(s.remove(i)) == entries_map(s).remove(s[i].0),
        entries_unique(s.remove(i)),
    decreases s.len(),
{
    let sr = s.remove(i);
    assert(entries_unique(sr)) by {
        assert(forall|a: int| 0 <= a < sr.len() ==> (#[trigger] sr[a]).0 == if a < i {
            s[a].0
        } else {
            s[a + 1].0
        });
    }
    if i == s.len() - 1 {
        assert(sr =~= s.drop_last());
        lemma_entries_map_contains(s.drop_last(), s[i].0);
        assert(!entries_have_name(s.drop_last(), s[i].0)) by {
            if entries_have_name(s.drop_last(), s[i].0) {
                let a = choose|a: int|
                    0 <= a < s.drop_last().len() && (#[trigger] s.drop_last()[a]).0 == s[i].0;
                assert((s[a]).0 == s[i].0);
            }
        }
        assert(entries_map(s.drop_last()).insert(s.last().0, s.last().1).remove(s.last().0)
            =~= entries_map(s.drop_last()));
    } else {
        assert(sr.drop_last() =~= s.drop_last().remove(i));
        assert(s.drop_last()[i] == s[i]);
        lemma_entries_map_remove(s.drop_last(), i);
        assert(sr.last() == s.last());
        assert(s.last().0 != s[i].0);
        assert(entries_map(s.drop_last()).remove(s[i].0).insert(s.last().0, s.last().1)
            =~= entries_map(s.drop_last()).insert(s.last().0, s.last().1).remove(s[i].0));
    }
}

impl SkillsetConfigView {
    /// The configuration's skills as a map from name to entry.
    pub open spec fn skills_map(self) -> Map<Seq<char>, SkillConfigView> {
        entries_map(self.skills)
    }

    /// Names are unique across the entries.
    pub open spec fn wf(self) -> bool {
        entries_unique(self.skills)
    }

    /// The registry in force: the override, or the default.
    pub open spec fn effective_registry(self) -> Seq<char> {
        match self.registry {
            Some(r) => r,
            None => default_registry(),
        }
    }

    /// The conventions in force: the explicit list, or the default triple.
    pub open spec fn effective_conventions(self) -> Seq<Seq<char>> {
        match self.conventions {
            Some(cs) => cs,
            None => default_conventions(),
        }
    }
}

/// The project's configuration: its skills, and optional registry and
/// convention overrides.
#[derive(Debug, Clone)]
pub struct SkillsetConfig {
    /// The configured skills, in insertion order, names unique.
    pub skills: Vec<SkillEntry>,
    /// The registry override, if any.
    pub registry: Option<String>,
    /// The explicit convention list, if any.
    pub conventions: Option<Vec<String>>,
}

/// The abstract value of a sequence of entries.
pub open spec fn entry_views(s: Seq<SkillEntry>) -> Seq<(Seq<char>, SkillConfigView)> {
    s.map_values(|e: SkillEntry| (e.name@, e.config@))
}

impl View for SkillsetConfig {
    type V = SkillsetConfigView;

    open spec fn view(&self) -> SkillsetConfigView {
        SkillsetConfigView {
            skills: entry_views(self.skills@),
            registry: self.registry.deep_view(),
            conventions: self.conventions.deep_view(),
        }
    }
}

impl Default for SkillsetConfig {
    /// An empty configuration: no skills, no overrides.
    fn default() -> (r: Self)
        ensures
            r@.skills == Seq::<(Seq<char>, SkillConfigView)>::empty(),
            r@.registry is None,
            r@.conventions is None,
            r@.wf(),
    {
        let r = SkillsetConfig { skills: Vec::new(), registry: None, conventions: None };
        proof {
            assert(r@.skills =~= Seq::<(Seq<char>, SkillConfigView)>::empty());
        }
        r
    }
}

impl SkillsetConfig {
    /// The registry in force: the configured override, or `ghcr.io/skillset`.
    pub fn get_registry(&self) -> (r: &str)
        ensures
            r@ == self@.effective_registry(),
    {
        match &self.registry {
            Some(s) => s.as_str(),
            None => "ghcr.io/skillset",
        }
    }

    /// The conventions in force: the configured list, or the default
    /// triple `autogpt`, `langchain`, `agent-skills`.
    pub fn get_conventions(&self) -> (r: Vec<String>)
        ensures
            r.deep_view() == self@.effective_conventions(),
    {
        match &self.conventions {
            Some(v) => {
                let r = clone_string_vec(v);
                proof {
                    assert(r.deep_view() =~= self@.effective_conventions());
                }
                r
            },
            None => {
                let mut out: Vec<String> = Vec::new();
                out.push("autogpt".to_owned());
                out.push("langchain".to_owned());
                out.push("agent-skills".to_owned());
                proof {
                    assert(out.deep_view() =~= default_conventions());
                }
                out
            },
        }
    }

    /// The position of the entry carrying `name`, if any.
    fn find_skill_index(&self, name: &str) -> (r: Option<usize>)
        ensures
            match r {
                Some(i) => i < self@.skills.len() && self@.skills[i as int].0 == name@,
                None => !entries_have_name(self@.skills, name@),
            },
    {
        let n: usize = self.skills.len();
        let mut i: usize = 0;
        while i < n
            invariant
                i <= n,
                n == self.skills@.len(),
                forall|j: int| 0 <= j < i ==> (#[trigger] self@.skills[j]).0 != name@,
            decreases n - i,
        {
            assert(self@.skills[i as int].0 == self.skills@[i as int].name@);
            if str_eq(self.skills[i].name.as_str(), name) {
                return Some(i);
            }
            i += 1;
        }
        None
    }

    /// Whether the configuration holds a skill of this name.
    pub fn contains_skill(&self, name: &str) -> (r: bool)
        ensures
            r == self@.skills_map().contains_key(name@),
    {
        proof {
            lemma_entries_map_contains(self@.skills, name@);
        }
        match self.find_skill_index(name) {
            Some(i) => {
                proof {
                    assert(entries_have_name(self@.skills, name@)) by {
                        assert((self@.skills[i as int]).0 == name@);
                    }
                }
                true
            },
            None => false,
        }
    }

    /// The entry of the skill of this name, if the configuration holds one.
    pub fn get_skill(&self, name: &str) -> (r: Option<&SkillConfig>)
        requires
            self@.wf(),
        ensures
            match r {
                Some(c) => self@.skills_map().contains_key(name@) && self@.skills_map()[name@]
                    == c@,
                None => !self@.skills_map().contains_key(name@),
            },
    {
        proof {
            lemma_entries_map_contains(self@.skills, name@);
        }
        match self.find_skill_index(name) {
            Some(i) => {
                proof {
                    lemma_entries_map_lookup(self@.skills, i as int);
                }
                Some(&self.skills[i].config)
            },
            None => None,
        }
    }

    /// Records a skill entry, replacing any entry of the same name.
    pub fn insert_skill(&mut self, name: String, config: SkillConfig)
        requires
            old(self)@.wf(),
        ensures
            final(self)@.wf(),
            final(self)@.skills_map() == old(self)@.skills_map().insert(name@, config@),
            final(self)@.registry == old(self)@.registry,
            final(self)@.conventions == old(self)@.conventions,
    {
        let entry = SkillEntry { name, config };
        let ghost e = (entry.name@, entry.config@);
        match self.find_skill_index(entry.name.as_str()) {
            Some(i) => {
                proof {
                    lemma_entries_map_update(self@.skills, i as int, e);
                }
                let ghost before = self@.skills;
                self.skills.set(i, entry);
                proof {
                    assert(self@.skills =~= before.update(i as int, e));
                }
            },
            None => {
                proof {
                    lemma_entries_map_push(self@.skills, e);
                }
                let ghost before = self@.skills;
                self.skills.push(entry);
                proof {
                    assert(self@.skills =~= before.push(e));
                }
            },
        }
    }

    /// Drops the skill of this name. Returns whether an entry was
    /// dropped; without one the configuration is unchanged.
    pub fn remove_skill_entry(&mut self, name: &str) -> (r: bool)
        requires
            old(self)@.wf(),
        ensures
            final(self)@.wf(),
            r == old(self)@.skills_map().contains_key(name@),
            final(self)@.skills_map() == old(self)@.skills_map().remove(name@),
            final(self)@.registry == old(self)@.registry,
            final(self)@.conventions == old(self)@.conventions,
            !r ==> *final(self) == *old(self),
    {
        proof {
            lemma_entries_map_contains(self@.skills, name@);
        }
        match self.find_skill_index(name) {
            Some(i) => {
                proof {
                    assert(entries_have_name(self@.skills, name@)) by {
                        assert((self@.skills[i as int]).0 == name@);
                    }
                    lemma_entries_map_remove(self@.skills, i as int);
                }
                let ghost before = self@.skills;
                self.skills.remove(i);
                proof {
                    assert(self@.skills =~= before.remove(i as int));
                }
                true
            },
            None => {
                proof {
                    assert(old(self)@.skills_map().remove(name@) =~= old(self)@.skills_map());
                }
                false
            },
        }
    }

    /// Whether the configuration holds no skills.
    pub fn skills_is_empty(&self) -> (r: bool)
        ensures
            r == (self@.skills.len() == 0),
    {
        self.skills.len() == 0
    }

    /// Enables a convention by name, at the end of the effective list.
    /// Returns whether anything changed: an already enabled name leaves
    /// the configuration as it stands, and a name outside the built-in
    /// triple fails with a `Config` error.
    #[verifier::loop_isolation(false)]
    pub fn enable_convention(&mut self, name: &str) -> (r: SkillsetResult<bool>)
        ensures
            final(self)@.skills == old(self)@.skills,
            final(self)@.registry == old(self)@.registry,
            match r {
                Ok(true) => {
                    &&& !old(self)@.effective_conventions().contains(name@)
                    &&& (name@ == "autogpt"@ || name@ == "langchain"@ || name@ == "agent-skills"@)
                    &&& final(self)@.conventions == Some(
                        old(self)@.effective_conventions().push(name@),
                    )
                },
                Ok(false) => {
                    &&& old(self)@.effective_conventions().contains(name@)
                    &&& *final(self) == *old(self)
                },
                Err(e) => {
                    &&& e is Config
                    &&& !old(self)@.effective_conventions().contains(name@)
                    &&& !(name@ == "autogpt"@ || name@ == "langchain"@ || name@ == "agent-skills"@)
                    &&& *final(self) == *old(self)
                },
            },
    {
        let mut conventions = self.get_conventions();
        let n: usize = conventions.len();
        let mut i: usize = 0;
        while i < n
            invariant
                i <= n,
                n == conventions@.len(),
                conventions.deep_view() == self@.effective_conventions(),
                forall|j: int| 0 <= j < i ==> conventions.deep_view()[j] != name@,
            decreases n - i,
        {
            assert(conventions.deep_view()[i as int] == conventions@[i as int]@);
            if str_eq(conventions[i].as_str(), name) {
                assert(self@.effective_conventions().contains(name@));
                return Ok(false);
            }
            i += 1;
        }
        assert(!self@.effective_conventions().contains(name@));
        if !(str_eq(name, "autogpt") || str_eq(name, "langchain") || str_eq(name, "agent-skills"))
        {
            let mut msg = "Unknown convention: ".to_owned();
            push_str(&mut msg, name);
            push_str(&mut msg, ". Available: autogpt, langchain, agent-skills");
            return Err(SkillsetError::Config(msg));
        }
        let ghost before = conventions.deep_view();
        conventions.push(name.to_owned());
        proof {
            assert(conventions.deep_view() =~= before.push(name@));
        }
        self.conventions = Some(conventions);
        Ok(true)
    }

    /// Disables a convention by name, dropping its first occurrence
    /// from the effective list. Returns whether anything changed: a
    /// name not enabled leaves the configuration as it stands.
    #[verifier::loop_isolation(false)]
    pub fn disable_convention(&mut self, name: &str) -> (r: bool)
        ensures
            final(self)@.skills == old(self)@.skills,
            final(self)@.registry == old(self)@.registry,
            if r {
                exists|i: int|
                    {
                        &&& 0 <= i < old(self)@.effective_conventions().len()
                        &&& #[trigger] old(self)@.effective_conventions()[i] == name@
                        &&& forall|j: int|
                            0 <= j < i ==> old(self)@.effective_conventions()[j] != name@
                        &&& final(self)@.conventions == Some(
                            old(self)@.effective_conventions().remove(i),
                        )
                    }
            } else {
                &&& !old(self)@.effective_conventions().contains(name@)
                &&& *final(self) == *old(self)
            },
    {
        let mut conventions = self.get_conventions();
        let n: usize = conventions.len();
        let mut i: usize = 0;
        while i < n
            invariant
                i <= n,
                n == conventions@.len(),
                *self == *old(self),
                conventions.deep_view() == self@.effective_conventions(),
                forall|j: int| 0 <= j < i ==> conventions.deep_view()[j] != name@,
            decreases n - i,
        {
            assert(conventions.deep_view()[i as int] == conventions@[i as int]@);
            if str_eq(conventions[i].as_str(), name) {
                let ghost before = conventions.deep_view();
                let ghost pos = i as int;
                conventions.remove(i);
                proof {
                    assert(conventions.deep_view() =~= before.remove(pos));
                }
                self.conventions = Some(conventions);
                return true;
            }
            i += 1;
        }
        assert(!self@.effective_conventions().contains(name@));
        false
    }

    /// What a flexible load yields: a missing file gives the empty
    /// default configuration; unreadable content gives a `Config`
    /// error; readable content gives its configuration. The caller
    /// reads the file and parses its JSON; this settles what each
    /// outcome means.
    pub fn load_from_file_flexible(loaded: Option<SkillsetResult<SkillsetConfig>>) -> (r:
        SkillsetResult<SkillsetConfig>)
        ensures
            match loaded {
                None => r matches Ok(c) && c@.skills.len() == 0 && c@.registry is None
                    && c@.conventions is None,
                Some(l) => match l {
                    Ok(c) => r matches Ok(rc) && rc == c,
                    Err(_) => r matches Err(e) && e is Config,
                },
            },
    {
        match loaded {
            None => Ok(SkillsetConfig::default()),
            Some(l) => match l {
                Ok(c) => Ok(c),
                Err(_) => Err(
                    SkillsetError::Config("Configuration file not found: skillset.json".to_owned()),
                ),
            },
        }
    }

    /// Resolves a simplified name and version against the registry in
    /// force to an `oci:` reference; `None` for a scoped name without a
    /// slash, which cannot be resolved.
    pub fn resolve_name_to_oci_reference(&self, skill_name: &str, version: &str) -> (r:
        SkillsetResult<String>)
        ensures
            match r {
                Ok(s) => spec_resolve_name(self@.effective_registry(), skill_name@, version@)
                    == Some(s@),
                Err(e) => {
                    &&& spec_resolve_name(self@.effective_registry(), skill_name@, version@)
                        is None
                    &&& e is InvalidSkillName
                },
            },
    {
        let registry = self.get_registry();
        let rn: usize = registry.unicode_len();
        let mut domain: String;
        let mut namespace: String;
        match find_char(registry, '/') {
            Some(k) => {
                proof {
                    lemma_first_index_of(registry@, '/', k as int);
                }
                domain = substr(registry, 0, k);
                let rest = substr(registry, k + 1, rn);
                let rm: usize = rest.as_str().unicode_len();
                match find_char(rest.as_str(), '/') {
                    Some(k2) => {
                        proof {
                            lemma_first_index_of(rest@, '/', k2 as int);
                        }
                        namespace = substr(rest.as_str(), 0, k2);
                    },
                    None => {
                        namespace = rest;
                    },
                }
            },
            None => {
                domain = registry.to_owned();
                namespace = "skillset".to_owned();
            },
        }
        assert(domain@ == registry_domain(self@.effective_registry()));
        assert(namespace@ == registry_namespace(self@.effective_registry()));
        let vn: usize = version.unicode_len();
        let mut pv: String;
        if vn > 0 && version.get_char(0) == 'v' {
            pv = version.to_owned();
        } else {
            pv = "v".to_owned();
            push_str(&mut pv, version);
        }
        assert(pv@ == prefixed_version(version@));
        let n: usize = skill_name.unicode_len();
        if n > 0 && skill_name.get_char(0) == '@' {
            let rest = substr(skill_name, 1, n);
            let rm: usize = rest.as_str().unicode_len();
            match find_char(rest.as_str(), '/') {
                None => {
                    let mut msg = "Invalid scoped skill name: ".to_owned();
                    push_str(&mut msg, skill_name);
                    push_str(&mut msg, ". Expected format: @user/skill");
                    Err(SkillsetError::InvalidSkillName(msg))
                },
                Some(k) => {
                    proof {
                        lemma_first_index_of(rest@, '/', k as int);
                    }
                    let user = substr(rest.as_str(), 0, k);
                    let sname = substr(rest.as_str(), k + 1, rm);
                    let mut out = "oci:".to_owned();
                    push_str(&mut out, domain.as_str());
                    push_str(&mut out, "/");
                    push_str(&mut out, user.as_str());
                    push_str(&mut out, "/");
                    push_str(&mut out, sname.as_str());
                    push_str(&mut out, ":");
                    push_str(&mut out, pv.as_str());
                    Ok(out)
                },
            }
        } else {
            let mut out = "oci:".to_owned();
            push_str(&mut out, domain.as_str());
            push_str(&mut out, "/");
            push_str(&mut out, namespace.as_str());
            push_str(&mut out, "/");
            push_str(&mut out, skill_name);
            push_str(&mut out, ":");
            push_str(&mut out, pv.as_str());
            Ok(out)
        }
    }

    /// The concrete source for a configured skill: its explicit source
    /// when recorded, else the name resolved against the registry.
    pub fn resolve_skill_reference(&self, skill_name: &str, skill_config: &SkillConfig) -> (r:
        SkillsetResult<String>)
        ensures
            match r {
                Ok(s) => spec_resolve_skill_reference(self@, skill_name@, skill_config@) == Some(
                    s@,
                ),
                Err(e) => {
                    &&& spec_resolve_skill_reference(self@, skill_name@, skill_config@) is None
                    &&& e is InvalidSkillName
                },
            },
    {
        match skill_config.get_explicit_source() {
            Some(source) => Ok(source.clone()),
            None => self.resolve_name_to_oci_reference(skill_name, skill_config.get_version()),
        }
    }
}

/// The domain of a registry string: its first `/`-separated segment.
pub open spec fn registry_domain(r: Seq<char>) -> Seq<char> {
    if r.contains('/') {
        r.subrange(0, first_index_of(r, '/'))
    } else {
        r
    }
}

/// The default namespace of a registry string: its second `/`-separated
/// segment, or `skillset` when it has only one.
pub open spec fn registry_namespace(r: Seq<char>) -> Seq<char> {
    if r.contains('/') {
        let rest = r.subrange(first_index_of(r, '/') + 1, r.len() as int);
        if rest.contains('/') {
            rest.subrange(0, first_index_of(rest, '/'))
        } else {
            rest
        }
    } else {
        "skillset"@
    }
}

/// The version with a `v` put in front unless it already has one.
pub open spec fn prefixed_version(v: Seq<char>) -> Seq<char> {
    if v.len() > 0 && v[0] == 'v' {
        v
    } else {
        "v"@ + v
    }
}

/// A simplified name resolved against a registry: scoped names take the
/// registry's domain and their own user; unscoped names take the
/// registry's domain and namespace. A scoped name without a slash does
/// not resolve.
pub open spec fn spec_resolve_name(
    registry: Seq<char>,
    name: Seq<char>,
    version: Seq<char>,
) -> Option<Seq<char>> {
    if name.len() > 0 && name[0] == '@' {
        let rest = name.subrange(1, name.len() as int);
        if rest.contains('/') {
            let k = first_index_of(rest, '/');
            Some(
                "oci:"@ + registry_domain(registry) + "/"@ + rest.subrange(0, k) + "/"@
                    + rest.subrange(k + 1, rest.len() as int) + ":"@ + prefixed_version(version),
            )
        } else {
            None
        }
    } else {
        Some(
            "oci:"@ + registry_domain(registry) + "/"@ + registry_namespace(registry) + "/"@ + name
                + ":"@ + prefixed_version(version),
        )
    }
}

/// What `resolve_skill_reference` returns: the entry's explicit source,
/// or the resolved name.
pub open spec fn spec_resolve_skill_reference(
    config: SkillsetConfigView,
    name: Seq<char>,
    entry: SkillConfigView,
) -> Option<Seq<char>> {
    match entry.source() {
        Some(src) => Some(src),
        None => spec_resolve_name(config.effective_registry(), name, entry.version()),
    }
}

} // verus!
