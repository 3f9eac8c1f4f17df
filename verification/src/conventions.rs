//! The convention subsystem: what each agent-framework convention looks
//! for in a fetched skill's files, where it organizes them in the
//! project tree, and the registry whose explicit registration order
//! decides detection ties.

use vstd::prelude::*;

use crate::strutil::{push_str, str_eq};

verus! {

/// What a filesystem probe of a fetched skill's root found. The probe
/// itself is plain input; every detection rule is a function of it.
#[derive(Debug, Clone, Copy, PartialEq, Eq, Structural)]
pub struct DirProbe {
    /// `skill.py` is present.
    pub has_skill_py: bool,
    /// `requirements.txt` is present.
    pub has_requirements_txt: bool,
    /// `tool.yaml` is present.
    pub has_tool_yaml: bool,
    /// Some file with a `.py` extension is present.
    pub has_py_file: bool,
    /// `SKILL.md` is present.
    pub has_skill_md: bool,
    /// `skill.yaml` is present.
    pub has_skill_yaml: bool,
    /// A `scripts` directory is present.
    pub has_scripts_dir: bool,
    /// A `references` directory is present.
    pub has_references_dir: bool,
}

/// The closed set of built-in conventions, in the order they are named.
#[derive(Debug, Clone, Copy, PartialEq, Eq, Structural)]
pub enum ConventionKind {
    /// The Auto-GPT convention.
    AutoGpt,
    /// The LangChain convention.
    Langchain,
    /// The agent-skills convention.
    AgentSkills,
}

/// The registered name of a convention.
pub open spec fn kind_name(k: ConventionKind) -> Seq<char> {
    match k {
        ConventionKind::AutoGpt => "autogpt"@,
        ConventionKind::Langchain => "langchain"@,
        ConventionKind::AgentSkills => "agent-skills"@,
    }
}

/// Whether a convention's detection rule accepts a probe: Auto-GPT asks
/// for `skill.py` and `requirements.txt` together; LangChain for
/// `tool.yaml` or any `.py` file; agent-skills for any of `SKILL.md`,
/// `skill.yaml`, a `scripts` or a `references` directory.
pub open spec fn kind_detects(k: ConventionKind, p: DirProbe) -> bool {
    match k {
        ConventionKind::AutoGpt => p.has_skill_py && p.has_requirements_txt,
        ConventionKind::Langchain => p.has_tool_yaml || p.has_py_file,
        ConventionKind::AgentSkills => p.has_skill_md || p.has_skill_yaml || p.has_scripts_dir
            || p.has_references_dir,
    }
}

/// The names of a sequence of conventions, in order.
pub open spec fn kind_names(s: Seq<ConventionKind>) -> Seq<Seq<char>> {
    s.map_values(|k: ConventionKind| kind_name(k))
}

/// Where a convention organizes a skill inside a project.
pub open spec fn spec_organize_path(
    convention_name: Seq<char>,
    skill_name: Seq<char>,
    project_root: Seq<char>,
) -> Seq<char> {
    project_root + "/skills/"@ + convention_name + "/"@ + skill_name
}

impl ConventionKind {
    /// The registered name.
    pub fn name(&self) -> (r: &'static str)
        ensures
            r@ == kind_name(*self),
    {
        match self {
            ConventionKind::AutoGpt => "autogpt",
            ConventionKind::Langchain => "langchain",
            ConventionKind::AgentSkills => "agent-skills",
        }
    }

    /// Whether this convention's detection rule accepts the probe.
    pub fn detect(&self, probe: &DirProbe) -> (r: bool)
        ensures
            r == kind_detects(*self, *probe),
    {
        match self {
            ConventionKind::AutoGpt => probe.has_skill_py && probe.has_requirements_txt,
            ConventionKind::Langchain => probe.has_tool_yaml || probe.has_py_file,
            ConventionKind::AgentSkills => probe.has_skill_md || probe.has_skill_yaml
                || probe.has_scripts_dir || probe.has_references_dir,
        }
    }
}

/// The destination directory for a skill organized under a convention:
/// `<project_root>/skills/<convention>/<skill>`.
pub fn organize_target_path(convention_name: &str, skill_name: &str, project_root: &str) -> (r:
    String)
    ensures
        r@ == spec_organize_path(convention_name@, skill_name@, project_root@),
{
    let mut out = project_root.to_owned();
    push_str(&mut out, "/skills/");
    push_str(&mut out, convention_name);
    push_str(&mut out, "/");
    push_str(&mut out, skill_name);
    out
}

/// A built-in convention's identity and detection rule. The probe of
/// the filesystem, and the copying that `organize` performs, are the
/// caller's; every rule of the convention is a function of plain
/// values.
pub trait Convention {
    /// The registered name, at the specification level.
    spec fn spec_name(&self) -> Seq<char>;

    /// The registered name.
    fn name(&self) -> (r: &'static str)
        ensures
            r@ == self.spec_name(),
    ;

    /// The convention's version.
    fn version(&self) -> (r: &'static str);

    /// The convention's description.
    fn description(&self) -> (r: &'static str);

    /// Whether the detection rule accepts the probe, at the
    /// specification level.
    spec fn spec_detects(&self, probe: DirProbe) -> bool;

    /// Whether the detection rule accepts the probe.
    fn detect(&self, probe: &DirProbe) -> (r: bool)
        ensures
            r == self.spec_detects(*probe),
    ;

    /// Where the convention organizes a skill inside a project.
    fn organize_path(&self, skill_name: &str, project_root: &str) -> (r: String)
        ensures
            r@ == spec_organize_path(self.spec_name(), skill_name@, project_root@),
    ;
}

/// The Auto-GPT convention: `skill.py` beside `requirements.txt`.
pub struct AutoGptConvention;

impl AutoGptConvention {
    /// The convention, which carries no state.
    pub fn new() -> (r: Self) {
        AutoGptConvention
    }
}

impl Convention for AutoGptConvention {
    open spec fn spec_name(&self) -> Seq<char> {
        "autogpt"@
    }

    fn name(&self) -> (r: &'static str) {
        "autogpt"
    }

    fn version(&self) -> (r: &'static str) {
        "1.0.0"
    }

    fn description(&self) -> (r: &'static str) {
        "Auto-GPT agent framework convention"
    }

    open spec fn spec_detects(&self, probe: DirProbe) -> bool {
        kind_detects(ConventionKind::AutoGpt, probe)
    }

    fn detect(&self, probe: &DirProbe) -> (r: bool) {
        probe.has_skill_py && probe.has_requirements_txt
    }

    fn organize_path(&self, skill_name: &str, project_root: &str) -> (r: String) {
        organize_target_path(self.name(), skill_name, project_root)
    }
}

/// The LangChain convention: `tool.yaml`, or any `.py` file.
pub struct LangchainConvention;

impl LangchainConvention {
    /// The convention, which carries no state.
    pub fn new() -> (r: Self) {
        LangchainConvention
    }
}

impl Convention for LangchainConvention {
    open spec fn spec_name(&self) -> Seq<char> {
        "langchain"@
    }

    fn name(&self) -> (r: &'static str) {
        "langchain"
    }

    fn version(&self) -> (r: &'static str) {
        "1.0.0"
    }

    fn description(&self) -> (r: &'static str) {
        "LangChain agent framework convention"
    }

    open spec fn spec_detects(&self, probe: DirProbe) -> bool {
        kind_detects(ConventionKind::Langchain, probe)
    }

    fn detect(&self, probe: &DirProbe) -> (r: bool) {
        probe.has_tool_yaml || probe.has_py_file
    }

    fn organize_path(&self, skill_name: &str, project_root: &str) -> (r: String) {
        organize_target_path(self.name(), skill_name, project_root)
    }
}

/// The agent-skills convention: `SKILL.md`, `skill.yaml`, a `scripts`
/// directory, or a `references` directory.
pub struct AgentSkillsConvention;

impl AgentSkillsConvention {
    /// The convention, which carries no state.
    pub fn new() -> (r: Self) {
        AgentSkillsConvention
    }
}

impl Convention for AgentSkillsConvention {
    open spec fn spec_name(&self) -> Seq<char> {
        "agent-skills"@
    }

    fn name(&self) -> (r: &'static str) {
        "agent-skills"
    }

    fn version(&self) -> (r: &'static str) {
        "1.0.0"
    }

    fn description(&self) -> (r: &'static str) {
        "Vercel Agent Skills convention (SKILL.md format)"
    }

    open spec fn spec_detects(&self, probe: DirProbe) -> bool {
        kind_detects(ConventionKind::AgentSkills, probe)
    }

    fn detect(&self, probe: &DirProbe) -> (r: bool) {
        probe.has_skill_md || probe.has_skill_yaml || probe.has_scripts_dir
            || probe.has_references_dir
    }

    fn organize_path(&self, skill_name: &str, project_root: &str) -> (r: String) {
        organize_target_path(self.name(), skill_name, project_root)
    }
}

/// The registered conventions, in explicit registration order: the
/// order decides detection ties.
pub struct ConventionRegistry {
    conventions: Vec<ConventionKind>,
}

impl View for ConventionRegistry {
    type V = Seq<ConventionKind>;

    closed spec fn view(&self) -> Seq<ConventionKind> {
        self.conventions@
    }
}

impl ConventionRegistry {
    /// An empty registry.
    pub fn new() -> (r: Self)
        ensures
            r@ == Seq::<ConventionKind>::empty(),
    {
        let r = ConventionRegistry { conventions: Vec::new() };
        proof {
            assert(r@ =~= Seq::<ConventionKind>::empty());
        }
        r
    }

    /// Registers a convention at the end of the order; one already
    /// registered keeps its place.
    pub fn register(&mut self, kind: ConventionKind)
        ensures
            final(self)@ == if old(self)@.contains(kind) {
                old(self)@
            } else {
                old(self)@.push(kind)
            },
    {
        let n: usize = self.conventions.len();
        let mut i: usize = 0;
        while i < n
            invariant
                i <= n,
                n == self.conventions@.len(),
                forall|j: int| 0 <= j < i ==> self.conventions@[j] != kind,
        decreases n - i,
        {
            if self.conventions[i] == kind {
                return ;
            }
            i += 1;
        }
        assert(!self@.contains(kind));
        self.conventions.push(kind);
    }

    /// The registered convention of this name, if any.
    pub fn get(&self, name: &str) -> (r: Option<ConventionKind>)
        ensures
            match r {
                Some(k) => self@.contains(k) && kind_name(k) == name@,
                None => forall|i: int| 0 <= i < self@.len() ==> kind_name(#[trigger] self@[i]) != name@,
            },
    {
        let n: usize = self.conventions.len();
        let mut i: usize = 0;
        while i < n
            invariant
                i <= n,
                n == self.conventions@.len(),
                forall|j: int| 0 <= j < i ==> kind_name(#[trigger] self.conventions@[j]) != name@,
            decreases n - i,
        {
            let k = self.conventions[i];
            if str_eq(k.name(), name) {
                return Some(k);
            }
            i += 1;
        }
        None
    }

    /// The registered names, in registration order.
    pub fn list(&self) -> (r: Vec<String>)
        ensures
            r.deep_view() == kind_names(self@),
    {
        let n: usize = self.conventions.len();
        let mut out: Vec<String> = Vec::new();
        let mut i: usize = 0;
        while i < n
            invariant
                i <= n,
                n == self.conventions@.len(),
                out.deep_view() =~= kind_names(self@).take(i as int),
            decreases n - i,
        {
            let ghost prev = out.deep_view();
            let nm = self.conventions[i].name().to_owned();
            out.push(nm);
            proof {
                assert(kind_names(self@)[i as int] == kind_name(self@[i as int]));
                assert(out.deep_view() =~= prev.push(kind_name(self@[i as int])));
                assert(out.deep_view() =~= kind_names(self@).take(i + 1));
            }
            i += 1;
        }
        proof {
            assert(kind_names(self@).take(n as int) =~= kind_names(self@));
        }
        out
    }

    /// The name of the first registered convention, in registration
    /// order, whose detection rule accepts the probe; `None` when none
    /// does.
    pub fn detect_convention(&self, probe: &DirProbe) -> (r: Option<String>)
        ensures
            match r {
                Some(nm) => exists|i: int|
                    {
                        &&& 0 <= i < self@.len()
                        &&& kind_detects(#[trigger] self@[i], *probe)
                        &&& nm@ == kind_name(self@[i])
                        &&& forall|j: int| 0 <= j < i ==> !kind_detects(#[trigger] self@[j], *probe)
                    },
                None => forall|i: int| 0 <= i < self@.len() ==> !kind_detects(
                    #[trigger] self@[i],
                    *probe,
                ),
            },
    {
        let n: usize = self.conventions.len();
        let mut i: usize = 0;
        while i < n
            invariant
                i <= n,
                n == self.conventions@.len(),
                forall|j: int| 0 <= j < i ==> !kind_detects(#[trigger] self.conventions@[j], *probe),
            decreases n - i,
        {
            let k = self.conventions[i];
            if k.detect(probe) {
                let nm = k.name().to_owned();
                proof {
                    assert(kind_detects(self@[i as int], *probe) && nm@ == kind_name(self@[i as int])
                        && forall|j: int| 0 <= j < i ==> !kind_detects(#[trigger] self@[j], *probe));
                }
                return Some(nm);
            }
            i += 1;
        }
        None
    }
}

} // verus!
