//! Rendering a configuration as the `skillset.json` text: two-space
//! pretty printing, bare-version entries as JSON strings, detailed
//! entries as objects, and the registry and convention keys omitted
//! exactly when the configuration leaves them unset.

use vstd::prelude::*;

use crate::config::{SkillConfig, SkillConfigView, SkillEntry, SkillsetConfig, SkillsetConfigView};
use crate::strutil::push_str;

verus! {

/// Whether a character is rendered by an escape in a JSON string.
pub open spec fn json_special(c: char) -> bool {
    c == '"' || c == '\\' || c == '\n' || c == '\r' || c == '\t'
}

/// The rendering of one character inside a JSON string: quotes,
/// backslashes and the common whitespace controls get escapes, every
/// other character stands for itself.
pub open spec fn json_escape_char(c: char) -> Seq<char> {
    if c == '"' {
        seq!['\\', '"']
    } else if c == '\\' {
        seq!['\\', '\\']
    } else if c == '\n' {
        seq!['\\', 'n']
    } else if c == '\r' {
        seq!['\\', 'r']
    } else if c == '\t' {
        seq!['\\', 't']
    } else {
        seq![c]
    }
}

/// The rendering of a string's characters inside a JSON string.
pub open spec fn json_escape(s: Seq<char>) -> Seq<char>
    decreases s.len(),
{
    if s.len() == 0 {
        Seq::empty()
    } else {
        json_escape(s.drop_last()) + json_escape_char(s.last())
    }
}

/// A quoted, escaped JSON string.
pub open spec fn json_string(s: Seq<char>) -> Seq<char> {
    seq!['"'] + json_escape(s) + seq!['"']
}

/// A quoted string, or `null` for an absent value.
pub open spec fn json_opt_string(o: Option<Seq<char>>) -> Seq<char> {
    match o {
        Some(s) => json_string(s),
        None => "null"@,
    }
}

/// Escaping distributes over concatenation.
pub proof fn lemma_json_escape_concat(a: Seq<char>, b: Seq<char>)
    ensures
        json_escape(a + b) == json_escape(a) + json_escape(b),
    decreases b.len(),
{
    if b.len() == 0 {
        assert(a + b =~= a);
        assert(json_escape(a) + json_escape(b) =~= json_escape(a));
    } else {
        assert((a + b).drop_last() =~= a + b.drop_last());
        lemma_json_escape_concat(a, b.drop_last());
        assert((a + b).last() == b.last());
        assert(json_escape(a) + json_escape(b.drop_last()) + json_escape_char(b.last())
            =~= json_escape(a) + (json_escape(b.drop_last()) + json_escape_char(b.last())));
    }
}

/// A run without special characters renders as itself.
pub proof fn lemma_json_escape_plain(s: Seq<char>)
    requires
        forall|i: int| 0 <= i < s.len() ==> !json_special(#[trigger] s[i]),
    ensures
        json_escape(s) == s,
    decreases s.len(),
{
    if s.len() > 0 {
        assert(forall|i: int| 0 <= i < s.len() - 1 ==> s.drop_last()[i] == s[i]);
        lemma_json_escape_plain(s.drop_last());
        assert(!json_special(s.last()));
        assert(json_escape_char(s.last()) == seq![s.last()]);
        assert(s.drop_last() + seq![s.last()] =~= s);
    }
}

/// Renders a string's characters with JSON escapes.
#[verifier::loop_isolation(false)]
fn escape_json(s: &str) -> (r: String)
    ensures
        r@ == json_escape(s@),
{
    let n: usize = s.unicode_len();
    let mut out = String::new();
    let mut start: usize = 0;
    let mut i: usize = 0;
    while i < n
        invariant
            start <= i <= n,
            out@ == json_escape(s@.take(start as int)),
            forall|j: int| start <= j < i ==> !json_special(#[trigger] s@[j]),
        decreases n - i,
    {
        let c = s.get_char(i);
        if c == '"' || c == '\\' || c == '\n' || c == '\r' || c == '\t' {
            push_str(&mut out, s.substring_char(start, i));
            if c == '"' {
                push_str(&mut out, "\\\"");
                proof {
                    reveal_strlit("\\\"");
                }
            } else if c == '\\' {
                push_str(&mut out, "\\\\");
                proof {
                    reveal_strlit("\\\\");
                }
            } else if c == '\n' {
                push_str(&mut out, "\\n");
                proof {
                    reveal_strlit("\\n");
                }
            } else if c == '\r' {
                push_str(&mut out, "\\r");
                proof {
                    reveal_strlit("\\r");
                }
            } else {
                push_str(&mut out, "\\t");
                proof {
                    reveal_strlit("\\t");
                }
            }
            proof {
                let pre = s@.take(start as int);
                let run = s@.subrange(start as int, i as int);
                lemma_json_escape_plain(run);
                lemma_json_escape_concat(pre, run);
                assert(pre + run =~= s@.take(i as int));
                assert(s@.take(i + 1).drop_last() =~= s@.take(i as int));
                assert(s@.take(i + 1).last() == s@[i as int]);
                assert(json_escape(s@.take(i + 1)) == json_escape(s@.take(i as int))
                    + json_escape_char(s@[i as int]));
                assert(out@ =~= json_escape(s@.take(i + 1)));
            }
            start = i + 1;
        }
        i += 1;
    }
    push_str(&mut out, s.substring_char(start, n));
    proof {
        let pre = s@.take(start as int);
        let run = s@.subrange(start as int, n as int);
        lemma_json_escape_plain(run);
        lemma_json_escape_concat(pre, run);
        assert(pre + run =~= s@);
    }
    out
}

/// Appends a quoted, escaped JSON string.
fn push_json_string(out: &mut String, s: &str)
    ensures
        final(out)@ == old(out)@ + json_string(s@),
{
    push_str(out, "\"");
    let escaped = escape_json(s);
    push_str(out, escaped.as_str());
    push_str(out, "\"");
    proof {
        reveal_strlit("\"");
        assert(final(out)@ =~= old(out)@ + json_string(s@));
    }
}

/// Appends a quoted string or `null`.
fn push_json_opt_string(out: &mut String, o: Option<&String>)
    ensures
        final(out)@ == old(out)@ + json_opt_string(match o {
            Some(s) => Some(s@),
            None => None,
        }),
{
    match o {
        Some(s) => push_json_string(out, s.as_str()),
        None => push_str(out, "null"),
    }
}

/// The rendering of one entry's value: a bare version as a string, a
/// detailed entry as an object over three lines.
pub open spec fn json_of_entry_value(e: SkillConfigView) -> Seq<char> {
    match e {
        SkillConfigView::Simple(v) => json_string(v),
        SkillConfigView::Detailed { version, source, convention } => "{\n      \"version\": "@
            + json_string(version) + ",\n      \"source\": "@ + json_opt_string(source)
            + ",\n      \"convention\": "@ + json_opt_string(convention) + "\n    }"@,
    }
}

/// The rendering of one named entry, indented as an object member.
pub open spec fn json_of_entry(e: (Seq<char>, SkillConfigView)) -> Seq<char> {
    "    "@ + json_string(e.0) + ": "@ + json_of_entry_value(e.1)
}

/// The comma-joined rendering of the entries.
pub open spec fn json_of_entries(s: Seq<(Seq<char>, SkillConfigView)>) -> Seq<char>
    decreases s.len(),
{
    if s.len() == 0 {
        Seq::empty()
    } else if s.len() == 1 {
        json_of_entry(s[0])
    } else {
        json_of_entries(s.drop_last()) + ",\n"@ + json_of_entry(s.last())
    }
}

/// The comma-joined rendering of an explicit convention list.
pub open spec fn json_of_convention_items(s: Seq<Seq<char>>) -> Seq<char>
    decreases s.len(),
{
    if s.len() == 0 {
        Seq::empty()
    } else if s.len() == 1 {
        "    "@ + json_string(s[0])
    } else {
        json_of_convention_items(s.drop_last()) + ",\n    "@ + json_string(s.last())
    }
}

/// The rendering of a whole configuration: the skills object always,
/// the registry and convention keys exactly when set.
pub open spec fn json_of_config(c: SkillsetConfigView) -> Seq<char> {
    "{\n  \"skills\": "@ + (if c.skills.len() == 0 {
        "{}"@
    } else {
        "{\n"@ + json_of_entries(c.skills) + "\n  }"@
    }) + (match c.registry {
        Some(r) => ",\n  \"registry\": "@ + json_string(r),
        None => Seq::<char>::empty(),
    }) + (match c.conventions {
        Some(cs) => ",\n  \"conventions\": "@ + (if cs.len() == 0 {
            "[]"@
        } else {
            "[\n"@ + json_of_convention_items(cs) + "\n  ]"@
        }),
        None => Seq::<char>::empty(),
    }) + "\n}"@
}

/// Appends the rendering of one entry's value.
fn push_entry_value(out: &mut String, e: &SkillConfig)
    ensures
        final(out)@ == old(out)@ + json_of_entry_value(e@),
{
    match e {
        SkillConfig::Simple(v) => push_json_string(out, v.as_str()),
        SkillConfig::Detailed { version, source, convention } => {
            push_str(out, "{\n      \"version\": ");
            push_json_string(out, version.as_str());
            push_str(out, ",\n      \"source\": ");
            push_json_opt_string(out, source.as_ref());
            push_str(out, ",\n      \"convention\": ");
            push_json_opt_string(out, convention.as_ref());
            push_str(out, "\n    }");
            proof {
                assert(final(out)@ =~= old(out)@ + json_of_entry_value(e@));
            }
        },
    }
}

/// Appends the comma-joined rendering of the entries.
#[verifier::loop_isolation(false)]
fn push_entries(out: &mut String, skills: &Vec<SkillEntry>)
    ensures
        final(out)@ == old(out)@ + json_of_entries(crate::config::entry_views(skills@)),
{
    let n: usize = skills.len();
    let ghost head = out@;
    let ghost views = crate::config::entry_views(skills@);
    let mut i: usize = 0;
    proof {
        assert(views.take(0) =~= Seq::<(Seq<char>, SkillConfigView)>::empty());
    }
    while i < n
        invariant
            0 <= i <= n,
            n == skills@.len(),
            out@ == head + json_of_entries(views.take(i as int)),
        decreases n - i,
    {
        if i > 0 {
            push_str(out, ",\n");
        }
        let entry = &skills[i];
        push_str(out, "    ");
        push_json_string(out, entry.name.as_str());
        push_str(out, ": ");
        push_entry_value(out, &entry.config);
        proof {
            let taken = views.take(i + 1);
            assert(taken.drop_last() =~= views.take(i as int));
            assert(taken.last() == views[i as int]);
            assert(views[i as int] == (entry.name@, entry.config@));
            if i == 0 {
                assert(json_of_entries(taken) == json_of_entry((entry.name@, entry.config@)));
            }
            assert(out@ =~= head + json_of_entries(taken));
        }
        i += 1;
    }
    proof {
        assert(views.take(n as int) =~= views);
    }
}

/// Appends the rendering of an explicit convention list.
#[verifier::loop_isolation(false)]
fn push_conventions(out: &mut String, cs: &Vec<String>)
    ensures
        final(out)@ == old(out)@ + (if cs.deep_view().len() == 0 {
            "[]"@
        } else {
            "[\n"@ + json_of_convention_items(cs.deep_view()) + "\n  ]"@
        }),
{
    let m: usize = cs.len();
    if m == 0 {
        push_str(out, "[]");
        return ;
    }
    push_str(out, "[\n");
    let ghost chead = out@;
    let ghost cseq = cs.deep_view();
    let mut j: usize = 0;
    while j < m
        invariant
            0 <= j <= m,
            m == cs@.len(),
            out@ == chead + json_of_convention_items(cseq.take(j as int)),
        decreases m - j,
    {
        if j > 0 {
            push_str(out, ",\n    ");
        } else {
            push_str(out, "    ");
        }
        push_json_string(out, cs[j].as_str());
        proof {
            let taken = cseq.take(j + 1);
            assert(taken.drop_last() =~= cseq.take(j as int));
            assert(taken.last() == cseq[j as int]);
            assert(cseq[j as int] == cs@[j as int]@);
            if j == 0 {
                assert(json_of_convention_items(taken) == "    "@ + json_string(cseq[0]));
            }
            assert(out@ =~= chead + json_of_convention_items(taken));
        }
        j += 1;
    }
    proof {
        assert(cseq.take(m as int) =~= cseq);
    }
    push_str(out, "\n  ]");
}

impl SkillsetConfig {
    /// The configuration as `skillset.json` text, pretty-printed with
    /// two-space indentation; the registry and convention keys appear
    /// exactly when the configuration sets them.
    pub fn to_json_pretty(&self) -> (r: String)
        ensures
            r@ == json_of_config(self@),
    {
        let mut out = "{\n  \"skills\": ".to_owned();
        let n: usize = self.skills.len();
        if n == 0 {
            push_str(&mut out, "{}");
            proof {
                assert(self@.skills.len() == 0);
            }
        } else {
            push_str(&mut out, "{\n");
            push_entries(&mut out, &self.skills);
            push_str(&mut out, "\n  }");
        }
        match &self.registry {
            Some(r) => {
                push_str(&mut out, ",\n  \"registry\": ");
                push_json_string(&mut out, r.as_str());
            },
            None => {},
        }
        match &self.conventions {
            Some(cs) => {
                push_str(&mut out, ",\n  \"conventions\": ");
                push_conventions(&mut out, cs);
            },
            None => {},
        }
        push_str(&mut out, "\n}");
        proof {
            assert(out@ =~= json_of_config(self@));
        }
        out
    }
}

} // verus!
