//! Classification and validation of user-supplied skill references:
//! the name and version grammars, the split of `name@version`, and the
//! test that tells a simplified name from an explicit source string.

use vstd::prelude::*;

use crate::error::{SkillsetError, SkillsetResult};
use crate::strutil::{
    char_alphanumeric, count_char, find_char, last_index_of, lemma_last_index_of, rfind_char,
    starts_with, str_contains_char, str_eq, str_starts_with, substr,
};

verus! {

/// A character a skill name or user name may contain.
pub open spec fn name_char(c: char) -> bool {
    char_alphanumeric(c) || c == '-' || c == '_'
}

/// Every character of `s` is a name character.
pub open spec fn all_name_chars(s: Seq<char>) -> bool {
    forall|i: int| 0 <= i < s.len() ==> name_char(s[i])
}

/// An unscoped name: 1 to 100 name characters.
pub open spec fn valid_unscoped_name(s: Seq<char>) -> bool {
    1 <= s.len() <= 100 && all_name_chars(s)
}

/// A scoped name `@user/skill`: exactly one `/` after the leading `@`,
/// a user of 1 to 39 name characters, a skill of 1 to 100.
pub open spec fn valid_scoped_name(s: Seq<char>) -> bool {
    s.len() > 1 && s[0] == '@' && exists|k: int|
        {
            &&& 1 <= k < s.len()
            &&& #[trigger] s[k] == '/'
            &&& forall|j: int| 1 <= j < k ==> s[j] != '/'
            &&& forall|j: int| k < j < s.len() ==> s[j] != '/'
            &&& 1 <= k - 1 <= 39
            &&& all_name_chars(s.subrange(1, k))
            &&& 1 <= s.len() - (k + 1) <= 100
            &&& all_name_chars(s.subrange(k + 1, s.len() as int))
        }
}

/// The name grammar: scoped when the name opens with `@`, unscoped otherwise.
pub open spec fn valid_skill_name(s: Seq<char>) -> bool {
    if s.len() > 0 && s[0] == '@' {
        valid_scoped_name(s)
    } else {
        valid_unscoped_name(s)
    }
}

/// A character a version segment may contain.
pub open spec fn version_char(c: char) -> bool {
    char_alphanumeric(c) || c == '-' || c == '+'
}

/// The version with an optional leading `v` removed.
pub open spec fn version_core(s: Seq<char>) -> Seq<char> {
    if s.len() > 0 && s[0] == 'v' {
        s.subrange(1, s.len() as int)
    } else {
        s
    }
}

/// Dot-separated segments, 2 to 4 of them, each non-empty and made of
/// version characters — said without naming the segments: 1 to 3 dots,
/// none leading, trailing or adjacent, version characters elsewhere.
pub open spec fn valid_version_parts(s: Seq<char>) -> bool {
    &&& s.len() > 0
    &&& 1 <= count_char(s, '.') <= 3
    &&& s[0] != '.'
    &&& s[s.len() - 1] != '.'
    &&& forall|i: int| 0 <= i && i + 1 < s.len() && #[trigger] s[i] == '.' ==> s[i + 1] != '.'
    &&& forall|i: int| 0 <= i < s.len() ==> s[i] == '.' || version_char(#[trigger] s[i])
}

/// The version grammar: the literal `latest`, or dot-separated segments
/// with an optional leading `v`.
pub open spec fn valid_version(s: Seq<char>) -> bool {
    s == "latest"@ || valid_version_parts(version_core(s))
}

/// Validates a skill name against the grammar. Returns `Ok` exactly on
/// grammar conformance; every rejection is an `InvalidSkillName`.
#[verifier::loop_isolation(false)]
pub fn validate_skill_name(name: &str) -> (r: SkillsetResult<()>)
    ensures
        r.is_ok() <==> valid_skill_name(name@),
        r.is_err() ==> r->Err_0 is InvalidSkillName,
{
    let n: usize = name.unicode_len();
    if n == 0 {
        return Err(SkillsetError::InvalidSkillName("Skill name cannot be empty".to_owned()));
    }
    if name.get_char(0) == '@' {
        validate_scoped_name(name)
    } else {
        if n > 100 {
            return Err(
                SkillsetError::InvalidSkillName("Skill name must be 1-100 characters".to_owned()),
            );
        }
        let mut i: usize = 0;
        while i < n
            invariant
                i <= n,
                n == name@.len(),
                forall|j: int| 0 <= j < i ==> name_char(name@[j]),
            decreases n - i,
        {
            let c = name.get_char(i);
            if !(c.is_alphanumeric() || c == '-' || c == '_') {
                assert(!all_name_chars(name@)) by {
                    assert(!name_char(name@[i as int]));
                }
                return Err(
                    SkillsetError::InvalidSkillName(
                        "Skill name can only contain alphanumeric characters, hyphens, and underscores".to_owned(),
                    ),
                );
            }
            i += 1;
        }
        Ok(())
    }
}

/// When `k` is the first slash of a valid scoped name, validity pins
/// the user and skill parts around exactly that slash.
proof fn lemma_scoped_name_parts(s: Seq<char>, k: int)
    requires
        valid_scoped_name(s),
        1 <= k < s.len(),
        s[k] == '/',
        forall|j: int| 1 <= j < k ==> s[j] != '/',
    ensures
        1 <= k - 1 <= 39,
        all_name_chars(s.subrange(1, k)),
        1 <= s.len() - (k + 1) <= 100,
        all_name_chars(s.subrange(k + 1, s.len() as int)),
        forall|j: int| k < j < s.len() ==> s[j] != '/',
{
    let kk = choose|kk: int|
        {
            &&& 1 <= kk < s.len()
            &&& #[trigger] s[kk] == '/'
            &&& forall|j: int| 1 <= j < kk ==> s[j] != '/'
            &&& forall|j: int| kk < j < s.len() ==> s[j] != '/'
            &&& 1 <= kk - 1 <= 39
            &&& all_name_chars(s.subrange(1, kk))
            &&& 1 <= s.len() - (kk + 1) <= 100
            &&& all_name_chars(s.subrange(kk + 1, s.len() as int))
        };
    if kk < k {
        assert(s[kk] == '/');
        assert(false);
    }
    if kk > k {
        assert(s[k] == '/');
        assert(false);
    }
    assert(kk == k);
}

/// The scoped branch of the name grammar check.
#[verifier::loop_isolation(false)]
fn validate_scoped_name(name: &str) -> (r: SkillsetResult<()>)
    requires
        name@.len() > 0,
        name@[0] == '@',
    ensures
        r.is_ok() <==> valid_scoped_name(name@),
        r.is_err() ==> r->Err_0 is InvalidSkillName,
{
    let n: usize = name.unicode_len();
    if n == 1 {
        return Err(
            SkillsetError::InvalidSkillName("Scoped skill name cannot be empty after @".to_owned()),
        );
    }
    let k = match find_char(name, '/') {
        Some(k) => k,
        None => {
            return Err(
                SkillsetError::InvalidSkillName(
                    "Scoped skill name must be in format @user/skill".to_owned(),
                ),
            );
        },
    };
    let k2 = match rfind_char(name, '/') {
        Some(k2) => k2,
        None => unreached(),
    };
    if k2 != k {
        assert(k < k2);
        proof {
            if valid_scoped_name(name@) {
                lemma_scoped_name_parts(name@, k as int);
                assert(false);
            }
        }
        return Err(
            SkillsetError::InvalidSkillName(
                "Scoped skill name must be in format @user/skill".to_owned(),
            ),
        );
    }
    if k < 2 || k - 1 > 39 {
        proof {
            if valid_scoped_name(name@) {
                lemma_scoped_name_parts(name@, k as int);
                assert(false);
            }
        }
        return Err(
            SkillsetError::InvalidSkillName(
                "Username in scoped skill name must be 1-39 characters".to_owned(),
            ),
        );
    }
    if n - (k + 1) < 1 || n - (k + 1) > 100 {
        proof {
            if valid_scoped_name(name@) {
                lemma_scoped_name_parts(name@, k as int);
                assert(false);
            }
        }
        return Err(
            SkillsetError::InvalidSkillName("Skill name must be 1-100 characters".to_owned()),
        );
    }
    let mut i: usize = 1;
    while i < k
        invariant
            1 <= i <= k,
            k < n,
            n == name@.len(),
            name@[0] == '@',
            name@[k as int] == '/',
            forall|j: int| 0 <= j < k ==> name@[j] != '/',
            forall|j: int| 1 <= j < i ==> name_char(name@[j]),
        decreases k - i,
    {
        let c = name.get_char(i);
        if !(c.is_alphanumeric() || c == '-' || c == '_') {
            assert(!all_name_chars(name@.subrange(1, k as int))) by {
                assert(name@.subrange(1, k as int)[i - 1] == name@[i as int]);
                assert(!name_char(name@[i as int]));
            }
            proof {
                if valid_scoped_name(name@) {
                    lemma_scoped_name_parts(name@, k as int);
                    assert(false);
                }
            }
            return Err(
                SkillsetError::InvalidSkillName(
                    "Username can only contain alphanumeric characters, hyphens, and underscores".to_owned(),
                ),
            );
        }
        i += 1;
    }
    let mut i2: usize = k + 1;
    while i2 < n
        invariant
            k + 1 <= i2 <= n,
            k < n,
            n == name@.len(),
            name@[0] == '@',
            name@[k as int] == '/',
            forall|j: int| 0 <= j < k ==> name@[j] != '/',
            forall|j: int| k + 1 <= j < i2 ==> name_char(name@[j]),
        decreases n - i2,
    {
        let c = name.get_char(i2);
        if !(c.is_alphanumeric() || c == '-' || c == '_') {
            assert(!all_name_chars(name@.subrange(k + 1, n as int))) by {
                assert(name@.subrange(k + 1, n as int)[i2 - (k + 1)] == name@[i2 as int]);
                assert(!name_char(name@[i2 as int]));
            }
            proof {
                if valid_scoped_name(name@) {
                    lemma_scoped_name_parts(name@, k as int);
                    assert(false);
                }
            }
            return Err(
                SkillsetError::InvalidSkillName(
                    "Skill name can only contain alphanumeric characters, hyphens, and underscores".to_owned(),
                ),
            );
        }
        i2 += 1;
    }
    assert(valid_scoped_name(name@)) by {
        assert(forall|j: int|
            0 <= j < k - 1 ==> #[trigger] name@.subrange(1, k as int)[j] == name@[j + 1]);
        assert(forall|j: int|
            0 <= j < name@.len() - (k + 1) ==> #[trigger] name@.subrange(
                k + 1,
                name@.len() as int,
            )[j] == name@[j + k + 1]);
        assert(name@[k as int] == '/' && (forall|j: int| 1 <= j < k ==> name@[j] != '/') && (
        forall|j: int| k < j < name@.len() ==> name@[j] != '/'));
    }
    Ok(())
}

/// Validates a version string against the grammar. Returns `Ok` exactly
/// on grammar conformance; every rejection is an `InvalidSkillName`.
#[verifier::loop_isolation(false)]
pub fn validate_version(version: &str) -> (r: SkillsetResult<()>)
    ensures
        r.is_ok() <==> valid_version(version@),
        r.is_err() ==> r->Err_0 is InvalidSkillName,
{
    if str_eq(version, "latest") {
        return Ok(());
    }
    let n: usize = version.unicode_len();
    if n == 0 {
        return Err(SkillsetError::InvalidSkillName("Version cannot be empty".to_owned()));
    }
    let start: usize = if version.get_char(0) == 'v' {
        1
    } else {
        0
    };
    let core = substr(version, start, n);
    assert(core@ =~= version_core(version@));
    let m: usize = core.as_str().unicode_len();
    if m == 0 {
        return Err(
            SkillsetError::InvalidSkillName(
                "Version must be in semantic version format (e.g., 1.0.0 or v1.0.0)".to_owned(),
            ),
        );
    }
    if core.as_str().get_char(0) == '.' || core.as_str().get_char(m - 1) == '.' {
        return Err(SkillsetError::InvalidSkillName("Version parts cannot be empty".to_owned()));
    }
    let dots = crate::strutil::str_count_char(core.as_str(), '.');
    if dots < 1 || dots > 3 {
        return Err(
            SkillsetError::InvalidSkillName(
                "Version must be in semantic version format (e.g., 1.0.0 or v1.0.0)".to_owned(),
            ),
        );
    }
    let mut i: usize = 0;
    while i < m
        invariant
            i <= m,
            m == core@.len(),
            forall|j: int|
                0 <= j < i && j + 1 < m && #[trigger] core@[j] == '.' ==> core@[j + 1] != '.',
            forall|j: int| 0 <= j < i ==> core@[j] == '.' || version_char(#[trigger] core@[j]),
        decreases m - i,
    {
        let c = core.as_str().get_char(i);
        if c == '.' {
            if i + 1 < m && core.as_str().get_char(i + 1) == '.' {
                assert(!valid_version_parts(core@)) by {
                    assert(core@[i as int] == '.' && core@[i + 1] == '.');
                }
                return Err(
                    SkillsetError::InvalidSkillName("Version parts cannot be empty".to_owned()),
                );
            }
        } else if !(c.is_alphanumeric() || c == '-' || c == '+') {
            assert(!valid_version_parts(core@)) by {
                assert(!(core@[i as int] == '.' || version_char(core@[i as int])));
            }
            return Err(
                SkillsetError::InvalidSkillName(
                    "Version parts can only contain alphanumeric characters, hyphens, and plus signs".to_owned(),
                ),
            );
        }
        i += 1;
    }
    Ok(())
}

/// The part of a `name@version` reference before its last `@`.
pub open spec fn ref_name_part(s: Seq<char>) -> Seq<char> {
    s.subrange(0, last_index_of(s, '@'))
}

/// The part of a `name@version` reference after its last `@`.
pub open spec fn ref_version_part(s: Seq<char>) -> Seq<char> {
    s.subrange(last_index_of(s, '@') + 1, s.len() as int)
}

/// Splits a simplified reference at its last `@` into a validated name
/// and version. A reference without `@`, or with an invalid name or
/// version, fails with `InvalidSkillName`.
pub fn parse_skill_reference(reference: &str) -> (r: SkillsetResult<(String, String)>)
    ensures
        match r {
            Ok(p) => {
                &&& reference@.contains('@')
                &&& p.0@ == ref_name_part(reference@)
                &&& p.1@ == ref_version_part(reference@)
                &&& valid_skill_name(p.0@)
                &&& valid_version(p.1@)
            },
            Err(e) => {
                &&& e is InvalidSkillName
                &&& !reference@.contains('@') || !valid_skill_name(ref_name_part(reference@))
                    || !valid_version(ref_version_part(reference@))
            },
        },
{
    let n: usize = reference.unicode_len();
    let i = match rfind_char(reference, '@') {
        Some(i) => i,
        None => {
            return Err(
                SkillsetError::InvalidSkillName(
                    "Skill reference must include version with @. Expected: name@version".to_owned(),
                ),
            );
        },
    };
    proof {
        lemma_last_index_of(reference@, '@', i as int);
    }
    let skill_name = substr(reference, 0, i);
    let version = substr(reference, i + 1, n);
    match validate_skill_name(skill_name.as_str()) {
        Ok(_) => {},
        Err(e) => {
            return Err(e);
        },
    }
    match validate_version(version.as_str()) {
        Ok(_) => {},
        Err(e) => {
            return Err(e);
        },
    }
    Ok((skill_name, version))
}

/// An explicit source opens with one of the recognized source prefixes;
/// a simplified reference has none of them and carries an `@`.
pub open spec fn spec_is_simplified(s: Seq<char>) -> bool {
    &&& !starts_with(s, "git:"@)
    &&& !starts_with(s, "oci:"@)
    &&& !starts_with(s, "https://"@)
    &&& !starts_with(s, "http://"@)
    &&& !starts_with(s, "/"@)
    &&& !starts_with(s, "./"@)
    &&& !starts_with(s, "../"@)
    &&& s.contains('@')
}

/// Classifies a raw reference: true for a simplified `name@version`
/// reference, false for anything that opens like an explicit source or
/// carries no `@`.
pub fn is_simplified_skill_reference(reference: &str) -> (r: bool)
    ensures
        r == spec_is_simplified(reference@),
{
    !str_starts_with(reference, "git:") && !str_starts_with(reference, "oci:")
        && !str_starts_with(reference, "https://") && !str_starts_with(reference, "http://")
        && !str_starts_with(reference, "/") && !str_starts_with(reference, "./")
        && !str_starts_with(reference, "../") && str_contains_char(reference, '@')
}

} // verus!
