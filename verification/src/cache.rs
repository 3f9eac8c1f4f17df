//! The shared machine-wide cache: its directory layout under the
//! platform user-cache directory, the deterministic cache key derived
//! from a source URL and reference, and the provenance record written
//! after a fetch.

use vstd::prelude::*;

use sha2::Digest;

use crate::error::{SkillsetError, SkillsetResult};
use crate::strutil::push_str;

verus! {

/// The SHA-256 digest of the UTF-8 encoding of a string.
pub uninterp spec fn sha256_of(s: Seq<char>) -> Seq<u8>;

/// Relies on sha2::Sha256 through the Digest trait: the digest is a
/// fixed function of the input bytes alone, 32 bytes wide.
#[verifier::external_body]
fn sha256_digest(s: &str) -> (r: Vec<u8>)
    ensures
        r@ == sha256_of(s@),
        r@.len() == 32,
{
    sha2::Sha256::digest(s.as_bytes()).to_vec()
}

/// Relies on dirs::cache_dir: the platform user-cache directory, when
/// the platform defines one whose path is Unicode; nothing is promised
/// of its value.
#[verifier::external_body]
fn user_cache_dir() -> (r: Option<String>) {
    dirs::cache_dir().and_then(|p| p.into_os_string().into_string().ok())
}

/// The lowercase hexadecimal digit for `n`.
pub open spec fn hex_char_of(n: int) -> char {
    if n == 0 {
        '0'
    } else if n == 1 {
        '1'
    } else if n == 2 {
        '2'
    } else if n == 3 {
        '3'
    } else if n == 4 {
        '4'
    } else if n == 5 {
        '5'
    } else if n == 6 {
        '6'
    } else if n == 7 {
        '7'
    } else if n == 8 {
        '8'
    } else if n == 9 {
        '9'
    } else if n == 10 {
        'a'
    } else if n == 11 {
        'b'
    } else if n == 12 {
        'c'
    } else if n == 13 {
        'd'
    } else if n == 14 {
        'e'
    } else {
        'f'
    }
}

/// The lowercase hexadecimal rendering of a byte string, two digits a
/// byte, high digit first.
pub open spec fn lower_hex_of(bytes: Seq<u8>) -> Seq<char>
    decreases bytes.len(),
{
    if bytes.len() == 0 {
        Seq::empty()
    } else {
        lower_hex_of(bytes.drop_last()) + seq![
            hex_char_of(bytes.last() as int / 16),
            hex_char_of(bytes.last() as int % 16),
        ]
    }
}

/// A hexadecimal rendering is twice as long as its byte string.
pub proof fn lemma_lower_hex_len(bytes: Seq<u8>)
    ensures
        lower_hex_of(bytes).len() == 2 * bytes.len(),
    decreases bytes.len(),
{
    if bytes.len() > 0 {
        lemma_lower_hex_len(bytes.drop_last());
    }
}

/// Whether `c` is one of the sixteen lowercase hexadecimal digits.
pub open spec fn is_lower_hex_digit(c: char) -> bool {
    exists|n: int| 0 <= n < 16 && c == hex_char_of(n)
}

/// Every character of a hexadecimal rendering is a lowercase
/// hexadecimal digit: together with the length clause of the cache key
/// this makes the key a fixed-width hexadecimal string.
pub proof fn lemma_lower_hex_digits(bytes: Seq<u8>)
    ensures
        forall|i: int|
            0 <= i < lower_hex_of(bytes).len() ==> is_lower_hex_digit(
                #[trigger] lower_hex_of(bytes)[i],
            ),
    decreases bytes.len(),
{
    if bytes.len() > 0 {
        lemma_lower_hex_digits(bytes.drop_last());
        lemma_lower_hex_len(bytes.drop_last());
        let b = bytes.last() as int;
        assert(is_lower_hex_digit(hex_char_of(b / 16))) by {
            assert(0 <= b / 16 < 16 && hex_char_of(b / 16) == hex_char_of(b / 16));
        }
        assert(is_lower_hex_digit(hex_char_of(b % 16))) by {
            assert(0 <= b % 16 < 16 && hex_char_of(b % 16) == hex_char_of(b % 16));
        }
        assert(forall|i: int|
            0 <= i < lower_hex_of(bytes.drop_last()).len() ==> lower_hex_of(bytes)[i]
                == lower_hex_of(bytes.drop_last())[i]);
    }
}


/// The lowercase hexadecimal digit for `n`, as a one-character string.
fn hex_digit_str(n: u8) -> (r: &'static str)
    requires
        n < 16,
    ensures
        r@ == seq![hex_char_of(n as int)],
{
    proof {
        reveal_strlit("0");
        reveal_strlit("1");
        reveal_strlit("2");
        reveal_strlit("3");
        reveal_strlit("4");
        reveal_strlit("5");
        reveal_strlit("6");
        reveal_strlit("7");
        reveal_strlit("8");
        reveal_strlit("9");
        reveal_strlit("a");
        reveal_strlit("b");
        reveal_strlit("c");
        reveal_strlit("d");
        reveal_strlit("e");
        reveal_strlit("f");
    }
    match n {
        0 => "0",
        1 => "1",
        2 => "2",
        3 => "3",
        4 => "4",
        5 => "5",
        6 => "6",
        7 => "7",
        8 => "8",
        9 => "9",
        10 => "a",
        11 => "b",
        12 => "c",
        13 => "d",
        14 => "e",
        _ => "f",
    }
}

/// Renders a byte string in lowercase hexadecimal.
fn bytes_to_lower_hex(bytes: &Vec<u8>) -> (r: String)
    ensures
        r@ == lower_hex_of(bytes@),
{
    let n: usize = bytes.len();
    let mut out = String::new();
    let mut i: usize = 0;
    while i < n
        invariant
            i <= n,
            n == bytes@.len(),
            out@ == lower_hex_of(bytes@.take(i as int)),
        decreases n - i,
    {
        let b = bytes[i];
        let hi: u8 = b / 16;
        let lo: u8 = b % 16;
        push_str(&mut out, hex_digit_str(hi));
        push_str(&mut out, hex_digit_str(lo));
        proof {
            assert(bytes@.take(i + 1).drop_last() =~= bytes@.take(i as int));
            assert(bytes@.take(i + 1).last() == bytes@[i as int]);
            assert(out@ =~= lower_hex_of(bytes@.take(i + 1)));
        }
        i += 1;
    }
    proof {
        assert(bytes@.take(n as int) =~= bytes@);
    }
    out
}

/// The string whose digest keys a cached fetch: the URL, `#`, and the
/// reference, with `latest` standing for an absent reference.
pub open spec fn cache_key_input(url: Seq<char>, reference: Option<Seq<char>>) -> Seq<char> {
    url + "#"@ + match reference {
        Some(r) => r,
        None => "latest"@,
    }
}

/// The cache key for a URL and reference: the lowercase hexadecimal
/// SHA-256 digest of the key input, 64 characters wide.
pub open spec fn spec_git_cache_key(url: Seq<char>, reference: Option<Seq<char>>) -> Seq<char> {
    lower_hex_of(sha256_of(cache_key_input(url, reference)))
}

/// Equal key inputs come only from equal URLs and references, as long
/// as the URL carries no `#` of its own.
pub proof fn lemma_cache_key_input_injective(
    url1: Seq<char>,
    ref1: Option<Seq<char>>,
    url2: Seq<char>,
    ref2: Option<Seq<char>>,
)
    requires
        !url1.contains('#'),
        !url2.contains('#'),
        cache_key_input(url1, ref1) == cache_key_input(url2, ref2),
    ensures
        url1 == url2,
        (match ref1 {
            Some(r) => r,
            None => "latest"@,
        }) == (match ref2 {
            Some(r) => r,
            None => "latest"@,
        }),
{
    reveal_strlit("#");
    let s = cache_key_input(url1, ref1);
    let tail1 = match ref1 {
        Some(r) => r,
        None => "latest"@,
    };
    let tail2 = match ref2 {
        Some(r) => r,
        None => "latest"@,
    };
    assert(s == url1 + "#"@ + tail1);
    assert(s == url2 + "#"@ + tail2);
    assert("#"@.len() == 1);
    assert(s.len() == url1.len() + 1 + tail1.len());
    assert(s.len() == url2.len() + 1 + tail2.len());
    assert(s[url1.len() as int] == '#');
    assert(s[url2.len() as int] == '#');
    if url1.len() < url2.len() {
        assert(url2[url1.len() as int] == '#');
        assert(false);
    }
    if url2.len() < url1.len() {
        assert(url1[url2.len() as int] == '#');
        assert(false);
    }
    assert(url1 =~= url2) by {
        assert forall|i: int| 0 <= i < url1.len() implies url1[i] == url2[i] by {
            assert(url1[i] == (url1 + "#"@ + tail1)[i]);
            assert(url2[i] == (url2 + "#"@ + tail2)[i]);
        }
    }
    assert(tail1 =~= tail2) by {
        assert(tail1.len() == tail2.len());
        assert forall|i: int| 0 <= i < tail1.len() implies tail1[i] == tail2[i] by {
            assert(tail1[i] == (url1 + "#"@ + tail1)[url1.len() + 1 + i]);
            assert(tail2[i] == (url2 + "#"@ + tail2)[url2.len() + 1 + i]);
        }
    }
}

/// The layout of the shared cache: a base directory under the platform
/// user-cache directory, a git area, and a metadata area.
#[derive(Debug, Clone)]
pub struct CachePaths {
    base_dir: String,
    git_dir: String,
    metadata_dir: String,
}

impl CachePaths {
    /// The base directory's characters.
    pub closed spec fn spec_base_dir(&self) -> Seq<char> {
        self.base_dir@
    }

    /// The git area's characters.
    pub closed spec fn spec_git_dir(&self) -> Seq<char> {
        self.git_dir@
    }

    /// The metadata area's characters.
    pub closed spec fn spec_metadata_dir(&self) -> Seq<char> {
        self.metadata_dir@
    }

    /// The areas hang off the base directory.
    pub open spec fn wf(&self) -> bool {
        &&& self.spec_git_dir() == self.spec_base_dir() + "/git"@
        &&& self.spec_metadata_dir() == self.spec_base_dir() + "/metadata"@
    }

    /// Lays the cache out under the platform user-cache directory, in a
    /// `skillset` base. Fails when the platform names no cache directory.
    pub fn new() -> (r: SkillsetResult<CachePaths>)
        ensures
            match r {
                Ok(p) => p.wf() && "/skillset"@.is_suffix_of(p.spec_base_dir()),
                Err(e) => e is Config,
            },
    {
        let root = match user_cache_dir() {
            Some(root) => root,
            None => {
                return Err(SkillsetError::Config("No cache directory found".to_owned()));
            },
        };
        let mut base_dir = root;
        push_str(&mut base_dir, "/skillset");
        let mut git_dir = base_dir.clone();
        push_str(&mut git_dir, "/git");
        let mut metadata_dir = base_dir.clone();
        push_str(&mut metadata_dir, "/metadata");
        let p = CachePaths { base_dir, git_dir, metadata_dir };
        proof {
            reveal_strlit("/skillset");
            assert(p.spec_base_dir().subrange(
                p.spec_base_dir().len() - 9,
                p.spec_base_dir().len() as int,
            ) =~= "/skillset"@);
        }
        Ok(p)
    }

    /// The base directory as a string.
    pub fn base_dir(&self) -> (r: &str)
        ensures
            r@ == self.spec_base_dir(),
    {
        self.base_dir.as_str()
    }

    /// The git area as a string.
    pub fn git_dir(&self) -> (r: &str)
        ensures
            r@ == self.spec_git_dir(),
    {
        self.git_dir.as_str()
    }

    /// The metadata area as a string.
    pub fn metadata_dir(&self) -> (r: &str)
        ensures
            r@ == self.spec_metadata_dir(),
    {
        self.metadata_dir.as_str()
    }

    /// The cache key for a URL and optional reference: the lowercase
    /// hexadecimal SHA-256 digest of `url#reference-or-latest`, 64
    /// hexadecimal digits wide, a deterministic function of the two
    /// inputs alone.
    pub fn git_cache_key(&self, url: &str, reference: Option<&str>) -> (r: String)
        ensures
            r@ == spec_git_cache_key(url@, match reference {
                Some(s) => Some(s@),
                None => None,
            }),
            r@.len() == 64,
            forall|i: int| 0 <= i < 64 ==> is_lower_hex_digit(#[trigger] r@[i]),
    {
        let mut input = url.to_owned();
        push_str(&mut input, "#");
        match reference {
            Some(s) => push_str(&mut input, s),
            None => push_str(&mut input, "latest"),
        }
        let digest = sha256_digest(input.as_str());
        proof {
            lemma_lower_hex_len(digest@);
            lemma_lower_hex_digits(digest@);
        }
        bytes_to_lower_hex(&digest)
    }

    /// The reserved bare-repository path for a cache key.
    pub fn git_bare_path(&self, cache_key: &str) -> (r: String)
        ensures
            r@ == self.spec_git_dir() + "/db/"@ + cache_key@,
    {
        let mut r = self.git_dir.clone();
        push_str(&mut r, "/db/");
        push_str(&mut r, cache_key);
        r
    }

    /// The working-tree path for a skill name.
    pub fn git_checkout_path(&self, skill_name: &str) -> (r: String)
        ensures
            r@ == self.spec_git_dir() + "/checkouts/"@ + skill_name@,
    {
        let mut r = self.git_dir.clone();
        push_str(&mut r, "/checkouts/");
        push_str(&mut r, skill_name);
        r
    }

    /// The provenance-record path for a cache key.
    pub fn metadata_path(&self, cache_key: &str) -> (r: String)
        ensures
            r@ == self.spec_metadata_dir() + "/"@ + cache_key@ + ".json"@,
    {
        let mut r = self.metadata_dir.clone();
        push_str(&mut r, "/");
        push_str(&mut r, cache_key);
        push_str(&mut r, ".json");
        r
    }
}

/// The provenance of a cached fetch, written beside the cache after
/// every successful fetch.
#[derive(Debug, Clone)]
pub struct CacheMetadata {
    /// The fetched URL.
    pub url: String,
    /// The requested reference, when one was named.
    pub reference: Option<String>,
    /// The skill name derived from the URL.
    pub skill_name: String,
    /// The source type that fetched it.
    pub source_type: String,
}

} // verus!
