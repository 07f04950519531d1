//! The closed vocabulary of commit-type tags and its canonical keys.

use vstd::prelude::*;

verus! {

/// One of the recognized commit-type tags. The set is closed: a raw string
/// resolves to a variant only through [`CommitType::from_key`], which matches
/// the canonical keys case-insensitively.
#[derive(Clone, Copy, Debug, PartialEq, Eq, Structural)]
pub enum CommitType {
    Feature,
    Fix,
    Style,
    Refactor,
    Improvement,
    Docs,
    Internal,
    Bump,
    Revert,
}

impl CommitType {
    /// The canonical lowercase key of each tag, as it opens a commit message.
    pub open spec fn key_spec(self) -> Seq<char> {
        match self {
            CommitType::Feature => "feature"@,
            CommitType::Fix => "fix"@,
            CommitType::Style => "style"@,
            CommitType::Refactor => "refactor"@,
            CommitType::Improvement => "improvement"@,
            CommitType::Docs => "docs"@,
            CommitType::Internal => "internal"@,
            CommitType::Bump => "bump"@,
            CommitType::Revert => "revert"@,
        }
    }

    /// Returns the canonical lowercase key of this tag.
    pub fn key(&self) -> (r: &str)
        ensures
            r@ == self.key_spec(),
    {
        match self {
            CommitType::Feature => "feature",
            CommitType::Fix => "fix",
            CommitType::Style => "style",
            CommitType::Refactor => "refactor",
            CommitType::Improvement => "improvement",
            CommitType::Docs => "docs",
            CommitType::Internal => "internal",
            CommitType::Bump => "bump",
            CommitType::Revert => "revert",
        }
    }
}

/// ASCII case folding of a single character: an uppercase ASCII letter is
/// mapped to its lowercase counterpart, every other character is unchanged.
pub open spec fn lower_char(c: char) -> char {
    if 'A' as u32 <= c as u32 && c as u32 <= 'Z' as u32 {
        (((c as u32) + 32) as u8) as char
    } else {
        c
    }
}

/// ASCII case folding of a whole string, character by character.
pub open spec fn lower_spec(s: Seq<char>) -> Seq<char> {
    s.map_values(|c: char| lower_char(c))
}

fn lower_char_exec(c: char) -> (r: char)
    ensures
        r == lower_char(c),
{
    let u = c as u32;
    if 'A' as u32 <= u && u <= 'Z' as u32 {
        ((u + 32) as u8) as char
    } else {
        c
    }
}

/// Whether `s`, folded to lowercase, is exactly `key`.
fn eq_ignore_ascii_case(s: &str, key: &str) -> (r: bool)
    ensures
        r == (lower_spec(s@) == key@),
{
    let n = s.unicode_len();
    if n != key.unicode_len() {
        proof {
            assert(lower_spec(s@).len() == s@.len());
        }
        return false;
    }
    let mut i: usize = 0;
    while i < n
        invariant
            0 <= i <= n,
            n == s@.len(),
            n == key@.len(),
            forall|j: int| 0 <= j < i ==> lower_char(s@[j]) == key@[j],
        decreases n - i,
    {
        let c = lower_char_exec(s.get_char(i));
        if c != key.get_char(i) {
            proof {
                assert(lower_spec(s@)[i as int] != key@[i as int]);
            }
            return false;
        }
        i += 1;
    }
    proof {
        assert(lower_spec(s@) =~= key@);
    }
    true
}

/// The commit type whose canonical key a raw tag spelling designates, up to
/// letter case; no other spelling designates one.
pub open spec fn from_key_spec(s: Seq<char>) -> Option<CommitType> {
    if lower_spec(s) == "feature"@ {
        Option::Some(CommitType::Feature)
    } else if lower_spec(s) == "fix"@ {
        Option::Some(CommitType::Fix)
    } else if lower_spec(s) == "style"@ {
        Option::Some(CommitType::Style)
    } else if lower_spec(s) == "refactor"@ {
        Option::Some(CommitType::Refactor)
    } else if lower_spec(s) == "improvement"@ {
        Option::Some(CommitType::Improvement)
    } else if lower_spec(s) == "docs"@ {
        Option::Some(CommitType::Docs)
    } else if lower_spec(s) == "internal"@ {
        Option::Some(CommitType::Internal)
    } else if lower_spec(s) == "bump"@ {
        Option::Some(CommitType::Bump)
    } else if lower_spec(s) == "revert"@ {
        Option::Some(CommitType::Revert)
    } else {
        Option::None
    }
}

impl CommitType {
    /// Resolves a raw tag spelling to its commit type, matching the canonical
    /// keys without regard to ASCII letter case. Any other spelling is
    /// rejected with `None`.
    pub fn from_key(s: &str) -> (r: Option<CommitType>)
        ensures
            r == from_key_spec(s@),
    {
        if eq_ignore_ascii_case(s, "feature") {
            Option::Some(CommitType::Feature)
        } else if eq_ignore_ascii_case(s, "fix") {
            Option::Some(CommitType::Fix)
        } else if eq_ignore_ascii_case(s, "style") {
            Option::Some(CommitType::Style)
        } else if eq_ignore_ascii_case(s, "refactor") {
            Option::Some(CommitType::Refactor)
        } else if eq_ignore_ascii_case(s, "improvement") {
            Option::Some(CommitType::Improvement)
        } else if eq_ignore_ascii_case(s, "docs") {
            Option::Some(CommitType::Docs)
        } else if eq_ignore_ascii_case(s, "internal") {
            Option::Some(CommitType::Internal)
        } else if eq_ignore_ascii_case(s, "bump") {
            Option::Some(CommitType::Bump)
        } else if eq_ignore_ascii_case(s, "revert") {
            Option::Some(CommitType::Revert)
        } else {
            Option::None
        }
    }
}

/// Two raw tag spellings that agree up to ASCII letter case resolve to the
/// same commit type, or both to none.
pub proof fn lemma_from_key_case_insensitive(s1: Seq<char>, s2: Seq<char>)
    requires
        lower_spec(s1) == lower_spec(s2),
    ensures
        from_key_spec(s1) == from_key_spec(s2),
{
}

/// Parsing a tag's own canonical key gives that tag back: the key mapping
/// and the parser are mutually inverse on the canonical spellings.
pub proof fn lemma_from_key_of_key(t: CommitType)
    ensures
        from_key_spec(t.key_spec()) == Option::Some(t),
{
    reveal_strlit("feature");
    reveal_strlit("fix");
    reveal_strlit("style");
    reveal_strlit("refactor");
    reveal_strlit("improvement");
    reveal_strlit("docs");
    reveal_strlit("internal");
    reveal_strlit("bump");
    reveal_strlit("revert");
    // Every key is already lowercase, so folding it changes nothing.
    assert(lower_spec("feature"@) =~= "feature"@);
    assert(lower_spec("fix"@) =~= "fix"@);
    assert(lower_spec("style"@) =~= "style"@);
    assert(lower_spec("refactor"@) =~= "refactor"@);
    assert(lower_spec("improvement"@) =~= "improvement"@);
    assert(lower_spec("docs"@) =~= "docs"@);
    assert(lower_spec("internal"@) =~= "internal"@);
    assert(lower_spec("bump"@) =~= "bump"@);
    assert(lower_spec("revert"@) =~= "revert"@);
    // Length and first character separate the keys, so no earlier branch of
    // the parser can fire.
    assert("refactor"@[0] == 'r' && "internal"@[0] == 'i');
    assert("docs"@[0] == 'd' && "bump"@[0] == 'b');
}

/// No two commit types share a key: the canonical key determines the tag.
pub proof fn lemma_key_injective(a: CommitType, b: CommitType)
    requires
        a.key_spec() == b.key_spec(),
    ensures
        a == b,
{
    reveal_strlit("feature");
    reveal_strlit("fix");
    reveal_strlit("style");
    reveal_strlit("refactor");
    reveal_strlit("improvement");
    reveal_strlit("docs");
    reveal_strlit("internal");
    reveal_strlit("bump");
    reveal_strlit("revert");
    // Length distinguishes every pair of keys but two; the first character
    // settles those.
    assert("feature"@.len() == 7);
    assert("fix"@.len() == 3);
    assert("style"@.len() == 5);
    assert("refactor"@.len() == 8);
    assert("improvement"@.len() == 11);
    assert("docs"@.len() == 4);
    assert("internal"@.len() == 8);
    assert("bump"@.len() == 4);
    assert("revert"@.len() == 6);
    assert("refactor"@[0] == 'r' && "internal"@[0] == 'i');
    assert("docs"@[0] == 'd' && "bump"@[0] == 'b');
    match a {
        CommitType::Feature => assert(b == CommitType::Feature),
        CommitType::Fix => assert(b == CommitType::Fix),
        CommitType::Style => assert(b == CommitType::Style),
        CommitType::Refactor => assert(b == CommitType::Refactor),
        CommitType::Improvement => assert(b == CommitType::Improvement),
        CommitType::Docs => assert(b == CommitType::Docs),
        CommitType::Internal => assert(b == CommitType::Internal),
        CommitType::Bump => assert(b == CommitType::Bump),
        CommitType::Revert => assert(b == CommitType::Revert),
    }
}

} // verus!
