//! Severity levels and the words that name them.

use vstd::prelude::*;
use vstd::string::*;
use vstd::utf8::is_ascii_chars;

verus! {

/// The tag that a forwarded record carries. The levels are not ordered.
#[derive(Clone, Copy, Debug, PartialEq, Eq, Hash, Structural)]
pub enum SeverityLevel {
    Error,
    Warn,
    Info,
    Debug,
    Trace,
}

/// The level of a message in which no severity word occurs: what is not
/// classified counts as least severe.
pub open spec fn default_level() -> SeverityLevel {
    SeverityLevel::Trace
}

impl Default for SeverityLevel {
    /// The level of a message in which no severity word occurs.
    fn default() -> (level: SeverityLevel)
        ensures
            level == default_level(),
    {
        SeverityLevel::Trace
    }
}

/// An ASCII capital letter becomes its small letter; every other character
/// stays as it is.
pub open spec fn lower(c: char) -> char {
    if 'A' <= c && c <= 'Z' {
        ((c as u8 + 32) as u8) as char
    } else {
        c
    }
}

/// The text with each ASCII capital letter made small.
pub open spec fn folded(text: Seq<char>) -> Seq<char> {
    Seq::new(text.len(), |i: int| lower(text[i]))
}

/// The level that a word names, whatever the case of its letters; the
/// default level where it names none.
pub open spec fn token_level(token: Seq<char>) -> SeverityLevel {
    let word = folded(token);
    if word == "error"@ {
        SeverityLevel::Error
    } else if word == "warn"@ || word == "warning"@ {
        SeverityLevel::Warn
    } else if word == "info"@ {
        SeverityLevel::Info
    } else if word == "debug"@ {
        SeverityLevel::Debug
    } else if word == "trace"@ {
        SeverityLevel::Trace
    } else {
        default_level()
    }
}

/// Small letters, digits and the like: a text that folding leaves alone and
/// that holds ASCII only.
spec fn is_plain_word(word: Seq<char>) -> bool {
    &&& is_ascii_chars(word)
    &&& folded(word) == word
}

fn lower_byte(b: u8) -> (r: u8)
    requires
        b < 128,
    ensures
        r < 128,
        r as char == lower(b as char),
{
    if 65 <= b && b <= 90 {
        b + 32
    } else {
        b
    }
}

/// Whether `token`, with its ASCII capitals made small, is `word`.
fn names(token: &str, word: &str) -> (hit: bool)
    requires
        is_plain_word(word@),
    ensures
        hit == (folded(token@) == word@),
{
    broadcast use is_ascii_spec_bytes;

    if !token.is_ascii() {
        proof {
            let i = choose|i: int|
                0 <= i < token@.len() && !('\0' <= #[trigger] token@[i] <= '\u{7f}');
            if folded(token@) == word@ {
                assert(folded(token@)[i] == token@[i]);
                assert(word@[i] == token@[i]);
            }
        }
        return false;
    }
    let t = token.as_bytes();
    let w = word.as_bytes();
    proof {
        assert(is_ascii(token) && is_ascii(word));
        assert(t@.len() == token@.len() && w@.len() == word@.len());
        assert(folded(token@).len() == token@.len());
    }
    if t.len() != w.len() {
        return false;
    }
    let n: usize = t.len();
    let mut i: usize = 0;
    while i < n
        invariant
            i <= n,
            n == token@.len(),
            n == word@.len(),
            is_ascii(token),
            is_ascii(word),
            t@ == token.spec_bytes(),
            w@ == word.spec_bytes(),
            forall|j: int| 0 <= j < i ==> lower(token@[j]) == word@[j],
        decreases n - i,
    {
        let folded_byte = lower_byte(t[i]);
        if folded_byte != w[i] {
            proof {
                assert(lower(token@[i as int]) != word@[i as int]);
                assert(folded(token@)[i as int] == lower(token@[i as int]));
            }
            return false;
        }
        i += 1;
    }
    assert(folded(token@) =~= word@);
    true
}

/// The level that `token` names, whatever the case of its letters: `Warn`
/// for "warn" and "warning", the level of the same name for the other four
/// words, and the default level for every other text.
pub fn level_of_token(token: &str) -> (level: SeverityLevel)
    ensures
        level == token_level(token@),
{
    proof {
        reveal_strlit("error");
        reveal_strlit("warn");
        reveal_strlit("warning");
        reveal_strlit("info");
        reveal_strlit("debug");
        reveal_strlit("trace");
        assert(folded("error"@) =~= "error"@);
        assert(folded("warn"@) =~= "warn"@);
        assert(folded("warning"@) =~= "warning"@);
        assert(folded("info"@) =~= "info"@);
        assert(folded("debug"@) =~= "debug"@);
        assert(folded("trace"@) =~= "trace"@);
    }
    if names(token, "error") {
        SeverityLevel::Error
    } else if names(token, "warn") || names(token, "warning") {
        SeverityLevel::Warn
    } else if names(token, "info") {
        SeverityLevel::Info
    } else if names(token, "debug") {
        SeverityLevel::Debug
    } else if names(token, "trace") {
        SeverityLevel::Trace
    } else {
        SeverityLevel::default()
    }
}

impl SeverityLevel {
    /// The level's name in capital letters.
    pub open spec fn name_spec(self) -> Seq<char> {
        match self {
            SeverityLevel::Error => "ERROR"@,
            SeverityLevel::Warn => "WARN"@,
            SeverityLevel::Info => "INFO"@,
            SeverityLevel::Debug => "DEBUG"@,
            SeverityLevel::Trace => "TRACE"@,
        }
    }

    /// The level's name in capital letters, as a sink shows it.
    pub fn name(self) -> (text: &'static str)
        ensures
            text@ == self.name_spec(),
    {
        match self {
            SeverityLevel::Error => "ERROR",
            SeverityLevel::Warn => "WARN",
            SeverityLevel::Info => "INFO",
            SeverityLevel::Debug => "DEBUG",
            SeverityLevel::Trace => "TRACE",
        }
    }
}

/// Two words that differ only in the case of their ASCII letters name the
/// same level.
pub proof fn lemma_level_ignores_case(a: Seq<char>, b: Seq<char>)
    requires
        folded(a) == folded(b),
    ensures
        token_level(a) == token_level(b),
{
}

/// Each level is found again from its own name.
pub proof fn lemma_name_round_trip(level: SeverityLevel)
    ensures
        token_level(level.name_spec()) == level,
{
    reveal_strlit("error");
    reveal_strlit("warn");
    reveal_strlit("warning");
    reveal_strlit("info");
    reveal_strlit("debug");
    reveal_strlit("trace");
    reveal_strlit("ERROR");
    reveal_strlit("WARN");
    reveal_strlit("INFO");
    reveal_strlit("DEBUG");
    reveal_strlit("TRACE");
    assert(folded("ERROR"@) =~= "error"@);
    assert(folded("WARN"@) =~= "warn"@);
    assert(folded("INFO"@) =~= "info"@);
    assert(folded("DEBUG"@) =~= "debug"@);
    assert(folded("TRACE"@) =~= "trace"@);
    assert("warn"@[0] != "info"@[0]);
    assert("error"@[0] != "debug"@[0]);
    assert("error"@[0] != "trace"@[0]);
    assert("debug"@[0] != "trace"@[0]);
}

} // verus!
