//! A fixed two-way mapping between identifier-casing conventions and their
//! canonical string labels.
//!
//! The library knows exactly eight conventions. Each has one canonical label
//! (for example `"snake_case"` or `"SCREAMING-KEBAB-CASE"`), and lookups in
//! both directions are exact: parsing is byte-for-byte, case-sensitive, with
//! no normalization, and an unrecognized label is reported back verbatim in
//! the error.

use vstd::prelude::*;
use vstd::string::StrSliceExecFns;

verus! {

/// One of the eight supported identifier-casing conventions.
#[derive(PartialEq, Eq, Hash, Debug, Clone, Copy)]
pub enum RenameRule {
    LowerCase,
    UpperCase,
    PascalCase,
    CamelCase,
    SnakeCase,
    ScreamingSnakeCase,
    KebabCase,
    ScreamingKebabCase,
}

/// The failure of a label lookup: the input matched no canonical label.
/// It carries the unrecognized input verbatim.
#[derive(Debug)]
pub enum ParseError {
    Unknown(String),
}

/// The canonical label of a convention, as a sequence of characters.
pub open spec fn spec_label(rule: RenameRule) -> Seq<char> {
    match rule {
        RenameRule::LowerCase => "lowercase"@,
        RenameRule::UpperCase => "UPPERCASE"@,
        RenameRule::PascalCase => "PascalCase"@,
        RenameRule::CamelCase => "camelCase"@,
        RenameRule::SnakeCase => "snake_case"@,
        RenameRule::ScreamingSnakeCase => "SCREAMING_SNAKE_CASE"@,
        RenameRule::KebabCase => "kebab-case"@,
        RenameRule::ScreamingKebabCase => "SCREAMING-KEBAB-CASE"@,
    }
}

/// The convention whose canonical label is exactly `s`, if any.
pub open spec fn spec_lookup(s: Seq<char>) -> Option<RenameRule> {
    if s == "lowercase"@ {
        Some(RenameRule::LowerCase)
    } else if s == "UPPERCASE"@ {
        Some(RenameRule::UpperCase)
    } else if s == "PascalCase"@ {
        Some(RenameRule::PascalCase)
    } else if s == "camelCase"@ {
        Some(RenameRule::CamelCase)
    } else if s == "snake_case"@ {
        Some(RenameRule::SnakeCase)
    } else if s == "SCREAMING_SNAKE_CASE"@ {
        Some(RenameRule::ScreamingSnakeCase)
    } else if s == "kebab-case"@ {
        Some(RenameRule::KebabCase)
    } else if s == "SCREAMING-KEBAB-CASE"@ {
        Some(RenameRule::ScreamingKebabCase)
    } else {
        None
    }
}

/// Exact, character-for-character string equality.
fn str_eq(a: &str, b: &str) -> (r: bool)
    ensures
        r == (a@ == b@),
{
    let n = a.unicode_len();
    if n != b.unicode_len() {
        return false;
    }
    let mut i: usize = 0;
    while i < n
        invariant
            n == a@.len(),
            n == b@.len(),
            0 <= i <= n,
            forall|j: int| 0 <= j < i ==> a@[j] == b@[j],
        decreases n - i,
    {
        if a.get_char(i) != b.get_char(i) {
            return false;
        }
        i += 1;
    }
    proof {
        assert(a@ =~= b@);
    }
    true
}

impl RenameRule {
    /// Parses a canonical label into its convention. The match is exact and
    /// case-sensitive; on failure the error carries the input verbatim.
    pub fn from_rename_all_str(s: &str) -> (r: Result<Self, ParseError>)
        ensures
            match spec_lookup(s@) {
                Some(rule) => r == Ok::<RenameRule, ParseError>(rule),
                None => r matches Err(ParseError::Unknown(t)) && t@ == s@,
            },
    {
        if str_eq(s, "lowercase") {
            Ok(RenameRule::LowerCase)
        } else if str_eq(s, "UPPERCASE") {
            Ok(RenameRule::UpperCase)
        } else if str_eq(s, "PascalCase") {
            Ok(RenameRule::PascalCase)
        } else if str_eq(s, "camelCase") {
            Ok(RenameRule::CamelCase)
        } else if str_eq(s, "snake_case") {
            Ok(RenameRule::SnakeCase)
        } else if str_eq(s, "SCREAMING_SNAKE_CASE") {
            Ok(RenameRule::ScreamingSnakeCase)
        } else if str_eq(s, "kebab-case") {
            Ok(RenameRule::KebabCase)
        } else if str_eq(s, "SCREAMING-KEBAB-CASE") {
            Ok(RenameRule::ScreamingKebabCase)
        } else {
            Err(ParseError::Unknown(s.to_owned()))
        }
    }

    /// The canonical label of this convention.
    pub fn to_rename_all_str(&self) -> (r: &'static str)
        ensures
            r@ == spec_label(*self),
    {
        match self {
            RenameRule::LowerCase => "lowercase",
            RenameRule::UpperCase => "UPPERCASE",
            RenameRule::PascalCase => "PascalCase",
            RenameRule::CamelCase => "camelCase",
            RenameRule::SnakeCase => "snake_case",
            RenameRule::ScreamingSnakeCase => "SCREAMING_SNAKE_CASE",
            RenameRule::KebabCase => "kebab-case",
            RenameRule::ScreamingKebabCase => "SCREAMING-KEBAB-CASE",
        }
    }

    /// The canonical label of this convention, as an owned string. This is
    /// the display form, and it equals `to_rename_all_str` exactly.
    pub fn to_string(&self) -> (r: String)
        ensures
            r@ == spec_label(*self),
    {
        self.to_rename_all_str().to_owned()
    }
}

impl core::str::FromStr for RenameRule {
    type Err = ParseError;

    /// Behaves exactly as `from_rename_all_str`, error content included.
    fn from_str(s: &str) -> (r: Result<Self, Self::Err>)
        ensures
            match spec_lookup(s@) {
                Some(rule) => r == Ok::<RenameRule, ParseError>(rule),
                None => r matches Err(ParseError::Unknown(t)) && t@ == s@,
            },
    {
        Self::from_rename_all_str(s)
    }
}

impl<'a> core::convert::TryFrom<&'a str> for RenameRule {
    type Error = ParseError;

    /// Behaves exactly as `from_rename_all_str`, error content included.
    fn try_from(s: &'a str) -> (r: Result<Self, Self::Error>)
        ensures
            match spec_lookup(s@) {
                Some(rule) => r == Ok::<RenameRule, ParseError>(rule),
                None => r matches Err(ParseError::Unknown(t)) && t@ == s@,
            },
    {
        Self::from_rename_all_str(s)
    }
}

impl<'a> vstd::std_specs::convert::TryFromSpecImpl<&'a str> for RenameRule {
    // Exact `Result` equality is unattainable here: the error side owns a
    // freshly allocated copy of the input string, a value spec code cannot
    // name. So this mechanism claims nothing; the conversion's behavior is
    // stated by the `ensures` on `try_from` itself.
    open spec fn obeys_try_from_spec() -> bool {
        false
    }

    open spec fn try_from_spec(s: &'a str) -> Result<Self, ParseError> {
        arbitrary()
    }
}

/// The eight canonical labels are pairwise distinct. All but one pair differ
/// already in their first character; the two screaming labels differ in the
/// separator after their common prefix.
proof fn lemma_labels_pairwise_distinct()
    ensures
        "lowercase"@ != "UPPERCASE"@,
        "lowercase"@ != "PascalCase"@,
        "lowercase"@ != "camelCase"@,
        "lowercase"@ != "snake_case"@,
        "lowercase"@ != "SCREAMING_SNAKE_CASE"@,
        "lowercase"@ != "kebab-case"@,
        "lowercase"@ != "SCREAMING-KEBAB-CASE"@,
        "UPPERCASE"@ != "PascalCase"@,
        "UPPERCASE"@ != "camelCase"@,
        "UPPERCASE"@ != "snake_case"@,
        "UPPERCASE"@ != "SCREAMING_SNAKE_CASE"@,
        "UPPERCASE"@ != "kebab-case"@,
        "UPPERCASE"@ != "SCREAMING-KEBAB-CASE"@,
        "PascalCase"@ != "camelCase"@,
        "PascalCase"@ != "snake_case"@,
        "PascalCase"@ != "SCREAMING_SNAKE_CASE"@,
        "PascalCase"@ != "kebab-case"@,
        "PascalCase"@ != "SCREAMING-KEBAB-CASE"@,
        "camelCase"@ != "snake_case"@,
        "camelCase"@ != "SCREAMING_SNAKE_CASE"@,
        "camelCase"@ != "kebab-case"@,
        "camelCase"@ != "SCREAMING-KEBAB-CASE"@,
        "snake_case"@ != "SCREAMING_SNAKE_CASE"@,
        "snake_case"@ != "kebab-case"@,
        "snake_case"@ != "SCREAMING-KEBAB-CASE"@,
        "SCREAMING_SNAKE_CASE"@ != "kebab-case"@,
        "SCREAMING_SNAKE_CASE"@ != "SCREAMING-KEBAB-CASE"@,
        "kebab-case"@ != "SCREAMING-KEBAB-CASE"@,
{
    reveal_strlit("lowercase");
    reveal_strlit("UPPERCASE");
    reveal_strlit("PascalCase");
    reveal_strlit("camelCase");
    reveal_strlit("snake_case");
    reveal_strlit("SCREAMING_SNAKE_CASE");
    reveal_strlit("kebab-case");
    reveal_strlit("SCREAMING-KEBAB-CASE");
    assert("lowercase"@[0] == 'l');
    assert("UPPERCASE"@[0] == 'U');
    assert("PascalCase"@[0] == 'P');
    assert("camelCase"@[0] == 'c');
    assert("snake_case"@[0] == 's');
    assert("SCREAMING_SNAKE_CASE"@[0] == 'S');
    assert("kebab-case"@[0] == 'k');
    assert("SCREAMING-KEBAB-CASE"@[0] == 'S');
    assert("SCREAMING_SNAKE_CASE"@[9] == '_');
    assert("SCREAMING-KEBAB-CASE"@[9] == '-');
}

/// Labels are a bijection between the eight conventions and the eight
/// canonical strings: distinct conventions always have distinct labels.
pub proof fn lemma_label_injective(a: RenameRule, b: RenameRule)
    ensures
        a != b ==> spec_label(a) != spec_label(b),
{
    lemma_labels_pairwise_distinct();
}

/// Round trip: looking up the canonical label of any convention yields that
/// same convention back.
pub proof fn lemma_label_lookup_roundtrip(rule: RenameRule)
    ensures
        spec_lookup(spec_label(rule)) == Some(rule),
{
    lemma_labels_pairwise_distinct();
    match rule {
        RenameRule::LowerCase => assert(spec_lookup("lowercase"@) == Some(rule)),
        RenameRule::UpperCase => assert(spec_lookup("UPPERCASE"@) == Some(rule)),
        RenameRule::PascalCase => assert(spec_lookup("PascalCase"@) == Some(rule)),
        RenameRule::CamelCase => assert(spec_lookup("camelCase"@) == Some(rule)),
        RenameRule::SnakeCase => assert(spec_lookup("snake_case"@) == Some(rule)),
        RenameRule::ScreamingSnakeCase => assert(spec_lookup("SCREAMING_SNAKE_CASE"@) == Some(
            rule,
        )),
        RenameRule::KebabCase => assert(spec_lookup("kebab-case"@) == Some(rule)),
        RenameRule::ScreamingKebabCase => assert(spec_lookup("SCREAMING-KEBAB-CASE"@) == Some(
            rule,
        )),
    }
}

/// Reverse round trip: whenever a lookup succeeds, the canonical label of the
/// convention it found is exactly the string that was looked up.
pub proof fn lemma_lookup_label_roundtrip(s: Seq<char>)
    ensures
        spec_lookup(s) matches Some(rule) ==> spec_label(rule) == s,
{
}

/// The display form of a convention equals its canonical label: any result of
/// `to_string` reads character for character as any result of
/// `to_rename_all_str` on the same convention.
pub proof fn lemma_display_equals_label(rule: RenameRule, s: String, l: &str)
    requires
        call_ensures(RenameRule::to_string, (&rule,), s),
        call_ensures(RenameRule::to_rename_all_str, (&rule,), l),
    ensures
        s@ == l@,
{
}

} // verus!
