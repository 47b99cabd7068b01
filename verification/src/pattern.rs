//! The pattern matcher: a regular expression compiled once, queried per line.

use vstd::prelude::*;

verus! {

#[verifier::external_type_specification]
#[verifier::external_body]
pub struct ExRegex(regex::Regex);

/// Whether `pattern`, compiled with the given case-insensitivity flag, is a
/// valid regular expression. Compilation is deterministic, so validity is a
/// function of these two arguments alone.
pub uninterp spec fn regex_valid(pattern: Seq<char>, ignore_case: bool) -> bool;

/// Whether the regular expression `pattern`, compiled with the given
/// case-insensitivity flag, matches somewhere in `line`. Matching is
/// deterministic, so the result is a function of these three arguments alone.
pub uninterp spec fn regex_match(pattern: Seq<char>, ignore_case: bool, line: Seq<char>) -> bool;

/// Relies on regex::RegexBuilder: `build` succeeds exactly when the pattern
/// given to `new` is a valid regular expression (an empty pattern is valid),
/// and the outcome is determined by the pattern and the `case_insensitive`
/// flag alone. The error string is the failure's own description.
#[verifier::external_body]
fn build_regex(pattern: &str, ignore_case: bool) -> (r: Result<regex::Regex, String>)
    ensures
        r is Ok <==> regex_valid(pattern@, ignore_case),
        pattern@.len() == 0 ==> r is Ok,
{
    regex::RegexBuilder::new(pattern)
        .case_insensitive(ignore_case)
        .build()
        .map_err(|e| format!("{}", e))
}

/// A compiled pattern together with the ghost record of what was compiled.
/// The only constructor is `compile`, which ties the ghost fields to the
/// regular expression actually built.
pub struct CompiledPattern {
    re: regex::Regex,
    pattern: Ghost<Seq<char>>,
    ignore_case: Ghost<bool>,
}

/// Relies on regex::Regex::is_match: the result depends only on the pattern
/// the regex was compiled from, its `case_insensitive` flag, and the haystack;
/// an empty pattern matches every haystack. `cp.re` is always the regex
/// compiled from `cp.pattern` with flag `cp.ignore_case`, since `compile`
/// below is the type's only constructor.
#[verifier::external_body]
fn regex_is_match(cp: &CompiledPattern, line: &str) -> (r: bool)
    ensures
        r == regex_match(cp.spec_pattern(), cp.spec_ignore_case(), line@),
        cp.spec_pattern().len() == 0 ==> r,
{
    cp.re.is_match(line)
}

impl CompiledPattern {
    /// The text this pattern was compiled from.
    pub closed spec fn spec_pattern(self) -> Seq<char> {
        self.pattern@
    }

    /// The case-insensitivity flag this pattern was compiled with.
    pub closed spec fn spec_ignore_case(self) -> bool {
        self.ignore_case@
    }

    /// Compile `pattern`; fails exactly on syntactically invalid patterns,
    /// and the failure is fatal to a run (no matching is attempted).
    pub fn compile(pattern: &str, ignore_case: bool) -> (r: Result<CompiledPattern, String>)
        ensures
            r is Ok <==> regex_valid(pattern@, ignore_case),
            pattern@.len() == 0 ==> r is Ok,
            r is Ok ==> r->Ok_0.spec_pattern() == pattern@ && r->Ok_0.spec_ignore_case()
                == ignore_case,
    {
        match build_regex(pattern, ignore_case) {
            Ok(re) => Ok(CompiledPattern {
                re,
                pattern: Ghost(pattern@),
                ignore_case: Ghost(ignore_case),
            }),
            Err(e) => Err(e),
        }
    }

    /// The matching predicate: pure, and deterministic for a given compile.
    pub fn matches(&self, line: &str) -> (r: bool)
        ensures
            r == regex_match(self.spec_pattern(), self.spec_ignore_case(), line@),
            self.spec_pattern().len() == 0 ==> r,
    {
        regex_is_match(self, line)
    }
}

/// Two patterns compiled from the same text and flag have identical match
/// semantics on every line.
pub proof fn lemma_compile_deterministic(a: CompiledPattern, b: CompiledPattern, line: Seq<char>)
    requires
        a.spec_pattern() == b.spec_pattern(),
        a.spec_ignore_case() == b.spec_ignore_case(),
    ensures
        regex_match(a.spec_pattern(), a.spec_ignore_case(), line) == regex_match(
            b.spec_pattern(),
            b.spec_ignore_case(),
            line,
        ),
{
}

} // verus!
