//! The 'pattern' constraint, matched by the regex crate.
use vstd::prelude::*;
use regex::Regex;
use crate::error::{models, report, ErrorModel, ValidationError, ValidationErrorCategory};
use crate::path::{Segment, ValidationPath};
use crate::constraints::single_error;
use crate::validator::Validator;

verus! {

#[verifier::external_type_specification]
#[verifier::external_body]
pub struct ExRegex(Regex);

#[verifier::external_type_specification]
#[verifier::external_body]
pub struct ExRegexError(regex::Error);

/// The pattern text that a compiled regular expression was built from.
pub uninterp spec fn regex_source(re: Regex) -> Seq<char>;

/// Whether the regex crate accepts `pattern` with its default settings.
pub uninterp spec fn pattern_compiles(pattern: Seq<char>) -> bool;

/// Whether a regex carries the default settings of `regex::Regex::new`, as
/// opposed to those a `RegexBuilder` may set (case insensitivity and the
/// like), which change what it matches.
pub uninterp spec fn default_settings(re: Regex) -> bool;

/// Whether the regular expression `pattern`, compiled with the default
/// settings, matches somewhere in `text`.
pub uninterp spec fn pattern_finds(pattern: Seq<char>, text: Seq<char>) -> bool;

/// Relies on `regex::Regex::new`: it fails or succeeds by the pattern text
/// alone, and the regex it builds keeps that text as its source and has the
/// default settings.
#[verifier::external_body]
fn compile(pattern: &str) -> (r: Result<Regex, regex::Error>)
    ensures
        r is Ok == pattern_compiles(pattern@),
        r is Ok ==> regex_source(r->Ok_0) == pattern@,
        r is Ok ==> default_settings(r->Ok_0),
{
    Regex::new(pattern)
}

/// Relies on `regex::Regex::is_match`: whether the regex matches anywhere in
/// the text. With the default settings this depends on the source text and
/// the haystack alone.
#[verifier::external_body]
fn finds(re: &Regex, text: &str) -> (r: bool)
    requires
        default_settings(*re),
    ensures
        r == pattern_finds(regex_source(*re), text@),
{
    re.is_match(text)
}

/// Relies on `regex::Regex::as_str`: the source text of the regex.
#[verifier::external_body]
fn source_text(re: &Regex) -> (r: String)
    ensures
        r@ == regex_source(*re),
{
    re.as_str().to_string()
}

/// Validator for the 'pattern' schema check: a text must contain a match of
/// the regular expression (the match is not anchored). The regular
/// expression is compiled from its text with the default settings.
pub struct PatternValidator {
    pattern: Regex,
}

impl PatternValidator {
    /// Compiles `pattern`; fails exactly when the regex crate rejects it.
    pub fn new(pattern: &str) -> (r: Result<Self, regex::Error>)
        ensures
            r is Ok == pattern_compiles(pattern@),
            r is Ok ==> r->Ok_0.source() == pattern@,
    {
        match compile(pattern) {
            Ok(re) => Ok(PatternValidator { pattern: re }),
            Err(e) => Err(e),
        }
    }

    #[verifier::type_invariant]
    spec fn compiled_with_defaults(&self) -> bool {
        default_settings(self.pattern)
    }

    /// The source text of the regular expression.
    pub closed spec fn source(&self) -> Seq<char> {
        regex_source(self.pattern)
    }
}

impl Validator<String> for PatternValidator {
    open spec fn reported(&self, path: Seq<Segment>, value: String) -> Seq<ErrorModel> {
        single_error(
            !pattern_finds(self.source(), value@),
            ValidationErrorCategory::Pattern,
            path,
            value@,
            self.source(),
        )
    }

    fn validate(&self, path: &ValidationPath, value: &String, errors: &mut Vec<ValidationError>) {
        proof {
            use_type_invariant(self);
        }
        if !finds(&self.pattern, value.as_str()) {
            report(
                errors,
                ValidationErrorCategory::Pattern,
                path,
                value.clone(),
                source_text(&self.pattern),
            );
        } else {
            assert(models(errors@) + Seq::<ErrorModel>::empty() =~= models(errors@));
        }
    }
}

} // verus!
