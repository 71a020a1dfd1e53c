//! Identifier case conventions.  The conversions themselves are performed
//! by the `convert_case` crate behind trusted wrappers; each conversion's
//! result is given a name, so that contracts can speak of it exactly.

use vstd::prelude::*;
use crate::strings::str_eq;

verus! {

/// A recognized rename convention.
#[derive(Clone, Copy, PartialEq, Eq, Structural, Debug)]
pub enum CaseConvention {
    Lower,
    Upper,
    Pascal,
    Camel,
    Snake,
    ScreamingSnake,
    Kebab,
}

/// What `convert_case` makes of `s` in lower case.
pub uninterp spec fn lower_case_of(s: Seq<char>) -> Seq<char>;

/// What `convert_case` makes of `s` in upper case.
pub uninterp spec fn upper_case_of(s: Seq<char>) -> Seq<char>;

/// What `convert_case` makes of `s` in Pascal case.
pub uninterp spec fn pascal_case_of(s: Seq<char>) -> Seq<char>;

/// What `convert_case` makes of `s` in camel case.
pub uninterp spec fn camel_case_of(s: Seq<char>) -> Seq<char>;

/// What `convert_case` makes of `s` in snake case.
pub uninterp spec fn snake_case_of(s: Seq<char>) -> Seq<char>;

/// What `convert_case` makes of `s` in screaming snake case.
pub uninterp spec fn screaming_snake_case_of(s: Seq<char>) -> Seq<char>;

/// What `convert_case` makes of `s` in kebab case.
pub uninterp spec fn kebab_case_of(s: Seq<char>) -> Seq<char>;

/// Relies on convert_case's `Casing::to_case` with `Case::Lower`: the
/// result is a function of the characters alone.
#[verifier::external_body]
fn to_lower_case(s: &str) -> (r: String)
    ensures
        r@ == lower_case_of(s@),
{
    convert_case::Casing::to_case(&s, convert_case::Case::Lower)
}

/// Relies on convert_case's `Casing::to_case` with `Case::Upper`: the
/// result is a function of the characters alone.
#[verifier::external_body]
fn to_upper_case(s: &str) -> (r: String)
    ensures
        r@ == upper_case_of(s@),
{
    convert_case::Casing::to_case(&s, convert_case::Case::Upper)
}

/// Relies on convert_case's `Casing::to_case` with `Case::Pascal`: the
/// result is a function of the characters alone.
#[verifier::external_body]
fn to_pascal_case(s: &str) -> (r: String)
    ensures
        r@ == pascal_case_of(s@),
{
    convert_case::Casing::to_case(&s, convert_case::Case::Pascal)
}

/// Relies on convert_case's `Casing::to_case` with `Case::Camel`: the
/// result is a function of the characters alone.
#[verifier::external_body]
fn to_camel_case(s: &str) -> (r: String)
    ensures
        r@ == camel_case_of(s@),
{
    convert_case::Casing::to_case(&s, convert_case::Case::Camel)
}

/// Relies on convert_case's `Casing::to_case` with `Case::Snake`: the
/// result is a function of the characters alone.
#[verifier::external_body]
fn to_snake_case(s: &str) -> (r: String)
    ensures
        r@ == snake_case_of(s@),
{
    convert_case::Casing::to_case(&s, convert_case::Case::Snake)
}

/// Relies on convert_case's `Casing::to_case` with `Case::Constant`, its
/// name for screaming snake case: the result is a function of the
/// characters alone.
#[verifier::external_body]
fn to_screaming_snake_case(s: &str) -> (r: String)
    ensures
        r@ == screaming_snake_case_of(s@),
{
    convert_case::Casing::to_case(&s, convert_case::Case::Constant)
}

/// Relies on convert_case's `Casing::to_case` with `Case::Kebab`: the
/// result is a function of the characters alone.
#[verifier::external_body]
fn to_kebab_case(s: &str) -> (r: String)
    ensures
        r@ == kebab_case_of(s@),
{
    convert_case::Casing::to_case(&s, convert_case::Case::Kebab)
}

/// The characters of `s` under convention `c`; `None` leaves the name
/// unchanged.
pub open spec fn apply_case(c: Option<CaseConvention>, s: Seq<char>) -> Seq<char> {
    match c {
        None => s,
        Some(CaseConvention::Lower) => lower_case_of(s),
        Some(CaseConvention::Upper) => upper_case_of(s),
        Some(CaseConvention::Pascal) => pascal_case_of(s),
        Some(CaseConvention::Camel) => camel_case_of(s),
        Some(CaseConvention::Snake) => snake_case_of(s),
        Some(CaseConvention::ScreamingSnake) => screaming_snake_case_of(s),
        Some(CaseConvention::Kebab) => kebab_case_of(s),
    }
}

/// Renders a name under the given case convention.
pub fn convert_to_case(s: &str, c: &Option<CaseConvention>) -> (r: String)
    ensures
        r@ == apply_case(*c, s@),
{
    match c {
        None => s.to_owned(),
        Some(CaseConvention::Lower) => to_lower_case(s),
        Some(CaseConvention::Upper) => to_upper_case(s),
        Some(CaseConvention::Pascal) => to_pascal_case(s),
        Some(CaseConvention::Camel) => to_camel_case(s),
        Some(CaseConvention::Snake) => to_snake_case(s),
        Some(CaseConvention::ScreamingSnake) => to_screaming_snake_case(s),
        Some(CaseConvention::Kebab) => to_kebab_case(s),
    }
}

/// The convention named by a rename-rule attribute value, when the value
/// is one of the eight recognized names.
pub open spec fn spec_parse_serde_case(val: Option<Seq<char>>) -> Option<CaseConvention> {
    match val {
        None => None,
        Some(s) => if s == "lowercase"@ {
            Some(CaseConvention::Lower)
        } else if s == "UPPERCASE"@ {
            Some(CaseConvention::Upper)
        } else if s == "PascalCase"@ {
            Some(CaseConvention::Pascal)
        } else if s == "camelCase"@ {
            Some(CaseConvention::Camel)
        } else if s == "snake_case"@ {
            Some(CaseConvention::Snake)
        } else if s == "SCREAMING_SNAKE_CASE"@ {
            Some(CaseConvention::ScreamingSnake)
        } else if s == "kebab-case"@ {
            Some(CaseConvention::Kebab)
        } else {
            None
        },
    }
}

/// Looks a rename-rule value up in the table of recognized conventions;
/// unrecognized or absent values yield `None` (no renaming).
pub fn parse_serde_case(val: &Option<String>) -> (r: Option<CaseConvention>)
    ensures
        r == spec_parse_serde_case(match val {
            Some(s) => Some(s@),
            None => None,
        }),
{
    match val {
        None => None,
        Some(s) => {
            if str_eq(s.as_str(), "lowercase") {
                Some(CaseConvention::Lower)
            } else if str_eq(s.as_str(), "UPPERCASE") {
                Some(CaseConvention::Upper)
            } else if str_eq(s.as_str(), "PascalCase") {
                Some(CaseConvention::Pascal)
            } else if str_eq(s.as_str(), "camelCase") {
                Some(CaseConvention::Camel)
            } else if str_eq(s.as_str(), "snake_case") {
                Some(CaseConvention::Snake)
            } else if str_eq(s.as_str(), "SCREAMING_SNAKE_CASE") {
                Some(CaseConvention::ScreamingSnake)
            } else if str_eq(s.as_str(), "kebab-case") {
                Some(CaseConvention::Kebab)
            } else {
                None
            }
        },
    }
}

} // verus!
