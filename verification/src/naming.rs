//! Identifier shaping for the emitted text: snake_case method and module
//! names, PascalCase record names, with fixups for a few acronyms and for
//! the reserved word `type`.

use vstd::prelude::*;

verus! {

/// What `str::replace` returns for these three strings.
pub uninterp spec fn replace_of(s: Seq<char>, from: Seq<char>, to: Seq<char>) -> Seq<char>;

/// What Inflector's `to_snake_case` returns for this string.
pub uninterp spec fn snake_of(s: Seq<char>) -> Seq<char>;

/// What Inflector's `to_pascal_case` returns for this string.
pub uninterp spec fn pascal_of(s: Seq<char>) -> Seq<char>;

/// Relies on str::replace: every non-overlapping match of the pattern,
/// left to right, replaced with the replacement; the result is a function
/// of the three strings alone.
#[verifier::external_body]
fn replace_str(s: &str, from: &str, to: &str) -> (r: String)
    ensures
        r@ == replace_of(s@, from@, to@),
{
    s.replace(from, to)
}

/// Relies on Inflector's `to_snake_case`: a deterministic character
/// rewriting whose result is a function of the characters alone.
#[verifier::external_body]
fn snake_case_str(s: &str) -> (r: String)
    ensures
        r@ == snake_of(s@),
{
    inflector::cases::snakecase::to_snake_case(s)
}

/// Relies on Inflector's `to_pascal_case`: a deterministic character
/// rewriting whose result is a function of the characters alone.
#[verifier::external_body]
fn pascal_case_str(s: &str) -> (r: String)
    ensures
        r@ == pascal_of(s@),
{
    inflector::cases::pascalcase::to_pascal_case(s)
}

/// The snake_case shape of a name: acronym fixups first, then the case
/// conversion, then an escape for the reserved word `type`.
pub open spec fn spec_to_snake_case(s: Seq<char>) -> Seq<char> {
    let fixed = replace_of(replace_of(s, "URIs"@, "Uris"@), "IDs"@, "Ids"@);
    let converted = snake_of(fixed);
    if converted == "type"@ {
        "type_"@
    } else {
        converted
    }
}

/// Shape a name for use as a generated method, field or module name.
pub fn to_snake_case(s: &str) -> (r: String)
    ensures
        r@ == spec_to_snake_case(s@),
{
    let fixed_uris = replace_str(s, "URIs", "Uris");
    let fixed = replace_str(fixed_uris.as_str(), "IDs", "Ids");
    let converted = snake_case_str(fixed.as_str());
    let reserved = "type".to_owned();
    if converted.eq(&reserved) {
        "type_".to_owned()
    } else {
        converted
    }
}

/// The PascalCase shape of a name, for generated record names.
pub fn to_pascal_case(s: &str) -> (r: String)
    ensures
        r@ == pascal_of(s@),
{
    pascal_case_str(s)
}

} // verus!
