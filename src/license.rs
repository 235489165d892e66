//! Repair of declared license expressions in a raw JSON document, before it is
//! read into the typed document model.

use vstd::prelude::*;

verus! {

#[verifier::external_type_specification]
#[verifier::external_body]
pub struct ExValue(serde_json::Value);

/// The declared license of each element of the document's `packages` array, in
/// order: the string under `licenseDeclared`, or `None` where that is absent or
/// not a string. Empty where `packages` is not an array.
pub uninterp spec fn declared_licenses(v: serde_json::Value) -> Seq<Option<Seq<char>>>;

/// Whether the string parses as an SPDX license expression.
pub uninterp spec fn license_expression_valid(s: Seq<char>) -> bool;

/// Relies on `serde_json::Value`'s indexing (`Null` for a missing key or a value
/// of another kind) and `as_array`: the length of the `packages` array.
#[verifier::external_body]
fn package_count(v: &serde_json::Value) -> (r: usize)
    ensures
        r == declared_licenses(*v).len(),
{
    v["packages"].as_array().map_or(0, Vec::len)
}

/// Relies on `serde_json::Value`'s indexing and `as_str`: the `licenseDeclared`
/// string of the `i`-th package.
#[verifier::external_body]
fn declared_license(v: &serde_json::Value, i: usize) -> (r: Option<String>)
    requires
        i < declared_licenses(*v).len(),
    ensures
        match r {
            Some(s) => declared_licenses(*v)[i as int] == Some(s@),
            None => declared_licenses(*v)[i as int] is None,
        },
{
    v["packages"][i]["licenseDeclared"].as_str().map(String::from)
}

/// Relies on `serde_json::Value`'s mutable indexing, which replaces the value
/// under an existing key of an object and touches nothing else.
#[verifier::external_body]
fn set_declared_license(v: &mut serde_json::Value, i: usize, s: &str)
    requires
        i < declared_licenses(*old(v)).len(),
        declared_licenses(*old(v))[i as int] is Some,
    ensures
        declared_licenses(*final(v)) == declared_licenses(*old(v)).update(i as int, Some(s@)),
{
    v["packages"][i]["licenseDeclared"] = serde_json::Value::from(s);
}

/// Relies on `spdx_expression::SpdxExpression::parse`, which fails exactly on
/// strings that are not syntactically valid license expressions.
#[verifier::external_body]
fn is_valid_expression(s: &str) -> (r: bool)
    ensures
        r == license_expression_valid(s@),
{
    spdx_expression::SpdxExpression::parse(s).is_ok()
}

/// The value that stands for an unknown license.
pub open spec fn no_assertion() -> Seq<char> {
    "NOASSERTION"@
}

/// The replacement for a declared license, given whether it parsed: `None` where
/// it is kept, `NOASSERTION` where a declared string failed to parse.
pub open spec fn replacement_of(declared: Option<Seq<char>>, valid: bool) -> Option<Seq<char>> {
    if declared is Some && !valid {
        Some(no_assertion())
    } else {
        None
    }
}

/// Whether a declared license has to be replaced.
pub open spec fn needs_repair(declared: Option<Seq<char>>) -> bool {
    match declared {
        Some(s) => !license_expression_valid(s),
        None => false,
    }
}

/// A declared license after repair.
pub open spec fn repaired(declared: Option<Seq<char>>) -> Option<Seq<char>> {
    if needs_repair(declared) {
        Some(no_assertion())
    } else {
        declared
    }
}

pub open spec fn string_option_view(o: Option<String>) -> Option<Seq<char>> {
    match o {
        Some(s) => Some(s@),
        None => None,
    }
}

/// The replacement of a declared license, given the outcome of parsing it.
pub fn replacement(declared: &Option<String>, valid: bool) -> (r: Option<String>)
    ensures
        match r {
            Some(s) => replacement_of(string_option_view(*declared), valid) == Some(s@),
            None => replacement_of(string_option_view(*declared), valid) is None,
        },
{
    match declared {
        Some(_) => {
            if valid {
                None
            } else {
                Some(String::from_str("NOASSERTION"))
            }
        },
        None => None,
    }
}

/// Replaces every declared license expression of the document's packages that
/// does not parse by `NOASSERTION`; returns whether anything was replaced.
pub fn fix_license(json: &mut serde_json::Value) -> (changed: bool)
    ensures
        declared_licenses(*final(json)) == declared_licenses(*old(json)).map_values(
            |d: Option<Seq<char>>| repaired(d),
        ),
        changed == exists|i: int|
            0 <= i < declared_licenses(*old(json)).len() && needs_repair(
                #[trigger] declared_licenses(*old(json))[i],
            ),
{
    let ghost orig = declared_licenses(*json);
    let n = package_count(json);
    let mut changed = false;
    let mut i: usize = 0;
    while i < n
        invariant
            i <= n,
            n == orig.len(),
            declared_licenses(*json).len() == n,
            forall|k: int| 0 <= k < i ==> declared_licenses(*json)[k] == repaired(orig[k]),
            forall|k: int| i <= k < n ==> declared_licenses(*json)[k] == orig[k],
            changed == exists|k: int| 0 <= k < i && needs_repair(#[trigger] orig[k]),
        decreases n - i,
    {
        let declared = declared_license(json, i);
        let valid = match &declared {
            Some(s) => is_valid_expression(s.as_str()),
            None => true,
        };
        let fix = replacement(&declared, valid);
        match fix {
            Some(s) => {
                set_declared_license(json, i, s.as_str());
                changed = true;
            },
            None => {},
        }
        assert(changed == exists|k: int| 0 <= k < i + 1 && needs_repair(#[trigger] orig[k])) by {
            if needs_repair(orig[i as int]) {
                assert(0 <= i < i + 1);
            }
        }
        i = i + 1;
    }
    assert(declared_licenses(*json) =~= orig.map_values(|d: Option<Seq<char>>| repaired(d)));
    changed
}

} // verus!
