//! The compact string of the `ecow` crate, as the identifiers hold it.

use ecow::EcoString;
use vstd::prelude::*;

verus! {

/// Makes `ecow::EcoString` known to the verifier as an opaque type.
#[verifier::external_type_specification]
#[verifier::external_body]
pub struct ExEcoString(EcoString);

/// The characters that an `EcoString` holds, in order.
pub uninterp spec fn eco_text(s: EcoString) -> Seq<char>;

/// Calls `EcoString::from(&str)`.
///
/// Trusted: the new string holds exactly the characters of `s`.
#[verifier::external_body]
pub(crate) fn eco_from_str(s: &str) -> (r: EcoString)
    ensures
        eco_text(r) == s@,
{
    EcoString::from(s)
}

/// Calls `EcoString::as_str`.
///
/// Trusted: the slice handed out holds exactly the characters of `s`.
#[verifier::external_body]
pub(crate) fn eco_as_str(s: &EcoString) -> (r: &str)
    ensures
        r@ == eco_text(*s),
{
    s.as_str()
}

/// Specifies `<EcoString as Clone>::clone`.
///
/// Trusted: the clone holds the same characters as the string it was made of.
pub assume_specification[ <EcoString as Clone>::clone ](s: &EcoString) -> (r: EcoString)
    ensures
        eco_text(r) == eco_text(*s),
;

} // verus!
