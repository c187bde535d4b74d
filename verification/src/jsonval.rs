//! Syntactic validation of produced ABI artifacts: whether a string is a
//! well-formed JSON document.

use vstd::prelude::*;

verus! {

/// Whether a character sequence parses as a well-formed JSON document. The
/// grammar is left abstract; all that is relied upon is that well-formedness
/// depends on the characters alone.
pub uninterp spec fn json_valid(s: Seq<char>) -> bool;

/// Relies on serde_json::from_str::<serde_json::Value>: whether a string
/// parses as a JSON document is a pure function of the string.
#[verifier::external_body]
pub(crate) fn is_well_formed_json(s: &str) -> (r: bool)
    ensures
        r == json_valid(s@),
{
    serde_json::from_str::<serde_json::Value>(s).is_ok()
}

} // verus!
