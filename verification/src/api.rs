//! What the propagator interface does by default, for the capabilities a
//! backend does not override: a force-model label of `"unknown"`, and a
//! loud typed error, never a silent answer, for body positions.

use vstd::prelude::*;

use crate::error::PropagatorError;

verus! {

/// The force-model label of a backend that names none.
pub fn default_force_model() -> (r: &'static str)
    ensures
        r@ == "unknown"@,
{
    "unknown"
}

/// The text of the error for body positions that a backend cannot supply.
pub open spec fn body_positions_unsupported_text(body: Seq<char>) -> Seq<char> {
    "compute_body_positions not implemented for this propagator (body = "@ + body + ")"@
}

/// The answer of a backend that cannot supply body positions: a
/// [`PropagatorError::Other`] that names the body asked for.
pub fn body_positions_unsupported(body: &str) -> (e: PropagatorError)
    ensures
        e matches PropagatorError::Other(s) && s@ == body_positions_unsupported_text(body@),
{
    let mut s = String::from_str(
        "compute_body_positions not implemented for this propagator (body = ",
    );
    s.append(body);
    s.append(")");
    PropagatorError::Other(s)
}

} // verus!
