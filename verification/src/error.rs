//! The error contract every propagator backend speaks.

use vstd::prelude::*;

verus! {

/// What a backend answers when it cannot do what was asked.
///
/// A capability a backend lacks is a loud [`PropagatorError::Unsupported`],
/// never a silent substitution.
#[derive(Debug)]
pub enum PropagatorError {
    PropagationFailed(String),
    LightTimeConvergence,
    InvalidOrbit(String),
    InvalidObserver(String),
    FrameOriginMismatch { context: String, expected: String, got: String },
    /// A requested capability (covariance method, integrator, …) is not
    /// implemented by this backend. Backends return this rather than
    /// silently substituting a different method: the caller decides
    /// whether a substitute is acceptable.
    Unsupported(String),
    /// Covariance output was requested but the input orbit carries no
    /// covariance to propagate. Fabricating one would silently poison
    /// every downstream gate, so this is a hard error at the call boundary.
    MissingCovariance(String),
    Other(String),
}

impl PropagatorError {
    /// The human-readable text of the error.
    pub open spec fn spec_message(&self) -> Seq<char> {
        match self {
            PropagatorError::PropagationFailed(s) => "propagation failed: "@ + s@,
            PropagatorError::LightTimeConvergence => "light-time iteration did not converge"@,
            PropagatorError::InvalidOrbit(s) => "invalid orbit: "@ + s@,
            PropagatorError::InvalidObserver(s) => "invalid observer: "@ + s@,
            PropagatorError::FrameOriginMismatch { context, expected, got } =>
                "frame/origin contract violated in "@ + context@ + ": expected "@ + expected@
                    + ", got "@ + got@,
            PropagatorError::Unsupported(s) => "unsupported by this propagator backend: "@ + s@,
            PropagatorError::MissingCovariance(s) =>
                "covariance requested but input orbit carries none: "@ + s@,
            PropagatorError::Other(s) => s@,
        }
    }

    /// The human-readable text of the error (what `Display` prints).
    pub fn message(&self) -> (r: String)
        ensures
            r@ == self.spec_message(),
    {
        match self {
            PropagatorError::PropagationFailed(s) => {
                let mut r = String::from_str("propagation failed: ");
                r.append(s.as_str());
                r
            },
            PropagatorError::LightTimeConvergence => String::from_str(
                "light-time iteration did not converge",
            ),
            PropagatorError::InvalidOrbit(s) => {
                let mut r = String::from_str("invalid orbit: ");
                r.append(s.as_str());
                r
            },
            PropagatorError::InvalidObserver(s) => {
                let mut r = String::from_str("invalid observer: ");
                r.append(s.as_str());
                r
            },
            PropagatorError::FrameOriginMismatch { context, expected, got } => {
                let mut r = String::from_str("frame/origin contract violated in ");
                r.append(context.as_str());
                r.append(": expected ");
                r.append(expected.as_str());
                r.append(", got ");
                r.append(got.as_str());
                r
            },
            PropagatorError::Unsupported(s) => {
                let mut r = String::from_str("unsupported by this propagator backend: ");
                r.append(s.as_str());
                r
            },
            PropagatorError::MissingCovariance(s) => {
                let mut r = String::from_str(
                    "covariance requested but input orbit carries none: ",
                );
                r.append(s.as_str());
                r
            },
            PropagatorError::Other(s) => s.clone(),
        }
    }
}

} // verus!
