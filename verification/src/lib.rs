//! The propagator contract for THOR: the plain-valued types exchanged with
//! every dynamical backend, the error contract they speak, and what the
//! propagator interface does by default.
//!
//! Frames and conventions: states are heliocentric ecliptic J2000 unless a
//! type says otherwise; epochs are MJD TDB. Backends signal capabilities
//! they lack with [`PropagatorError::Unsupported`], loudly, never by silent
//! substitution.

pub mod api;
pub mod error;
pub mod types;

pub use api::{body_positions_unsupported, default_force_model};
pub use error::PropagatorError;
pub use types::{
    frame_origin_string, CovarianceKind, CovarianceMethod, EphemerisConfig, Frame, FrameOrigin,
    IntegratorProfile, Origin, PropagationConfig, PropagationProfile,
};
