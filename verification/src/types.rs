//! The plain-valued types exchanged with every propagator backend: frame
//! and origin tags, covariance provenance and method, and the propagation
//! and ephemeris configuration.

use vstd::prelude::*;

use crate::error::PropagatorError;

verus! {

/// Reference frame for coordinate systems.
#[derive(Debug, Clone, Copy, PartialEq, Eq, Structural)]
pub enum Frame {
    /// J2000 ecliptic frame (inertial).
    EclipticJ2000,
    /// International Celestial Reference Frame (inertial, equatorial).
    Equatorial,
}

impl Frame {
    /// The variant's name, as `{:?}` prints it.
    pub open spec fn spec_name(self) -> Seq<char> {
        match self {
            Frame::EclipticJ2000 => "EclipticJ2000"@,
            Frame::Equatorial => "Equatorial"@,
        }
    }

    /// The variant's name, as `{:?}` prints it.
    pub fn name(&self) -> (r: &'static str)
        ensures
            r@ == self.spec_name(),
    {
        match self {
            Frame::EclipticJ2000 => "EclipticJ2000",
            Frame::Equatorial => "Equatorial",
        }
    }
}

/// Origin (center body) of a coordinate system.
#[derive(Debug, Clone, Copy, PartialEq, Eq, Structural)]
pub enum Origin {
    /// Solar System Barycenter (default for propagation).
    SolarSystemBarycenter,
    /// Sun center.
    Sun,
    /// Earth center: used when the tangent plane is built from a
    /// geocentric line of sight (near-Earth regimes).
    Earth,
}

impl Origin {
    /// The variant's name, as `{:?}` prints it.
    pub open spec fn spec_name(self) -> Seq<char> {
        match self {
            Origin::SolarSystemBarycenter => "SolarSystemBarycenter"@,
            Origin::Sun => "Sun"@,
            Origin::Earth => "Earth"@,
        }
    }

    /// The variant's name, as `{:?}` prints it.
    pub fn name(&self) -> (r: &'static str)
        ensures
            r@ == self.spec_name(),
    {
        match self {
            Origin::SolarSystemBarycenter => "SolarSystemBarycenter",
            Origin::Sun => "Sun",
            Origin::Earth => "Earth",
        }
    }
}

/// How a frame/origin pair is written in a mismatch report: `Frame/Origin`.
pub open spec fn frame_origin_text(frame: Frame, origin: Origin) -> Seq<char> {
    frame.spec_name() + "/"@ + origin.spec_name()
}

/// Writes a frame/origin pair as `Frame/Origin`.
pub fn frame_origin_string(frame: Frame, origin: Origin) -> (r: String)
    ensures
        r@ == frame_origin_text(frame, origin),
{
    let mut r = String::from_str(frame.name());
    r.append("/");
    r.append(origin.name());
    r
}

/// Two pairs are written alike only if they are the same pair, so a
/// mismatch report never shows the same text on both sides.
pub proof fn lemma_frame_origin_text_injective(f1: Frame, o1: Origin, f2: Frame, o2: Origin)
    ensures
        frame_origin_text(f1, o1) == frame_origin_text(f2, o2) ==> f1 == f2 && o1 == o2,
{
    reveal_strlit("EclipticJ2000");
    reveal_strlit("Equatorial");
    reveal_strlit("SolarSystemBarycenter");
    reveal_strlit("Sun");
    reveal_strlit("Earth");
    reveal_strlit("/");
    if frame_origin_text(f1, o1) == frame_origin_text(f2, o2) {
        assert(frame_origin_text(f1, o1).len() == frame_origin_text(f2, o2).len());
    }
}

/// The frame and origin that a state is tagged with: what the frame/origin
/// contract of a state is checked against.
#[derive(Debug, Clone, Copy, PartialEq, Eq, Structural)]
pub struct FrameOrigin {
    pub frame: Frame,
    pub origin: Origin,
}

impl FrameOrigin {
    /// Whether the state carries exactly this frame and origin.
    pub open spec fn carries(self, frame: Frame, origin: Origin) -> bool {
        self.frame == frame && self.origin == origin
    }

    /// The error that `require` gives for this state when `frame`/`origin`
    /// was required at `context`.
    pub open spec fn is_mismatch_report(
        self,
        e: PropagatorError,
        frame: Frame,
        origin: Origin,
        context: Seq<char>,
    ) -> bool {
        match e {
            PropagatorError::FrameOriginMismatch { context: c, expected, got } => {
                &&& c@ == context
                &&& expected@ == frame_origin_text(frame, origin)
                &&& got@ == frame_origin_text(self.frame, self.origin)
            },
            _ => false,
        }
    }

    /// Loudly require this state to carry the given `frame` and `origin`.
    ///
    /// Returns [`PropagatorError::FrameOriginMismatch`], never a silent
    /// fallback, when either tag differs. `context` names the call site so
    /// the error pinpoints which contract was broken.
    pub fn require(&self, frame: Frame, origin: Origin, context: &str) -> (r: Result<
        (),
        PropagatorError,
    >)
        ensures
            r is Ok <==> (self.frame == frame && self.origin == origin),
            r is Ok <==> self.carries(frame, origin),
            r matches Err(e) ==> self.is_mismatch_report(e, frame, origin, context@),
    {
        if self.frame != frame || self.origin != origin {
            return Err(
                PropagatorError::FrameOriginMismatch {
                    context: String::from_str(context),
                    expected: frame_origin_string(frame, origin),
                    got: frame_origin_string(self.frame, self.origin),
                },
            );
        }
        Ok(())
    }

    /// The canonical state frame: heliocentric ecliptic J2000
    /// ([`Frame::EclipticJ2000`] + [`Origin::Sun`]).
    pub fn require_helio_ecliptic(&self, context: &str) -> (r: Result<(), PropagatorError>)
        ensures
            r is Ok <==> (self.frame == Frame::EclipticJ2000 && self.origin == Origin::Sun),
            r is Ok <==> self.carries(Frame::EclipticJ2000, Origin::Sun),
            r matches Err(e) ==> self.is_mismatch_report(
                e,
                Frame::EclipticJ2000,
                Origin::Sun,
                context@,
            ),
    {
        self.require(Frame::EclipticJ2000, Origin::Sun, context)
    }
}

/// Whatever `require` answers, it accepts a state exactly when the state's
/// frame tag is the required frame and its origin tag is the required
/// origin: a state that differs in either tag is refused with a mismatch
/// report naming the call site, the required pair and the state's pair.
pub proof fn lemma_require_accepts_exactly_matching_tags(
    tag: FrameOrigin,
    frame: Frame,
    origin: Origin,
    context: &str,
    r: Result<(), PropagatorError>,
)
    requires
        call_ensures(FrameOrigin::require, (&tag, frame, origin, context), r),
    ensures
        r is Ok <==> (tag.frame == frame && tag.origin == origin),
        tag.frame != frame ==> r is Err,
        tag.origin != origin ==> r is Err,
        r matches Err(e) ==> (e matches PropagatorError::FrameOriginMismatch {
            context: c,
            expected,
            got,
        } && c@ == context@ && expected@ == frame.spec_name() + "/"@ + origin.spec_name()
            && got@ == tag.frame.spec_name() + "/"@ + tag.origin.spec_name()
            && expected@ != got@),
{
    if !(tag.frame == frame && tag.origin == origin) {
        lemma_frame_origin_text_injective(frame, origin, tag.frame, tag.origin);
    }
}

/// `require_helio_ecliptic` accepts a state exactly when it is tagged
/// `EclipticJ2000` and `Sun`: any other frame, and any other origin (the
/// barycenter or the Earth among them), is refused with a report that
/// names `EclipticJ2000/Sun` as expected.
pub proof fn lemma_helio_ecliptic_accepts_only_ecliptic_sun(
    tag: FrameOrigin,
    context: &str,
    r: Result<(), PropagatorError>,
)
    requires
        call_ensures(FrameOrigin::require_helio_ecliptic, (&tag, context), r),
    ensures
        r is Ok <==> (tag.frame == Frame::EclipticJ2000 && tag.origin == Origin::Sun),
        tag.origin == Origin::SolarSystemBarycenter ==> r is Err,
        tag.origin == Origin::Earth ==> r is Err,
        tag.frame == Frame::Equatorial ==> r is Err,
        r matches Err(e) ==> (e matches PropagatorError::FrameOriginMismatch {
            context: c,
            expected,
            got,
        } && c@ == context@ && expected@ == "EclipticJ2000"@ + "/"@ + "Sun"@
            && got@ == tag.frame.spec_name() + "/"@ + tag.origin.spec_name()),
{
}

/// A refused `require` reports two different texts as expected and got.
pub proof fn lemma_mismatch_report_distinguishes(
    tag: FrameOrigin,
    e: PropagatorError,
    frame: Frame,
    origin: Origin,
    context: Seq<char>,
)
    requires
        !tag.carries(frame, origin),
        tag.is_mismatch_report(e, frame, origin, context),
    ensures
        e matches PropagatorError::FrameOriginMismatch { expected, got, .. } && expected@ != got@,
{
    lemma_frame_origin_text_injective(frame, origin, tag.frame, tag.origin);
}

/// How a propagated covariance was derived: the resolved kind at the
/// output epoch.
#[derive(Debug, Clone, Copy, PartialEq, Eq, Structural)]
pub enum CovarianceKind {
    /// Linear STM mapping.
    Linear,
    /// Second-order (STM + STT) correction.
    SecondOrder,
    /// Third-order extension.
    ThirdOrder,
    /// Adaptive Gaussian mixture, moment-collapsed to a single second moment.
    Mixture,
    /// Monte Carlo sample covariance.
    MonteCarlo,
    /// Sigma-point sample covariance.
    SigmaPoint,
}

/// Integrator selection within a [`PropagationProfile`].
#[derive(Debug, Clone, Copy, PartialEq, Eq, Structural)]
pub enum IntegratorProfile {
    /// The backend's tightest-accuracy integrator. Default.
    Accurate,
    /// A faster survey-grade integrator. Never an automatic downgrade:
    /// callers opt in explicitly.
    Fast,
}

/// Per-call propagation profile: event detection, integrator choice, and
/// dense-step caching.
#[derive(Debug, Clone, Copy, PartialEq, Eq, Structural)]
pub struct PropagationProfile {
    /// Run the backend's event detectors.
    pub events: bool,
    /// Integrator selection.
    pub integrator: IntegratorProfile,
    /// When `integrator` is [`IntegratorProfile::Fast`] and the backend has
    /// no fast integrator, substitute the accurate one instead of erroring.
    pub allow_accurate_substitute: bool,
    /// Cache per-step integrator coefficients for fast interpolation.
    pub cache_dense: bool,
}

impl PropagationProfile {
    /// The Precision profile: events on, accurate integrator, no
    /// substitution, no dense caching.
    pub open spec fn spec_precision() -> PropagationProfile {
        PropagationProfile {
            events: true,
            integrator: IntegratorProfile::Accurate,
            allow_accurate_substitute: false,
            cache_dense: false,
        }
    }

    /// The Survey profile: Precision with event detection off.
    pub open spec fn spec_survey() -> PropagationProfile {
        PropagationProfile { events: false, ..PropagationProfile::spec_precision() }
    }

    /// Survey profile: event detection off, accurate integrator, no dense
    /// caching. Trajectory output is identical to Precision; only the
    /// event-detection work is dropped.
    pub fn survey() -> (r: Self)
        ensures
            r == PropagationProfile::spec_survey(),
    {
        PropagationProfile { events: false, ..PropagationProfile::default() }
    }
}

impl Default for PropagationProfile {
    /// The Precision profile.
    fn default() -> (r: Self)
        ensures
            r == PropagationProfile::spec_precision(),
    {
        PropagationProfile {
            events: true,
            integrator: IntegratorProfile::Accurate,
            allow_accurate_substitute: false,
            cache_dense: false,
        }
    }
}

/// The Survey profile integrates exactly as the Precision profile does
/// (same integrator, same substitution rule, same caching) and differs
/// from it only in running no event detection.
pub proof fn lemma_survey_is_precision_without_events()
    ensures
        PropagationProfile::spec_survey().integrator
            == PropagationProfile::spec_precision().integrator,
        PropagationProfile::spec_survey().allow_accurate_substitute
            == PropagationProfile::spec_precision().allow_accurate_substitute,
        PropagationProfile::spec_survey().cache_dense
            == PropagationProfile::spec_precision().cache_dense,
        !PropagationProfile::spec_survey().events,
        PropagationProfile::spec_precision().events,
{
}

/// Configuration for orbit propagation.
#[derive(Debug, Clone)]
pub struct PropagationConfig {
    /// Whether to compute the state transition matrix.
    pub compute_stm: bool,
    /// Propagation profile (events / integrator / caching).
    pub profile: PropagationProfile,
}

impl PropagationConfig {
    /// The default configuration: no STM, the Precision profile.
    pub open spec fn spec_default() -> PropagationConfig {
        PropagationConfig { compute_stm: false, profile: PropagationProfile::spec_precision() }
    }
}

impl Default for PropagationConfig {
    fn default() -> (r: Self)
        ensures
            r == PropagationConfig::spec_default(),
    {
        PropagationConfig { compute_stm: false, profile: PropagationProfile::default() }
    }
}

/// The default propagation configuration runs the default (Precision)
/// profile, so default behavior is the historical behavior.
pub proof fn lemma_default_config_runs_precision()
    ensures
        PropagationConfig::spec_default().profile == PropagationProfile::spec_precision(),
        !PropagationConfig::spec_default().compute_stm,
{
}

/// Method for propagating covariance through the ephemeris computation.
#[derive(Debug, Clone, Copy, PartialEq, Eq, Structural)]
pub enum CovarianceMethod {
    /// Let the propagator choose the best method it has.
    Auto,
    /// First-order analytic propagation.
    Analytic,
    /// Monte Carlo sampling of perturbed initial conditions.
    MonteCarlo,
    /// Deterministic sigma-point sampling.
    SigmaPoint,
}

/// Configuration for ephemeris generation.
#[derive(Debug, Clone)]
pub struct EphemerisConfig {
    /// Whether to propagate the input covariance to the output ephemeris.
    pub compute_covariance: bool,
    /// Method for covariance computation.
    pub covariance_method: CovarianceMethod,
    /// Number of samples for Monte Carlo or sigma-point methods.
    pub num_samples: usize,
    /// Populate the observation Jacobian from the backend's STM.
    pub compute_jacobian: bool,
}

impl EphemerisConfig {
    /// The default configuration: no covariance, `Auto`, 1000 samples,
    /// no Jacobian.
    pub open spec fn spec_default() -> EphemerisConfig {
        EphemerisConfig {
            compute_covariance: false,
            covariance_method: CovarianceMethod::Auto,
            num_samples: 1000,
            compute_jacobian: false,
        }
    }
}

impl Default for EphemerisConfig {
    fn default() -> (r: Self)
        ensures
            r == EphemerisConfig::spec_default(),
    {
        EphemerisConfig {
            compute_covariance: false,
            covariance_method: CovarianceMethod::Auto,
            num_samples: 1000,
            compute_jacobian: false,
        }
    }
}

} // verus!
