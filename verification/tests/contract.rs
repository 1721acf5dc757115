use thor_rs_propagator::{
    body_positions_unsupported, default_force_model, frame_origin_string, CovarianceKind,
    CovarianceMethod, EphemerisConfig, Frame, FrameOrigin, IntegratorProfile, Origin,
    PropagationConfig, PropagationProfile, PropagatorError,
};

fn helio() -> FrameOrigin {
    FrameOrigin { frame: Frame::EclipticJ2000, origin: Origin::Sun }
}

/// The defaulted behaviors of the propagator interface: the force-model
/// label is "unknown", and body positions are a loud typed error, never a
/// silent answer.
#[test]
fn trait_is_object_safe_with_documented_defaults() {
    assert_eq!(default_force_model(), "unknown");
    let e = body_positions_unsupported("earth");
    assert!(matches!(e, PropagatorError::Other(_)));
}

#[test]
fn body_positions_error_names_the_body() {
    match body_positions_unsupported("earth") {
        PropagatorError::Other(s) => assert_eq!(
            s,
            "compute_body_positions not implemented for this propagator (body = earth)"
        ),
        _ => panic!("expected Other"),
    }
    assert_eq!(
        body_positions_unsupported("mars").message(),
        "compute_body_positions not implemented for this propagator (body = mars)"
    );
}

#[test]
fn require_accepts_matching_tags() {
    assert!(helio().require(Frame::EclipticJ2000, Origin::Sun, "ctx").is_ok());
    let bary = FrameOrigin { frame: Frame::Equatorial, origin: Origin::SolarSystemBarycenter };
    assert!(bary
        .require(Frame::Equatorial, Origin::SolarSystemBarycenter, "ctx")
        .is_ok());
}

#[test]
fn require_reports_frame_mismatch() {
    let tag = FrameOrigin { frame: Frame::Equatorial, origin: Origin::Sun };
    match tag.require(Frame::EclipticJ2000, Origin::Sun, "linking") {
        Err(PropagatorError::FrameOriginMismatch { context, expected, got }) => {
            assert_eq!(context, "linking");
            assert_eq!(expected, "EclipticJ2000/Sun");
            assert_eq!(got, "Equatorial/Sun");
        }
        _ => panic!("expected a frame/origin mismatch"),
    }
}

#[test]
fn require_reports_origin_mismatch() {
    let tag = FrameOrigin { frame: Frame::EclipticJ2000, origin: Origin::Earth };
    let e = tag.require(Frame::EclipticJ2000, Origin::SolarSystemBarycenter, "gnomonic");
    match e {
        Err(err) => assert_eq!(
            err.message(),
            "frame/origin contract violated in gnomonic: expected \
             EclipticJ2000/SolarSystemBarycenter, got EclipticJ2000/Earth"
        ),
        Ok(()) => panic!("expected a frame/origin mismatch"),
    }
}

#[test]
fn require_helio_ecliptic_checks_the_canonical_frame() {
    assert!(helio().require_helio_ecliptic("fit").is_ok());
    let geo = FrameOrigin { frame: Frame::Equatorial, origin: Origin::Earth };
    match geo.require_helio_ecliptic("fit") {
        Err(PropagatorError::FrameOriginMismatch { context, expected, got }) => {
            assert_eq!(context, "fit");
            assert_eq!(expected, "EclipticJ2000/Sun");
            assert_eq!(got, "Equatorial/Earth");
        }
        _ => panic!("expected a frame/origin mismatch"),
    }
}

#[test]
fn frame_and_origin_names_are_their_debug_names() {
    for f in [Frame::EclipticJ2000, Frame::Equatorial] {
        assert_eq!(f.name(), format!("{f:?}"));
    }
    for o in [Origin::SolarSystemBarycenter, Origin::Sun, Origin::Earth] {
        assert_eq!(o.name(), format!("{o:?}"));
    }
    assert_eq!(frame_origin_string(Frame::Equatorial, Origin::SolarSystemBarycenter),
        "Equatorial/SolarSystemBarycenter");
}

#[test]
fn error_messages_match_the_display_contract() {
    assert_eq!(
        PropagatorError::PropagationFailed("step".into()).message(),
        "propagation failed: step"
    );
    assert_eq!(
        PropagatorError::LightTimeConvergence.message(),
        "light-time iteration did not converge"
    );
    assert_eq!(PropagatorError::InvalidOrbit("nan".into()).message(), "invalid orbit: nan");
    assert_eq!(
        PropagatorError::InvalidObserver("X05".into()).message(),
        "invalid observer: X05"
    );
    assert_eq!(
        PropagatorError::FrameOriginMismatch {
            context: "a".into(),
            expected: "b".into(),
            got: "c".into(),
        }
        .message(),
        "frame/origin contract violated in a: expected b, got c"
    );
    assert_eq!(
        PropagatorError::Unsupported("MonteCarlo".into()).message(),
        "unsupported by this propagator backend: MonteCarlo"
    );
    assert_eq!(
        PropagatorError::MissingCovariance("t1".into()).message(),
        "covariance requested but input orbit carries none: t1"
    );
    assert_eq!(PropagatorError::Other("plain".into()).message(), "plain");
}

#[test]
fn default_profile_is_precision() {
    let p = PropagationProfile::default();
    assert!(p.events);
    assert_eq!(p.integrator, IntegratorProfile::Accurate);
    assert!(!p.allow_accurate_substitute);
    assert!(!p.cache_dense);
}

#[test]
fn survey_profile_only_drops_events() {
    let s = PropagationProfile::survey();
    let p = PropagationProfile::default();
    assert!(!s.events);
    assert_eq!(s, PropagationProfile { events: false, ..p });
    assert_ne!(s, p);
}

#[test]
fn default_propagation_config_runs_precision() {
    let c = PropagationConfig::default();
    assert!(!c.compute_stm);
    assert_eq!(c.profile, PropagationProfile::default());
}

#[test]
fn default_ephemeris_config() {
    let c = EphemerisConfig::default();
    assert!(!c.compute_covariance);
    assert_eq!(c.covariance_method, CovarianceMethod::Auto);
    assert_eq!(c.num_samples, 1000);
    assert!(!c.compute_jacobian);
}

#[test]
fn enums_compare_by_variant() {
    assert_eq!(CovarianceKind::SigmaPoint, CovarianceKind::SigmaPoint);
    assert_ne!(CovarianceKind::Linear, CovarianceKind::Mixture);
    assert_ne!(CovarianceMethod::MonteCarlo, CovarianceMethod::SigmaPoint);
    assert_ne!(IntegratorProfile::Fast, IntegratorProfile::Accurate);
}
