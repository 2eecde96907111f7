use goupil::engine::{
    attribute_target, check_batch_arg, compile_plan, ArgShape, CompileMode, EngineAttribute,
    TransportEngine,
};
use goupil::error::Error;
use goupil::settings::{
    AbsorptionMode, ComptonMethod, ComptonMode, ComptonModel, RayleighMode, TransportBoundary,
    TransportMode, TransportSettings,
};

#[test]
fn default_settings() {
    let s = TransportSettings::new();
    assert_eq!(s.mode, TransportMode::Forward);
    assert_eq!(s.compton_mode, ComptonMode::Direct);
    assert_eq!(s.compton_method, ComptonMethod::RejectionSampling);
    assert_eq!(s.compton_model, ComptonModel::ScatteringFunction);
    assert_eq!(s.rayleigh, RayleighMode::FormFactor);
    assert_eq!(s.absorption, AbsorptionMode::Discrete);
    assert_eq!(s.boundary, TransportBoundary::Unbounded);
    assert!(s.volume_sources);
    assert!(s.validate());
}

#[test]
fn backward_mode_coerces_direct_compton() {
    let mut s = TransportSettings::new();
    assert_eq!(s.set_mode("Backward"), Ok(()));
    assert_eq!(s.mode, TransportMode::Backward);
    assert_eq!(s.compton_mode, ComptonMode::Adjoint);
    assert_eq!(s.get_mode(), "Backward");
    assert_eq!(s.get_compton_mode(), Some("Adjoint"));
    assert!(s.validate());
}

#[test]
fn forward_mode_coerces_backward_compton() {
    let mut s = TransportSettings::new();
    s.set_compton_mode(Some("Inverse")).unwrap();
    assert_eq!(s.mode, TransportMode::Backward);
    assert_eq!(s.compton_method, ComptonMethod::InverseTransform);
    s.set_mode("Forward").unwrap();
    assert_eq!(s.compton_mode, ComptonMode::Direct);
    assert!(s.validate());
}

#[test]
fn compton_mode_selects_transport_mode() {
    let mut s = TransportSettings::new();
    s.set_compton_mode(Some("Adjoint")).unwrap();
    assert_eq!(s.mode, TransportMode::Backward);
    assert_eq!(s.compton_method, ComptonMethod::RejectionSampling);
    s.set_compton_mode(Some("Direct")).unwrap();
    assert_eq!(s.mode, TransportMode::Forward);
    s.set_compton_mode(None).unwrap();
    assert_eq!(s.compton_mode, ComptonMode::Off);
    assert_eq!(s.mode, TransportMode::Forward);
    assert_eq!(s.get_compton_mode(), None);
}

#[test]
fn unknown_names_are_domain_errors() {
    let mut s = TransportSettings::new();
    let before = s;
    assert_eq!(s.set_mode("Sideways"), Err(Error::Domain));
    assert_eq!(s.set_compton_mode(Some("Indirect")), Err(Error::Domain));
    assert_eq!(s.set_compton_method("Guess"), Err(Error::Domain));
    assert_eq!(s.set_compton_model("Thomson"), Err(Error::Domain));
    assert_eq!(s.set_absorption(Some("Partial")), Err(Error::Domain));
    assert_eq!(s, before);
}

#[test]
fn setters_round_trip() {
    let mut s = TransportSettings::new();
    s.set_compton_method("InverseTransform").unwrap();
    assert_eq!(s.get_compton_method(), "InverseTransform");
    s.set_compton_model("Klein-Nishina").unwrap();
    assert_eq!(s.compton_model, ComptonModel::KleinNishina);
    assert_eq!(s.get_compton_model(), "Klein-Nishina");
    s.set_absorption(None).unwrap();
    assert_eq!(s.get_absorption(), None);
    s.set_absorption(Some("Continuous")).unwrap();
    assert_eq!(s.get_absorption(), Some("Continuous"));
    s.set_boundary(Some(3));
    assert_eq!(s.get_boundary(), Some(3));
    s.set_boundary(None);
    assert_eq!(s.boundary, TransportBoundary::Unbounded);
    s.set_rayleigh(None);
    assert!(!s.get_rayleigh());
    s.set_rayleigh(Some(true));
    assert!(s.get_rayleigh());
    s.set_volume_sources(None);
    assert!(!s.get_volume_sources());
    s.set_volume_sources(Some(true));
    assert!(s.get_volume_sources());
}

#[test]
fn inverse_compton_keeps_inverse_transform() {
    let mut s = TransportSettings::new();
    s.set_compton_mode(Some("Inverse")).unwrap();
    let before = s;
    assert_eq!(s.set_compton_method("RejectionSampling"), Err(Error::InvalidArgument));
    assert_eq!(s, before);
    assert!(s.validate());
    assert_eq!(s.set_compton_method("InverseTransform"), Ok(()));
    assert_eq!(s.set_compton_method("Guess"), Err(Error::Domain));
    s.set_compton_mode(Some("Adjoint")).unwrap();
    assert_eq!(s.set_compton_method("RejectionSampling"), Ok(()));
    assert_eq!(s.compton_method, ComptonMethod::RejectionSampling);
}

#[test]
fn validate_detects_method_mismatch() {
    let mut s = TransportSettings::new();
    s.set_compton_mode(Some("Inverse")).unwrap();
    s.compton_method = ComptonMethod::RejectionSampling;
    assert!(!s.validate());
}

#[test]
fn compile_plans() {
    let s = TransportSettings::new();
    let all = compile_plan(&s, CompileMode::All);
    assert_eq!(all.len(), 3);
    assert_eq!(all[0].mode, TransportMode::Forward);
    assert_eq!(all[0].compton_mode, ComptonMode::Direct);
    assert_eq!(all[1].mode, TransportMode::Backward);
    assert_eq!(all[1].compton_mode, ComptonMode::Adjoint);
    assert_eq!(all[2].compton_mode, ComptonMode::Inverse);
    assert_eq!(all[2].compton_method, ComptonMethod::InverseTransform);
    assert_eq!(compile_plan(&s, CompileMode::Both).len(), 2);
    let b = compile_plan(&s, CompileMode::Backward);
    assert_eq!(b.len(), 1);
    assert_eq!(b[0].mode, TransportMode::Backward);
    assert_eq!(compile_plan(&s, CompileMode::Forward).len(), 1);
}

#[test]
fn compile_mode_follows_settings() {
    let mut e = TransportEngine::new(None);
    assert!(!e.compiled);
    let plan = e.compile(None).unwrap();
    assert!(e.compiled);
    assert_eq!(plan.len(), 1);
    assert_eq!(plan[0].mode, TransportMode::Forward);
    e.settings.set_mode("Backward").unwrap();
    let plan = e.compile(None).unwrap();
    assert_eq!(plan.len(), 1);
    assert_eq!(plan[0].mode, TransportMode::Backward);
    assert_eq!(e.compile(Some("All")).unwrap().len(), 3);
    let before = e;
    assert_eq!(e.compile(Some("Sometimes")), Err(Error::Domain));
    assert_eq!(e, before);
}

#[test]
fn compile_twice_is_compile_once() {
    let mut once = TransportEngine::new(None);
    let plan_once = once.compile(Some("Both")).unwrap();
    let mut twice = once;
    let plan_twice = twice.compile(Some("Both")).unwrap();
    assert_eq!(once, twice);
    assert!(twice.compiled);
    assert_eq!(plan_once, plan_twice);
    assert!(twice.transport_compile_plan().is_empty());
    let mut fresh = TransportEngine::new(None);
    assert_eq!(fresh.transport_compile_plan().len(), 2);
    assert!(fresh.compiled);
    assert!(fresh.transport_compile_plan().is_empty());
}

#[test]
fn run_settings_checks() {
    let mut e = TransportEngine::new(None);
    assert_eq!(e.run_settings(false, false), Err(Error::Missing));
    let s = e.run_settings(true, false).unwrap();
    assert!(!s.volume_sources);
    assert_eq!(e.run_settings(true, true), Err(Error::InvalidArgument));
    e.settings.set_mode("Backward").unwrap();
    assert_eq!(e.run_settings(true, true).unwrap(), e.settings);
    e.settings.set_volume_sources(Some(false));
    assert_eq!(e.run_settings(true, true), Err(Error::InvalidArgument));
}

#[test]
fn batch_argument_shapes() {
    assert_eq!(check_batch_arg(4, None), Ok(()));
    assert_eq!(check_batch_arg(4, Some(ArgShape::Scalar)), Ok(()));
    assert_eq!(check_batch_arg(4, Some(ArgShape::Array(4))), Ok(()));
    assert_eq!(check_batch_arg(4, Some(ArgShape::Array(3))), Err(Error::InvalidArgument));
}

#[test]
fn attribute_routing() {
    assert_eq!(attribute_target("geometry"), EngineAttribute::Geometry);
    assert_eq!(attribute_target("random"), EngineAttribute::Random);
    assert_eq!(attribute_target("registry"), EngineAttribute::Registry);
    assert_eq!(attribute_target("settings"), EngineAttribute::Settings);
    assert_eq!(attribute_target("energy_min"), EngineAttribute::Setting);
}
