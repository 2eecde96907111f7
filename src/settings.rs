use vstd::prelude::*;
use crate::error::Error;
use crate::text::{opt_view, same_text};

verus! {

/// Direction of sampling.
#[derive(Clone, Copy, Debug, PartialEq, Eq, Structural)]
pub enum TransportMode {
    Backward,
    Forward,
}

impl TransportMode {
    pub open spec fn name_spec(self) -> Seq<char> {
        match self {
            TransportMode::Backward => "Backward"@,
            TransportMode::Forward => "Forward"@,
        }
    }

    pub fn name(self) -> (r: &'static str)
        ensures
            r@ == self.name_spec(),
    {
        match self {
            TransportMode::Backward => "Backward",
            TransportMode::Forward => "Forward",
        }
    }

    pub fn from_name(s: &str) -> (r: Result<TransportMode, Error>)
        ensures
            match r {
                Ok(m) => m.name_spec() == s@,
                Err(e) => e == Error::Domain && forall|m: TransportMode| #[trigger] m.name_spec() != s@,
            },
    {
        if same_text(s, "Backward") {
            Ok(TransportMode::Backward)
        } else if same_text(s, "Forward") {
            Ok(TransportMode::Forward)
        } else {
            assert forall|m: TransportMode| #[trigger] m.name_spec() != s@ by {
                match m {
                    TransportMode::Backward => {},
                    TransportMode::Forward => {},
                }
            }
            Err(Error::Domain)
        }
    }
}

/// Numerical technique for sampling Compton collisions.
#[derive(Clone, Copy, Debug, PartialEq, Eq, Structural)]
pub enum ComptonMethod {
    InverseTransform,
    RejectionSampling,
}

impl ComptonMethod {
    pub open spec fn name_spec(self) -> Seq<char> {
        match self {
            ComptonMethod::InverseTransform => "InverseTransform"@,
            ComptonMethod::RejectionSampling => "RejectionSampling"@,
        }
    }

    pub fn name(self) -> (r: &'static str)
        ensures
            r@ == self.name_spec(),
    {
        match self {
            ComptonMethod::InverseTransform => "InverseTransform",
            ComptonMethod::RejectionSampling => "RejectionSampling",
        }
    }

    pub fn from_name(s: &str) -> (r: Result<ComptonMethod, Error>)
        ensures
            match r {
                Ok(m) => m.name_spec() == s@,
                Err(e) => e == Error::Domain && forall|m: ComptonMethod| #[trigger] m.name_spec() != s@,
            },
    {
        if same_text(s, "InverseTransform") {
            Ok(ComptonMethod::InverseTransform)
        } else if same_text(s, "RejectionSampling") {
            Ok(ComptonMethod::RejectionSampling)
        } else {
            assert forall|m: ComptonMethod| #[trigger] m.name_spec() != s@ by {
                match m {
                    ComptonMethod::InverseTransform => {},
                    ComptonMethod::RejectionSampling => {},
                }
            }
            Err(Error::Domain)
        }
    }
}

/// Physical model of Compton collisions.
#[derive(Clone, Copy, Debug, PartialEq, Eq, Structural)]
pub enum ComptonModel {
    ImpulseApproximation,
    KleinNishina,
    Penelope,
    ScatteringFunction,
}

impl ComptonModel {
    pub open spec fn name_spec(self) -> Seq<char> {
        match self {
            ComptonModel::ImpulseApproximation => "Impulse Approximation"@,
            ComptonModel::KleinNishina => "Klein-Nishina"@,
            ComptonModel::Penelope => "Penelope"@,
            ComptonModel::ScatteringFunction => "Scattering Function"@,
        }
    }

    pub fn name(self) -> (r: &'static str)
        ensures
            r@ == self.name_spec(),
    {
        match self {
            ComptonModel::ImpulseApproximation => "Impulse Approximation",
            ComptonModel::KleinNishina => "Klein-Nishina",
            ComptonModel::Penelope => "Penelope",
            ComptonModel::ScatteringFunction => "Scattering Function",
        }
    }

    pub fn from_name(s: &str) -> (r: Result<ComptonModel, Error>)
        ensures
            match r {
                Ok(m) => m.name_spec() == s@,
                Err(e) => e == Error::Domain && forall|m: ComptonModel| #[trigger] m.name_spec() != s@,
            },
    {
        if same_text(s, "Impulse Approximation") {
            Ok(ComptonModel::ImpulseApproximation)
        } else if same_text(s, "Klein-Nishina") {
            Ok(ComptonModel::KleinNishina)
        } else if same_text(s, "Penelope") {
            Ok(ComptonModel::Penelope)
        } else if same_text(s, "Scattering Function") {
            Ok(ComptonModel::ScatteringFunction)
        } else {
            assert forall|m: ComptonModel| #[trigger] m.name_spec() != s@ by {
                match m {
                    ComptonModel::ImpulseApproximation => {},
                    ComptonModel::KleinNishina => {},
                    ComptonModel::Penelope => {},
                    ComptonModel::ScatteringFunction => {},
                }
            }
            Err(Error::Domain)
        }
    }
}

/// Sampling distribution of Compton collisions, or none.
#[derive(Clone, Copy, Debug, PartialEq, Eq, Structural)]
pub enum ComptonMode {
    Off,
    Adjoint,
    Direct,
    Inverse,
}

impl ComptonMode {
    pub open spec fn name_spec(self) -> Option<Seq<char>> {
        match self {
            ComptonMode::Off => None,
            ComptonMode::Adjoint => Some("Adjoint"@),
            ComptonMode::Direct => Some("Direct"@),
            ComptonMode::Inverse => Some("Inverse"@),
        }
    }

    pub fn name(self) -> (r: Option<&'static str>)
        ensures
            opt_view(r) == self.name_spec(),
    {
        match self {
            ComptonMode::Off => None,
            ComptonMode::Adjoint => Some("Adjoint"),
            ComptonMode::Direct => Some("Direct"),
            ComptonMode::Inverse => Some("Inverse"),
        }
    }

    /// Parses a name; no name selects `Off`.
    pub fn from_name(s: Option<&str>) -> (r: Result<ComptonMode, Error>)
        ensures
            match r {
                Ok(m) => m.name_spec() == opt_view(s),
                Err(e) => e == Error::Domain && forall|m: ComptonMode| #[trigger] m.name_spec() != opt_view(s),
            },
    {
        match s {
            None => Ok(ComptonMode::Off),
            Some(s) => {
                if same_text(s, "Adjoint") {
                    Ok(ComptonMode::Adjoint)
                } else if same_text(s, "Direct") {
                    Ok(ComptonMode::Direct)
                } else if same_text(s, "Inverse") {
                    Ok(ComptonMode::Inverse)
                } else {
                    assert forall|m: ComptonMode| #[trigger] m.name_spec() != Some(s@) by {
                        match m {
                            ComptonMode::Off => {},
                            ComptonMode::Adjoint => {},
                            ComptonMode::Direct => {},
                            ComptonMode::Inverse => {},
                        }
                    }
                    Err(Error::Domain)
                }
            }
        }
    }
}

/// Treatment of photo-absorption, or none.
#[derive(Clone, Copy, Debug, PartialEq, Eq, Structural)]
pub enum AbsorptionMode {
    Off,
    Continuous,
    Discrete,
}

impl AbsorptionMode {
    pub open spec fn name_spec(self) -> Option<Seq<char>> {
        match self {
            AbsorptionMode::Off => None,
            AbsorptionMode::Continuous => Some("Continuous"@),
            AbsorptionMode::Discrete => Some("Discrete"@),
        }
    }

    pub fn name(self) -> (r: Option<&'static str>)
        ensures
            opt_view(r) == self.name_spec(),
    {
        match self {
            AbsorptionMode::Off => None,
            AbsorptionMode::Continuous => Some("Continuous"),
            AbsorptionMode::Discrete => Some("Discrete"),
        }
    }

    /// Parses a name; no name selects `Off`.
    pub fn from_name(s: Option<&str>) -> (r: Result<AbsorptionMode, Error>)
        ensures
            match r {
                Ok(m) => m.name_spec() == opt_view(s),
                Err(e) => e == Error::Domain && forall|m: AbsorptionMode| #[trigger] m.name_spec() != opt_view(s),
            },
    {
        match s {
            None => Ok(AbsorptionMode::Off),
            Some(s) => {
                if same_text(s, "Continuous") {
                    Ok(AbsorptionMode::Continuous)
                } else if same_text(s, "Discrete") {
                    Ok(AbsorptionMode::Discrete)
                } else {
                    assert forall|m: AbsorptionMode| #[trigger] m.name_spec() != Some(s@) by {
                        match m {
                            AbsorptionMode::Off => {},
                            AbsorptionMode::Continuous => {},
                            AbsorptionMode::Discrete => {},
                        }
                    }
                    Err(Error::Domain)
                }
            }
        }
    }
}

/// Treatment of Rayleigh scattering.
#[derive(Clone, Copy, Debug, PartialEq, Eq, Structural)]
pub enum RayleighMode {
    Off,
    FormFactor,
}

/// Sector whose entry ends a photon's transport, if any.
#[derive(Clone, Copy, Debug, PartialEq, Eq, Structural)]
pub enum TransportBoundary {
    Unbounded,
    Sector(usize),
}

/// The discrete part of the transport configuration.
///
/// `volume_sources` tells whether a source-energy constraint applies to backward walks. The
/// numeric bounds (minimum and maximum energy, maximum length) are carried beside this record by
/// its callers.
#[derive(Clone, Copy, Debug, PartialEq, Eq, Structural)]
pub struct TransportSettings {
    pub mode: TransportMode,
    pub compton_mode: ComptonMode,
    pub compton_method: ComptonMethod,
    pub compton_model: ComptonModel,
    pub rayleigh: RayleighMode,
    pub absorption: AbsorptionMode,
    pub boundary: TransportBoundary,
    pub volume_sources: bool,
}

/// Whether a Compton mode samples forward in time.
pub open spec fn is_forward_compton(c: ComptonMode) -> bool {
    c == ComptonMode::Direct
}

/// Whether a Compton mode samples backward in time.
pub open spec fn is_backward_compton(c: ComptonMode) -> bool {
    c == ComptonMode::Adjoint || c == ComptonMode::Inverse
}

impl TransportSettings {
    /// The transport mode and the Compton mode agree: a backward walk never samples Compton
    /// collisions directly, and a forward walk never samples them by adjoint or inverse.
    pub open spec fn mode_consistent(self) -> bool {
        match self.mode {
            TransportMode::Backward => !is_forward_compton(self.compton_mode),
            TransportMode::Forward => !is_backward_compton(self.compton_mode),
        }
    }

    /// Full consistency: modes agree, and inverse Compton sampling uses the inverse transform.
    pub open spec fn valid(self) -> bool {
        &&& self.mode_consistent()
        &&& (self.compton_mode == ComptonMode::Inverse ==> self.compton_method
            == ComptonMethod::InverseTransform)
    }

    /// Settings after selecting transport mode `m`: the Compton mode follows the direction.
    pub open spec fn with_mode(self, m: TransportMode) -> TransportSettings {
        let c = match m {
            TransportMode::Backward => if self.compton_mode == ComptonMode::Direct {
                ComptonMode::Adjoint
            } else {
                self.compton_mode
            },
            TransportMode::Forward => if is_backward_compton(self.compton_mode) {
                ComptonMode::Direct
            } else {
                self.compton_mode
            },
        };
        TransportSettings { mode: m, compton_mode: c, ..self }
    }

    /// Settings after selecting Compton mode `c`: the transport mode (and, for inverse
    /// sampling, the method) follows.
    pub open spec fn with_compton_mode(self, c: ComptonMode) -> TransportSettings {
        match c {
            ComptonMode::Adjoint => TransportSettings {
                compton_mode: c,
                mode: TransportMode::Backward,
                ..self
            },
            ComptonMode::Direct => TransportSettings {
                compton_mode: c,
                mode: TransportMode::Forward,
                ..self
            },
            ComptonMode::Inverse => TransportSettings {
                compton_mode: c,
                mode: TransportMode::Backward,
                compton_method: ComptonMethod::InverseTransform,
                ..self
            },
            ComptonMode::Off => TransportSettings { compton_mode: c, ..self },
        }
    }

    /// Default settings: forward transport with direct Compton sampling by rejection from the
    /// scattering-function model, Rayleigh scattering by form factors, discrete absorption, no
    /// boundary, and volume sources enabled.
    pub open spec fn default_spec() -> TransportSettings {
        TransportSettings {
            mode: TransportMode::Forward,
            compton_mode: ComptonMode::Direct,
            compton_method: ComptonMethod::RejectionSampling,
            compton_model: ComptonModel::ScatteringFunction,
            rayleigh: RayleighMode::FormFactor,
            absorption: AbsorptionMode::Discrete,
            boundary: TransportBoundary::Unbounded,
            volume_sources: true,
        }
    }

    pub fn new() -> (r: TransportSettings)
        ensures
            r == TransportSettings::default_spec(),
            r.valid(),
    {
        TransportSettings {
            mode: TransportMode::Forward,
            compton_mode: ComptonMode::Direct,
            compton_method: ComptonMethod::RejectionSampling,
            compton_model: ComptonModel::ScatteringFunction,
            rayleigh: RayleighMode::FormFactor,
            absorption: AbsorptionMode::Discrete,
            boundary: TransportBoundary::Unbounded,
            volume_sources: true,
        }
    }

    /// Selects the transport mode, coercing the Compton mode to match.
    pub fn apply_mode(&mut self, m: TransportMode)
        ensures
            *final(self) == old(self).with_mode(m),
            final(self).mode_consistent(),
            old(self).valid() ==> final(self).valid(),
    {
        match m {
            TransportMode::Backward => {
                if self.compton_mode == ComptonMode::Direct {
                    self.compton_mode = ComptonMode::Adjoint;
                }
            },
            TransportMode::Forward => {
                if self.compton_mode == ComptonMode::Adjoint || self.compton_mode
                    == ComptonMode::Inverse {
                    self.compton_mode = ComptonMode::Direct;
                }
            },
        }
        self.mode = m;
    }

    /// Selects the Compton mode, coercing the transport mode (and method) to match.
    pub fn apply_compton_mode(&mut self, c: ComptonMode)
        ensures
            *final(self) == old(self).with_compton_mode(c),
            old(self).mode_consistent() ==> final(self).mode_consistent(),
            old(self).valid() ==> final(self).valid(),
    {
        self.compton_mode = c;
        match c {
            ComptonMode::Adjoint => {
                self.mode = TransportMode::Backward;
            },
            ComptonMode::Direct => {
                self.mode = TransportMode::Forward;
            },
            ComptonMode::Inverse => {
                self.mode = TransportMode::Backward;
                self.compton_method = ComptonMethod::InverseTransform;
            },
            ComptonMode::Off => {},
        }
    }

    /// Selects the transport mode by name.
    pub fn set_mode(&mut self, value: &str) -> (r: Result<(), Error>)
        ensures
            match r {
                Ok(()) => exists|m: TransportMode|
                    m.name_spec() == value@ && *final(self) == #[trigger] old(self).with_mode(m),
                Err(e) => e == Error::Domain && *final(self) == *old(self)
                    && forall|m: TransportMode| #[trigger] m.name_spec() != value@,
            },
            old(self).valid() ==> final(self).valid(),
    {
        let m = TransportMode::from_name(value)?;
        self.apply_mode(m);
        Ok(())
    }

    pub fn get_mode(&self) -> (r: &'static str)
        ensures
            r@ == self.mode.name_spec(),
    {
        self.mode.name()
    }

    /// Selects the Compton mode by name; no name disables Compton collisions.
    pub fn set_compton_mode(&mut self, value: Option<&str>) -> (r: Result<(), Error>)
        ensures
            match r {
                Ok(()) => exists|c: ComptonMode|
                    c.name_spec() == opt_view(value) && *final(self) == #[trigger] old(
                        self,
                    ).with_compton_mode(c),
                Err(e) => e == Error::Domain && *final(self) == *old(self)
                    && forall|c: ComptonMode| #[trigger] c.name_spec() != opt_view(value),
            },
            old(self).valid() ==> final(self).valid(),
    {
        let c = ComptonMode::from_name(value)?;
        self.apply_compton_mode(c);
        Ok(())
    }

    pub fn get_compton_mode(&self) -> (r: Option<&'static str>)
        ensures
            opt_view(r) == self.compton_mode.name_spec(),
    {
        self.compton_mode.name()
    }

    /// Selects the Compton sampling method by name. Inverse Compton sampling requires the
    /// inverse transform: selecting another method then is an invalid argument.
    pub fn set_compton_method(&mut self, value: &str) -> (r: Result<(), Error>)
        ensures
            match r {
                Ok(()) => {
                    &&& final(self).compton_method.name_spec() == value@
                    &&& (old(self).compton_mode == ComptonMode::Inverse ==> final(self).compton_method
                        == ComptonMethod::InverseTransform)
                    &&& *final(self) == (TransportSettings {
                        compton_method: final(self).compton_method,
                        ..*old(self)
                    })
                },
                Err(e) => {
                    &&& *final(self) == *old(self)
                    &&& (e == Error::Domain || e == Error::InvalidArgument)
                    &&& (e == Error::Domain <==> forall|m: ComptonMethod|
                        #[trigger] m.name_spec() != value@)
                    &&& (e == Error::InvalidArgument ==> old(self).compton_mode
                        == ComptonMode::Inverse && ComptonMethod::RejectionSampling.name_spec()
                        == value@)
                },
            },
            old(self).valid() ==> final(self).valid(),
    {
        let m = ComptonMethod::from_name(value)?;
        if self.compton_mode == ComptonMode::Inverse && m != ComptonMethod::InverseTransform {
            return Err(Error::InvalidArgument);
        }
        self.compton_method = m;
        Ok(())
    }

    pub fn get_compton_method(&self) -> (r: &'static str)
        ensures
            r@ == self.compton_method.name_spec(),
    {
        self.compton_method.name()
    }

    pub fn set_compton_model(&mut self, value: &str) -> (r: Result<(), Error>)
        ensures
            match r {
                Ok(()) => final(self).compton_model.name_spec() == value@
                    && *final(self) == (TransportSettings {
                    compton_model: final(self).compton_model,
                    ..*old(self)
                }),
                Err(e) => e == Error::Domain && *final(self) == *old(self)
                    && forall|m: ComptonModel| #[trigger] m.name_spec() != value@,
            },
    {
        self.compton_model = ComptonModel::from_name(value)?;
        Ok(())
    }

    pub fn get_compton_model(&self) -> (r: &'static str)
        ensures
            r@ == self.compton_model.name_spec(),
    {
        self.compton_model.name()
    }

    /// Selects the absorption treatment by name; no name disables absorption.
    pub fn set_absorption(&mut self, value: Option<&str>) -> (r: Result<(), Error>)
        ensures
            match r {
                Ok(()) => final(self).absorption.name_spec() == opt_view(value)
                    && *final(self) == (TransportSettings {
                    absorption: final(self).absorption,
                    ..*old(self)
                }),
                Err(e) => e == Error::Domain && *final(self) == *old(self)
                    && forall|m: AbsorptionMode| #[trigger] m.name_spec() != opt_view(value),
            },
    {
        self.absorption = AbsorptionMode::from_name(value)?;
        Ok(())
    }

    pub fn get_absorption(&self) -> (r: Option<&'static str>)
        ensures
            opt_view(r) == self.absorption.name_spec(),
    {
        self.absorption.name()
    }

    pub fn set_boundary(&mut self, value: Option<usize>)
        ensures
            *final(self) == (TransportSettings {
                boundary: match value {
                    None => TransportBoundary::Unbounded,
                    Some(i) => TransportBoundary::Sector(i),
                },
                ..*old(self)
            }),
    {
        self.boundary = match value {
            None => TransportBoundary::Unbounded,
            Some(i) => TransportBoundary::Sector(i),
        };
    }

    pub fn get_boundary(&self) -> (r: Option<usize>)
        ensures
            r == match self.boundary {
                TransportBoundary::Unbounded => None,
                TransportBoundary::Sector(i) => Some(i),
            },
    {
        match self.boundary {
            TransportBoundary::Unbounded => None,
            TransportBoundary::Sector(i) => Some(i),
        }
    }

    /// Enables or disables Rayleigh scattering; no value disables it.
    pub fn set_rayleigh(&mut self, value: Option<bool>)
        ensures
            *final(self) == (TransportSettings {
                rayleigh: if value == Some(true) {
                    RayleighMode::FormFactor
                } else {
                    RayleighMode::Off
                },
                ..*old(self)
            }),
    {
        let value = match value {
            Some(v) => v,
            None => false,
        };
        if value {
            self.rayleigh = RayleighMode::FormFactor;
        } else {
            self.rayleigh = RayleighMode::Off;
        }
    }

    pub fn get_rayleigh(&self) -> (r: bool)
        ensures
            r == (self.rayleigh == RayleighMode::FormFactor),
    {
        match self.rayleigh {
            RayleighMode::FormFactor => true,
            RayleighMode::Off => false,
        }
    }

    /// Enables or disables the source-energy constraint; no value disables it.
    pub fn set_volume_sources(&mut self, value: Option<bool>)
        ensures
            *final(self) == (TransportSettings { volume_sources: value == Some(true), ..*old(self) }),
    {
        self.volume_sources = match value {
            Some(v) => v,
            None => false,
        };
    }

    pub fn get_volume_sources(&self) -> (r: bool)
        ensures
            r == self.volume_sources,
    {
        self.volume_sources
    }

    /// Checks the consistency that the setters maintain, for defensive call sites.
    pub fn validate(&self) -> (r: bool)
        ensures
            r == self.valid(),
    {
        let modes = match self.mode {
            TransportMode::Backward => self.compton_mode != ComptonMode::Direct,
            TransportMode::Forward => !(self.compton_mode == ComptonMode::Adjoint
                || self.compton_mode == ComptonMode::Inverse),
        };
        modes && (self.compton_mode != ComptonMode::Inverse || self.compton_method
            == ComptonMethod::InverseTransform)
    }
}

} // verus!
