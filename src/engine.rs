use vstd::prelude::*;
use crate::error::Error;
use crate::settings::{
    is_backward_compton, ComptonMethod, ComptonMode, TransportMode, TransportSettings,
};
use crate::text::{opt_view, same_text};

verus! {

/// Which sets of material tables a compilation computes.
#[derive(Clone, Copy, Debug, PartialEq, Eq, Structural)]
pub enum CompileMode {
    /// Forward, backward, and inverse-transform backward tables.
    All,
    /// Backward tables only.
    Backward,
    /// Forward and backward tables.
    Both,
    /// Forward tables only.
    Forward,
}

impl CompileMode {
    pub open spec fn name_spec(self) -> Seq<char> {
        match self {
            CompileMode::All => "All"@,
            CompileMode::Backward => "Backward"@,
            CompileMode::Both => "Both"@,
            CompileMode::Forward => "Forward"@,
        }
    }

    /// The mode that compiles the tables of the current transport direction.
    pub open spec fn of_transport(m: TransportMode) -> CompileMode {
        match m {
            TransportMode::Backward => CompileMode::Backward,
            TransportMode::Forward => CompileMode::Forward,
        }
    }

    /// Parses a compilation mode. A name that is not one of the four is outside of the domain.
    pub fn from_name(s: &str) -> (r: Result<CompileMode, Error>)
        ensures
            match r {
                Ok(m) => m.name_spec() == s@,
                Err(e) => e == Error::Domain && forall|m: CompileMode|
                    #[trigger] m.name_spec() != s@,
            },
    {
        if same_text(s, "All") {
            Ok(CompileMode::All)
        } else if same_text(s, "Backward") {
            Ok(CompileMode::Backward)
        } else if same_text(s, "Both") {
            Ok(CompileMode::Both)
        } else if same_text(s, "Forward") {
            Ok(CompileMode::Forward)
        } else {
            assert forall|m: CompileMode| #[trigger] m.name_spec() != s@ by {
                match m {
                    CompileMode::All => {},
                    CompileMode::Backward => {},
                    CompileMode::Both => {},
                    CompileMode::Forward => {},
                }
            }
            Err(Error::Domain)
        }
    }
}

/// The settings under which forward tables are computed.
pub open spec fn forward_variant(s: TransportSettings) -> TransportSettings {
    TransportSettings {
        mode: TransportMode::Forward,
        compton_mode: if is_backward_compton(s.compton_mode) {
            ComptonMode::Direct
        } else {
            s.compton_mode
        },
        ..s
    }
}

/// The settings under which backward tables are computed.
pub open spec fn backward_variant(s: TransportSettings) -> TransportSettings {
    let c = if s.compton_mode == ComptonMode::Direct {
        ComptonMode::Adjoint
    } else {
        s.compton_mode
    };
    TransportSettings {
        mode: TransportMode::Backward,
        compton_mode: c,
        compton_method: if c == ComptonMode::Inverse {
            ComptonMethod::InverseTransform
        } else {
            s.compton_method
        },
        ..s
    }
}

/// The settings under which inverse-transform backward tables are computed.
pub open spec fn inverse_variant(s: TransportSettings) -> TransportSettings {
    TransportSettings {
        mode: TransportMode::Backward,
        compton_mode: ComptonMode::Inverse,
        compton_method: ComptonMethod::InverseTransform,
        ..s
    }
}

/// The settings handed, in order, to the material registry's table computation.
pub open spec fn compile_plan_spec(s: TransportSettings, m: CompileMode) -> Seq<TransportSettings> {
    match m {
        CompileMode::All => seq![forward_variant(s), backward_variant(s), inverse_variant(s)],
        CompileMode::Backward => seq![backward_variant(s)],
        CompileMode::Both => seq![forward_variant(s), backward_variant(s)],
        CompileMode::Forward => seq![forward_variant(s)],
    }
}

fn forward_settings(s: &TransportSettings) -> (r: TransportSettings)
    ensures
        r == forward_variant(*s),
{
    let mut r = *s;
    r.mode = TransportMode::Forward;
    if r.compton_mode == ComptonMode::Adjoint || r.compton_mode == ComptonMode::Inverse {
        r.compton_mode = ComptonMode::Direct;
    }
    r
}

fn backward_settings(s: &TransportSettings) -> (r: TransportSettings)
    ensures
        r == backward_variant(*s),
{
    let mut r = *s;
    r.mode = TransportMode::Backward;
    if r.compton_mode == ComptonMode::Direct {
        r.compton_mode = ComptonMode::Adjoint;
    }
    if r.compton_mode == ComptonMode::Inverse {
        r.compton_method = ComptonMethod::InverseTransform;
    }
    r
}

fn inverse_settings(s: &TransportSettings) -> (r: TransportSettings)
    ensures
        r == inverse_variant(*s),
{
    let mut r = *s;
    r.mode = TransportMode::Backward;
    r.compton_mode = ComptonMode::Inverse;
    r.compton_method = ComptonMethod::InverseTransform;
    r
}

/// The settings for each table computation that compilation mode `m` asks for.
pub fn compile_plan(s: &TransportSettings, m: CompileMode) -> (r: Vec<TransportSettings>)
    ensures
        r@ == compile_plan_spec(*s, m),
{
    let mut r: Vec<TransportSettings> = Vec::new();
    match m {
        CompileMode::All | CompileMode::Both | CompileMode::Forward => {
            r.push(forward_settings(s));
        },
        CompileMode::Backward => {},
    }
    match m {
        CompileMode::All | CompileMode::Both | CompileMode::Backward => {
            r.push(backward_settings(s));
        },
        CompileMode::Forward => {},
    }
    match m {
        CompileMode::All => {
            r.push(inverse_settings(s));
        },
        _ => {},
    }
    proof {
        match m {
            CompileMode::All => {
                assert(r@ =~= compile_plan_spec(*s, m));
            },
            CompileMode::Backward => {
                assert(r@ =~= compile_plan_spec(*s, m));
            },
            CompileMode::Both => {
                assert(r@ =~= compile_plan_spec(*s, m));
            },
            CompileMode::Forward => {
                assert(r@ =~= compile_plan_spec(*s, m));
            },
        }
    }
    r
}

/// The shape of an optional per-photon batch argument: one value for all photons, or an array.
#[derive(Clone, Copy, Debug, PartialEq, Eq, Structural)]
pub enum ArgShape {
    Scalar,
    Array(usize),
}

/// Whether an optional batch argument fits a batch of `n` photons.
pub open spec fn arg_fits(n: nat, arg: Option<ArgShape>) -> bool {
    match arg {
        Some(ArgShape::Array(k)) => k == n,
        _ => true,
    }
}

/// Checks that an optional batch argument has one entry per photon, when it is an array.
pub fn check_batch_arg(n_states: usize, arg: Option<ArgShape>) -> (r: Result<(), Error>)
    ensures
        r is Ok <==> arg_fits(n_states as nat, arg),
        r is Err ==> r == Err::<(), Error>(Error::InvalidArgument),
{
    match arg {
        Some(ArgShape::Array(k)) => if k != n_states {
            Err(Error::InvalidArgument)
        } else {
            Ok(())
        },
        _ => Ok(()),
    }
}

/// The attribute of an engine that an assignment by name reaches.
#[derive(Clone, Copy, Debug, PartialEq, Eq, Structural)]
pub enum EngineAttribute {
    Geometry,
    Random,
    Registry,
    Settings,
    /// Any other name is forwarded to the transport settings.
    Setting,
}

/// Routes an attribute name to the engine's own fields, or else to its settings.
pub fn attribute_target(name: &str) -> (r: EngineAttribute)
    ensures
        r == (if name@ == "geometry"@ {
            EngineAttribute::Geometry
        } else if name@ == "random"@ {
            EngineAttribute::Random
        } else if name@ == "registry"@ {
            EngineAttribute::Registry
        } else if name@ == "settings"@ {
            EngineAttribute::Settings
        } else {
            EngineAttribute::Setting
        }),
{
    if same_text(name, "geometry") {
        EngineAttribute::Geometry
    } else if same_text(name, "random") {
        EngineAttribute::Random
    } else if same_text(name, "registry") {
        EngineAttribute::Registry
    } else if same_text(name, "settings") {
        EngineAttribute::Settings
    } else {
        EngineAttribute::Setting
    }
}

/// The part of a transport engine that decides what is compiled and how a batch is run.
///
/// The geometry, the random stream, and the material registry are held beside it by the
/// caller; `compiled` records that the registry's tables were computed.
#[derive(Clone, Copy, Debug, PartialEq, Eq, Structural)]
pub struct TransportEngine {
    pub settings: TransportSettings,
    pub compiled: bool,
}

/// What `compile` asks for, given the optional name of a compilation mode.
pub open spec fn compile_result(e: TransportEngine, mode: Option<Seq<char>>) -> Result<
    Seq<TransportSettings>,
    Error,
> {
    match mode {
        None => Ok(compile_plan_spec(e.settings, CompileMode::of_transport(e.settings.mode))),
        Some(name) => if exists|m: CompileMode| #[trigger] m.name_spec() == name {
            Ok(
                compile_plan_spec(
                    e.settings,
                    choose|m: CompileMode| #[trigger] m.name_spec() == name,
                ),
            )
        } else {
            Err(Error::Domain)
        },
    }
}

impl TransportEngine {
    /// A fresh engine, not compiled, with the given settings or the default ones.
    pub fn new(settings: Option<TransportSettings>) -> (r: TransportEngine)
        ensures
            r.settings == match settings {
                Some(s) => s,
                None => TransportSettings::default_spec(),
            },
            !r.compiled,
    {
        let settings = match settings {
            Some(s) => s,
            None => TransportSettings::new(),
        };
        TransportEngine { settings, compiled: false }
    }

    /// The engine once its tables are computed.
    pub open spec fn compiled_spec(self) -> TransportEngine {
        TransportEngine { compiled: true, ..self }
    }

    /// Compiles the engine: returns the settings for each table computation, in order, and
    /// records the engine as compiled. Without a mode name, the tables of the current transport
    /// direction are compiled. An unknown mode name leaves the engine unchanged.
    pub fn compile(&mut self, mode: Option<&str>) -> (r: Result<Vec<TransportSettings>, Error>)
        ensures
            match r {
                Ok(plan) => compile_result(*old(self), opt_view(mode)) == Ok::<
                    Seq<TransportSettings>,
                    Error,
                >(plan@) && *final(self) == old(self).compiled_spec(),
                Err(e) => compile_result(*old(self), opt_view(mode)) == Err::<
                    Seq<TransportSettings>,
                    Error,
                >(e) && *final(self) == *old(self),
            },
    {
        let m = match mode {
            None => match self.settings.mode {
                TransportMode::Backward => CompileMode::Backward,
                TransportMode::Forward => CompileMode::Forward,
            },
            Some(name) => {
                let m = CompileMode::from_name(name)?;
                proof {
                    assert(exists|k: CompileMode| #[trigger] k.name_spec() == name@);
                    let k = choose|k: CompileMode| #[trigger] k.name_spec() == name@;
                    lemma_compile_names_distinct(k, m);
                }
                m
            },
        };
        let plan = compile_plan(&self.settings, m);
        self.compiled = true;
        Ok(plan)
    }

    /// The table computations that a transport call runs first.
    pub open spec fn transport_plan_spec(self) -> Seq<TransportSettings> {
        if self.compiled {
            Seq::<TransportSettings>::empty()
        } else {
            compile_plan_spec(self.settings, CompileMode::Both)
        }
    }

    /// The table computations that a transport call runs first: none once compiled, else
    /// forward and backward tables. The engine is compiled afterwards.
    pub fn transport_compile_plan(&mut self) -> (r: Vec<TransportSettings>)
        ensures
            r@ == old(self).transport_plan_spec(),
            *final(self) == old(self).compiled_spec(),
    {
        if self.compiled {
            Vec::new()
        } else {
            let plan = compile_plan(&self.settings, CompileMode::Both);
            self.compiled = true;
            plan
        }
    }

    /// The settings under which a batch runs. Source energies given per photon require a
    /// geometry, backward transport, and volume sources; without them the constraint is off.
    pub fn run_settings(&self, has_geometry: bool, has_constraints: bool) -> (r: Result<
        TransportSettings,
        Error,
    >)
        ensures
            !has_geometry ==> r == Err::<TransportSettings, Error>(Error::Missing),
            has_geometry && !has_constraints ==> r == Ok::<TransportSettings, Error>(
                TransportSettings { volume_sources: false, ..self.settings },
            ),
            has_geometry && has_constraints ==> r == (if self.settings.mode
                == TransportMode::Forward || !self.settings.volume_sources {
                Err::<TransportSettings, Error>(Error::InvalidArgument)
            } else {
                Ok::<TransportSettings, Error>(self.settings)
            }),
    {
        if !has_geometry {
            return Err(Error::Missing);
        }
        let mut settings = self.settings;
        if !has_constraints {
            settings.volume_sources = false;
            Ok(settings)
        } else if settings.mode == TransportMode::Forward {
            Err(Error::InvalidArgument)
        } else if !settings.volume_sources {
            Err(Error::InvalidArgument)
        } else {
            Ok(settings)
        }
    }
}

proof fn lemma_compile_names_distinct(a: CompileMode, b: CompileMode)
    requires
        a.name_spec() == b.name_spec(),
    ensures
        a == b,
{
    reveal_strlit("All");
    reveal_strlit("Backward");
    reveal_strlit("Both");
    reveal_strlit("Forward");
    assert("All"@.len() == 3);
    assert("Backward"@.len() == 8);
    assert("Both"@.len() == 4);
    assert("Forward"@.len() == 7);
    if a != b {
        assert(a.name_spec().len() != b.name_spec().len());
    }
}

/// Compiling twice is compiling once: the engine ends in the same state, and the second
/// compilation asks for the same tables as the first.
pub proof fn compile_is_idempotent(e: TransportEngine, mode: Option<Seq<char>>)
    ensures
        e.compiled_spec().compiled_spec() == e.compiled_spec(),
        compile_result(e.compiled_spec(), mode) == compile_result(e, mode),
        e.compiled_spec().compiled,
{
}

/// Once compiled, an engine computes no further tables before a transport.
pub proof fn compiled_engine_transports_without_compiling(e: TransportEngine)
    ensures
        e.compiled_spec().transport_plan_spec() == Seq::<TransportSettings>::empty(),
{
}

} // verus!
