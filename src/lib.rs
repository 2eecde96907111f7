//! The decision logic of a Monte Carlo photon transport engine: the layout arithmetic of the
//! arrays that photon states travel in, the transport settings and the coercions between their
//! modes, the compilation plan of material tables, the arrangement of stratified geometries,
//! the tables of external geometries, and the per-batch decisions of the locate, trace and
//! transport drivers.

use vstd::prelude::*;

pub mod array;
pub mod driver;
pub mod engine;
pub mod error;
pub mod layout;
pub mod records;
pub mod settings;
pub mod states;
pub mod status;
pub mod text;
pub mod topography;

verus! {

} // verus!
