use vstd::prelude::*;
use crate::array::ShapeArg;

verus! {

/// Whether a list of field names holds `name`.
pub open spec fn has_key(keys: Seq<String>, name: Seq<char>) -> bool {
    exists|i: int| 0 <= i < keys.len() && #[trigger] keys[i]@ == name
}

/// The fields of new photon states that take their default value (direction `(0, 0, 1)`,
/// energy `1`, weight `1`) because no value was given for them.
#[derive(Clone, Copy, Debug, PartialEq, Eq, Structural)]
pub struct StateDefaults {
    pub direction: bool,
    pub energy: bool,
    pub weight: bool,
}

/// The defaults that apply when the fields named in `keys` are given explicitly.
pub fn state_defaults(keys: &Vec<String>) -> (r: StateDefaults)
    ensures
        r.direction == !has_key(keys@, "direction"@),
        r.energy == !has_key(keys@, "energy"@),
        r.weight == !has_key(keys@, "weight"@),
{
    let direction = String::from_str("direction");
    let energy = String::from_str("energy");
    let weight = String::from_str("weight");
    let mut r = StateDefaults { direction: true, energy: true, weight: true };
    let n = keys.len();
    let mut i: usize = 0;
    while i < n
        invariant
            n == keys@.len(),
            i <= n,
            direction@ == "direction"@,
            energy@ == "energy"@,
            weight@ == "weight"@,
            r.direction == !has_key(keys@.subrange(0, i as int), "direction"@),
            r.energy == !has_key(keys@.subrange(0, i as int), "energy"@),
            r.weight == !has_key(keys@.subrange(0, i as int), "weight"@),
        decreases n - i,
    {
        let ghost before = keys@.subrange(0, i as int);
        let ghost after = keys@.subrange(0, i + 1);
        assert forall|j: int| 0 <= j < i implies after[j] == before[j] by {}
        assert(after[i as int] == keys@[i as int]);
        let key = &keys[i];
        if *key == direction {
            r.direction = false;
        }
        if *key == energy {
            r.energy = false;
        }
        if *key == weight {
            r.weight = false;
        }
        proof {
            if has_key(before, "direction"@) {
                let j = choose|j: int| 0 <= j < before.len() && #[trigger] before[j]@ == "direction"@;
                assert(after[j]@ == "direction"@);
            }
            if has_key(before, "energy"@) {
                let j = choose|j: int| 0 <= j < before.len() && #[trigger] before[j]@ == "energy"@;
                assert(after[j]@ == "energy"@);
            }
            if has_key(before, "weight"@) {
                let j = choose|j: int| 0 <= j < before.len() && #[trigger] before[j]@ == "weight"@;
                assert(after[j]@ == "weight"@);
            }
        }
        i += 1;
    }
    assert(keys@.subrange(0, n as int) =~= keys@);
    r
}

/// The shape of a new array of photon states: empty when none is given.
pub fn states_shape(shape: Option<ShapeArg>) -> (r: Vec<usize>)
    ensures
        r@ == match shape {
            None => seq![0usize],
            Some(s) => s.dims_spec(),
        },
{
    match shape {
        None => {
            let r = vec![0usize];
            assert(r@ =~= seq![0usize]);
            r
        },
        Some(s) => s.into_dims(),
    }
}

} // verus!
