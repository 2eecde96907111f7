use vstd::prelude::*;
use crate::error::Error;

verus! {

/// The kind of one argument of a stratified geometry's constructor.
#[derive(Clone, Copy, Debug, PartialEq, Eq, Structural)]
pub enum LayerArg {
    /// A geometry sector.
    Sector,
    /// An interface: a constant height, a topography map or offset map, or a list of them.
    Interface,
    /// Anything else.
    Other,
}

/// How the constructor's arguments, given by position, make up a stratified geometry.
///
/// The geometry is built from the bottom up: the `base` sector first, then each entry of `layers`
/// as an (interface, sector) pair stacked on top, in order. `top` and `bottom` are the optional
/// terminal interfaces.
#[derive(Debug)]
pub struct StratifiedLayout {
    pub top: Option<usize>,
    pub base: usize,
    pub layers: Vec<(usize, usize)>,
    pub bottom: Option<usize>,
}

/// Whether the arguments end with a bottom interface.
pub open spec fn has_bottom(args: Seq<LayerArg>) -> bool {
    args.last() != LayerArg::Sector
}

/// The position of the lowest sector.
pub open spec fn base_position(args: Seq<LayerArg>) -> int {
    if has_bottom(args) {
        args.len() - 2
    } else {
        args.len() - 1
    }
}

/// The kind that position `p` must hold: sectors and interfaces alternate, down to the lowest
/// sector at `base`.
pub open spec fn expected_kind(base: int, p: int) -> LayerArg {
    if (base - p) % 2 == 0 {
        LayerArg::Sector
    } else {
        LayerArg::Interface
    }
}

/// Arguments that describe a stratified geometry: an optional top interface, then sectors and
/// interfaces alternating, starting and ending with a sector, then an optional bottom interface.
pub open spec fn valid_layout(args: Seq<LayerArg>) -> bool {
    &&& args.len() > 0
    &&& (has_bottom(args) ==> args.last() == LayerArg::Interface && args.len() >= 2)
    &&& forall|p: int|
        0 <= p <= base_position(args) ==> #[trigger] args[p] == expected_kind(
            base_position(args),
            p,
        )
}

/// The layout that valid arguments describe.
pub open spec fn layout_matches(args: Seq<LayerArg>, l: StratifiedLayout) -> bool {
    let base = base_position(args);
    &&& l.base == base
    &&& l.bottom == (if has_bottom(args) {
        Some((args.len() - 1) as usize)
    } else {
        None
    })
    &&& l.top == (if base % 2 == 1 {
        Some(0usize)
    } else {
        None
    })
    &&& l.layers@.len() == base / 2
    &&& forall|k: int|
        0 <= k < l.layers@.len() ==> #[trigger] l.layers@[k] == ((base - 1 - 2 * k) as usize, (base
            - 2 - 2 * k) as usize)
}

/// Reads the arrangement of a stratified geometry's constructor arguments.
pub fn stratified_layout(args: &Vec<LayerArg>) -> (r: Result<StratifiedLayout, Error>)
    ensures
        match r {
            Ok(l) => valid_layout(args@) && layout_matches(args@, l),
            Err(e) => !valid_layout(args@) && e == Error::InvalidArgument,
        },
{
    let n = args.len();
    if n == 0 {
        return Err(Error::InvalidArgument);
    }
    assert(args@.last() == args@[n - 1]);
    let mut last: usize;
    let bottom: Option<usize>;
    if args[n - 1] == LayerArg::Sector {
        last = n - 1;
        bottom = None;
    } else {
        if args[n - 1] != LayerArg::Interface || n < 2 {
            return Err(Error::InvalidArgument);
        }
        last = n - 2;
        bottom = Some(n - 1);
    }
    let ghost b = base_position(args@);
    assert(last == b);
    if args[last] != LayerArg::Sector {
        assert(args@[b] != expected_kind(b, b));
        return Err(Error::InvalidArgument);
    }
    let base = last;
    let mut layers: Vec<(usize, usize)> = Vec::new();
    while last > 1
        invariant
            base == b,
            b == base_position(args@),
            last <= base < n,
            n == args@.len(),
            (base - last) % 2 == 0,
            forall|p: int| last <= p <= base ==> #[trigger] args@[p] == expected_kind(b, p),
            layers@.len() == (base - last) / 2,
            forall|k: int|
                0 <= k < layers@.len() ==> #[trigger] layers@[k] == ((base - 1 - 2 * k) as usize, (
                base - 2 - 2 * k) as usize),
        decreases last,
    {
        if args[last - 1] != LayerArg::Interface {
            assert(args@[last - 1] != expected_kind(b, last - 1));
            return Err(Error::InvalidArgument);
        }
        if args[last - 2] != LayerArg::Sector {
            assert(args@[last - 2] != expected_kind(b, last - 2));
            return Err(Error::InvalidArgument);
        }
        layers.push((last - 1, last - 2));
        last = last - 2;
    }
    let top: Option<usize>;
    if last == 1 {
        if args[0] != LayerArg::Interface {
            assert(args@[0] != expected_kind(b, 0));
            return Err(Error::InvalidArgument);
        }
        top = Some(0);
    } else {
        top = None;
    }
    assert forall|p: int| 0 <= p <= b implies #[trigger] args@[p] == expected_kind(b, p) by {
        if p < last {
            assert(p == 0 && last == 1);
        }
    }
    Ok(StratifiedLayout { top, base, layers, bottom })
}

} // verus!
