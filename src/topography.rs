use vstd::prelude::*;
use crate::array::{shape_product, shape_size};
use crate::error::Error;

verus! {

/// The grid shape `[ny, nx]` of a topography map, from an explicit shape, or else from the
/// shape of its height array; with both, the array must hold one height per grid node. Each
/// axis needs at least one node.
pub open spec fn map_shape_spec(z_shape: Option<Seq<usize>>, shape: Option<[usize; 2]>) -> Result<
    [usize; 2],
    Error,
> {
    let r = match shape {
        None => match z_shape {
            None => Err(Error::InvalidArgument),
            Some(zs) => if zs.len() != 2 {
                Err(Error::InvalidArgument)
            } else {
                Ok([zs[0], zs[1]])
            },
        },
        Some(s) => match z_shape {
            Some(zs) => if shape_size(zs) != s@[0] * s@[1] {
                Err(Error::InvalidArgument)
            } else {
                Ok(s)
            },
            None => Ok(s),
        },
    };
    match r {
        Ok(s) => if s@[0] == 0 || s@[1] == 0 {
            Err(Error::InvalidArgument)
        } else {
            Ok(s)
        },
        Err(e) => Err(e),
    }
}

/// Resolves the grid shape of a topography map; see `map_shape_spec`.
pub fn map_shape(z_shape: Option<&Vec<usize>>, shape: Option<[usize; 2]>) -> (r: Result<
    [usize; 2],
    Error,
>)
    requires
        match z_shape {
            Some(zs) => shape_size(zs@) <= usize::MAX,
            None => true,
        },
    ensures
        r == map_shape_spec(
            match z_shape {
                Some(zs) => Some(zs@),
                None => None,
            },
            shape,
        ),
{
    let s: [usize; 2] = match shape {
        None => match z_shape {
            None => {
                return Err(Error::InvalidArgument);
            },
            Some(zs) => {
                if zs.len() != 2 {
                    return Err(Error::InvalidArgument);
                }
                [zs[0], zs[1]]
            },
        },
        Some(s) => {
            match z_shape {
                Some(zs) => {
                    let a = s[0];
                    let b = s[1];
                    assert((a as u128) * (b as u128) <= u128::MAX) by (nonlinear_arith)
                        requires
                            a <= usize::MAX,
                            b <= usize::MAX,
                            usize::MAX <= u64::MAX,
                    ;
                    let expected: u128 = (a as u128) * (b as u128);
                    match shape_product(zs) {
                        Some(p) => if p as u128 != expected {
                            return Err(Error::InvalidArgument);
                        },
                        None => {
                            return Err(Error::InvalidArgument);
                        },
                    }
                },
                None => {},
            }
            s
        },
    };
    if s[0] == 0 || s[1] == 0 {
        return Err(Error::InvalidArgument);
    }
    Ok(s)
}

} // verus!
