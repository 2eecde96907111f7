use goupil::array::{
    data_shape, row_major_index, shape_product, try_shape, try_size, ArrayLayout, PyArrayFlags,
    ShapeArg, C_CONTIGUOUS, WRITEABLE,
};
use goupil::error::Error;

#[test]
fn products_of_shapes() {
    assert_eq!(shape_product(&vec![]), Some(1));
    assert_eq!(shape_product(&vec![2, 3, 4]), Some(24));
    assert_eq!(shape_product(&vec![usize::MAX, usize::MAX, 0]), Some(0));
    assert_eq!(shape_product(&vec![usize::MAX, 2]), None);
}

#[test]
fn signed_sizes() {
    assert_eq!(try_size(7), Ok(7));
    assert_eq!(try_size(usize::MAX), Err(Error::InvalidArgument));
    let (ndim, dims) = try_shape(&vec![2, 5]).unwrap();
    assert_eq!(ndim, 2);
    assert_eq!(dims, vec![2, 5]);
    assert_eq!(try_shape(&vec![2, usize::MAX]), Err(Error::InvalidArgument));
}

#[test]
fn shapes_of_viewed_data() {
    let (ndim, dims) = data_shape(6, None).unwrap();
    assert_eq!(ndim, 1);
    assert_eq!(dims, vec![6]);
    let shape = vec![2, 3];
    let (ndim, dims) = data_shape(6, Some(&shape)).unwrap();
    assert_eq!(ndim, 2);
    assert_eq!(dims, vec![2, 3]);
    assert_eq!(data_shape(5, Some(&shape)), Err(Error::InvalidArgument));
}

#[test]
fn flag_bits() {
    assert_eq!(PyArrayFlags::ReadOnly.bits(), 0x0001);
    assert_eq!(PyArrayFlags::ReadWrite.bits(), 0x0401);
    assert_eq!(i32::from(PyArrayFlags::ReadWrite), C_CONTIGUOUS | WRITEABLE);
}

#[test]
fn shape_arguments() {
    assert_eq!(ShapeArg::Scalar(4).into_dims(), vec![4]);
    assert_eq!(ShapeArg::Vector(vec![2, 3]).into_dims(), vec![2, 3]);
}

#[test]
fn contiguous_offsets() {
    let l = ArrayLayout::new(vec![2, 3], vec![24, 8], PyArrayFlags::ReadWrite.bits()).unwrap();
    assert_eq!(l.size(), 6);
    for i in 0..6 {
        assert_eq!(l.offset_of(i), 8 * i as isize);
    }
    assert_eq!(l.data_offset(6), Err(Error::InvalidArgument));
}

#[test]
fn strided_offsets() {
    // A transposed 3 x 2 view of a contiguous 2 x 3 array of 8-byte elements.
    let l = ArrayLayout::new(vec![3, 2], vec![8, 24], 0).unwrap();
    assert_eq!(l.data_offset(0), Ok(0));
    assert_eq!(l.data_offset(1), Ok(24));
    assert_eq!(l.data_offset(2), Ok(8));
    assert_eq!(l.data_offset(5), Ok(40));
    let r = ArrayLayout::new(vec![4], vec![-8], 0).unwrap();
    assert_eq!(r.offset_of(3), -24);
}

#[test]
fn zero_dimensional_array() {
    let l = ArrayLayout::new(vec![], vec![], 0).unwrap();
    assert_eq!(l.size(), 1);
    assert_eq!(l.data_offset(0), Ok(0));
    assert_eq!(l.data_offset(1), Err(Error::InvalidArgument));
}

#[test]
fn bad_layouts() {
    assert_eq!(ArrayLayout::new(vec![2], vec![], 0).unwrap_err(), Error::InvalidArgument);
    assert_eq!(
        ArrayLayout::new(vec![usize::MAX, 2], vec![8, 8], 0).unwrap_err(),
        Error::InvalidArgument
    );
    assert_eq!(
        ArrayLayout::new(vec![3], vec![isize::MAX], 0).unwrap_err(),
        Error::InvalidArgument
    );
}

#[test]
fn flag_checks() {
    let mut l = ArrayLayout::new(vec![2], vec![8], PyArrayFlags::ReadWrite.bits()).unwrap();
    assert_eq!(l.is_contiguous(), Ok(()));
    assert_eq!(l.is_writeable(), Ok(()));
    l.readonly();
    assert_eq!(l.flags, 0x0001);
    assert_eq!(l.is_writeable(), Err(Error::InvalidArgument));
    assert_eq!(l.is_contiguous(), Ok(()));
    let s = ArrayLayout::new(vec![2], vec![16], 0).unwrap();
    assert_eq!(s.is_contiguous(), Err(Error::InvalidArgument));
}

#[test]
fn row_major_positions() {
    assert_eq!(row_major_index(0, 0, 2, 3), 0);
    assert_eq!(row_major_index(1, 2, 2, 3), 5);
}
