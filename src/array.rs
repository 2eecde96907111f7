use vstd::prelude::*;
use crate::error::Error;
use vstd::arithmetic::div_mod::lemma_fundamental_div_mod;

verus! {

/// The number of elements of an array of the given shape: the product of its dimensions.
pub open spec fn shape_size(s: Seq<usize>) -> int
    decreases s.len(),
{
    if s.len() == 0 {
        1
    } else {
        shape_size(s.drop_last()) * s.last()
    }
}

proof fn lemma_shape_size_nonneg(s: Seq<usize>)
    ensures
        shape_size(s) >= 0,
    decreases s.len(),
{
    if s.len() > 0 {
        lemma_shape_size_nonneg(s.drop_last());
        let p = shape_size(s.drop_last());
        let m = s.last() as int;
        assert(p * m >= 0) by (nonlinear_arith)
            requires
                p >= 0,
                m >= 0,
        ;
    }
}

/// A shape with a zero dimension has no element.
proof fn lemma_shape_size_zero(s: Seq<usize>, k: int)
    requires
        0 <= k < s.len(),
        s[k] == 0,
    ensures
        shape_size(s) == 0,
    decreases s.len(),
{
    if k < s.len() - 1 {
        lemma_shape_size_zero(s.drop_last(), k);
        assert(shape_size(s) == shape_size(s.drop_last()) * s.last());
    } else {
        assert(s.last() == 0);
        assert(shape_size(s) == shape_size(s.drop_last()) * 0);
    }
}

/// With no zero dimension, a prefix of a shape has no more elements than the shape itself.
proof fn lemma_shape_size_prefix(s: Seq<usize>, i: int)
    requires
        0 <= i <= s.len(),
        forall|k: int| 0 <= k < s.len() ==> #[trigger] s[k] > 0,
    ensures
        1 <= shape_size(s.subrange(0, i)) <= shape_size(s),
    decreases s.len() - i,
{
    if i == s.len() {
        assert(s.subrange(0, i) =~= s);
        lemma_shape_size_prefix_pos(s, i);
    } else {
        lemma_shape_size_prefix(s, i + 1);
        let q = s.subrange(0, i + 1);
        assert(q.drop_last() =~= s.subrange(0, i));
        lemma_shape_size_prefix_pos(s, i);
        let p = shape_size(s.subrange(0, i));
        let m = s[i] as int;
        assert(p <= p * m) by (nonlinear_arith)
            requires
                p >= 1,
                m >= 1,
        ;
    }
}

proof fn lemma_shape_size_prefix_pos(s: Seq<usize>, i: int)
    requires
        0 <= i <= s.len(),
        forall|k: int| 0 <= k < s.len() ==> #[trigger] s[k] > 0,
    ensures
        shape_size(s.subrange(0, i)) >= 1,
    decreases i,
{
    if i > 0 {
        let q = s.subrange(0, i);
        assert(q.drop_last() =~= s.subrange(0, i - 1));
        lemma_shape_size_prefix_pos(s, i - 1);
        let p = shape_size(s.subrange(0, i - 1));
        let m = s[i - 1] as int;
        assert(p * m >= 1) by (nonlinear_arith)
            requires
                p >= 1,
                m >= 1,
        ;
    }
}

/// The number of elements of an array of the given shape, if it fits in a `usize`.
pub fn shape_product(shape: &Vec<usize>) -> (r: Option<usize>)
    ensures
        match r {
            Some(p) => p as int == shape_size(shape@),
            None => shape_size(shape@) > usize::MAX,
        },
{
    let n = shape.len();
    let mut k: usize = 0;
    while k < n
        invariant
            n == shape@.len(),
            k <= n,
            forall|j: int| 0 <= j < k ==> #[trigger] shape@[j] > 0,
        decreases n - k,
    {
        if shape[k] == 0 {
            proof {
                lemma_shape_size_zero(shape@, k as int);
            }
            return Some(0);
        }
        k += 1;
    }
    let mut p: usize = 1;
    let mut i: usize = 0;
    assert(shape@.subrange(0, 0) =~= Seq::<usize>::empty());
    while i < n
        invariant
            n == shape@.len(),
            i <= n,
            forall|j: int| 0 <= j < n ==> #[trigger] shape@[j] > 0,
            p as int == shape_size(shape@.subrange(0, i as int)),
        decreases n - i,
    {
        assert(shape@.subrange(0, i + 1).drop_last() =~= shape@.subrange(0, i as int));
        match p.checked_mul(shape[i]) {
            Some(q) => {
                p = q;
            },
            None => {
                proof {
                    lemma_shape_size_prefix(shape@, i + 1);
                }
                return None;
            },
        }
        i += 1;
    }
    assert(shape@.subrange(0, n as int) =~= shape@);
    Some(p)
}

/// Converts a size to the signed index type of arrays.
pub fn try_size(size: usize) -> (r: Result<isize, Error>)
    ensures
        match r {
            Ok(v) => v as int == size as int,
            Err(e) => e == Error::InvalidArgument && size > isize::MAX,
        },
{
    if size > isize::MAX as usize {
        Err(Error::InvalidArgument)
    } else {
        Ok(size as isize)
    }
}

/// Converts a shape to an array's dimension count and signed dimensions.
pub fn try_shape(shape: &Vec<usize>) -> (r: Result<(i32, Vec<isize>), Error>)
    ensures
        match r {
            Ok((ndim, dims)) => {
                &&& ndim as int == shape@.len()
                &&& dims@.len() == shape@.len()
                &&& forall|i: int| 0 <= i < shape@.len() ==> #[trigger] dims@[i] as int == shape@[i] as int
            },
            Err(e) => e == Error::InvalidArgument && (shape@.len() > i32::MAX || exists|i: int|
                0 <= i < shape@.len() && #[trigger] shape@[i] > isize::MAX),
        },
{
    let n = shape.len();
    if n > i32::MAX as usize {
        return Err(Error::InvalidArgument);
    }
    let mut dims: Vec<isize> = Vec::with_capacity(n);
    let mut i: usize = 0;
    while i < n
        invariant
            n == shape@.len(),
            i <= n,
            dims@.len() == i,
            forall|j: int| 0 <= j < i ==> #[trigger] dims@[j] as int == shape@[j] as int,
        decreases n - i,
    {
        let v = try_size(shape[i])?;
        dims.push(v);
        i += 1;
    }
    Ok((n as i32, dims))
}

/// The dimension count and dimensions of an array that views `len` elements, with the given
/// shape or else as a flat vector; the shape must hold exactly `len` elements.
pub fn data_shape(len: usize, shape: Option<&Vec<usize>>) -> (r: Result<(i32, Vec<isize>), Error>)
    ensures
        match shape {
            None => match r {
                Ok((ndim, dims)) => ndim == 1 && dims@.len() == 1 && dims@[0] as int == len as int,
                Err(e) => e == Error::InvalidArgument && len > isize::MAX,
            },
            Some(s) => match r {
                Ok((ndim, dims)) => {
                    &&& shape_size(s@) == len as int
                    &&& ndim as int == s@.len()
                    &&& dims@.len() == s@.len()
                    &&& forall|i: int| 0 <= i < s@.len() ==> #[trigger] dims@[i] as int == s@[i] as int
                },
                Err(e) => e == Error::InvalidArgument && (shape_size(s@) != len as int
                    || s@.len() > i32::MAX || exists|i: int|
                    0 <= i < s@.len() && #[trigger] s@[i] > isize::MAX),
            },
        },
{
    match shape {
        None => {
            let size = try_size(len)?;
            Ok((1, vec![size]))
        },
        Some(s) => {
            match shape_product(s) {
                Some(p) => if p != len {
                    return Err(Error::InvalidArgument);
                },
                None => {
                    return Err(Error::InvalidArgument);
                },
            }
            try_shape(s)
        },
    }
}

/// The shape argument of a constructor: one dimension, or several.
#[derive(Debug)]
pub enum ShapeArg {
    Scalar(usize),
    Vector(Vec<usize>),
}

impl ShapeArg {
    pub open spec fn dims_spec(&self) -> Seq<usize> {
        match self {
            ShapeArg::Scalar(v) => seq![*v],
            ShapeArg::Vector(v) => v@,
        }
    }

    /// The dimensions that the argument stands for.
    pub fn into_dims(self) -> (r: Vec<usize>)
        ensures
            r@ == self.dims_spec(),
    {
        match self {
            ShapeArg::Scalar(v) => {
                let r = vec![v];
                assert(r@ =~= seq![v]);
                r
            },
            ShapeArg::Vector(v) => v,
        }
    }
}

/// The position of entry `(i, j)` in a row-major table of `rows` rows and `cols` columns.
pub fn row_major_index(i: usize, j: usize, rows: usize, cols: usize) -> (r: usize)
    requires
        i < rows,
        j < cols,
        rows * cols <= usize::MAX,
    ensures
        r == i * cols + j,
        r < rows * cols,
{
    assert(i * cols + j < rows * cols) by (nonlinear_arith)
        requires
            i < rows,
            j < cols,
    ;
    i * cols + j
}

/// Bit of an array's flags telling that its memory is C-contiguous.
pub const C_CONTIGUOUS: i32 = 0x0001;

/// Bit of an array's flags telling that its memory may be written.
pub const WRITEABLE: i32 = 0x0400;

/// Access requested for an array that views existing data.
#[derive(Clone, Copy, Debug, PartialEq, Eq, Structural)]
pub enum PyArrayFlags {
    ReadOnly,
    ReadWrite,
}

impl PyArrayFlags {
    pub open spec fn bits_spec(self) -> i32 {
        match self {
            PyArrayFlags::ReadOnly => 0x0001,
            PyArrayFlags::ReadWrite => 0x0401,
        }
    }

    /// The flag bits of the array: always contiguous, writeable when asked.
    pub fn bits(self) -> (r: i32)
        ensures
            r == self.bits_spec(),
            r & C_CONTIGUOUS != 0,
            (r & WRITEABLE != 0) == (self == PyArrayFlags::ReadWrite),
    {
        match self {
            PyArrayFlags::ReadOnly => {
                assert(0x0001i32 & 0x0001i32 != 0 && 0x0001i32 & 0x0400i32 == 0) by (bit_vector);
                C_CONTIGUOUS
            },
            PyArrayFlags::ReadWrite => {
                let r = C_CONTIGUOUS | WRITEABLE;
                assert(0x0001i32 | 0x0400i32 == 0x0401i32) by (bit_vector);
                assert(0x0401i32 & 0x0001i32 != 0 && 0x0401i32 & 0x0400i32 != 0) by (bit_vector);
                r
            },
        }
    }
}

impl From<PyArrayFlags> for i32 {
    fn from(value: PyArrayFlags) -> (r: i32) {
        value.bits()
    }
}

impl vstd::std_specs::convert::FromSpecImpl<PyArrayFlags> for i32 {
    open spec fn obeys_from_spec() -> bool {
        true
    }

    open spec fn from_spec(v: PyArrayFlags) -> i32 {
        v.bits_spec()
    }
}

pub open spec fn abs(x: int) -> int {
    if x < 0 {
        -x
    } else {
        x
    }
}

/// The largest distance, in bytes, between two elements of an array: each axis contributes its
/// stride times one less than its length.
pub open spec fn span(shape: Seq<usize>, strides: Seq<isize>) -> int
    decreases shape.len(),
{
    if shape.len() == 0 || strides.len() == 0 {
        0
    } else {
        span(shape.drop_last(), strides.drop_last()) + if shape.last() == 0 {
            0
        } else {
            (shape.last() - 1) * abs(strides.last() as int)
        }
    }
}

proof fn lemma_span_nonneg(shape: Seq<usize>, strides: Seq<isize>)
    ensures
        span(shape, strides) >= 0,
    decreases shape.len(),
{
    if shape.len() > 0 && strides.len() > 0 {
        lemma_span_nonneg(shape.drop_last(), strides.drop_last());
        if shape.last() > 0 {
            let m = shape.last() - 1;
            let a = abs(strides.last() as int);
            assert(m * a >= 0) by (nonlinear_arith)
                requires
                    m >= 0,
                    a >= 0,
            ;
        }
    }
}

/// The byte offset of the element at row-major position `index`: the index is split into one
/// coordinate per axis, from the last axis, and each coordinate is weighted by the stride of its
/// axis.
pub open spec fn element_offset(shape: Seq<usize>, strides: Seq<isize>, index: int) -> int
    decreases shape.len(),
{
    if shape.len() == 0 || strides.len() == 0 {
        0
    } else {
        let m = shape.last() as int;
        (index % m) * strides.last() + element_offset(
            shape.drop_last(),
            strides.drop_last(),
            index / m,
        )
    }
}

/// The memory layout of an array: its shape, the byte stride of each axis, and its flags.
#[derive(Debug)]
pub struct ArrayLayout {
    pub shape: Vec<usize>,
    pub strides: Vec<isize>,
    pub flags: i32,
}

impl ArrayLayout {
    /// One stride per axis, and element counts and byte offsets that fit in an `isize`.
    pub open spec fn wf(&self) -> bool {
        &&& self.shape@.len() == self.strides@.len()
        &&& shape_size(self.shape@) <= isize::MAX
        &&& span(self.shape@, self.strides@) <= isize::MAX
    }

    pub open spec fn size_spec(&self) -> int {
        shape_size(self.shape@)
    }

    /// Builds a layout, checking that its sizes and offsets fit in an `isize`.
    pub fn new(shape: Vec<usize>, strides: Vec<isize>, flags: i32) -> (r: Result<
        ArrayLayout,
        Error,
    >)
        ensures
            match r {
                Ok(l) => l.wf() && l.shape@ == shape@ && l.strides@ == strides@ && l.flags == flags,
                Err(e) => e == Error::InvalidArgument && !(ArrayLayout {
                    shape,
                    strides,
                    flags,
                }).wf(),
            },
    {
        let n = shape.len();
        if strides.len() != n {
            return Err(Error::InvalidArgument);
        }
        match shape_product(&shape) {
            Some(p) => if p > isize::MAX as usize {
                return Err(Error::InvalidArgument);
            },
            None => {
                return Err(Error::InvalidArgument);
            },
        }
        let mut total: usize = 0;
        let mut i: usize = 0;
        assert(shape@.subrange(0, 0) =~= Seq::<usize>::empty());
        while i < n
            invariant
                n == shape@.len(),
                n == strides@.len(),
                i <= n,
                total as int == span(shape@.subrange(0, i as int), strides@.subrange(0, i as int)),
                total <= isize::MAX,
            decreases n - i,
        {
            assert(shape@.subrange(0, i + 1).drop_last() =~= shape@.subrange(0, i as int));
            assert(strides@.subrange(0, i + 1).drop_last() =~= strides@.subrange(0, i as int));
            let m = shape[i];
            let s = strides[i];
            let a: usize = if s < 0 {
                ((-(s + 1)) as usize) + 1
            } else {
                s as usize
            };
            let term: usize = if m == 0 {
                0
            } else {
                match (m - 1).checked_mul(a) {
                    Some(t) => t,
                    None => {
                        proof {
                            lemma_span_nonneg(shape@.subrange(0, i as int), strides@.subrange(0, i as int));
                            lemma_span_prefix(shape@, strides@, i as int + 1);
                        }
                        return Err(Error::InvalidArgument);
                    },
                }
            };
            if term > isize::MAX as usize - total {
                proof {
                    lemma_span_prefix(shape@, strides@, i as int + 1);
                }
                return Err(Error::InvalidArgument);
            }
            total = total + term;
            i += 1;
        }
        assert(shape@.subrange(0, n as int) =~= shape@);
        assert(strides@.subrange(0, n as int) =~= strides@);
        Ok(ArrayLayout { shape, strides, flags })
    }

    /// The number of elements.
    pub fn size(&self) -> (r: usize)
        requires
            self.wf(),
        ensures
            r as int == self.size_spec(),
    {
        match shape_product(&self.shape) {
            Some(p) => p,
            None => 0,
        }
    }

    /// The byte offset of the element at row-major position `index`.
    pub fn offset_of(&self, index: usize) -> (r: isize)
        requires
            self.wf(),
            index < self.size_spec(),
        ensures
            r as int == element_offset(self.shape@, self.strides@, index as int),
    {
        let n = self.shape.len();
        let ghost shape = self.shape@;
        let ghost strides = self.strides@;
        assert forall|k: int| 0 <= k < shape.len() implies #[trigger] shape[k] > 0 by {
            if shape[k] == 0 {
                lemma_shape_size_zero(shape, k);
            }
        }
        assert(shape.subrange(0, n as int) =~= shape);
        assert(strides.subrange(0, n as int) =~= strides);
        let mut remainder: usize = index;
        let mut offset: isize = 0;
        let mut i: usize = n;
        while i > 0
            invariant
                self.wf(),
                shape == self.shape@,
                strides == self.strides@,
                n == shape.len(),
                i <= n,
                forall|k: int| 0 <= k < shape.len() ==> #[trigger] shape[k] > 0,
                remainder < shape_size(shape.subrange(0, i as int)),
                offset + element_offset(
                    shape.subrange(0, i as int),
                    strides.subrange(0, i as int),
                    remainder as int,
                ) == element_offset(shape, strides, index as int),
                abs(offset as int) <= span(shape, strides) - span(
                    shape.subrange(0, i as int),
                    strides.subrange(0, i as int),
                ),
            decreases i,
        {
            let ghost p = shape.subrange(0, i as int);
            let ghost ps = strides.subrange(0, i as int);
            let ghost q = shape.subrange(0, i - 1);
            let ghost qs = strides.subrange(0, i - 1);
            assert(p.drop_last() =~= q);
            assert(ps.drop_last() =~= qs);
            i -= 1;
            let m = self.shape[i];
            let s = self.strides[i];
            proof {
                lemma_shape_size_prefix(shape, i as int + 1);
                lemma_shape_size_prefix(shape, i as int);
                lemma_span_nonneg(q, qs);
                let sq = shape_size(q);
                assert(m <= isize::MAX) by (nonlinear_arith)
                    requires
                        sq >= 1,
                        sq * m <= isize::MAX,
                ;
                lemma_remainder_term(remainder as int, m as int, s as int, sq);
            }
            let j = remainder % m;
            remainder = remainder / m;
            offset = offset + (j as isize) * s;
        }
        offset
    }

    /// The byte offset of the element at row-major position `index`, which must be in range.
    pub fn data_offset(&self, index: usize) -> (r: Result<isize, Error>)
        requires
            self.wf(),
        ensures
            match r {
                Ok(o) => index < self.size_spec() && o as int == element_offset(
                    self.shape@,
                    self.strides@,
                    index as int,
                ),
                Err(e) => e == Error::InvalidArgument && index >= self.size_spec(),
            },
    {
        let size = self.size();
        if index >= size {
            Err(Error::InvalidArgument)
        } else {
            Ok(self.offset_of(index))
        }
    }

    /// Checks that the memory is C-contiguous.
    pub fn is_contiguous(&self) -> (r: Result<(), Error>)
        ensures
            r is Ok <==> self.flags & C_CONTIGUOUS != 0,
            r is Err ==> r == Err::<(), Error>(Error::InvalidArgument),
    {
        if self.flags & C_CONTIGUOUS == 0 {
            Err(Error::InvalidArgument)
        } else {
            Ok(())
        }
    }

    /// Checks that the memory may be written.
    pub fn is_writeable(&self) -> (r: Result<(), Error>)
        ensures
            r is Ok <==> self.flags & WRITEABLE != 0,
            r is Err ==> r == Err::<(), Error>(Error::InvalidArgument),
    {
        if self.flags & WRITEABLE == 0 {
            Err(Error::InvalidArgument)
        } else {
            Ok(())
        }
    }

    /// Forbids writes; every other flag is kept.
    pub fn readonly(&mut self)
        ensures
            final(self).flags == old(self).flags & !WRITEABLE,
            final(self).flags & WRITEABLE == 0,
            final(self).flags & C_CONTIGUOUS == old(self).flags & C_CONTIGUOUS,
            final(self).shape@ == old(self).shape@,
            final(self).strides@ == old(self).strides@,
    {
        let f = self.flags;
        self.flags = f & !WRITEABLE;
        assert(f & !0x0400i32 & 0x0400i32 == 0 && f & !0x0400i32 & 0x0001i32 == f & 0x0001i32)
            by (bit_vector);
    }
}

/// Strides of a C-contiguous array whose elements take `itemsize` bytes: the last axis steps by
/// one element, and each other axis by the size of one slice along the axes that follow it.
pub open spec fn c_contiguous(shape: Seq<usize>, strides: Seq<isize>, itemsize: int) -> bool
    decreases shape.len(),
{
    if shape.len() == 0 {
        strides.len() == 0
    } else {
        &&& strides.len() == shape.len()
        &&& strides.last() == itemsize
        &&& c_contiguous(shape.drop_last(), strides.drop_last(), itemsize * shape.last())
    }
}

/// In a C-contiguous array, the element at row-major position `index` lies `index` elements
/// from the start.
pub proof fn contiguous_offset_is_linear(
    shape: Seq<usize>,
    strides: Seq<isize>,
    itemsize: int,
    index: int,
)
    requires
        c_contiguous(shape, strides, itemsize),
        0 <= index < shape_size(shape),
    ensures
        element_offset(shape, strides, index) == index * itemsize,
    decreases shape.len(),
{
    if shape.len() > 0 {
        let m = shape.last() as int;
        let p = shape.drop_last();
        lemma_shape_size_nonneg(p);
        let sp = shape_size(p);
        assert(m > 0) by (nonlinear_arith)
            requires
                0 <= index < sp * m,
                sp >= 0,
                m >= 0,
        ;
        lemma_remainder_term(index, m, 0, sp);
        let q = index / m;
        let j = index % m;
        contiguous_offset_is_linear(p, strides.drop_last(), itemsize * m, q);
        lemma_fundamental_div_mod(index, m);
        assert(j * itemsize + q * (itemsize * m) == index * itemsize) by (nonlinear_arith)
            requires
                index == m * q + j,
        ;
    } else {
        assert(index == 0);
    }
}

proof fn lemma_span_prefix(shape: Seq<usize>, strides: Seq<isize>, i: int)
    requires
        shape.len() == strides.len(),
        0 <= i <= shape.len(),
    ensures
        span(shape.subrange(0, i), strides.subrange(0, i)) <= span(shape, strides),
    decreases shape.len() - i,
{
    if i == shape.len() {
        assert(shape.subrange(0, i) =~= shape);
        assert(strides.subrange(0, i) =~= strides);
    } else {
        lemma_span_prefix(shape, strides, i + 1);
        assert(shape.subrange(0, i + 1).drop_last() =~= shape.subrange(0, i));
        assert(strides.subrange(0, i + 1).drop_last() =~= strides.subrange(0, i));
        if shape[i] > 0 {
            let m = shape[i] - 1;
            let a = abs(strides[i] as int);
            assert(m * a >= 0) by (nonlinear_arith)
                requires
                    m >= 0,
                    a >= 0,
            ;
        }
    }
}

/// Splitting a position along one axis: the coordinate is within the axis, the rest indexes the
/// leading axes, and the coordinate's contribution is bounded by the axis' share of the span.
proof fn lemma_remainder_term(rem: int, m: int, s: int, sq: int)
    requires
        rem >= 0,
        m > 0,
        rem < sq * m,
    ensures
        0 <= rem % m < m,
        rem / m < sq,
        abs((rem % m) * s) <= (m - 1) * abs(s),
{
    lemma_fundamental_div_mod(rem, m);
    let j = rem % m;
    let d = rem / m;
    assert(0 <= j < m);
    assert(d < sq) by (nonlinear_arith)
        requires
            rem == m * d + j,
            0 <= j,
            rem < sq * m,
            m > 0,
    ;
    assert(abs(j * s) <= (m - 1) * abs(s)) by (nonlinear_arith)
        requires
            0 <= j <= m - 1,
    ;
}

} // verus!
