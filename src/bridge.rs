//! The matrix bridge: between a single-channel raster and a dense matrix.

use crate::codec::{FromRawPixel, Real, ToRawPixel};
use num::complex::Complex;
use vstd::prelude::*;

verus! {

/// The scalars that a sequence of raw samples decodes to, element by element.
pub open spec fn decoded<P: FromRawPixel>(samples: Seq<u8>) -> Seq<P> {
    samples.map_values(|s: u8| P::from_raw(s))
}

/// The raw samples that a sequence of scalars encodes to, element by element.
pub open spec fn encoded<P: ToRawPixel>(elements: Seq<P>) -> Seq<u8> {
    elements.map_values(|p: P| p.raw_pixel())
}

/// A sample count that does not match the shape it is given for.
#[derive(Clone, Copy, Debug, PartialEq, Eq, Structural)]
pub enum ShapeError {
    LengthMismatch { expected_rows: usize, expected_cols: usize, actual_len: usize },
}

/// A single-channel 8-bit raster: `samples` is row-major, `width` samples per row.
#[derive(Clone, Debug)]
pub struct Raster {
    pub width: u32,
    pub height: u32,
    pub samples: Vec<u8>,
}

impl Raster {
    /// There is exactly one sample per pixel.
    pub open spec fn wf(&self) -> bool {
        self.samples@.len() == self.width * self.height
    }
}

/// A dense matrix whose elements are stored in column-major order: element
/// `(r, c)` is the `r + c * rows`-th.
#[derive(Clone, Debug)]
pub struct DenseMatrix<T> {
    nrows: usize,
    ncols: usize,
    data: Vec<T>,
}

impl<T> DenseMatrix<T> {
    pub closed spec fn rows(&self) -> nat {
        self.nrows as nat
    }

    pub closed spec fn cols(&self) -> nat {
        self.ncols as nat
    }

    /// The elements in column-major order.
    pub closed spec fn elements(&self) -> Seq<T> {
        self.data@
    }

    /// The element count matches the shape.
    pub open spec fn wf(&self) -> bool {
        self.elements().len() == self.rows() * self.cols()
    }

    /// The element at row `r`, column `c`.
    pub open spec fn at(&self, r: int, c: int) -> T {
        self.elements()[r + c * self.rows()]
    }

    /// A matrix of the given shape over `data` in column-major order; fails
    /// exactly when the element count does not match the shape.
    pub fn from_column_major(nrows: usize, ncols: usize, data: Vec<T>) -> (r: Result<
        DenseMatrix<T>,
        ShapeError,
    >)
        ensures
            r.is_ok() <==> data@.len() == nrows * ncols,
            r matches Ok(m) ==> m.wf() && m.rows() == nrows && m.cols() == ncols
                && m.elements() == data@,
            r matches Err(e) ==> e == (ShapeError::LengthMismatch {
                expected_rows: nrows,
                expected_cols: ncols,
                actual_len: data.len(),
            }),
    {
        let len = data.len();
        match nrows.checked_mul(ncols) {
            Some(n) if n == len => Ok(DenseMatrix { nrows, ncols, data }),
            _ => Err(ShapeError::LengthMismatch { expected_rows: nrows, expected_cols: ncols, actual_len: len }),
        }
    }

    pub fn nrows(&self) -> (r: usize)
        ensures
            r == self.rows(),
    {
        self.nrows
    }

    pub fn ncols(&self) -> (r: usize)
        ensures
            r == self.cols(),
    {
        self.ncols
    }

    /// The elements in column-major order.
    pub fn as_slice(&self) -> (r: &[T])
        ensures
            r@ == self.elements(),
    {
        self.data.as_slice()
    }

    /// Gives the elements up, in column-major order.
    pub fn into_vec(self) -> (r: Vec<T>)
        ensures
            r@ == self.elements(),
    {
        self.data
    }
}

/// Builds a `width` x `height` matrix whose element `(r, c)` decodes sample
/// `r + c * width`. Fails exactly when there are not `width * height` samples.
pub fn build_matrix<P: FromRawPixel>(width: usize, height: usize, samples: &[u8]) -> (r: Result<
    DenseMatrix<P>,
    ShapeError,
>)
    ensures
        r.is_ok() <==> samples@.len() == width * height,
        r matches Ok(m) ==> m.wf() && m.rows() == width && m.cols() == height
            && m.elements() == decoded::<P>(samples@),
        r matches Err(e) ==> e == (ShapeError::LengthMismatch {
            expected_rows: width,
            expected_cols: height,
            actual_len: samples@.len() as usize,
        }),
{
    let mut data: Vec<P> = Vec::with_capacity(samples.len());
    let mut i: usize = 0;
    while i < samples.len()
        invariant
            i <= samples@.len(),
            data@ == decoded::<P>(samples@.subrange(0, i as int)),
        decreases samples@.len() - i,
    {
        data.push(P::from_raw_pixel(samples[i]));
        i += 1;
        assert(decoded::<P>(samples@.subrange(0, i as int)) =~= decoded::<P>(
            samples@.subrange(0, i - 1),
        ).push(P::from_raw(samples@[i - 1])));
    }
    assert(samples@.subrange(0, i as int) =~= samples@);
    DenseMatrix::from_column_major(width, height, data)
}

/// Encodes every element of `matrix`, in the column-major order that
/// `build_matrix` fills it in.
pub fn flatten_matrix<P: ToRawPixel>(matrix: &DenseMatrix<P>) -> (r: Vec<u8>)
    requires
        matrix.wf(),
    ensures
        r@ == encoded(matrix.elements()),
        r@.len() == matrix.rows() * matrix.cols(),
{
    let elements = matrix.as_slice();
    let mut out: Vec<u8> = Vec::with_capacity(elements.len());
    let mut i: usize = 0;
    while i < elements.len()
        invariant
            i <= elements@.len(),
            elements@ == matrix.elements(),
            out@ == encoded(elements@.subrange(0, i as int)),
        decreases elements@.len() - i,
    {
        out.push(elements[i].to_raw_pixel());
        i += 1;
        assert(encoded(elements@.subrange(0, i as int)) =~= encoded(
            elements@.subrange(0, i - 1),
        ).push(elements@[i - 1].raw_pixel()));
    }
    assert(elements@.subrange(0, i as int) =~= elements@);
    out
}

/// The matrix of a raster: the raster's width is the number of rows, its
/// height the number of columns, and element `(x, y)` decodes pixel `(x, y)`.
pub fn to_matrix<P: FromRawPixel>(image: &Raster) -> (r: DenseMatrix<P>)
    requires
        image.wf(),
    ensures
        r.wf(),
        r.rows() == image.width,
        r.cols() == image.height,
        r.elements() == decoded::<P>(image.samples@),
{
    match build_matrix(image.width as usize, image.height as usize, image.samples.as_slice()) {
        Ok(m) => m,
        Err(_) => {
            proof {
                assert(false);
            }
            DenseMatrix { nrows: 0, ncols: 0, data: Vec::new() }
        },
    }
}

/// The raster of a matrix: as many pixels per row as the matrix has rows, as
/// many rows as it has columns; pixel `(x, y)` encodes element `(x, y)`.
pub fn to_image<P: ToRawPixel>(matrix: &DenseMatrix<P>) -> (r: Raster)
    requires
        matrix.wf(),
        matrix.rows() <= u32::MAX,
        matrix.cols() <= u32::MAX,
    ensures
        r.wf(),
        r.width == matrix.rows(),
        r.height == matrix.cols(),
        r.samples@ == encoded(matrix.elements()),
{
    let samples = flatten_matrix(matrix);
    Raster { width: matrix.nrows() as u32, height: matrix.ncols() as u32, samples }
}

/// Flattening a matrix built from `samples` gives `samples` back: the matrix
/// built from `width * height` samples has `width` rows and `height` columns
/// (see `build_matrix`), and its encoded elements are the samples themselves.
pub proof fn lemma_flatten_build<P: FromRawPixel>(width: nat, height: nat, samples: Seq<u8>)
    requires
        samples.len() == width * height,
    ensures
        encoded(decoded::<P>(samples)) == samples,
        encoded(decoded::<P>(samples)).len() == width * height,
{
    assert forall|i: int| 0 <= i < samples.len() implies encoded(decoded::<P>(samples))[i]
        == samples[i] by {
        P::lemma_round_trip(samples[i]);
    }
    assert(encoded(decoded::<P>(samples)) =~= samples);
}

/// Building and flattening with the real scalar and with the complex scalar
/// give the same raw samples.
pub proof fn lemma_scalar_agnostic(samples: Seq<u8>)
    ensures
        encoded(decoded::<Real>(samples)) == encoded(decoded::<Complex<Real>>(samples)),
{
    lemma_flatten_build::<Real>(samples.len(), 1, samples);
    lemma_flatten_build::<Complex<Real>>(samples.len(), 1, samples);
}

} // verus!
