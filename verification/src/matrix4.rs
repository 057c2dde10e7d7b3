//! Four-by-four matrices and the layouts of the affine transforms.

use vstd::prelude::*;
use crate::document::{load_values, loaded, LoadError};
use crate::matrix3::Matrix3;
use crate::scalar::{negate, negated, ONE, ZERO};
use crate::vector3::Vector3;
use crate::vector4::Vector4;

verus! {

/// A 4×4 grid of components, stored row by row: `m_data[row][col]`.
#[derive(Debug, Clone, Copy)]
pub struct Matrix4 {
    pub m_data: [[u32; 4]; 4],
}

impl View for Matrix4 {
    type V = Seq<Seq<u32>>;

    /// The four rows from top to bottom, each from left to right.
    open spec fn view(&self) -> Seq<Seq<u32>> {
        Seq::new(4, |i: int| self.m_data@[i]@)
    }
}

/// The rows of the 4×4 identity: ones on the diagonal, zeros elsewhere.
pub open spec fn identity_rows() -> Seq<Seq<u32>> {
    seq![
        seq![ONE, ZERO, ZERO, ZERO],
        seq![ZERO, ONE, ZERO, ZERO],
        seq![ZERO, ZERO, ONE, ZERO],
        seq![ZERO, ZERO, ZERO, ONE],
    ]
}

/// The rows of the 4×4 matrix of positive zeros.
pub open spec fn zero_rows() -> Seq<Seq<u32>> {
    seq![
        seq![ZERO, ZERO, ZERO, ZERO],
        seq![ZERO, ZERO, ZERO, ZERO],
        seq![ZERO, ZERO, ZERO, ZERO],
        seq![ZERO, ZERO, ZERO, ZERO],
    ]
}

/// The identity with `(tx, ty, tz)` in the last column of the first three
/// rows.
pub open spec fn translate_rows(tx: u32, ty: u32, tz: u32) -> Seq<Seq<u32>> {
    seq![
        seq![ONE, ZERO, ZERO, tx],
        seq![ZERO, ONE, ZERO, ty],
        seq![ZERO, ZERO, ONE, tz],
        seq![ZERO, ZERO, ZERO, ONE],
    ]
}

/// The diagonal matrix with `(sx, sy, sz, 1)` on the diagonal.
pub open spec fn scale_rows(sx: u32, sy: u32, sz: u32) -> Seq<Seq<u32>> {
    seq![
        seq![sx, ZERO, ZERO, ZERO],
        seq![ZERO, sy, ZERO, ZERO],
        seq![ZERO, ZERO, sz, ZERO],
        seq![ZERO, ZERO, ZERO, ONE],
    ]
}

/// The rotation about the x axis, given the cosine and sine of the angle.
pub open spec fn rotate_x_rows(cos: u32, sin: u32) -> Seq<Seq<u32>> {
    seq![
        seq![ONE, ZERO, ZERO, ZERO],
        seq![ZERO, cos, negated(sin), ZERO],
        seq![ZERO, sin, cos, ZERO],
        seq![ZERO, ZERO, ZERO, ONE],
    ]
}

/// The rotation about the y axis, given the cosine and sine of the angle.
pub open spec fn rotate_y_rows(cos: u32, sin: u32) -> Seq<Seq<u32>> {
    seq![
        seq![cos, ZERO, sin, ZERO],
        seq![ZERO, ONE, ZERO, ZERO],
        seq![negated(sin), ZERO, cos, ZERO],
        seq![ZERO, ZERO, ZERO, ONE],
    ]
}

/// The rotation about the z axis, given the cosine and sine of the angle.
pub open spec fn rotate_z_rows(cos: u32, sin: u32) -> Seq<Seq<u32>> {
    seq![
        seq![cos, negated(sin), ZERO, ZERO],
        seq![sin, cos, ZERO, ZERO],
        seq![ZERO, ZERO, ONE, ZERO],
        seq![ZERO, ZERO, ZERO, ONE],
    ]
}

/// The rows of the matrix whose upper-left 3×3 block is `block`, with zeros
/// in the rest of the last column and of the last row, and one in the
/// corner: a linear map without translation.
pub open spec fn block_rows(block: Seq<Seq<u32>>) -> Seq<Seq<u32>> {
    seq![
        block[0].push(ZERO),
        block[1].push(ZERO),
        block[2].push(ZERO),
        seq![ZERO, ZERO, ZERO, ONE],
    ]
}

/// The row `row` without its entry in column `col`.
pub open spec fn without_column(row: Seq<u32>, col: int) -> Seq<u32> {
    row.remove(col)
}

/// The rows of the minor of `rows` at row 0 and column `col`: what is left
/// when the first row and that column are deleted.
pub open spec fn minor_rows(rows: Seq<Seq<u32>>, col: int) -> Seq<Seq<u32>> {
    Seq::new(3, |i: int| without_column(rows[i + 1], col))
}

/// An argument shape from which a [`Matrix4`] is built.
///
/// The empty tuple gives the identity and any integer the zero matrix. A
/// `Matrix4` is copied, sixteen components fill the rows in order, and four
/// vectors become the rows.
pub trait Instantiator: Sized {
    /// The rows of the matrix that this argument builds.
    spec fn rows(self) -> Seq<Seq<u32>>;

    fn into(self) -> (m: Matrix4)
        ensures
            m@ == self.rows(),
    ;
}

/// An argument shape that names a rotation axis and an angle in degrees.
///
/// The axis is given by three components, by a `Vector3`, or by the first
/// three components of a `Vector4`; the angle follows it.
pub trait Rotator: Sized {
    /// The axis components `x`, `y`, `z` and the angle, in this order.
    spec fn axis_angle(self) -> (u32, u32, u32, u32);

    fn into(self) -> (r: (u32, u32, u32, u32))
        ensures
            r == self.axis_angle(),
    ;
}

/// A left operand that can be applied to a `T`, giving a `T`.
pub trait Multiplier<T> {
    fn mult(&self, obj: &T) -> T;
}

/// Copies a row of four without its entry in column `col`.
fn drop_column(row: &[u32; 4], col: usize) -> (kept: [u32; 3])
    requires
        col < 4,
    ensures
        kept@ == without_column(row@, col as int),
{
    let kept: [u32; 3] = if col == 0 {
        [row[1], row[2], row[3]]
    } else if col == 1 {
        [row[0], row[2], row[3]]
    } else if col == 2 {
        [row[0], row[1], row[3]]
    } else {
        [row[0], row[1], row[2]]
    };
    assert(kept@ =~= without_column(row@, col as int));
    kept
}

impl Matrix4 {
    /// Builds the matrix that the shape of `args` selects.
    pub fn new<A: Instantiator>(args: A) -> (m: Matrix4)
        ensures
            m@ == args.rows(),
    {
        args.into()
    }

    /// Loads the entries of a matrix from the text of its document: a JSON
    /// object whose `values` member is an array of exactly sixteen numbers,
    /// row by row.
    ///
    /// Each entry comes as the bit pattern of its double-precision reading,
    /// still to be narrowed to single precision.
    pub fn json(text: &str) -> (r: Result<[u64; 16], LoadError>)
        ensures
            match r {
                Ok(values) => loaded(text@, 16) == Ok::<Seq<u64>, LoadError>(values@),
                Err(e) => loaded(text@, 16) == Err::<Seq<u64>, LoadError>(e),
            },
    {
        match load_values(text, 16) {
            Ok(list) => {
                let values = [
                    list[0], list[1], list[2], list[3],
                    list[4], list[5], list[6], list[7],
                    list[8], list[9], list[10], list[11],
                    list[12], list[13], list[14], list[15],
                ];
                assert(values@ =~= list@);
                Ok(values)
            },
            Err(e) => Err(e),
        }
    }

    /// The identity matrix.
    pub fn identity() -> (m: Matrix4)
        ensures
            m@ == identity_rows(),
    {
        let m = Matrix4 {
            m_data: [
                [ONE, ZERO, ZERO, ZERO],
                [ZERO, ONE, ZERO, ZERO],
                [ZERO, ZERO, ONE, ZERO],
                [ZERO, ZERO, ZERO, ONE],
            ],
        };
        assert(m@ =~~= identity_rows());
        m
    }

    /// The matrix of positive zeros.
    pub fn zero() -> (m: Matrix4)
        ensures
            m@ == zero_rows(),
    {
        let m = Matrix4 {
            m_data: [
                [ZERO, ZERO, ZERO, ZERO],
                [ZERO, ZERO, ZERO, ZERO],
                [ZERO, ZERO, ZERO, ZERO],
                [ZERO, ZERO, ZERO, ZERO],
            ],
        };
        assert(m@ =~~= zero_rows());
        m
    }

    /// The translation by `(tx, ty, tz)`.
    pub fn translate(tx: u32, ty: u32, tz: u32) -> (m: Matrix4)
        ensures
            m@ == translate_rows(tx, ty, tz),
    {
        let mut m = Matrix4::identity();
        m.m_data[0][3] = tx;
        m.m_data[1][3] = ty;
        m.m_data[2][3] = tz;
        assert(m@ =~~= translate_rows(tx, ty, tz));
        m
    }

    /// The scaling by `(sx, sy, sz)` along the three axes.
    pub fn scale(sx: u32, sy: u32, sz: u32) -> (m: Matrix4)
        ensures
            m@ == scale_rows(sx, sy, sz),
    {
        let mut m = Matrix4::identity();
        m.m_data[0][0] = sx;
        m.m_data[1][1] = sy;
        m.m_data[2][2] = sz;
        assert(m@ =~~= scale_rows(sx, sy, sz));
        m
    }

    /// The rotation about the x axis, laid out from the cosine and the sine
    /// of the angle.
    pub fn rotate_x(cos: u32, sin: u32) -> (m: Matrix4)
        ensures
            m@ == rotate_x_rows(cos, sin),
    {
        let mut m = Matrix4::identity();
        m.m_data[1][1] = cos;
        m.m_data[1][2] = negate(sin);
        m.m_data[2][1] = sin;
        m.m_data[2][2] = cos;
        assert(m@ =~~= rotate_x_rows(cos, sin));
        m
    }

    /// The rotation about the y axis, laid out from the cosine and the sine
    /// of the angle.
    pub fn rotate_y(cos: u32, sin: u32) -> (m: Matrix4)
        ensures
            m@ == rotate_y_rows(cos, sin),
    {
        let mut m = Matrix4::identity();
        m.m_data[0][0] = cos;
        m.m_data[0][2] = sin;
        m.m_data[2][0] = negate(sin);
        m.m_data[2][2] = cos;
        assert(m@ =~~= rotate_y_rows(cos, sin));
        m
    }

    /// The rotation about the z axis, laid out from the cosine and the sine
    /// of the angle.
    pub fn rotate_z(cos: u32, sin: u32) -> (m: Matrix4)
        ensures
            m@ == rotate_z_rows(cos, sin),
    {
        let mut m = Matrix4::identity();
        m.m_data[0][0] = cos;
        m.m_data[0][1] = negate(sin);
        m.m_data[1][0] = sin;
        m.m_data[1][1] = cos;
        assert(m@ =~~= rotate_z_rows(cos, sin));
        m
    }

    /// The rotation whose upper-left 3×3 block is `block`: the block is laid
    /// into the identity, and nothing is translated.
    pub fn rotate(block: &Matrix3) -> (m: Matrix4)
        ensures
            m@ == block_rows(block@),
    {
        let b = &block.m_data;
        let m = Matrix4 {
            m_data: [
                [b[0][0], b[0][1], b[0][2], ZERO],
                [b[1][0], b[1][1], b[1][2], ZERO],
                [b[2][0], b[2][1], b[2][2], ZERO],
                [ZERO, ZERO, ZERO, ONE],
            ],
        };
        assert(m@ =~~= block_rows(block@));
        m
    }

    /// The minor at row 0 and column `col`, which the cofactor expansion
    /// along the first row multiplies with the entry in that column.
    pub fn minor(&self, col: usize) -> (m: Matrix3)
        requires
            col < 4,
        ensures
            m@ == minor_rows(self@, col as int),
    {
        let m = Matrix3 {
            m_data: [
                drop_column(&self.m_data[1], col),
                drop_column(&self.m_data[2], col),
                drop_column(&self.m_data[3], col),
            ],
        };
        assert(m@ =~~= minor_rows(self@, col as int));
        m
    }
}

impl Instantiator for () {
    open spec fn rows(self) -> Seq<Seq<u32>> {
        identity_rows()
    }

    fn into(self) -> (m: Matrix4) {
        Matrix4::identity()
    }
}

impl Instantiator for i64 {
    open spec fn rows(self) -> Seq<Seq<u32>> {
        zero_rows()
    }

    fn into(self) -> (m: Matrix4) {
        Matrix4::zero()
    }
}

impl Instantiator for &Matrix4 {
    open spec fn rows(self) -> Seq<Seq<u32>> {
        self@
    }

    fn into(self) -> (m: Matrix4) {
        Matrix4 { m_data: self.m_data }
    }
}

impl Instantiator for (
    u32, u32, u32, u32,
    u32, u32, u32, u32,
    u32, u32, u32, u32,
    u32, u32, u32, u32,
) {
    open spec fn rows(self) -> Seq<Seq<u32>> {
        seq![
            seq![self.0, self.1, self.2, self.3],
            seq![self.4, self.5, self.6, self.7],
            seq![self.8, self.9, self.10, self.11],
            seq![self.12, self.13, self.14, self.15],
        ]
    }

    fn into(self) -> (m: Matrix4) {
        let m = Matrix4 {
            m_data: [
                [self.0, self.1, self.2, self.3],
                [self.4, self.5, self.6, self.7],
                [self.8, self.9, self.10, self.11],
                [self.12, self.13, self.14, self.15],
            ],
        };
        assert(m@ =~~= self.rows());
        m
    }
}

impl Instantiator for (&Vector4, &Vector4, &Vector4, &Vector4) {
    open spec fn rows(self) -> Seq<Seq<u32>> {
        seq![self.0@, self.1@, self.2@, self.3@]
    }

    fn into(self) -> (m: Matrix4) {
        let m = Matrix4 { m_data: [self.0.m_data, self.1.m_data, self.2.m_data, self.3.m_data] };
        assert(m@ =~~= self.rows());
        m
    }
}

impl Rotator for (u32, u32, u32, u32) {
    open spec fn axis_angle(self) -> (u32, u32, u32, u32) {
        self
    }

    fn into(self) -> (r: (u32, u32, u32, u32)) {
        self
    }
}

impl Rotator for (&Vector3, u32) {
    open spec fn axis_angle(self) -> (u32, u32, u32, u32) {
        (self.0@[0], self.0@[1], self.0@[2], self.1)
    }

    fn into(self) -> (r: (u32, u32, u32, u32)) {
        (self.0.get_x(), self.0.get_y(), self.0.get_z(), self.1)
    }
}

impl Rotator for (&Vector4, u32) {
    open spec fn axis_angle(self) -> (u32, u32, u32, u32) {
        (self.0@[0], self.0@[1], self.0@[2], self.1)
    }

    fn into(self) -> (r: (u32, u32, u32, u32)) {
        (self.0.get_x(), self.0.get_y(), self.0.get_z(), self.1)
    }
}

/// A rotation takes the same axis and angle from each of the three shapes:
/// three components with an angle, a `Vector3` of these components, and a
/// `Vector4` whose first three components they are, whatever its fourth.
pub proof fn axis_is_the_same_from_every_shape(x: u32, y: u32, z: u32, w: u32, angle: u32)
    ensures
        (&Vector3 { m_data: [x, y, z] }, angle).axis_angle() == (x, y, z, angle).axis_angle(),
        (&Vector4 { m_data: [x, y, z, w] }, angle).axis_angle() == (x, y, z, angle).axis_angle(),
{
}

} // verus!
