//! Three-by-three matrices.

use vstd::prelude::*;
use crate::scalar::{ONE, ZERO};
use crate::vector3::Vector3;

verus! {

/// A 3×3 grid of components, stored row by row: `m_data[row][col]`.
#[derive(Debug, Clone, Copy)]
pub struct Matrix3 {
    pub m_data: [[u32; 3]; 3],
}

impl View for Matrix3 {
    type V = Seq<Seq<u32>>;

    /// The three rows from top to bottom, each from left to right.
    open spec fn view(&self) -> Seq<Seq<u32>> {
        Seq::new(3, |i: int| self.m_data@[i]@)
    }
}

/// The rows of the 3×3 identity: ones on the diagonal, zeros elsewhere.
pub open spec fn identity_rows() -> Seq<Seq<u32>> {
    seq![seq![ONE, ZERO, ZERO], seq![ZERO, ONE, ZERO], seq![ZERO, ZERO, ONE]]
}

/// The rows of the 3×3 matrix of positive zeros.
pub open spec fn zero_rows() -> Seq<Seq<u32>> {
    seq![seq![ZERO, ZERO, ZERO], seq![ZERO, ZERO, ZERO], seq![ZERO, ZERO, ZERO]]
}

/// The rows of the matrix whose columns, from left to right, are `a`, `b`
/// and `c`.
pub open spec fn rows_of_columns(a: Seq<u32>, b: Seq<u32>, c: Seq<u32>) -> Seq<Seq<u32>> {
    seq![seq![a[0], b[0], c[0]], seq![a[1], b[1], c[1]], seq![a[2], b[2], c[2]]]
}

/// An argument shape from which a [`Matrix3`] is built.
///
/// The empty tuple gives the identity and any integer the zero matrix. A
/// `Matrix3` is copied, nine components fill the rows in order, and three
/// vectors become the columns.
pub trait Instantiator: Sized {
    /// The rows of the matrix that this argument builds.
    spec fn rows(self) -> Seq<Seq<u32>>;

    fn into(self) -> (m: Matrix3)
        ensures
            m@ == self.rows(),
    ;
}

impl Matrix3 {
    /// Builds the matrix that the shape of `args` selects.
    pub fn new<A: Instantiator>(args: A) -> (m: Matrix3)
        ensures
            m@ == args.rows(),
    {
        args.into()
    }

    /// The identity matrix.
    pub fn identity() -> (m: Matrix3)
        ensures
            m@ == identity_rows(),
    {
        let m = Matrix3 { m_data: [[ONE, ZERO, ZERO], [ZERO, ONE, ZERO], [ZERO, ZERO, ONE]] };
        assert(m@ =~~= identity_rows());
        m
    }

    /// The matrix of positive zeros.
    pub fn zero() -> (m: Matrix3)
        ensures
            m@ == zero_rows(),
    {
        let m = Matrix3 { m_data: [[ZERO, ZERO, ZERO], [ZERO, ZERO, ZERO], [ZERO, ZERO, ZERO]] };
        assert(m@ =~~= zero_rows());
        m
    }
}

impl Instantiator for () {
    open spec fn rows(self) -> Seq<Seq<u32>> {
        identity_rows()
    }

    fn into(self) -> (m: Matrix3) {
        Matrix3::identity()
    }
}

impl Instantiator for i64 {
    open spec fn rows(self) -> Seq<Seq<u32>> {
        zero_rows()
    }

    fn into(self) -> (m: Matrix3) {
        Matrix3::zero()
    }
}

impl Instantiator for &Matrix3 {
    open spec fn rows(self) -> Seq<Seq<u32>> {
        self@
    }

    fn into(self) -> (m: Matrix3) {
        Matrix3 { m_data: self.m_data }
    }
}

impl Instantiator for (u32, u32, u32, u32, u32, u32, u32, u32, u32) {
    open spec fn rows(self) -> Seq<Seq<u32>> {
        seq![
            seq![self.0, self.1, self.2],
            seq![self.3, self.4, self.5],
            seq![self.6, self.7, self.8],
        ]
    }

    fn into(self) -> (m: Matrix3) {
        let m = Matrix3 {
            m_data: [[self.0, self.1, self.2], [self.3, self.4, self.5], [self.6, self.7, self.8]],
        };
        assert(m@ =~~= self.rows());
        m
    }
}

impl Instantiator for (&Vector3, &Vector3, &Vector3) {
    open spec fn rows(self) -> Seq<Seq<u32>> {
        rows_of_columns(self.0@, self.1@, self.2@)
    }

    fn into(self) -> (m: Matrix3) {
        let m = Matrix3 {
            m_data: [
                [self.0.m_data[0], self.1.m_data[0], self.2.m_data[0]],
                [self.0.m_data[1], self.1.m_data[1], self.2.m_data[1]],
                [self.0.m_data[2], self.1.m_data[2], self.2.m_data[2]],
            ],
        };
        assert(m@ =~~= self.rows());
        m
    }
}

} // verus!
