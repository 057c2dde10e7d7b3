//! Four-component vectors in homogeneous coordinates.

use vstd::prelude::*;
use crate::document::{load_values, loaded, LoadError};
use crate::scalar::{ONE, ZERO};
use crate::vector3::Vector3;

verus! {

/// An ordered quadruple `(x, y, z, w)`, also addressable as `(r, g, b, a)`.
///
/// Each component is the bit pattern of a single-precision number. The
/// fourth component tells a point (`w` is one) from a direction (`w` is
/// zero).
#[derive(Debug, Clone, Copy)]
pub struct Vector4 {
    pub m_data: [u32; 4],
}

impl View for Vector4 {
    type V = Seq<u32>;

    /// The components in order: `x`, `y`, `z`, `w`.
    open spec fn view(&self) -> Seq<u32> {
        self.m_data@
    }
}

/// An argument shape from which a [`Vector4`] is built.
///
/// The empty tuple gives the origin as a point, `(0, 0, 0, 1)`, while any
/// integer gives the zero vector, `(0, 0, 0, 0)`. Three components and a
/// `Vector3` are completed with `w` set to one. Four components are taken as
/// they are, and a `Vector4` is copied.
pub trait Instantiator: Sized {
    /// The components of the vector that this argument builds.
    spec fn components(self) -> Seq<u32>;

    fn into(self) -> (v: Vector4)
        ensures
            v@ == self.components(),
    ;
}

impl Vector4 {
    /// First component.
    pub fn get_x(&self) -> (r: u32)
        ensures
            r == self@[0],
    {
        self.m_data[0]
    }

    /// Second component.
    pub fn get_y(&self) -> (r: u32)
        ensures
            r == self@[1],
    {
        self.m_data[1]
    }

    /// Third component.
    pub fn get_z(&self) -> (r: u32)
        ensures
            r == self@[2],
    {
        self.m_data[2]
    }

    /// Fourth component.
    pub fn get_w(&self) -> (r: u32)
        ensures
            r == self@[3],
    {
        self.m_data[3]
    }

    /// First component, read as the red channel.
    pub fn get_r(&self) -> (r: u32)
        ensures
            r == self@[0],
    {
        self.m_data[0]
    }

    /// Second component, read as the green channel.
    pub fn get_g(&self) -> (r: u32)
        ensures
            r == self@[1],
    {
        self.m_data[1]
    }

    /// Third component, read as the blue channel.
    pub fn get_b(&self) -> (r: u32)
        ensures
            r == self@[2],
    {
        self.m_data[2]
    }

    /// Fourth component, read as the alpha channel.
    pub fn get_a(&self) -> (r: u32)
        ensures
            r == self@[3],
    {
        self.m_data[3]
    }

    /// Replaces the first component, and keeps the others.
    pub fn set_x(&mut self, x: u32)
        ensures
            final(self)@ == old(self)@.update(0, x),
    {
        self.m_data[0] = x;
    }

    /// Replaces the second component, and keeps the others.
    pub fn set_y(&mut self, y: u32)
        ensures
            final(self)@ == old(self)@.update(1, y),
    {
        self.m_data[1] = y;
    }

    /// Replaces the third component, and keeps the others.
    pub fn set_z(&mut self, z: u32)
        ensures
            final(self)@ == old(self)@.update(2, z),
    {
        self.m_data[2] = z;
    }

    /// Replaces the fourth component, and keeps the others.
    pub fn set_w(&mut self, w: u32)
        ensures
            final(self)@ == old(self)@.update(3, w),
    {
        self.m_data[3] = w;
    }

    /// Replaces the red channel, which is the first component, and keeps the others.
    pub fn set_r(&mut self, r: u32)
        ensures
            final(self)@ == old(self)@.update(0, r),
    {
        self.m_data[0] = r;
    }

    /// Replaces the green channel, which is the second component, and keeps the others.
    pub fn set_g(&mut self, g: u32)
        ensures
            final(self)@ == old(self)@.update(1, g),
    {
        self.m_data[1] = g;
    }

    /// Replaces the blue channel, which is the third component, and keeps the others.
    pub fn set_b(&mut self, b: u32)
        ensures
            final(self)@ == old(self)@.update(2, b),
    {
        self.m_data[2] = b;
    }

    /// Replaces the alpha channel, which is the fourth component, and keeps the others.
    pub fn set_a(&mut self, a: u32)
        ensures
            final(self)@ == old(self)@.update(3, a),
    {
        self.m_data[3] = a;
    }

    /// Builds the vector that the shape of `args` selects.
    pub fn new<A: Instantiator>(args: A) -> (v: Vector4)
        ensures
            v@ == args.components(),
    {
        args.into()
    }

    /// Loads the components of a vector from the text of its document: a
    /// JSON object whose `values` member is an array of exactly four numbers,
    /// `x`, `y`, `z` and `w` in this order.
    ///
    /// Each component comes as the bit pattern of its double-precision
    /// reading, still to be narrowed to single precision.
    pub fn json(text: &str) -> (r: Result<[u64; 4], LoadError>)
        ensures
            match r {
                Ok(values) => loaded(text@, 4) == Ok::<Seq<u64>, LoadError>(values@),
                Err(e) => loaded(text@, 4) == Err::<Seq<u64>, LoadError>(e),
            },
    {
        match load_values(text, 4) {
            Ok(list) => {
                let values = [list[0], list[1], list[2], list[3]];
                assert(values@ =~= list@);
                Ok(values)
            },
            Err(e) => Err(e),
        }
    }

    /// The vector whose four components, `w` included, are positive zero.
    pub fn zero() -> (v: Vector4)
        ensures
            v@ == seq![ZERO, ZERO, ZERO, ZERO],
    {
        Vector4::new(0i64)
    }
}

impl Instantiator for () {
    open spec fn components(self) -> Seq<u32> {
        seq![ZERO, ZERO, ZERO, ONE]
    }

    fn into(self) -> (v: Vector4) {
        Vector4 { m_data: [ZERO, ZERO, ZERO, ONE] }
    }
}

impl Instantiator for i64 {
    open spec fn components(self) -> Seq<u32> {
        seq![ZERO, ZERO, ZERO, ZERO]
    }

    fn into(self) -> (v: Vector4) {
        Vector4 { m_data: [ZERO, ZERO, ZERO, ZERO] }
    }
}

impl Instantiator for (u32, u32, u32) {
    open spec fn components(self) -> Seq<u32> {
        seq![self.0, self.1, self.2, ONE]
    }

    fn into(self) -> (v: Vector4) {
        Vector4 { m_data: [self.0, self.1, self.2, ONE] }
    }
}

impl Instantiator for (u32, u32, u32, u32) {
    open spec fn components(self) -> Seq<u32> {
        seq![self.0, self.1, self.2, self.3]
    }

    fn into(self) -> (v: Vector4) {
        Vector4 { m_data: [self.0, self.1, self.2, self.3] }
    }
}

impl Instantiator for &Vector3 {
    open spec fn components(self) -> Seq<u32> {
        self@.push(ONE)
    }

    fn into(self) -> (v: Vector4) {
        Vector4 { m_data: [self.m_data[0], self.m_data[1], self.m_data[2], ONE] }
    }
}

impl Instantiator for &Vector4 {
    open spec fn components(self) -> Seq<u32> {
        self@
    }

    fn into(self) -> (v: Vector4) {
        Vector4 { m_data: self.m_data }
    }
}

} // verus!
