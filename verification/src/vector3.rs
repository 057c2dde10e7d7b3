//! Three-component vectors.

use vstd::prelude::*;
use crate::scalar::ZERO;
use crate::vector4::Vector4;

verus! {

/// An ordered triple `(x, y, z)`, also addressable as `(r, g, b)`.
///
/// Each component is the bit pattern of a single-precision number. Nothing
/// is required of the patterns: every triple is a vector.
#[derive(Debug, Clone, Copy)]
pub struct Vector3 {
    pub m_data: [u32; 3],
}

impl View for Vector3 {
    type V = Seq<u32>;

    /// The components in order: `x`, `y`, `z`.
    open spec fn view(&self) -> Seq<u32> {
        self.m_data@
    }
}

/// An argument shape from which a [`Vector3`] is built.
///
/// The shape alone selects the vector: the empty tuple and any integer give
/// the zero vector, three components are taken as they are, a `Vector3` is
/// copied, and a `Vector4` gives its first three components.
pub trait Instantiator: Sized {
    /// The components of the vector that this argument builds.
    spec fn components(self) -> Seq<u32>;

    fn into(self) -> (v: Vector3)
        ensures
            v@ == self.components(),
    ;
}

impl Vector3 {
    /// First component.
    pub fn get_x(&self) -> (r: u32)
        ensures
            r == self@[0],
    {
        self.m_data[0]
    }

    /// Second component.
    pub fn get_y(&self) -> (r: u32)
        ensures
            r == self@[1],
    {
        self.m_data[1]
    }

    /// Third component.
    pub fn get_z(&self) -> (r: u32)
        ensures
            r == self@[2],
    {
        self.m_data[2]
    }

    /// First component, read as the red channel.
    pub fn get_r(&self) -> (r: u32)
        ensures
            r == self@[0],
    {
        self.m_data[0]
    }

    /// Second component, read as the green channel.
    pub fn get_g(&self) -> (r: u32)
        ensures
            r == self@[1],
    {
        self.m_data[1]
    }

    /// Third component, read as the blue channel.
    pub fn get_b(&self) -> (r: u32)
        ensures
            r == self@[2],
    {
        self.m_data[2]
    }

    /// Replaces the first component and keeps the others.
    pub fn set_x(&mut self, x: u32)
        ensures
            final(self)@ == old(self)@.update(0, x),
    {
        self.m_data[0] = x;
    }

    /// Replaces the second component and keeps the others.
    pub fn set_y(&mut self, y: u32)
        ensures
            final(self)@ == old(self)@.update(1, y),
    {
        self.m_data[1] = y;
    }

    /// Replaces the third component and keeps the others.
    pub fn set_z(&mut self, z: u32)
        ensures
            final(self)@ == old(self)@.update(2, z),
    {
        self.m_data[2] = z;
    }

    /// Replaces the red channel, which is the first component.
    pub fn set_r(&mut self, r: u32)
        ensures
            final(self)@ == old(self)@.update(0, r),
    {
        self.m_data[0] = r;
    }

    /// Replaces the green channel, which is the second component.
    pub fn set_g(&mut self, g: u32)
        ensures
            final(self)@ == old(self)@.update(1, g),
    {
        self.m_data[1] = g;
    }

    /// Replaces the blue channel, which is the third component.
    pub fn set_b(&mut self, b: u32)
        ensures
            final(self)@ == old(self)@.update(2, b),
    {
        self.m_data[2] = b;
    }

    /// Builds the vector that the shape of `args` selects.
    pub fn new<A: Instantiator>(args: A) -> (v: Vector3)
        ensures
            v@ == args.components(),
    {
        args.into()
    }

    /// The vector whose three components are positive zero.
    pub fn zero() -> (v: Vector3)
        ensures
            v@ == seq![ZERO, ZERO, ZERO],
    {
        Vector3::new(0i64)
    }
}

impl Instantiator for () {
    open spec fn components(self) -> Seq<u32> {
        seq![ZERO, ZERO, ZERO]
    }

    fn into(self) -> (v: Vector3) {
        Vector3 { m_data: [ZERO, ZERO, ZERO] }
    }
}

impl Instantiator for i64 {
    open spec fn components(self) -> Seq<u32> {
        seq![ZERO, ZERO, ZERO]
    }

    fn into(self) -> (v: Vector3) {
        Vector3 { m_data: [ZERO, ZERO, ZERO] }
    }
}

impl Instantiator for (u32, u32, u32) {
    open spec fn components(self) -> Seq<u32> {
        seq![self.0, self.1, self.2]
    }

    fn into(self) -> (v: Vector3) {
        Vector3 { m_data: [self.0, self.1, self.2] }
    }
}

impl Instantiator for &Vector3 {
    open spec fn components(self) -> Seq<u32> {
        self@
    }

    fn into(self) -> (v: Vector3) {
        Vector3 { m_data: self.m_data }
    }
}

impl Instantiator for &Vector4 {
    open spec fn components(self) -> Seq<u32> {
        self@.take(3)
    }

    fn into(self) -> (v: Vector3) {
        Vector3 { m_data: [self.m_data[0], self.m_data[1], self.m_data[2]] }
    }
}

} // verus!
