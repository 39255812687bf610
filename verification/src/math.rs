//! Vectors and matrices as the GPU lays them out.

use vstd::prelude::*;

verus! {

/// A single-precision number, held as its IEEE 754 bit pattern.
pub type Scalar = u32;

/// The bit pattern of positive zero.
pub const ZERO: Scalar = 0;

/// The bit pattern of one.
pub const ONE: Scalar = 0x3f80_0000;

/// The bit pattern of minus one.
pub const MINUS_ONE: Scalar = 0xbf80_0000;

#[derive(Clone, Copy, Debug, PartialEq, Eq, Structural)]
pub struct Vector2 {
    pub x: Scalar,
    pub y: Scalar,
}

#[derive(Clone, Copy, Debug, PartialEq, Eq, Structural)]
pub struct Vector3 {
    pub x: Scalar,
    pub y: Scalar,
    pub z: Scalar,
}

#[derive(Clone, Copy, Debug, PartialEq, Eq, Structural)]
pub struct Vector4 {
    pub x: Scalar,
    pub y: Scalar,
    pub z: Scalar,
    pub w: Scalar,
}

/// A 4x4 matrix stored by columns: `x` is the first column, `w` the last,
/// which holds the translation of an affine transform.
#[derive(Clone, Copy, Debug, PartialEq, Eq, Structural)]
pub struct Matrix4 {
    pub x: Vector4,
    pub y: Vector4,
    pub z: Vector4,
    pub w: Vector4,
}

impl Vector3 {
    pub fn new(x: Scalar, y: Scalar, z: Scalar) -> (v: Self)
        ensures
            v == (Vector3 { x, y, z }),
    {
        Vector3 { x, y, z }
    }

    /// The vector with a fourth component appended.
    pub open spec fn spec_extend(self, w: Scalar) -> Vector4 {
        Vector4 { x: self.x, y: self.y, z: self.z, w }
    }

    pub fn extend(self, w: Scalar) -> (v: Vector4)
        ensures
            v == self.spec_extend(w),
    {
        Vector4 { x: self.x, y: self.y, z: self.z, w }
    }
}

impl Vector2 {
    pub fn new(x: Scalar, y: Scalar) -> (v: Self)
        ensures
            v == (Vector2 { x, y }),
    {
        Vector2 { x, y }
    }
}

impl Vector3 {
    /// The three components in the order in which the GPU reads them.
    pub open spec fn spec_words(self) -> Seq<Scalar> {
        seq![self.x, self.y, self.z]
    }

    /// Appends the three components to `words`.
    pub fn push_words(&self, words: &mut Vec<Scalar>)
        ensures
            final(words)@ == old(words)@ + self.spec_words(),
    {
        words.push(self.x);
        words.push(self.y);
        words.push(self.z);
        assert(words@ =~= old(words)@ + self.spec_words());
    }
}

impl Vector4 {
    /// The four components in the order in which the GPU reads them.
    pub open spec fn spec_words(self) -> Seq<Scalar> {
        seq![self.x, self.y, self.z, self.w]
    }

    /// Appends the four components to `words`.
    pub fn push_words(&self, words: &mut Vec<Scalar>)
        ensures
            final(words)@ == old(words)@ + self.spec_words(),
    {
        words.push(self.x);
        words.push(self.y);
        words.push(self.z);
        words.push(self.w);
        assert(words@ =~= old(words)@ + self.spec_words());
    }

    pub fn new(x: Scalar, y: Scalar, z: Scalar, w: Scalar) -> (v: Self)
        ensures
            v == (Vector4 { x, y, z, w }),
    {
        Vector4 { x, y, z, w }
    }

    /// The vector whose four components are positive zero.
    pub open spec fn spec_zero() -> Vector4 {
        Vector4 { x: ZERO, y: ZERO, z: ZERO, w: ZERO }
    }

    pub fn zero() -> (v: Self)
        ensures
            v == Self::spec_zero(),
    {
        Vector4 { x: ZERO, y: ZERO, z: ZERO, w: ZERO }
    }

    /// The first three components.
    pub open spec fn spec_truncate(self) -> Vector3 {
        Vector3 { x: self.x, y: self.y, z: self.z }
    }

    pub fn truncate(self) -> (v: Vector3)
        ensures
            v == self.spec_truncate(),
    {
        Vector3 { x: self.x, y: self.y, z: self.z }
    }
}

impl Matrix4 {
    /// The matrix with the given columns.
    pub fn from_cols(x: Vector4, y: Vector4, z: Vector4, w: Vector4) -> (m: Self)
        ensures
            m == (Matrix4 { x, y, z, w }),
    {
        Matrix4 { x, y, z, w }
    }

    /// The identity matrix.
    pub open spec fn spec_identity() -> Matrix4 {
        Matrix4 {
            x: Vector4 { x: ONE, y: ZERO, z: ZERO, w: ZERO },
            y: Vector4 { x: ZERO, y: ONE, z: ZERO, w: ZERO },
            z: Vector4 { x: ZERO, y: ZERO, z: ONE, w: ZERO },
            w: Vector4 { x: ZERO, y: ZERO, z: ZERO, w: ONE },
        }
    }

    pub fn identity() -> (m: Self)
        ensures
            m == Self::spec_identity(),
    {
        Matrix4 {
            x: Vector4 { x: ONE, y: ZERO, z: ZERO, w: ZERO },
            y: Vector4 { x: ZERO, y: ONE, z: ZERO, w: ZERO },
            z: Vector4 { x: ZERO, y: ZERO, z: ONE, w: ZERO },
            w: Vector4 { x: ZERO, y: ZERO, z: ZERO, w: ONE },
        }
    }

    /// The sixteen components in the order in which the GPU reads them:
    /// column by column.
    pub open spec fn spec_words(self) -> Seq<Scalar> {
        self.x.spec_words() + self.y.spec_words() + self.z.spec_words() + self.w.spec_words()
    }

    /// Appends the sixteen components to `words`, column by column.
    pub fn push_words(&self, words: &mut Vec<Scalar>)
        ensures
            final(words)@ == old(words)@ + self.spec_words(),
    {
        self.x.push_words(words);
        self.y.push_words(words);
        self.z.push_words(words);
        self.w.push_words(words);
        assert(words@ =~= old(words)@ + self.spec_words());
    }
}

} // verus!
