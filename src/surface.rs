//! The two materials and what they give at a point of a surface.
//!
//! A point is given by the floors of its `x` and `z` coordinates, which decide
//! the square of the checker pattern it lies in. Colours are the three fixed
//! tones; reflectance is given in tenths.
use vstd::prelude::*;

verus! {

/// A fixed colour: white `(1,1,1)`, grey `(0.5,0.5,0.5)` or black `(0,0,0)`.
#[derive(Clone, Copy, Debug, PartialEq, Eq, Structural)]
pub enum Tone {
    White,
    Grey,
    Black,
}

/// The material of an object.
#[derive(Clone, Copy, Debug, PartialEq, Eq, Structural)]
pub enum Surface {
    /// The same everywhere: white diffuse, grey specular, reflectance 0.7,
    /// roughness 250.
    Shiny,
    /// Alternating squares of unit side in the `x`/`z` plane; white specular
    /// and roughness 150 everywhere.
    Checkerboard,
}

/// The square at these floors is one of the even ones.
pub open spec fn is_even_square(floor_x: int, floor_z: int) -> bool {
    (floor_x + floor_z) % 2 == 0
}

/// Whether the square at these floors is even: `floor(z) + floor(x)` is
/// divisible by two.
pub fn even_square(floor_x: i64, floor_z: i64) -> (r: bool)
    ensures
        r == is_even_square(floor_x as int, floor_z as int),
{
    let sum: i128 = floor_x as i128 + floor_z as i128;
    sum % 2 == 0
}

impl Surface {
    pub open spec fn diffuse_spec(self, floor_x: int, floor_z: int) -> Tone {
        match self {
            Surface::Shiny => Tone::White,
            Surface::Checkerboard => if is_even_square(floor_x, floor_z) {
                Tone::White
            } else {
                Tone::Black
            },
        }
    }

    pub open spec fn reflect_spec(self, floor_x: int, floor_z: int) -> u32 {
        match self {
            Surface::Shiny => 7,
            Surface::Checkerboard => if is_even_square(floor_x, floor_z) {
                1
            } else {
                7
            },
        }
    }

    /// The diffuse colour at a point.
    pub fn diffuse(&self, floor_x: i64, floor_z: i64) -> (r: Tone)
        ensures
            r == self.diffuse_spec(floor_x as int, floor_z as int),
    {
        match self {
            Surface::Shiny => Tone::White,
            Surface::Checkerboard => if even_square(floor_x, floor_z) {
                Tone::White
            } else {
                Tone::Black
            },
        }
    }

    /// The specular colour, the same at every point.
    pub fn specular(&self) -> (r: Tone)
        ensures
            *self == Surface::Shiny ==> r == Tone::Grey,
            *self == Surface::Checkerboard ==> r == Tone::White,
    {
        match self {
            Surface::Shiny => Tone::Grey,
            Surface::Checkerboard => Tone::White,
        }
    }

    /// The fraction of reflected light at a point, in tenths.
    pub fn reflect_tenths(&self, floor_x: i64, floor_z: i64) -> (r: u32)
        ensures
            r == self.reflect_spec(floor_x as int, floor_z as int),
            r <= 10,
    {
        match self {
            Surface::Shiny => 7,
            Surface::Checkerboard => if even_square(floor_x, floor_z) {
                1
            } else {
                7
            },
        }
    }

    /// The exponent of the specular highlight.
    pub fn roughness(&self) -> (r: i32)
        ensures
            *self == Surface::Shiny ==> r == 250,
            *self == Surface::Checkerboard ==> r == 150,
            r > 0,
    {
        match self {
            Surface::Shiny => 250,
            Surface::Checkerboard => 150,
        }
    }
}

} // verus!
