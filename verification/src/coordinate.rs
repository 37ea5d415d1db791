use vstd::prelude::*;

verus! {

/// A coordinate of the world, an `f64` that the library carries but does not
/// compute with.
///
/// `bits` is the IEEE-754 encoding of the value. `floor` is what the library
/// reads of it: the greatest integer not above the value, saturated to the
/// range of `i64` (so that an infinity gives `i64::MIN` or `i64::MAX`), and
/// `None` for a NaN. Whoever builds a coordinate from an `f64` computes both.
#[derive(Clone, Copy, Debug, PartialEq, Eq, Structural)]
pub struct Coordinate {
    pub bits: u64,
    pub floor: Option<i64>,
}

impl Coordinate {
    /// Whether the value is below the integer `bound`: for an `f64` value `v`
    /// and an integer `m`, `v < m` holds exactly when `floor(v) < m`, and a NaN
    /// is below nothing.
    pub open spec fn spec_is_below(self, bound: int) -> bool {
        match self.floor {
            Some(f) => f < bound,
            None => false,
        }
    }

    pub fn is_below(&self, bound: i32) -> (b: bool)
        ensures
            b == self.spec_is_below(bound as int),
    {
        match self.floor {
            Some(f) => f < bound as i64,
            None => false,
        }
    }
}

/// A position in the world.
#[derive(Clone, Copy, Debug, PartialEq, Eq, Structural)]
pub struct Position {
    pub x: Coordinate,
    pub y: Coordinate,
    pub z: Coordinate,
}

/// The index of the chunk (sixteen blocks wide) that a floored coordinate lies
/// in: the floor of `floor / 16` (division of integers here rounds down).
pub open spec fn spec_chunk_index(floor: int) -> int {
    floor / 16
}

/// The chunk that a coordinate lies in, when it is a number and the chunk index
/// fits an `i32`.
pub open spec fn spec_chunk_of(c: Coordinate) -> Option<i32> {
    match c.floor {
        Some(f) => {
            let k = spec_chunk_index(f as int);
            if i32::MIN <= k <= i32::MAX {
                Some(k as i32)
            } else {
                None
            }
        },
        None => None,
    }
}

/// Returns the index of the chunk that holds the coordinate, or `None` when the
/// coordinate is not a number or the index does not fit an `i32`.
pub fn chunk_of(c: Coordinate) -> (k: Option<i32>)
    ensures
        k == spec_chunk_of(c),
{
    match c.floor {
        Some(f) => {
            let k: i64 = if f >= 0 {
                f / 16
            } else {
                let m: i64 = -(f + 1);
                -(m / 16) - 1
            };
            assert(k == spec_chunk_index(f as int)) by {
                if f < 0 {
                    let m = -(f + 1);
                    let q = m / 16;
                    let r = m % 16;
                    assert(m == 16 * q + r && 0 <= r < 16) by (nonlinear_arith)
                        requires m >= 0, q == m / 16, r == m % 16;
                    assert(f == 16 * (-q - 1) + (15 - r));
                    assert((f as int) / 16 == -q - 1) by (nonlinear_arith)
                        requires f == 16 * (-q - 1) + (15 - r), 0 <= 15 - r < 16;
                }
            }
            if i32::MIN as i64 <= k && k <= i32::MAX as i64 {
                Some(k as i32)
            } else {
                None
            }
        },
        None => None,
    }
}

} // verus!
