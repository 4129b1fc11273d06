//! Where the bot stands, in whole pixels, and how a pixel coordinate is
//! written on the wire.

use vstd::prelude::*;

verus! {

/// The largest coordinate, to either side of zero, that the wire format
/// carries exactly.
pub const PIXEL_LIMIT: i32 = 16_777_216;

/// A place in the world, in pixels.
#[derive(Debug, Clone, Copy, PartialEq, Eq, Structural)]
pub struct Position {
    pub x: i32,
    pub y: i32,
}

/// Two to the power of `n`.
pub open spec fn two_pow(n: nat) -> int
    decreases n,
{
    if n == 0 {
        1
    } else {
        2 * two_pow((n - 1) as nat)
    }
}

/// `v` held to the range that the wire format carries exactly.
pub open spec fn clamped(v: int) -> int {
    if v > PIXEL_LIMIT {
        PIXEL_LIMIT as int
    } else if v < -PIXEL_LIMIT {
        -PIXEL_LIMIT as int
    } else {
        v
    }
}

/// The tile that a pixel coordinate lies in: the coordinate divided by the
/// tile's side, rounded down.
pub open spec fn tile_of(v: int) -> int {
    if v >= 0 {
        v / 32
    } else {
        -((-v + 31) / 32)
    }
}

/// Whether `bits` is the single-precision pattern of the whole number `v`:
/// sign, biased exponent and fraction spell exactly `v`.
pub open spec fn spells(bits: u32, v: int) -> bool {
    let sign = bits as int / 0x8000_0000;
    let exponent = (bits as int % 0x8000_0000) / 0x80_0000;
    let fraction = bits as int % 0x80_0000;
    if v == 0 {
        bits == 0
    } else {
        &&& (sign == 1 <==> v < 0)
        &&& 127 <= exponent <= 151
        &&& (0x80_0000 + fraction) * two_pow((exponent - 127) as nat) == (if v < 0 {
            -v
        } else {
            v
        }) * 0x80_0000
    }
}

/// The pattern of the positive number `m * 2^(e - 150)`: the fraction is
/// doubled, and the exponent lowered, until the leading one stands in front
/// of the fraction's 23 bits.
pub open spec fn normalized(m: int, e: int) -> int
    decreases e,
{
    if m >= 0x80_0000 || e <= 127 {
        e * 0x80_0000 + (m - 0x80_0000)
    } else {
        normalized(2 * m, e - 1)
    }
}

/// The single-precision pattern of the whole number `v`, held to the limit.
pub open spec fn wire_of(v: int) -> int {
    let c = clamped(v);
    if c == 0 {
        0
    } else if c > 0 {
        normalized(c, 150)
    } else {
        normalized(-c, 150) + 0x8000_0000
    }
}

/// The single-precision pattern of a whole number between 1 and the limit.
fn magnitude_bits(a: u32) -> (r: u32)
    requires
        0 < a <= PIXEL_LIMIT,
    ensures
        r < 0x8000_0000,
        r == normalized(a as int, 150),
        spells(r, a as int),
{
    let mut m: u32 = a;
    let mut e: u32 = 150;
    let ghost mut scale: int = 0x80_0000;
    proof {
        assert(two_pow(23) == 0x80_0000) by {
            reveal_with_fuel(two_pow, 24);
        }
    }
    while m < 0x80_0000
        invariant
            0 < m <= 0x100_0000,
            127 <= e <= 150,
            scale == two_pow((e - 127) as nat),
            scale >= 1,
            m * scale == a * 0x80_0000,
            normalized(m as int, e as int) == normalized(a as int, 150),
            m == 0x100_0000 ==> e == 150,
        decreases e,
    {
        proof {
            if e == 127 {
                assert(scale == 1);
                assert(m * 1 == a * 0x80_0000);
            }
            let half = two_pow((e - 128) as nat);
            assert(scale == 2 * half);
            assert((2 * m) * half == m * (2 * half)) by (nonlinear_arith);
            assert(half >= 1) by {
                if half < 1 {
                    assert(scale <= 0);
                }
            }
            scale = half;
        }
        m = m * 2;
        e = e - 1;
    }
    if m == 0x100_0000 {
        proof {
            assert(two_pow(24) == 0x100_0000) by {
                reveal_with_fuel(two_pow, 25);
            }
        }
    }
    let r: u32 = e * 0x80_0000 + (m - 0x80_0000);
    proof {
        let bits = r as int;
        if m == 0x100_0000 {
            assert(bits == 151 * 0x80_0000);
            assert(bits % 0x80_0000 == 0 && (bits % 0x8000_0000) / 0x80_0000 == 151 && bits
                / 0x8000_0000 == 0);
        } else {
            assert(bits % 0x80_0000 == m - 0x80_0000 && (bits % 0x8000_0000) / 0x80_0000 == e
                && bits / 0x8000_0000 == 0);
        }
    }
    r
}

/// Writes a pixel coordinate as the bit pattern of a single-precision
/// number. A coordinate beyond the limit is held to the limit first.
pub fn pixel_to_wire(v: i32) -> (r: u32)
    ensures
        r == wire_of(v as int),
        spells(r, clamped(v as int)),
{
    if v == 0 {
        0
    } else if v > 0 {
        let a: u32 = if v > PIXEL_LIMIT {
            PIXEL_LIMIT as u32
        } else {
            v as u32
        };
        magnitude_bits(a)
    } else {
        let a: u32 = if v < -PIXEL_LIMIT {
            PIXEL_LIMIT as u32
        } else {
            (-v) as u32
        };
        let low: u32 = magnitude_bits(a);
        let r: u32 = low + 0x8000_0000;
        assert(r as int / 0x8000_0000 == 1 && r as int % 0x8000_0000 == low);
        assert(low as int % 0x80_0000 == r as int % 0x80_0000);
        r
    }
}

/// The tile that a pixel coordinate lies in.
pub fn pixel_to_tile(v: i32) -> (r: i32)
    ensures
        r == tile_of(v as int),
        -67_108_864 <= r <= 67_108_863,
{
    if v >= 0 {
        v / 32
    } else {
        let up: i64 = (-(v as i64) + 31) / 32;
        (-up) as i32
    }
}

/// The pixel height at which a bot that stands in the tile row of `y`
/// touches the ground: the top of the next row, less the bot's own height of
/// 30 pixels.
pub open spec fn ground_contact(y: int) -> int {
    (tile_of(y + 30) + 1) * 32 - 30
}

/// The pixel height at which a bot at height `y` touches the ground. A
/// height beyond the limit is held to the limit first.
pub fn get_coordinate_to_touch_ground(y: i32) -> (r: i32)
    ensures
        r == ground_contact(clamped(y as int)),
{
    let held: i32 = if y > PIXEL_LIMIT {
        PIXEL_LIMIT
    } else if y < -PIXEL_LIMIT {
        -PIXEL_LIMIT
    } else {
        y
    };
    let row: i32 = pixel_to_tile(held + 30);
    (row + 1) * 32 - 30
}

impl Position {
    /// The tile column of this place.
    pub open spec fn tile_x(self) -> int {
        tile_of(self.x as int)
    }

    /// The tile row of this place.
    pub open spec fn tile_y(self) -> int {
        tile_of(self.y as int)
    }
}

} // verus!
