//! The gradient sets of the lattice families, as directions.
//!
//! A direction has components -1, 0 and 1. The code that evaluates noise
//! scales a direction to unit length where its family asks for that.

use crate::lattice::bit_of;
use crate::lattice::halved;
use vstd::prelude::*;

verus! {

/// The place of component `i` among the components other than `zero_axis`.
pub open spec fn sign_index(i: int, zero_axis: int) -> int {
    if i < zero_axis {
        i
    } else {
        i - 1
    }
}

/// The direction in `n` dimensions whose component at `zero_axis` is zero
/// and whose other components are 1 or -1: the one at place `j` among them
/// is -1 where bit `j` of `signs` is set. With `zero_axis >= n` no component
/// is zero.
pub open spec fn signed_direction_of(n: nat, zero_axis: int, signs: int) -> Seq<i8> {
    Seq::new(
        n,
        |i: int|
            if i == zero_axis {
                0i8
            } else if bit_of(signs, sign_index(i, zero_axis)) == 1 {
                -1i8
            } else {
                1i8
            },
    )
}

/// The two directions of the line, by the lowest bit of the hash.
pub open spec fn perlin_grad1_of(hash: int) -> Seq<i8> {
    signed_direction_of(1, 1, hash % 2)
}

/// The four diagonals of the square, by the two lowest bits of the hash.
pub open spec fn perlin_grad2_of(hash: int) -> Seq<i8> {
    signed_direction_of(2, 2, hash % 4)
}

/// The twelve directions to the edges of the cube, by the four lowest bits
/// of the hash; the last four values repeat the edges 0, 1, 9 and 11.
pub open spec fn perlin_grad3_of(hash: int) -> Seq<i8> {
    let h = hash % 16;
    let edge = if h < 12 {
        h
    } else if h == 12 {
        0
    } else if h == 13 {
        1
    } else if h == 14 {
        9
    } else {
        11
    };
    signed_direction_of(3, 2 - edge / 4, edge % 4)
}

/// The thirty-two directions with one component zero, by the five lowest
/// bits of the hash.
pub open spec fn perlin_grad4_of(hash: int) -> Seq<i8> {
    let h = hash % 32;
    signed_direction_of(4, 3 - h / 8, h % 8)
}

/// The eight directions of the plane: four along the axes, then the four
/// diagonals.
pub open spec fn grad2_of(index: int) -> Seq<i8> {
    let i = index % 8;
    if i < 4 {
        signed_direction_of(2, 1 - i / 2, i % 2)
    } else {
        signed_direction_of(2, 2, i - 4)
    }
}

/// The directions of space: the twelve to the edges of the cube, twice,
/// then the eight to its corners.
pub open spec fn grad3_of(index: int) -> Seq<i8> {
    let i = index % 32;
    if i < 24 {
        signed_direction_of(3, 2 - (i % 12) / 4, (i % 12) % 4)
    } else {
        signed_direction_of(3, 3, i - 24)
    }
}

/// The directions of four-space: the thirty-two with one component zero,
/// then the sixteen to the corners of the tesseract, twice.
pub open spec fn grad4_of(index: int) -> Seq<i8> {
    let i = index % 64;
    if i < 32 {
        signed_direction_of(4, i / 8, i % 8)
    } else {
        signed_direction_of(4, 4, (i - 32) % 16)
    }
}

/// Builds the direction with a zero at `zero_axis` and signs from the bits
/// of `signs`.
pub fn signed_direction<const N: usize>(zero_axis: usize, signs: usize) -> (direction: [i8; N])
    ensures
        direction@ == signed_direction_of(N as nat, zero_axis as int, signs as int),
{
    let mut direction = [0i8; N];
    let mut rest: usize = signs;
    let mut used: usize = 0;
    let mut i: usize = 0;
    while i < N
        invariant
            i <= N,
            i <= zero_axis ==> used == i,
            i > zero_axis ==> used == i - 1,
            rest == halved(signs as int, used as nat),
            forall|j: int|
                0 <= j < i ==> direction@[j] == signed_direction_of(
                    N as nat,
                    zero_axis as int,
                    signs as int,
                )[j],
        decreases N - i,
    {
        if i == zero_axis {
            direction[i] = 0;
        } else {
            if rest % 2 == 1 {
                direction[i] = -1;
            } else {
                direction[i] = 1;
            }
            rest = rest / 2;
            used += 1;
        }
        i += 1;
    }
    direction
}

/// The gradient of 1-dimensional Perlin noise for a corner's hash.
pub fn perlin_grad1(hash: usize) -> (direction: [i8; 1])
    ensures
        direction@ == perlin_grad1_of(hash as int),
{
    signed_direction(1, hash % 2)
}

/// The gradient of 2-dimensional Perlin noise for a corner's hash.
pub fn perlin_grad2(hash: usize) -> (direction: [i8; 2])
    ensures
        direction@ == perlin_grad2_of(hash as int),
{
    signed_direction(2, hash % 4)
}

/// The gradient of 3-dimensional Perlin noise for a corner's hash.
pub fn perlin_grad3(hash: usize) -> (direction: [i8; 3])
    ensures
        direction@ == perlin_grad3_of(hash as int),
{
    let h: usize = hash % 16;
    let edge: usize = if h < 12 {
        h
    } else if h == 12 {
        0
    } else if h == 13 {
        1
    } else if h == 14 {
        9
    } else {
        11
    };
    signed_direction(2 - edge / 4, edge % 4)
}

/// The gradient of 4-dimensional Perlin noise for a corner's hash.
pub fn perlin_grad4(hash: usize) -> (direction: [i8; 4])
    ensures
        direction@ == perlin_grad4_of(hash as int),
{
    let h: usize = hash % 32;
    signed_direction(3 - h / 8, h % 8)
}

/// Direction `index` of the plane's set.
pub fn grad2(index: usize) -> (direction: [i8; 2])
    ensures
        direction@ == grad2_of(index as int),
{
    let i: usize = index % 8;
    if i < 4 {
        signed_direction(1 - i / 2, i % 2)
    } else {
        signed_direction(2, i - 4)
    }
}

/// Direction `index` of the set for three dimensions.
pub fn grad3(index: usize) -> (direction: [i8; 3])
    ensures
        direction@ == grad3_of(index as int),
{
    let i: usize = index % 32;
    if i < 24 {
        signed_direction(2 - (i % 12) / 4, (i % 12) % 4)
    } else {
        signed_direction(3, i - 24)
    }
}

/// Direction `index` of the set for four dimensions.
pub fn grad4(index: usize) -> (direction: [i8; 4])
    ensures
        direction@ == grad4_of(index as int),
{
    let i: usize = index % 64;
    if i < 32 {
        signed_direction(i / 8, i % 8)
    } else {
        signed_direction(4, (i - 32) % 16)
    }
}

} // verus!
