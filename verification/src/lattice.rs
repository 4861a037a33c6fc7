//! Which lattice points surround a point: the corners of the unit cell for
//! the families on the cubic lattice, the vertices of a slab of the cell for
//! open simplex noise, and the nearest lattice points for super simplex
//! noise. Points are given relative to the cell's lowest corner.

use vstd::arithmetic::power2::lemma2_to64;
use vstd::arithmetic::power2::lemma_pow2_strictly_increases;
use vstd::arithmetic::power2::lemma_pow2_unfold;
use vstd::arithmetic::power2::pow2;
use vstd::prelude::*;

verus! {

/// `k` halved `times` times, rounding down.
pub open spec fn halved(k: int, times: nat) -> int
    decreases times,
{
    if times == 0 {
        k
    } else {
        halved(k, (times - 1) as nat) / 2
    }
}

/// Binary digit `i` of `k`, counted from the lowest.
pub open spec fn bit_of(k: int, i: int) -> int {
    halved(k, i as nat) % 2
}

/// Corner `k` of the unit cell in `n` dimensions: coordinate `i` is bit `i`
/// of `k`.
pub open spec fn unit_corner_of(n: nat, k: int) -> Seq<isize> {
    Seq::new(n, |i: int| bit_of(k, i) as isize)
}

/// The corners of the unit cell in `n` dimensions, in the order of their
/// numbers.
pub open spec fn unit_corners(n: nat) -> Seq<Seq<isize>> {
    Seq::new(pow2(n), |k: int| unit_corner_of(n, k))
}

/// The sum of a point's coordinates. For a corner of the unit cell this is
/// the number of steps from the lowest corner.
pub open spec fn level_of(point: Seq<isize>) -> int
    decreases point.len(),
{
    if point.len() == 0 {
        0
    } else {
        level_of(point.drop_last()) + point.last()
    }
}

/// Whether a point lies `level` or `level + 1` steps from the lowest corner.
pub open spec fn in_slab(level: int) -> spec_fn(Seq<isize>) -> bool {
    |point: Seq<isize>| level <= level_of(point) <= level + 1
}

/// The vertices that contribute to open simplex noise in `n` dimensions for
/// a point between the levels `level` and `level + 1` of its cell: the
/// corners on those two levels, in the order of their numbers.
pub open spec fn simplex_vertices_of(n: nat, level: int) -> Seq<Seq<isize>> {
    unit_corners(n).filter(in_slab(level))
}

/// The four lattice points that reach a point of a cell in super simplex
/// noise in the plane. The cell's diagonal from (0, 0) to (1, 1) always
/// contributes its two ends. `upper` says on which side of the other
/// diagonal the point lies, and with it `past_first` and `past_second` pick
/// the third and the fourth point from the neighbours of the cell.
pub open spec fn super_simplex_points_2d_of(
    upper: bool,
    past_first: bool,
    past_second: bool,
) -> Seq<Seq<isize>> {
    seq![
        seq![0isize, 0isize],
        seq![1isize, 1isize],
        if upper {
            if past_first {
                seq![2isize, 1isize]
            } else {
                seq![0isize, 1isize]
            }
        } else {
            if past_first {
                seq![1isize, 0isize]
            } else {
                seq![-1isize, 0isize]
            }
        },
        if upper {
            if past_second {
                seq![1isize, 2isize]
            } else {
                seq![1isize, 0isize]
            }
        } else {
            if past_second {
                seq![0isize, 1isize]
            } else {
                seq![0isize, -1isize]
            }
        },
    ]
}

/// The corner of the unit cube that begins main diagonal `j`: the lowest
/// corner for `j == 0`, else the corner one step along axis `j - 1`.
pub open spec fn diagonal_start(j: int) -> Seq<isize> {
    Seq::new(
        3,
        |i: int|
            if j == i + 1 {
                1isize
            } else {
                0isize
            },
    )
}

/// The corner opposite to `corner` in the unit cube.
pub open spec fn opposite(corner: Seq<isize>) -> Seq<isize> {
    Seq::new(corner.len(), |i: int| (1 - corner[i]) as isize)
}

/// The four lattice points that reach a point of a cube in super simplex
/// noise in space: of each main diagonal the end nearer to the point, the
/// far end where `far` says so.
pub open spec fn super_simplex_points_3d_of(far: Seq<bool>) -> Seq<Seq<isize>> {
    Seq::new(
        4,
        |j: int|
            if far[j] {
                opposite(diagonal_start(j))
            } else {
                diagonal_start(j)
            },
    )
}

/// The coordinates of each point of a sequence.
pub open spec fn views<const N: usize>(points: Seq<[isize; N]>) -> Seq<Seq<isize>> {
    Seq::new(points.len(), |j: int| points[j]@)
}

/// Every coordinate of a corner of the unit cell is 0 or 1.
pub proof fn lemma_unit_corner_coordinates(n: nat, k: int, i: int)
    requires
        0 <= k,
        0 <= i < n,
    ensures
        unit_corner_of(n, k).len() == n,
        unit_corner_of(n, k)[i] == 0 || unit_corner_of(n, k)[i] == 1,
{
    lemma_halved_nonnegative(k, i as nat);
}

/// Halving a number that is not negative leaves it so.
pub proof fn lemma_halved_nonnegative(k: int, times: nat)
    requires
        0 <= k,
    ensures
        0 <= halved(k, times) <= k,
    decreases times,
{
    if times > 0 {
        lemma_halved_nonnegative(k, (times - 1) as nat);
    }
}

/// Corner `k` of the unit cell.
pub fn unit_corner<const N: usize>(k: usize) -> (corner: [isize; N])
    ensures
        corner@ == unit_corner_of(N as nat, k as int),
{
    let mut corner = [0isize; N];
    let mut rest: usize = k;
    let mut i: usize = 0;
    while i < N
        invariant
            i <= N,
            rest == halved(k as int, i as nat),
            forall|j: int| 0 <= j < i ==> corner@[j] == unit_corner_of(N as nat, k as int)[j],
        decreases N - i,
    {
        corner[i] = (rest % 2) as isize;
        rest = rest / 2;
        i += 1;
    }
    corner
}

/// The number of steps from the lowest corner to a corner of the unit cell.
fn corner_level<const N: usize>(corner: &[isize; N]) -> (level: usize)
    requires
        forall|j: int| 0 <= j < N ==> corner@[j] == 0 || corner@[j] == 1,
    ensures
        level == level_of(corner@),
        level <= N,
{
    let mut level: usize = 0;
    let mut i: usize = 0;
    while i < N
        invariant
            i <= N,
            forall|j: int| 0 <= j < N ==> corner@[j] == 0 || corner@[j] == 1,
            level == level_of(corner@.take(i as int)),
            level <= i,
        decreases N - i,
    {
        assert(corner@.take(i + 1).drop_last() =~= corner@.take(i as int));
        if corner[i] == 1 {
            level += 1;
        }
        i += 1;
    }
    assert(corner@.take(N as int) =~= corner@);
    level
}

/// Two to the power `n`.
fn corner_count(n: usize) -> (count: usize)
    requires
        n < 32,
    ensures
        count == pow2(n as nat),
{
    let mut count: usize = 1;
    let mut i: usize = 0;
    proof {
        lemma2_to64();
    }
    while i < n
        invariant
            i <= n < 32,
            count == pow2(i as nat),
            pow2(31) == 0x8000_0000,
        decreases n - i,
    {
        proof {
            lemma_pow2_unfold((i + 1) as nat);
            if i + 1 < 31 {
                lemma_pow2_strictly_increases((i + 1) as nat, 31);
            }
        }
        count = count * 2;
        i += 1;
    }
    count
}

/// The vertices that contribute to open simplex noise for a point between
/// the levels `level` and `level + 1` of its cell.
pub fn simplex_vertices<const N: usize>(level: usize) -> (vertices: Vec<[isize; N]>)
    requires
        N < 32,
    ensures
        views(vertices@) == simplex_vertices_of(N as nat, level as int),
{
    let count = corner_count(N);
    let ghost corners = unit_corners(N as nat);
    let mut vertices: Vec<[isize; N]> = Vec::new();
    let mut k: usize = 0;
    proof {
        reveal(Seq::filter);
    }
    while k < count
        invariant
            k <= count,
            count == pow2(N as nat),
            corners == unit_corners(N as nat),
            views(vertices@) == corners.take(k as int).filter(in_slab(level as int)),
        decreases count - k,
    {
        let corner = unit_corner::<N>(k);
        proof {
            assert forall|j: int| 0 <= j < N implies corner@[j] == 0 || corner@[j] == 1 by {
                lemma_unit_corner_coordinates(N as nat, k as int, j);
            }
        }
        let steps = corner_level(&corner);
        proof {
            reveal(Seq::filter);
            assert(corners.take(k + 1).drop_last() =~= corners.take(k as int));
        }
        if steps >= level && steps - level <= 1 {
            vertices.push(corner);
        }
        k += 1;
    }
    assert(corners.take(count as int) =~= corners);
    vertices
}

/// The four lattice points for super simplex noise in the plane.
pub fn super_simplex_points_2d(upper: bool, past_first: bool, past_second: bool) -> (points: [[isize; 2]; 4])
    ensures
        views(points@) == super_simplex_points_2d_of(upper, past_first, past_second),
{
    let third: [isize; 2] = if upper {
        if past_first {
            [2, 1]
        } else {
            [0, 1]
        }
    } else {
        if past_first {
            [1, 0]
        } else {
            [-1, 0]
        }
    };
    let fourth: [isize; 2] = if upper {
        if past_second {
            [1, 2]
        } else {
            [1, 0]
        }
    } else {
        if past_second {
            [0, 1]
        } else {
            [0, -1]
        }
    };
    let points = [[0, 0], [1, 1], third, fourth];
    proof {
        let expected = super_simplex_points_2d_of(upper, past_first, past_second);
        assert forall|j: int| 0 <= j < 4 implies views(points@)[j] =~= expected[j] by {}
    }
    points
}

/// The four lattice points for super simplex noise in space.
pub fn super_simplex_points_3d(far: [bool; 4]) -> (points: [[isize; 3]; 4])
    ensures
        views(points@) == super_simplex_points_3d_of(far@),
{
    let points = [
        if far[0] {
            [1, 1, 1]
        } else {
            [0, 0, 0]
        },
        if far[1] {
            [0, 1, 1]
        } else {
            [1, 0, 0]
        },
        if far[2] {
            [1, 0, 1]
        } else {
            [0, 1, 0]
        },
        if far[3] {
            [1, 1, 0]
        } else {
            [0, 0, 1]
        },
    ];
    proof {
        let expected = super_simplex_points_3d_of(far@);
        assert forall|j: int| 0 <= j < 4 implies views(points@)[j] =~= expected[j] by {}
    }
    points
}

} // verus!
