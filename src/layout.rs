//! The regular layout of the grid: where each cell stands in the world, and
//! which cell a world point belongs to.
//!
//! Cell (row, col) of a grid of `n` cells a side, each `ts` long, is centred
//! at x = col * ts - (n * ts) / 2 and z = row * ts - (n * ts) / 2. The half
//! extent is rounded down to a whole thousandth of a world unit.
use vstd::prelude::*;
use vstd::arithmetic::div_mod::{
    lemma_div_multiples_vanish_fancy,
    lemma_fundamental_div_mod_converse,
};
use vstd::arithmetic::mul::{lemma_mul_inequality, lemma_mul_strict_inequality};

verus! {

/// The number of cells along each side of the editor's grid.
pub const GRID_SIZE: u32 = 50;

/// Configuration of the tile geometry.
#[derive(Clone, Copy, Debug, PartialEq, Eq, Structural)]
pub struct TileSettings {
    /// Edge length of one cell, in thousandths of a world unit.
    pub tile_size: u32,
}

impl TileSettings {
    /// Cells five world units wide.
    pub fn standard() -> (r: TileSettings)
        ensures
            r.tile_size == 5000,
    {
        TileSettings { tile_size: 5000 }
    }
}

impl Default for TileSettings {
    /// Cells five world units wide.
    fn default() -> (r: TileSettings)
        ensures
            r.tile_size == 5000,
    {
        TileSettings::standard()
    }
}

/// A point of the world, in thousandths of a world unit; `y` points up.
#[derive(Clone, Copy, Debug, PartialEq, Eq, Structural)]
pub struct Position {
    pub x: i64,
    pub y: i64,
    pub z: i64,
}

/// A point of the ground plane, in thousandths of a world unit.
#[derive(Clone, Copy, Debug, PartialEq, Eq, Structural)]
pub struct GroundPoint {
    pub x: i64,
    pub z: i64,
}

/// The ground point under `p`.
pub open spec fn spec_to_top_down(p: Position) -> GroundPoint {
    GroundPoint { x: p.x, z: p.z }
}

pub fn to_top_down(p: Position) -> (r: GroundPoint)
    ensures
        r == spec_to_top_down(p),
{
    GroundPoint { x: p.x, z: p.z }
}

/// A grid of `n` cells a side, each `ts` long, that this representation can
/// hold: both sizes positive, every coordinate fits an `i64` and every cell
/// index a `usize`.
pub open spec fn layout_fits(n: nat, ts: nat) -> bool {
    &&& 0 < n
    &&& 0 < ts
    &&& n * ts <= i64::MAX
    &&& n * n <= usize::MAX
}

/// Whether a grid of `grid_size` cells a side, each `tile_size` long, is one
/// that this representation can hold.
pub fn grid_fits(grid_size: u32, tile_size: u32) -> (r: bool)
    ensures
        r == layout_fits(grid_size as nat, tile_size as nat),
{
    proof {
        let (n, ts) = (grid_size as int, tile_size as int);
        assert(n * n <= 0xffff_ffff * 0xffff_ffff && n * ts <= 0xffff_ffff * 0xffff_ffff)
            by (nonlinear_arith)
            requires
                0 <= n <= 0xffff_ffff,
                0 <= ts <= 0xffff_ffff,
        ;
    }
    let area: u64 = grid_size as u64 * grid_size as u64;
    let extent: u64 = grid_size as u64 * tile_size as u64;
    grid_size > 0 && tile_size > 0 && extent <= i64::MAX as u64 && area as u128 <= usize::MAX as u128
}

/// Half the grid's extent along one axis.
pub open spec fn half_extent(n: nat, ts: nat) -> int {
    (n * ts) as int / 2
}

/// The coordinate of the centre of the `k`-th cell along one axis.
pub open spec fn axis_center(n: nat, ts: nat, k: nat) -> int {
    k * ts - half_extent(n, ts)
}

/// The centre of cell (row, col) on the ground plane.
pub open spec fn spec_cell_center(n: nat, ts: nat, row: nat, col: nat) -> GroundPoint {
    GroundPoint { x: axis_center(n, ts, col) as i64, z: axis_center(n, ts, row) as i64 }
}

/// The cell along one axis whose span [centre - ts/2, centre - ts/2 + ts)
/// holds coordinate `x`, if any.
pub open spec fn axis_cell(n: nat, ts: nat, x: int) -> Option<nat> {
    let s = x + half_extent(n, ts) + ts as int / 2;
    if 0 <= s && s / (ts as int) < n {
        Some((s / (ts as int)) as nat)
    } else {
        None
    }
}

/// The (row, col) of the cell whose footprint holds `p`, if any.
pub open spec fn spec_cell_containing(n: nat, ts: nat, p: GroundPoint) -> Option<(nat, nat)> {
    match (axis_cell(n, ts, p.z as int), axis_cell(n, ts, p.x as int)) {
        (Some(row), Some(col)) => Some((row, col)),
        _ => None,
    }
}

/// The index of cell (row, col) in row-major order.
pub open spec fn spec_cell_index(n: nat, row: nat, col: nat) -> nat {
    row * n + col
}

/// The (row, col) of the cell with row-major index `id`.
pub open spec fn spec_cell_coords(n: nat, id: nat) -> (nat, nat) {
    ((id as int / n as int) as nat, (id as int % n as int) as nat)
}

/// The centre of the cell with row-major index `id`.
pub open spec fn spec_index_center(n: nat, ts: nat, id: nat) -> GroundPoint {
    spec_cell_center(n, ts, spec_cell_coords(n, id).0, spec_cell_coords(n, id).1)
}

proof fn lemma_axis_center_bounds(n: nat, ts: nat, k: nat)
    requires
        layout_fits(n, ts),
        k < n,
    ensures
        0 <= k * ts < n * ts,
        -(i64::MAX as int) <= axis_center(n, ts, k) <= i64::MAX,
{
    lemma_mul_strict_inequality(k as int, n as int, ts as int);
}

/// Converting a cell to its centre and back along one axis gives the cell.
proof fn lemma_axis_round_trip(n: nat, ts: nat, k: nat)
    requires
        layout_fits(n, ts),
        k < n,
    ensures
        axis_cell(n, ts, axis_center(n, ts, k)) == Some(k),
{
    lemma_axis_center_bounds(n, ts, k);
    let b = ts as int / 2;
    assert(axis_center(n, ts, k) + half_extent(n, ts) + b == ts * k + b) by (nonlinear_arith)
        requires
            axis_center(n, ts, k) == k * ts - half_extent(n, ts),
    ;
    lemma_div_multiples_vanish_fancy(k as int, b, ts as int);
}

/// Round trip of the layout: for every cell of a grid that fits, the cell
/// that holds its centre is the cell itself.
pub proof fn lemma_layout_round_trip(n: nat, ts: nat, row: nat, col: nat)
    requires
        layout_fits(n, ts),
        row < n,
        col < n,
    ensures
        spec_cell_containing(n, ts, spec_cell_center(n, ts, row, col)) == Some((row, col)),
{
    lemma_axis_round_trip(n, ts, row);
    lemma_axis_round_trip(n, ts, col);
    lemma_axis_center_bounds(n, ts, row);
    lemma_axis_center_bounds(n, ts, col);
}

/// Row-major indices and (row, col) pairs correspond one to one.
pub proof fn lemma_cell_index_coords(n: nat, row: nat, col: nat)
    requires
        0 < n,
        row < n,
        col < n,
    ensures
        spec_cell_index(n, row, col) < n * n,
        spec_cell_coords(n, spec_cell_index(n, row, col)) == (row, col),
{
    lemma_fundamental_div_mod_converse(
        spec_cell_index(n, row, col) as int,
        n as int,
        row as int,
        col as int,
    );
    assert(row * n + col < n * n) by (nonlinear_arith)
        requires
            row < n,
            col < n,
    ;
}

/// The (row, col) of an index within the grid lie within the grid.
pub proof fn lemma_cell_coords_bounds(n: nat, id: nat)
    requires
        0 < n,
        id < n * n,
    ensures
        spec_cell_coords(n, id).0 < n,
        spec_cell_coords(n, id).1 < n,
        spec_cell_index(n, spec_cell_coords(n, id).0, spec_cell_coords(n, id).1) == id,
{
    let q = id as int / n as int;
    let r = id as int % n as int;
    assert(id as int == n * q + r && 0 <= r < n) by {
        vstd::arithmetic::div_mod::lemma_fundamental_div_mod(id as int, n as int);
        vstd::arithmetic::div_mod::lemma_mod_bound(id as int, n as int);
    }
    assert(0 <= q < n) by (nonlinear_arith)
        requires
            id as int == n * q + r,
            0 <= r < n,
            0 <= id < n * n,
    ;
}

/// The centre of cell (row, col).
pub fn cell_center(grid_size: u32, tile_size: u32, row: u32, col: u32) -> (r: GroundPoint)
    requires
        layout_fits(grid_size as nat, tile_size as nat),
        row < grid_size,
        col < grid_size,
    ensures
        r == spec_cell_center(grid_size as nat, tile_size as nat, row as nat, col as nat),
{
    proof {
        lemma_axis_center_bounds(grid_size as nat, tile_size as nat, row as nat);
        lemma_axis_center_bounds(grid_size as nat, tile_size as nat, col as nat);
    }
    let half: i64 = ((grid_size as u64 * tile_size as u64) / 2) as i64;
    let x: i64 = (col as u64 * tile_size as u64) as i64 - half;
    let z: i64 = (row as u64 * tile_size as u64) as i64 - half;
    GroundPoint { x, z }
}

fn axis_cell_exec(grid_size: u32, tile_size: u32, x: i64) -> (r: Option<u32>)
    requires
        layout_fits(grid_size as nat, tile_size as nat),
    ensures
        r matches Some(k) ==> axis_cell(grid_size as nat, tile_size as nat, x as int) == Some(
            k as nat,
        ),
        r is None ==> axis_cell(grid_size as nat, tile_size as nat, x as int) is None,
{
    let half: i64 = ((grid_size as u64 * tile_size as u64) / 2) as i64;
    let s: i128 = x as i128 + half as i128 + (tile_size / 2) as i128;
    if s < 0 {
        return None;
    }
    let q: u64 = (s as u64) / (tile_size as u64);
    if q < grid_size as u64 {
        Some(q as u32)
    } else {
        None
    }
}

/// The (row, col) of the cell whose footprint holds `p`, or `None` where `p`
/// lies outside the grid.
pub fn cell_containing(grid_size: u32, tile_size: u32, p: GroundPoint) -> (r: Option<(u32, u32)>)
    requires
        layout_fits(grid_size as nat, tile_size as nat),
    ensures
        r matches Some((row, col)) ==> spec_cell_containing(
            grid_size as nat,
            tile_size as nat,
            p,
        ) == Some((row as nat, col as nat)),
        r is None ==> spec_cell_containing(grid_size as nat, tile_size as nat, p) is None,
{
    let row = axis_cell_exec(grid_size, tile_size, p.z);
    let col = axis_cell_exec(grid_size, tile_size, p.x);
    match (row, col) {
        (Some(row), Some(col)) => Some((row, col)),
        _ => None,
    }
}

/// The row-major index of cell (row, col).
pub fn cell_index(grid_size: u32, row: u32, col: u32) -> (r: usize)
    requires
        layout_fits(grid_size as nat, 1),
        row < grid_size,
        col < grid_size,
    ensures
        r as nat == spec_cell_index(grid_size as nat, row as nat, col as nat),
        (r as nat) < grid_size * grid_size,
{
    proof {
        lemma_cell_index_coords(grid_size as nat, row as nat, col as nat);
    }
    row as usize * grid_size as usize + col as usize
}

/// The (row, col) of the cell with row-major index `id`.
pub fn cell_coords(grid_size: u32, id: usize) -> (r: (u32, u32))
    requires
        0 < grid_size,
        id < grid_size * grid_size,
    ensures
        (r.0 as nat, r.1 as nat) == spec_cell_coords(grid_size as nat, id as nat),
        r.0 < grid_size,
        r.1 < grid_size,
{
    proof {
        lemma_cell_coords_bounds(grid_size as nat, id as nat);
    }
    ((id / grid_size as usize) as u32, (id % grid_size as usize) as u32)
}

} // verus!
