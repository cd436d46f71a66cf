//! The grid that owns every tile.
use vstd::prelude::*;
use crate::layout::{
    cell_center, cell_coords, layout_fits, spec_index_center,
    spec_to_top_down, to_top_down, TileSettings,
};
use crate::terrain::{Tile, TileGenerator, TileType};

verus! {

/// A square grid of tiles, `grid_size` a side, stored row by row; a cell is
/// named by its row-major index. Every tile is exactly what the catalog makes
/// for its terrain type at its cell's centre.
pub struct TileGrid {
    grid_size: u32,
    tile_size: u32,
    generator: TileGenerator,
    tiles: Vec<Tile>,
}

impl TileGrid {
    /// The number of cells along each side.
    pub closed spec fn size(&self) -> nat {
        self.grid_size as nat
    }

    /// The edge length of one cell.
    pub closed spec fn spec_tile_size(&self) -> nat {
        self.tile_size as nat
    }

    /// The catalog that the tiles' attributes come from.
    pub closed spec fn catalog(&self) -> TileGenerator {
        self.generator
    }

    /// The tiles, in row-major order.
    pub closed spec fn tiles(&self) -> Seq<Tile> {
        self.tiles@
    }

    /// Tile `id` agrees with the catalog and the layout: its attributes are the
    /// catalog's for its type, and it stands at its cell's centre.
    pub open spec fn tile_consistent(&self, id: int) -> bool {
        self.tiles()[id] == self.catalog().tile_for(
            self.tiles()[id].tile_type,
            spec_index_center(self.size(), self.spec_tile_size(), id as nat),
        )
    }

    pub open spec fn wf(&self) -> bool {
        &&& layout_fits(self.size(), self.spec_tile_size())
        &&& self.catalog().wf()
        &&& self.tiles().len() == self.size() * self.size()
        &&& forall|id: int| 0 <= id < self.tiles().len() ==> #[trigger] self.tile_consistent(id)
    }

    /// Builds a grid of `grid_size` cells a side, every one of terrain
    /// `default_type`.
    pub fn build(
        settings: &TileSettings,
        grid_size: u32,
        generator: TileGenerator,
        default_type: TileType,
    ) -> (r: TileGrid)
        requires
            layout_fits(grid_size as nat, settings.tile_size as nat),
            generator.wf(),
        ensures
            r.wf(),
            r.size() == grid_size,
            r.spec_tile_size() == settings.tile_size,
            r.catalog() == generator,
            forall|id: int| 0 <= id < r.tiles().len() ==> (#[trigger] r.tiles()[id]).tile_type
                == default_type,
    {
        let count: usize = grid_size as usize * grid_size as usize;
        let mut tiles: Vec<Tile> = Vec::new();
        let mut id: usize = 0;
        while id < count
            invariant
                layout_fits(grid_size as nat, settings.tile_size as nat),
                generator.wf(),
                count == grid_size * grid_size,
                id <= count,
                tiles@.len() == id,
                forall|j: int|
                    0 <= j < id ==> #[trigger] tiles@[j] == generator.tile_for(
                        default_type,
                        spec_index_center(grid_size as nat, settings.tile_size as nat, j as nat),
                    ),
            decreases count - id,
        {
            let (row, col) = cell_coords(grid_size, id);
            let center = cell_center(grid_size, settings.tile_size, row, col);
            let tile = generator.generate(default_type, &center);
            tiles.push(tile);
            id = id + 1;
        }
        TileGrid { grid_size, tile_size: settings.tile_size, generator, tiles }
    }

    /// The number of cells along each side.
    pub fn grid_size(&self) -> (r: u32)
        ensures
            r == self.size(),
    {
        self.grid_size
    }

    /// The edge length of one cell, in thousandths of a world unit.
    pub fn tile_size(&self) -> (r: u32)
        ensures
            r == self.spec_tile_size(),
    {
        self.tile_size
    }

    /// The number of cells.
    pub fn len(&self) -> (r: usize)
        ensures
            r == self.tiles().len(),
    {
        self.tiles.len()
    }

    /// The catalog that the tiles' attributes come from.
    pub fn generator(&self) -> (r: &TileGenerator)
        ensures
            *r == self.catalog(),
    {
        &self.generator
    }

    /// The tile of cell `id`, or `None` where `id` names no cell of the grid.
    pub fn get(&self, id: usize) -> (r: Option<Tile>)
        ensures
            r == (if id < self.tiles().len() {
                Some(self.tiles()[id as int])
            } else {
                None
            }),
    {
        if id < self.tiles.len() {
            Some(self.tiles[id])
        } else {
            None
        }
    }

    /// The tile that cell `id` becomes when it is given terrain `t`: the
    /// catalog's tile for `t`, over the same ground point.
    pub open spec fn retyped(&self, id: int, t: TileType) -> Tile {
        self.catalog().tile_for(t, spec_to_top_down(self.tiles()[id].position))
    }

    /// Gives cell `id` terrain `t`: its type, color, height and position
    /// change together, and nothing else changes. Returns the new tile, or
    /// `None`, leaving the grid as it was, where `id` names no cell.
    pub fn set_terrain(&mut self, id: usize, t: TileType) -> (r: Option<Tile>)
        requires
            old(self).wf(),
        ensures
            final(self).wf(),
            final(self).size() == old(self).size(),
            final(self).spec_tile_size() == old(self).spec_tile_size(),
            final(self).catalog() == old(self).catalog(),
            id < old(self).tiles().len() ==> r == Some(old(self).retyped(id as int, t))
                && final(self).tiles() == old(self).tiles().update(
                id as int,
                old(self).retyped(id as int, t),
            ),
            id >= old(self).tiles().len() ==> r is None && final(self).tiles() == old(
                self,
            ).tiles(),
    {
        if id >= self.tiles.len() {
            return None;
        }
        let tile = self.generator.generate(t, &to_top_down(self.tiles[id].position));
        proof {
            assert(self.tile_consistent(id as int));
        }
        self.tiles.set(id, tile);
        proof {
            assert forall|j: int| 0 <= j < self.tiles().len() implies #[trigger] self.tile_consistent(j) by {
                if j != id {
                    assert(old(self).tile_consistent(j));
                }
            }
        }
        Some(tile)
    }
}

} // verus!
