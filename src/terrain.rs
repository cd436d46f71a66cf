//! Terrain types and the catalog of their attributes.
use vstd::prelude::*;
use crate::layout::{GroundPoint, Position};

verus! {

/// The number of terrain types: every catalog holds one entry per type.
pub const TERRAIN_COUNT: usize = 4;

/// A color as four bytes: red, green, blue and opacity.
#[derive(Clone, Copy, Debug, PartialEq, Eq, Structural)]
pub struct Rgba {
    pub r: u8,
    pub g: u8,
    pub b: u8,
    pub a: u8,
}

/// The color that marks the cell under the cursor: pure blue, opaque.
pub open spec fn spec_highlight() -> Rgba {
    Rgba { r: 0, g: 0, b: 255, a: 255 }
}

pub fn highlight() -> (r: Rgba)
    ensures
        r == spec_highlight(),
{
    Rgba { r: 0, g: 0, b: 255, a: 255 }
}

/// How a tile's material blends with what lies behind it.
#[derive(Clone, Copy, Debug, PartialEq, Eq, Structural)]
pub enum BlendMode {
    Opaque,
    Blend,
}

/// The terrain of one cell, in the catalog's fixed order.
#[derive(Clone, Copy, Debug, PartialEq, Eq, Hash, Structural)]
pub enum TileType {
    Grass,
    Dirt,
    Path,
    Water,
}

impl TileType {
    /// The position of this type in the catalog's order.
    pub open spec fn spec_index(self) -> nat {
        match self {
            TileType::Grass => 0,
            TileType::Dirt => 1,
            TileType::Path => 2,
            TileType::Water => 3,
        }
    }

    pub fn index(&self) -> (r: usize)
        ensures
            r as nat == self.spec_index(),
            r < TERRAIN_COUNT,
    {
        match self {
            TileType::Grass => 0,
            TileType::Dirt => 1,
            TileType::Path => 2,
            TileType::Water => 3,
        }
    }

    /// The type that follows this one in the fixed cyclic order Grass, Dirt,
    /// Path, Water, Grass: the type that a click gives in an editor without
    /// tools.
    pub open spec fn spec_next(self) -> TileType {
        match self {
            TileType::Grass => TileType::Dirt,
            TileType::Dirt => TileType::Path,
            TileType::Path => TileType::Water,
            TileType::Water => TileType::Grass,
        }
    }

    pub fn next(&self) -> (r: TileType)
        ensures
            r == self.spec_next(),
            r.spec_index() == (self.spec_index() + 1) % (TERRAIN_COUNT as nat),
    {
        match self {
            TileType::Grass => TileType::Dirt,
            TileType::Dirt => TileType::Path,
            TileType::Path => TileType::Water,
            TileType::Water => TileType::Grass,
        }
    }

    /// Translucent terrain is drawn blended; every other type is opaque.
    pub open spec fn spec_blend_mode(self) -> BlendMode {
        if self == TileType::Water {
            BlendMode::Blend
        } else {
            BlendMode::Opaque
        }
    }

    pub fn blend_mode(&self) -> (r: BlendMode)
        ensures
            r == self.spec_blend_mode(),
    {
        match self {
            TileType::Water => BlendMode::Blend,
            _ => BlendMode::Opaque,
        }
    }
}

/// One cell's terrain and the attributes that follow from it: the catalog's
/// color and height for its type, and its centre, half its height above the
/// ground.
#[derive(Clone, Copy, Debug, PartialEq, Eq, Structural)]
pub struct Tile {
    pub tile_type: TileType,
    pub color: Rgba,
    /// Height in thousandths of a world unit.
    pub height: u32,
    pub position: Position,
}

/// The terrain catalog: for each terrain type, its color and its height
/// (in thousandths of a world unit). A catalog covers every type and every
/// height is positive.
pub struct TileGenerator {
    tile_colors: Vec<Rgba>,
    tile_heights: Vec<u32>,
}

impl TileGenerator {
    pub closed spec fn wf(&self) -> bool {
        &&& self.tile_colors@.len() == TERRAIN_COUNT
        &&& self.tile_heights@.len() == TERRAIN_COUNT
        &&& forall|i: int| 0 <= i < TERRAIN_COUNT ==> self.tile_heights@[i] > 0
    }

    /// The color that the catalog gives to `t`.
    pub closed spec fn color_for(&self, t: TileType) -> Rgba {
        self.tile_colors@[t.spec_index() as int]
    }

    /// The height that the catalog gives to `t`.
    pub closed spec fn height_for(&self, t: TileType) -> u32 {
        self.tile_heights@[t.spec_index() as int]
    }

    /// The tile that the catalog makes for terrain `t` on ground point `p`:
    /// its centre stands half its height up, rounded down to a whole
    /// thousandth, so a tile of odd height sits half a thousandth low.
    pub open spec fn tile_for(&self, t: TileType, p: GroundPoint) -> Tile {
        Tile {
            tile_type: t,
            color: self.color_for(t),
            height: self.height_for(t),
            position: Position { x: p.x, y: (self.height_for(t) / 2) as i64, z: p.z },
        }
    }

    /// Builds a catalog from a color table and a height table, each listed in
    /// the order Grass, Dirt, Path, Water. A table that misses a type or has
    /// an entry too many, or a height of zero, is refused.
    pub fn new(tile_colors: Vec<Rgba>, tile_heights: Vec<u32>) -> (r: Option<TileGenerator>)
        ensures
            r is Some <==> (tile_colors@.len() == TERRAIN_COUNT && tile_heights@.len()
                == TERRAIN_COUNT && forall|i: int|
                0 <= i < TERRAIN_COUNT ==> tile_heights@[i] > 0),
            r matches Some(g) ==> g.wf() && forall|t: TileType|
                g.color_for(t) == tile_colors@[t.spec_index() as int] && g.height_for(t)
                    == tile_heights@[t.spec_index() as int],
    {
        if tile_colors.len() != TERRAIN_COUNT || tile_heights.len() != TERRAIN_COUNT {
            return None;
        }
        let mut i: usize = 0;
        while i < TERRAIN_COUNT
            invariant
                i <= TERRAIN_COUNT,
                tile_heights@.len() == TERRAIN_COUNT,
                forall|j: int| 0 <= j < i ==> tile_heights@[j] > 0,
            decreases TERRAIN_COUNT - i,
        {
            if tile_heights[i] == 0 {
                return None;
            }
            i = i + 1;
        }
        Some(TileGenerator { tile_colors, tile_heights })
    }

    /// The color of `t`.
    pub fn color(&self, t: TileType) -> (r: Rgba)
        requires
            self.wf(),
        ensures
            r == self.color_for(t),
    {
        self.tile_colors[t.index()]
    }

    /// The height of `t`, in thousandths of a world unit.
    pub fn height(&self, t: TileType) -> (r: u32)
        requires
            self.wf(),
        ensures
            r == self.height_for(t),
            r > 0,
    {
        self.tile_heights[t.index()]
    }

    /// The tile of terrain `t` centred over `position`, with the catalog's
    /// attributes for `t`. Its centre stands half its height up, rounded down
    /// to a whole thousandth: exact for every even height, which the standard
    /// catalog's all are.
    pub fn generate(&self, tile_type: TileType, position: &GroundPoint) -> (r: Tile)
        requires
            self.wf(),
        ensures
            r == self.tile_for(tile_type, *position),
    {
        let color = self.color(tile_type);
        let height = self.height(tile_type);
        Tile {
            tile_type,
            color,
            height,
            position: Position { x: position.x, y: (height / 2) as i64, z: position.z },
        }
    }
}

impl TileGenerator {
    /// The standard catalog: Grass, Dirt and Path are opaque; Water is fully
    /// transparent in its color and sits lowest.
    pub fn standard() -> (r: TileGenerator)
        ensures
            r.wf(),
            r.color_for(TileType::Grass) == (Rgba { r: 179, g: 202, b: 130, a: 255 }),
            r.color_for(TileType::Dirt) == (Rgba { r: 125, g: 96, b: 65, a: 255 }),
            r.color_for(TileType::Path) == (Rgba { r: 189, g: 175, b: 188, a: 255 }),
            r.color_for(TileType::Water) == (Rgba { r: 114, g: 162, b: 208, a: 0 }),
            r.height_for(TileType::Grass) == 5000,
            r.height_for(TileType::Dirt) == 4500,
            r.height_for(TileType::Path) == 5000,
            r.height_for(TileType::Water) == 4000,
    {
        let tile_colors = vec![
            Rgba { r: 179, g: 202, b: 130, a: 255 },
            Rgba { r: 125, g: 96, b: 65, a: 255 },
            Rgba { r: 189, g: 175, b: 188, a: 255 },
            Rgba { r: 114, g: 162, b: 208, a: 0 },
        ];
        let tile_heights = vec![5000u32, 4500, 5000, 4000];
        TileGenerator { tile_colors, tile_heights }
    }
}

impl Default for TileGenerator {
    /// The standard catalog: Grass, Dirt and Path are opaque; Water is fully
    /// transparent in its color and sits lowest.
    fn default() -> (r: TileGenerator)
        ensures
            r.wf(),
            r.color_for(TileType::Grass) == (Rgba { r: 179, g: 202, b: 130, a: 255 }),
            r.color_for(TileType::Dirt) == (Rgba { r: 125, g: 96, b: 65, a: 255 }),
            r.color_for(TileType::Path) == (Rgba { r: 189, g: 175, b: 188, a: 255 }),
            r.color_for(TileType::Water) == (Rgba { r: 114, g: 162, b: 208, a: 0 }),
            r.height_for(TileType::Grass) == 5000,
            r.height_for(TileType::Dirt) == 4500,
            r.height_for(TileType::Path) == 5000,
            r.height_for(TileType::Water) == 4000,
    {
        TileGenerator::standard()
    }
}

} // verus!
