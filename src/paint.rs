//! Painting: a click with a tool selected gives the picked cell the tool's
//! terrain.
use vstd::prelude::*;
use crate::grid::TileGrid;
use crate::hover::TileCommand;
use crate::terrain::{Tile, TileType};
use crate::tools::ToolModeState;

verus! {

/// The cell and terrain that a frame paints: only on a click, with a tool
/// selected, over a cell of the grid.
pub open spec fn paint_target(
    tool: ToolModeState,
    commit: bool,
    picked: Option<usize>,
    count: nat,
) -> Option<(usize, TileType)> {
    match (commit, tool.spec_terrain(), picked) {
        (true, Some(t), Some(c)) => if c < count {
            Some((c, t))
        } else {
            None
        },
        _ => None,
    }
}

/// The tiles after the frame's painting.
pub open spec fn painted_tiles(
    grid: TileGrid,
    tool: ToolModeState,
    commit: bool,
    picked: Option<usize>,
) -> Seq<Tile> {
    match paint_target(tool, commit, picked, grid.tiles().len()) {
        Some((c, t)) => grid.tiles().update(c as int, grid.retyped(c as int, t)),
        None => grid.tiles(),
    }
}

/// The commands of the frame's painting: the painted cell is redrawn from its
/// new tile, then shows its new color.
pub open spec fn paint_commands(
    grid: TileGrid,
    tool: ToolModeState,
    commit: bool,
    picked: Option<usize>,
) -> Seq<TileCommand> {
    match paint_target(tool, commit, picked, grid.tiles().len()) {
        Some((c, t)) => {
            let tile = grid.retyped(c as int, t);
            seq![
                TileCommand::Reshape { cell: c, tile: tile },
                TileCommand::SetColor { cell: c, color: tile.color },
            ]
        },
        None => Seq::empty(),
    }
}

/// Takes one frame's click: with a tool selected and a click on a cell, the
/// cell takes the tool's terrain, with all of that terrain's attributes.
/// Without a click, without a tool, or off the grid, nothing changes.
/// Returns the commands that redraw the cell and show its new color.
pub fn handle_click(
    grid: &mut TileGrid,
    tool: ToolModeState,
    commit: bool,
    picked: Option<usize>,
) -> (r: Vec<TileCommand>)
    requires
        old(grid).wf(),
    ensures
        final(grid).wf(),
        final(grid).size() == old(grid).size(),
        final(grid).spec_tile_size() == old(grid).spec_tile_size(),
        final(grid).catalog() == old(grid).catalog(),
        final(grid).tiles() == painted_tiles(*old(grid), tool, commit, picked),
        r@ == paint_commands(*old(grid), tool, commit, picked),
{
    let mut cmds: Vec<TileCommand> = Vec::new();
    if !commit {
        return cmds;
    }
    let tile_type = match tool.terrain() {
        Some(t) => t,
        None => return cmds,
    };
    let cell = match picked {
        Some(c) => c,
        None => return cmds,
    };
    match grid.set_terrain(cell, tile_type) {
        Some(tile) => {
            cmds.push(TileCommand::Reshape { cell, tile });
            cmds.push(TileCommand::SetColor { cell, color: tile.color });
            proof {
                assert(cmds@ =~= seq![
                    TileCommand::Reshape { cell: cell, tile: tile },
                    TileCommand::SetColor { cell: cell, color: tile.color },
                ]);
            }
        },
        None => {},
    }
    cmds
}

} // verus!
