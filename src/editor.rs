//! One frame of the editor: the hover pass, then the paint pass, over the
//! grid, the hover state and the selected tool.
use vstd::prelude::*;
use crate::grid::TileGrid;
use crate::hover::{
    apply_commands, enter_command, highlighted_next, hover_commands, hover_next, lit,
    lemma_apply_commands_append, lemma_apply_single, lemma_hover_keeps_display, overlay,
    HoverTracker, TileCommand,
};
use crate::layout::spec_to_top_down;
use crate::paint::{handle_click, paint_commands, paint_target, painted_tiles};
use crate::terrain::{Rgba, Tile, TileType};
use crate::tools::{handle_input, spec_handle_input, ToolKeys, ToolModeState};

verus! {

/// The commands of one frame: the hover changes first, then the painting.
pub open spec fn tick_commands(
    grid: TileGrid,
    hovered: Option<usize>,
    tool: ToolModeState,
    picked: Option<usize>,
    commit: bool,
) -> Seq<TileCommand> {
    hover_commands(hovered, picked, grid.tiles()) + paint_commands(grid, tool, commit, picked)
}

/// Whether the hovered cell carries the highlight after the frame: as the
/// hover pass leaves it, unless the paint pass then painted that cell.
pub open spec fn highlighted_after(
    grid: TileGrid,
    hovered: Option<usize>,
    highlighted: bool,
    tool: ToolModeState,
    picked: Option<usize>,
    commit: bool,
) -> bool {
    let count = grid.tiles().len();
    let next = hover_next(hovered, picked, count);
    match paint_target(tool, commit, picked, count) {
        Some((c, t)) => if next == Some(c) {
            false
        } else {
            highlighted_next(hovered, highlighted, picked, count)
        },
        None => highlighted_next(hovered, highlighted, picked, count),
    }
}

/// The whole editing state.
pub struct TileEditor {
    pub grid: TileGrid,
    pub hover: HoverTracker,
    pub tool: ToolModeState,
}

impl TileEditor {
    pub open spec fn wf(&self) -> bool {
        &&& self.grid.wf()
        &&& self.hover.hovered matches Some(h) ==> h < self.grid.tiles().len()
    }

    /// The colors that the rendered cells show: each cell its tile's color,
    /// but the hovered cell while it carries the highlight.
    pub open spec fn displayed(&self) -> Seq<Rgba> {
        overlay(self.grid.tiles(), lit(self.hover.hovered, self.hover.highlighted))
    }

    /// An editor over `grid`, with nothing hovered and no tool selected.
    pub fn new(grid: TileGrid) -> (r: TileEditor)
        requires
            grid.wf(),
        ensures
            r.wf(),
            r.grid == grid,
            r.hover.hovered is None,
            !r.hover.highlighted,
            r.tool == ToolModeState::NoTool,
    {
        TileEditor { grid, hover: HoverTracker::new(), tool: ToolModeState::NoTool }
    }

    /// Takes one frame's input: `picked` is what the cursor picks, if
    /// anything: a cell by its index, or, by an index past the grid, an
    /// object that is not a cell. `commit` says whether the paint button went
    /// down this frame. Runs the hover pass, then the paint pass, and returns
    /// their commands in that order. Applied to the screen as it was, the
    /// commands show the new state.
    pub fn tick(&mut self, picked: Option<usize>, commit: bool) -> (r: Vec<TileCommand>)
        requires
            old(self).wf(),
        ensures
            final(self).wf(),
            final(self).tool == old(self).tool,
            final(self).grid.size() == old(self).grid.size(),
            final(self).grid.spec_tile_size() == old(self).grid.spec_tile_size(),
            final(self).grid.catalog() == old(self).grid.catalog(),
            final(self).hover.hovered == hover_next(
                old(self).hover.hovered,
                picked,
                old(self).grid.tiles().len(),
            ),
            final(self).hover.highlighted == highlighted_after(
                old(self).grid,
                old(self).hover.hovered,
                old(self).hover.highlighted,
                old(self).tool,
                picked,
                commit,
            ),
            final(self).grid.tiles() == painted_tiles(old(self).grid, old(self).tool, commit, picked),
            r@ == tick_commands(old(self).grid, old(self).hover.hovered, old(self).tool, picked, commit),
            apply_commands(old(self).displayed(), r@) == final(self).displayed(),
    {
        proof {
            lemma_frame_keeps_display(
                self.grid,
                self.hover.hovered,
                self.hover.highlighted,
                self.tool,
                picked,
                commit,
            );
        }
        let mut cmds = self.hover.update(&self.grid, picked);
        let mut painted = handle_click(&mut self.grid, self.tool, commit, picked);
        if painted.len() > 0 {
            match picked {
                Some(c) => self.hover.painted(c),
                None => {},
            }
        }
        cmds.append(&mut painted);
        cmds
    }

    /// Takes this frame's tool keys: switches to the tool that they ask for,
    /// if any.
    pub fn handle_input(&mut self, keys: &ToolKeys)
        requires
            old(self).wf(),
        ensures
            final(self).wf(),
            final(self).grid == old(self).grid,
            final(self).hover == old(self).hover,
            final(self).tool == (match spec_handle_input(old(self).tool, *keys) {
                Some(next) => next,
                None => old(self).tool,
            }),
    {
        match handle_input(self.tool, keys) {
            Some(next) => self.tool = next,
            None => {},
        }
    }
}

/// The highlighted cell after the paint pass: a painted cell that carried the
/// highlight now shows its new color.
pub open spec fn lit_after_paint(shown_lit: Option<usize>, target: Option<(usize, TileType)>) -> Option<
    usize,
> {
    match target {
        Some((c, t)) => if shown_lit == Some(c) {
            None
        } else {
            shown_lit
        },
        None => shown_lit,
    }
}

/// The paint commands take the screen from the overlay of the old tiles to
/// the overlay of the painted ones: the painted cell shows its new color.
proof fn lemma_paint_keeps_display(
    grid: TileGrid,
    shown_lit: Option<usize>,
    tool: ToolModeState,
    commit: bool,
    picked: Option<usize>,
)
    requires
        grid.wf(),
    ensures
        apply_commands(overlay(grid.tiles(), shown_lit), paint_commands(grid, tool, commit, picked))
            == overlay(
            painted_tiles(grid, tool, commit, picked),
            lit_after_paint(shown_lit, paint_target(tool, commit, picked, grid.tiles().len())),
        ),
{
    let shown = overlay(grid.tiles(), shown_lit);
    let target = paint_target(tool, commit, picked, grid.tiles().len());
    match target {
        Some((c, t)) => {
            let tile = grid.retyped(c as int, t);
            let reshape = seq![TileCommand::Reshape { cell: c, tile: tile }];
            let set = seq![TileCommand::SetColor { cell: c, color: tile.color }];
            assert(paint_commands(grid, tool, commit, picked) =~= reshape + set);
            lemma_apply_commands_append(shown, reshape, set);
            lemma_apply_single(shown, reshape[0]);
            assert(reshape == seq![reshape[0]]);
            lemma_apply_single(shown, set[0]);
            assert(set == seq![set[0]]);
            let painted = grid.tiles().update(c as int, tile);
            assert(apply_commands(shown, set) =~= overlay(painted, lit_after_paint(shown_lit, target)));
        },
        None => {
            assert(paint_commands(grid, tool, commit, picked) =~= Seq::<TileCommand>::empty());
        },
    }
}

/// A frame's commands, applied to the screen as it showed the old state,
/// make it show the new state: every cell shows its tile's color, but the
/// hovered cell while it carries the highlight.
pub proof fn lemma_frame_keeps_display(
    grid: TileGrid,
    hovered: Option<usize>,
    highlighted: bool,
    tool: ToolModeState,
    picked: Option<usize>,
    commit: bool,
)
    requires
        grid.wf(),
        hovered matches Some(h) ==> h < grid.tiles().len(),
    ensures
        apply_commands(
            overlay(grid.tiles(), lit(hovered, highlighted)),
            tick_commands(grid, hovered, tool, picked, commit),
        ) == overlay(
            painted_tiles(grid, tool, commit, picked),
            lit(
                hover_next(hovered, picked, grid.tiles().len()),
                highlighted_after(grid, hovered, highlighted, tool, picked, commit),
            ),
        ),
{
    let count = grid.tiles().len();
    let next = hover_next(hovered, picked, count);
    let mid_lit = lit(next, highlighted_next(hovered, highlighted, picked, count));
    let shown = overlay(grid.tiles(), lit(hovered, highlighted));
    lemma_hover_keeps_display(hovered, highlighted, picked, grid.tiles());
    lemma_paint_keeps_display(grid, mid_lit, tool, commit, picked);
    lemma_apply_commands_append(
        shown,
        hover_commands(hovered, picked, grid.tiles()),
        paint_commands(grid, tool, commit, picked),
    );
    assert(lit_after_paint(mid_lit, paint_target(tool, commit, picked, count)) == lit(
        next,
        highlighted_after(grid, hovered, highlighted, tool, picked, commit),
    ));
}

/// A single highlight: after any frame, every cell but the hovered one shows
/// its tile's current color; a cell that the hover has just left shows its
/// current color, which may be one painted while it was hovered; and a cell
/// painted this frame shows its new color.
pub proof fn lemma_single_highlight(
    grid: TileGrid,
    hovered: Option<usize>,
    highlighted: bool,
    tool: ToolModeState,
    picked: Option<usize>,
    commit: bool,
)
    requires
        grid.wf(),
        hovered matches Some(h) ==> h < grid.tiles().len(),
    ensures
        ({
            let shown = apply_commands(
                overlay(grid.tiles(), lit(hovered, highlighted)),
                tick_commands(grid, hovered, tool, picked, commit),
            );
            let tiles = painted_tiles(grid, tool, commit, picked);
            let next = hover_next(hovered, picked, grid.tiles().len());
            &&& shown.len() == tiles.len()
            &&& forall|i: int|
                0 <= i < tiles.len() && next != Some(i as usize) ==> #[trigger] shown[i]
                    == tiles[i].color
            &&& (hovered matches Some(h) ==> (next != hovered ==> shown[h as int] == tiles[h as int].color))
            &&& (paint_target(tool, commit, picked, grid.tiles().len()) matches Some((c, t)) ==> shown[c as int]
                == tiles[c as int].color)
        }),
{
    lemma_frame_keeps_display(grid, hovered, highlighted, tool, picked, commit);
}

/// Hovering one cell over consecutive frames highlights it once: the first
/// frame that picks it emits its highlight, once, and every later frame that
/// picks it again emits nothing and leaves the hover as it is.
pub proof fn lemma_hover_reentry(hovered: Option<usize>, c: usize, tiles: Seq<Tile>)
    requires
        c < tiles.len(),
        hovered matches Some(h) ==> h < tiles.len(),
    ensures
        hover_next(hovered, Some(c), tiles.len()) == Some(c),
        hovered != Some(c) ==> hover_commands(hovered, Some(c), tiles).last() == enter_command(c),
        hovered != Some(c) ==> (forall|k: int|
            0 <= k < hover_commands(hovered, Some(c), tiles).len() - 1 ==> #[trigger] hover_commands(
                hovered,
                Some(c),
                tiles,
            )[k] != enter_command(c)),
        hover_next(Some(c), Some(c), tiles.len()) == Some(c),
        hover_commands(Some(c), Some(c), tiles).len() == 0,
{
}

/// Attribute consistency: in a well-formed grid every tile's color and height
/// are the catalog's for its type, and it rests on the ground, its centre half
/// its height up.
pub proof fn lemma_attribute_consistency(grid: TileGrid, id: int)
    requires
        grid.wf(),
        0 <= id < grid.tiles().len(),
    ensures
        grid.tiles()[id].color == grid.catalog().color_for(grid.tiles()[id].tile_type),
        grid.tiles()[id].height == grid.catalog().height_for(grid.tiles()[id].tile_type),
        grid.tiles()[id].position.y == grid.tiles()[id].height / 2,
{
    assert(grid.tile_consistent(id));
}

/// With no tool selected, a frame never changes any tile, click or no click.
pub proof fn lemma_no_tool_never_paints(grid: TileGrid, picked: Option<usize>, commit: bool)
    ensures
        painted_tiles(grid, ToolModeState::NoTool, commit, picked) == grid.tiles(),
{
}

/// With a tool selected, a click on cell `c` gives it the tool's terrain, with
/// the catalog's color and height for that terrain, over the same ground
/// point; every other cell keeps its tile.
pub proof fn lemma_paint_sets_terrain(grid: TileGrid, tool: ToolModeState, t: TileType, c: usize)
    requires
        grid.wf(),
        tool.spec_terrain() == Some(t),
        c < grid.tiles().len(),
    ensures
        ({
            let tiles = painted_tiles(grid, tool, true, Some(c));
            &&& tiles.len() == grid.tiles().len()
            &&& tiles[c as int].tile_type == t
            &&& tiles[c as int].color == grid.catalog().color_for(t)
            &&& tiles[c as int].height == grid.catalog().height_for(t)
            &&& spec_to_top_down(tiles[c as int].position) == spec_to_top_down(
                grid.tiles()[c as int].position,
            )
            &&& forall|j: int| 0 <= j < tiles.len() && j != c ==> #[trigger] tiles[j] == grid.tiles()[j]
        }),
{
}

/// A frame whose cursor picks nothing changes no tile, whatever the tool and
/// the click, and leaves nothing hovered.
pub proof fn lemma_miss_is_noop(
    grid: TileGrid,
    hovered: Option<usize>,
    tool: ToolModeState,
    commit: bool,
)
    ensures
        painted_tiles(grid, tool, commit, None) == grid.tiles(),
        hover_next(hovered, None, grid.tiles().len()) is None,
{
}

} // verus!
