//! The hover highlight: which cell lies under the cursor, and the color
//! changes that keep the rendered grid in step with it.
use vstd::prelude::*;
use crate::grid::TileGrid;
use crate::terrain::{highlight, spec_highlight, Rgba, Tile};

verus! {

/// What the renderer must do to one cell's visual.
#[derive(Clone, Copy, Debug, PartialEq, Eq, Structural)]
pub enum TileCommand {
    /// Show `color` on the cell's material.
    SetColor { cell: usize, color: Rgba },
    /// The cell's terrain changed: take its blend mode, height, position and
    /// collision volume from `tile`.
    Reshape { cell: usize, tile: Tile },
}

/// The colors on screen when the tiles are `tiles` and `hovered` carries the
/// highlight: every other cell shows its own color.
pub open spec fn overlay(tiles: Seq<Tile>, hovered: Option<usize>) -> Seq<Rgba> {
    Seq::new(
        tiles.len(),
        |i: int|
            if hovered matches Some(h) && h as int == i {
                spec_highlight()
            } else {
                tiles[i].color
            },
    )
}

/// The colors on screen after one command.
pub open spec fn apply_command(shown: Seq<Rgba>, cmd: TileCommand) -> Seq<Rgba> {
    match cmd {
        TileCommand::SetColor { cell, color } => if cell < shown.len() {
            shown.update(cell as int, color)
        } else {
            shown
        },
        TileCommand::Reshape { .. } => shown,
    }
}

/// The colors on screen after the commands, in order.
pub open spec fn apply_commands(shown: Seq<Rgba>, cmds: Seq<TileCommand>) -> Seq<Rgba>
    decreases cmds.len(),
{
    if cmds.len() == 0 {
        shown
    } else {
        apply_command(apply_commands(shown, cmds.drop_last()), cmds.last())
    }
}

/// The command that puts the highlight on cell `c`.
pub open spec fn enter_command(c: usize) -> TileCommand {
    TileCommand::SetColor { cell: c, color: spec_highlight() }
}

/// The hovered cell after a frame in which the cursor picked `picked`, on a
/// grid of `count` cells. Picking nothing clears the hover; picking a cell
/// hovers it; picking something that is not a cell changes nothing.
pub open spec fn hover_next(hovered: Option<usize>, picked: Option<usize>, count: nat) -> Option<
    usize,
> {
    match picked {
        None => None,
        Some(c) => if c < count {
            Some(c)
        } else {
            hovered
        },
    }
}

/// The cell that shows the highlight: the hovered cell while it still carries
/// it, else none.
pub open spec fn lit(hovered: Option<usize>, highlighted: bool) -> Option<usize> {
    if highlighted {
        hovered
    } else {
        None
    }
}

/// Whether the hovered cell carries the highlight after the frame's pick: a
/// newly entered cell does; a cell hovered on keeps what it had.
pub open spec fn highlighted_next(
    hovered: Option<usize>,
    highlighted: bool,
    picked: Option<usize>,
    count: nat,
) -> bool {
    let next = hover_next(hovered, picked, count);
    if next == hovered {
        highlighted
    } else {
        next is Some
    }
}

/// The commands of a hover change: the cell left behind gets its own color
/// back (as the tiles hold it now), then the new cell gets the highlight.
/// No change, no command.
pub open spec fn hover_commands(
    hovered: Option<usize>,
    picked: Option<usize>,
    tiles: Seq<Tile>,
) -> Seq<TileCommand> {
    let next = hover_next(hovered, picked, tiles.len());
    if next == hovered {
        Seq::empty()
    } else {
        let exit = match hovered {
            Some(h) => seq![TileCommand::SetColor { cell: h, color: tiles[h as int].color }],
            None => Seq::empty(),
        };
        let enter = match next {
            Some(c) => seq![enter_command(c)],
            None => Seq::empty(),
        };
        exit + enter
    }
}

pub proof fn lemma_apply_commands_append(shown: Seq<Rgba>, a: Seq<TileCommand>, b: Seq<TileCommand>)
    ensures
        apply_commands(shown, a + b) == apply_commands(apply_commands(shown, a), b),
    decreases b.len(),
{
    if b.len() == 0 {
        assert(a + b =~= a);
    } else {
        assert((a + b).drop_last() =~= a + b.drop_last());
        lemma_apply_commands_append(shown, a, b.drop_last());
    }
}

pub proof fn lemma_apply_single(shown: Seq<Rgba>, cmd: TileCommand)
    ensures
        apply_commands(shown, seq![cmd]) == apply_command(shown, cmd),
{
    assert(seq![cmd].drop_last() =~= Seq::<TileCommand>::empty());
    assert(apply_commands(shown, Seq::<TileCommand>::empty()) == shown);
}

/// The hover commands take the screen from the old overlay to the new one.
pub proof fn lemma_hover_keeps_display(
    hovered: Option<usize>,
    highlighted: bool,
    picked: Option<usize>,
    tiles: Seq<Tile>,
)
    requires
        hovered matches Some(h) ==> h < tiles.len(),
    ensures
        apply_commands(overlay(tiles, lit(hovered, highlighted)), hover_commands(hovered, picked, tiles))
            == overlay(
            tiles,
            lit(
                hover_next(hovered, picked, tiles.len()),
                highlighted_next(hovered, highlighted, picked, tiles.len()),
            ),
        ),
{
    let next = hover_next(hovered, picked, tiles.len());
    let shown = overlay(tiles, lit(hovered, highlighted));
    if next == hovered {
        assert(hover_commands(hovered, picked, tiles) =~= Seq::<TileCommand>::empty());
    } else {
        let exit = match hovered {
            Some(h) => seq![TileCommand::SetColor { cell: h, color: tiles[h as int].color }],
            None => Seq::<TileCommand>::empty(),
        };
        let enter = match next {
            Some(c) => seq![enter_command(c)],
            None => Seq::<TileCommand>::empty(),
        };
        lemma_apply_commands_append(shown, exit, enter);
        let mid = apply_commands(shown, exit);
        match hovered {
            Some(h) => {
                lemma_apply_single(shown, exit[0]);
                assert(exit == seq![exit[0]]);
                assert(mid =~= overlay(tiles, None));
            },
            None => {
                assert(mid =~= overlay(tiles, None));
            },
        }
        match next {
            Some(c) => {
                lemma_apply_single(mid, enter[0]);
                assert(enter == seq![enter[0]]);
                assert(apply_commands(mid, enter) =~= overlay(tiles, next));
            },
            None => {
                assert(apply_commands(mid, enter) =~= overlay(tiles, next));
            },
        }
    }
}

/// Tracks the one cell, if any, under the cursor, and whether it still
/// carries the highlight: a hovered cell that is painted shows its new color
/// until the hover moves on.
pub struct HoverTracker {
    pub hovered: Option<usize>,
    pub highlighted: bool,
}

impl HoverTracker {
    /// Nothing hovered.
    pub fn new() -> (r: HoverTracker)
        ensures
            r.hovered is None,
            !r.highlighted,
    {
        HoverTracker { hovered: None, highlighted: false }
    }

    /// Takes one frame's pick: leaves the old cell, restoring its color from
    /// the tile as it is now, and enters the new one. Returns the color
    /// changes, exit first.
    pub fn update(&mut self, grid: &TileGrid, picked: Option<usize>) -> (r: Vec<TileCommand>)
        requires
            grid.wf(),
            old(self).hovered matches Some(h) ==> h < grid.tiles().len(),
        ensures
            final(self).hovered == hover_next(old(self).hovered, picked, grid.tiles().len()),
            final(self).highlighted == highlighted_next(
                old(self).hovered,
                old(self).highlighted,
                picked,
                grid.tiles().len(),
            ),
            final(self).hovered matches Some(h) ==> h < grid.tiles().len(),
            r@ == hover_commands(old(self).hovered, picked, grid.tiles()),
    {
        let count = grid.len();
        let next = match picked {
            None => None,
            Some(c) => if c < count {
                Some(c)
            } else {
                self.hovered
            },
        };
        let mut cmds: Vec<TileCommand> = Vec::new();
        if next == self.hovered {
            return cmds;
        }
        match self.hovered {
            Some(h) => {
                let tile = grid.get(h);
                match tile {
                    Some(t) => cmds.push(TileCommand::SetColor { cell: h, color: t.color }),
                    None => {},
                }
            },
            None => {},
        }
        match next {
            Some(c) => cmds.push(TileCommand::SetColor { cell: c, color: highlight() }),
            None => {},
        }
        self.hovered = next;
        self.highlighted = next.is_some();
        proof {
            let exit = match old(self).hovered {
                Some(h) => seq![TileCommand::SetColor { cell: h, color: grid.tiles()[h as int].color }],
                None => Seq::<TileCommand>::empty(),
            };
            let enter = match next {
                Some(c) => seq![TileCommand::SetColor { cell: c, color: spec_highlight() }],
                None => Seq::<TileCommand>::empty(),
            };
            assert(cmds@ =~= exit + enter);
        }
        cmds
    }

    /// Cell `cell` was painted: where it is the hovered cell, it now shows its
    /// new color instead of the highlight.
    pub fn painted(&mut self, cell: usize)
        ensures
            final(self).hovered == old(self).hovered,
            final(self).highlighted == (if old(self).hovered == Some(cell) {
                false
            } else {
                old(self).highlighted
            }),
    {
        if self.hovered == Some(cell) {
            self.highlighted = false;
        }
    }
}

} // verus!
