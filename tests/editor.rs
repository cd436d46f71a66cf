use tile_world::{
    cell_index, highlight, BlendMode, Position, Rgba, TileCommand, TileEditor, TileGenerator,
    TileGrid, TileSettings, TileType, ToolKeys, ToolModeState,
};

const GRASS: Rgba = Rgba { r: 179, g: 202, b: 130, a: 255 };
const DIRT: Rgba = Rgba { r: 125, g: 96, b: 65, a: 255 };
const WATER: Rgba = Rgba { r: 114, g: 162, b: 208, a: 0 };

fn editor(grid_size: u32) -> TileEditor {
    let settings = TileSettings { tile_size: 5000 };
    let grid = TileGrid::build(&settings, grid_size, TileGenerator::standard(), TileType::Grass);
    TileEditor::new(grid)
}

fn select(ed: &mut TileEditor, tool: ToolModeState) {
    let keys = ToolKeys {
        grass: tool == ToolModeState::Grass,
        dirt: tool == ToolModeState::Dirt,
        path: tool == ToolModeState::Path,
        water: tool == ToolModeState::Water,
        cancel: tool == ToolModeState::NoTool,
    };
    ed.handle_input(&keys);
    assert_eq!(ed.tool, tool);
}

fn snapshot(grid: &TileGrid) -> Vec<tile_world::Tile> {
    (0..grid.len()).map(|i| grid.get(i).unwrap()).collect()
}

#[test]
fn build_lays_out_default_tiles() {
    let ed = editor(3);
    let grid = &ed.grid;
    assert_eq!(grid.len(), 9);
    assert_eq!(grid.grid_size(), 3);
    assert_eq!(grid.tile_size(), 5000);
    let t = grid.get(cell_index(3, 2, 0)).unwrap();
    assert_eq!(t.tile_type, TileType::Grass);
    assert_eq!(t.color, GRASS);
    assert_eq!(t.height, 5000);
    assert_eq!(t.position, Position { x: -7500, y: 2500, z: 2500 });
    assert_eq!(grid.get(9), None);
}

#[test]
fn scenario_paint_dirt_then_hover_away() {
    let mut ed = editor(3);
    select(&mut ed, ToolModeState::Dirt);
    let before = snapshot(&ed.grid);
    let center = cell_index(3, 1, 1);
    let cmds = ed.tick(Some(center), true);
    let t = ed.grid.get(center).unwrap();
    assert_eq!(t.tile_type, TileType::Dirt);
    assert_eq!(t.height, 4500);
    assert_eq!(t.position.y, 2250);
    assert_eq!(t.position.y, t.height as i64 / 2);
    assert_eq!(t.color, DIRT);
    for id in 0..9 {
        if id != center {
            assert_eq!(ed.grid.get(id).unwrap(), before[id]);
        }
    }
    // entered, then painted: the new color replaces the highlight
    assert_eq!(
        cmds,
        vec![
            TileCommand::SetColor { cell: center, color: highlight() },
            TileCommand::Reshape { cell: center, tile: t },
            TileCommand::SetColor { cell: center, color: DIRT },
        ]
    );
    assert!(!ed.hover.highlighted);
    // staying on the painted cell does not highlight it again
    assert_eq!(ed.tick(Some(center), false), vec![]);
    // hover (0, 0), then move off the grid
    let corner = cell_index(3, 0, 0);
    let cmds = ed.tick(Some(corner), false);
    assert_eq!(
        cmds,
        vec![
            TileCommand::SetColor { cell: center, color: DIRT },
            TileCommand::SetColor { cell: corner, color: highlight() },
        ]
    );
    let cmds = ed.tick(None, false);
    assert_eq!(cmds, vec![TileCommand::SetColor { cell: corner, color: GRASS }]);
    assert_eq!(ed.hover.hovered, None);
}

#[test]
fn hovering_the_same_cell_highlights_once() {
    let mut ed = editor(3);
    assert_eq!(ed.tick(Some(5), false), vec![TileCommand::SetColor { cell: 5, color: highlight() }]);
    assert_eq!(ed.tick(Some(5), false), vec![]);
    assert_eq!(ed.tick(Some(5), false), vec![]);
    assert_eq!(ed.hover.hovered, Some(5));
}

#[test]
fn moving_the_hover_restores_then_highlights() {
    let mut ed = editor(3);
    ed.tick(Some(1), false);
    let cmds = ed.tick(Some(2), false);
    assert_eq!(
        cmds,
        vec![
            TileCommand::SetColor { cell: 1, color: GRASS },
            TileCommand::SetColor { cell: 2, color: highlight() },
        ]
    );
    assert_eq!(ed.hover.hovered, Some(2));
}

#[test]
fn exit_restores_the_color_painted_while_hovered() {
    let mut ed = editor(3);
    select(&mut ed, ToolModeState::Water);
    ed.tick(Some(3), false);
    let cmds = ed.tick(Some(3), true);
    let t = ed.grid.get(3).unwrap();
    assert_eq!(t.tile_type, TileType::Water);
    assert_eq!(
        cmds,
        vec![TileCommand::Reshape { cell: 3, tile: t }, TileCommand::SetColor { cell: 3, color: WATER }]
    );
    assert_eq!(t.tile_type.blend_mode(), BlendMode::Blend);
    let cmds = ed.tick(None, false);
    assert_eq!(cmds, vec![TileCommand::SetColor { cell: 3, color: WATER }]);
}

#[test]
fn no_tool_never_paints() {
    let mut ed = editor(3);
    let before = snapshot(&ed.grid);
    for id in 0..9 {
        ed.tick(Some(id), true);
    }
    assert_eq!(snapshot(&ed.grid), before);
}

#[test]
fn water_tool_paints_only_the_clicked_cell() {
    let mut ed = editor(3);
    select(&mut ed, ToolModeState::Water);
    let before = snapshot(&ed.grid);
    let cmds = ed.tick(Some(7), true);
    let t = ed.grid.get(7).unwrap();
    assert_eq!(t.tile_type, TileType::Water);
    assert_eq!(t.color, WATER);
    assert_eq!(t.height, 4000);
    assert_eq!(t.position.y, 2000);
    assert_eq!((t.position.x, t.position.z), (before[7].position.x, before[7].position.z));
    for id in 0..9 {
        if id != 7 {
            assert_eq!(ed.grid.get(id).unwrap(), before[id]);
        }
    }
    assert_eq!(
        cmds,
        vec![
            TileCommand::SetColor { cell: 7, color: highlight() },
            TileCommand::Reshape { cell: 7, tile: t },
            TileCommand::SetColor { cell: 7, color: WATER },
        ]
    );
}

#[test]
fn paint_without_click_changes_nothing() {
    let mut ed = editor(3);
    select(&mut ed, ToolModeState::Path);
    let before = snapshot(&ed.grid);
    ed.tick(Some(4), false);
    assert_eq!(snapshot(&ed.grid), before);
}

#[test]
fn miss_leaves_grid_unchanged() {
    let mut ed = editor(3);
    select(&mut ed, ToolModeState::Water);
    ed.tick(Some(2), false);
    let before = snapshot(&ed.grid);
    let cmds = ed.tick(None, true);
    assert_eq!(snapshot(&ed.grid), before);
    assert_eq!(cmds, vec![TileCommand::SetColor { cell: 2, color: GRASS }]);
    assert_eq!(ed.hover.hovered, None);
}

#[test]
fn picking_something_that_is_not_a_cell_is_a_no_op() {
    let mut ed = editor(3);
    select(&mut ed, ToolModeState::Dirt);
    ed.tick(Some(4), false);
    let before = snapshot(&ed.grid);
    let cmds = ed.tick(Some(9), true);
    assert_eq!(cmds, vec![]);
    assert_eq!(ed.hover.hovered, Some(4));
    assert_eq!(snapshot(&ed.grid), before);
}

#[test]
fn painting_a_cell_shows_its_new_color() {
    let mut ed = editor(3);
    let grid = &mut ed.grid;
    let cmds = tile_world::handle_click(grid, ToolModeState::Dirt, true, Some(8));
    let t = grid.get(8).unwrap();
    assert_eq!(
        cmds,
        vec![TileCommand::Reshape { cell: 8, tile: t }, TileCommand::SetColor { cell: 8, color: DIRT }]
    );
}

#[test]
fn set_terrain_outside_the_grid_is_refused() {
    let mut ed = editor(2);
    assert_eq!(ed.grid.set_terrain(4, TileType::Dirt), None);
    let t = ed.grid.set_terrain(3, TileType::Path).unwrap();
    assert_eq!(t.tile_type, TileType::Path);
    assert_eq!(ed.grid.get(3), Some(t));
}

#[test]
fn cancel_key_puts_the_tool_away() {
    let mut ed = editor(2);
    select(&mut ed, ToolModeState::Grass);
    select(&mut ed, ToolModeState::NoTool);
    let before = snapshot(&ed.grid);
    ed.tick(Some(0), true);
    assert_eq!(snapshot(&ed.grid), before);
}

#[test]
fn full_size_grid() {
    let grid = TileGrid::build(
        &TileSettings::default(),
        tile_world::GRID_SIZE,
        TileGenerator::default(),
        TileType::Grass,
    );
    assert_eq!(grid.len(), 2500);
    let first = grid.get(0).unwrap();
    assert_eq!(first.position, Position { x: -125000, y: 2500, z: -125000 });
    let last = grid.get(2499).unwrap();
    assert_eq!(last.position, Position { x: 120000, y: 2500, z: 120000 });
    let t = grid.get(cell_index(50, 3, 10)).unwrap();
    assert_eq!((t.position.x, t.position.z), (-75000, -110000));
    assert_eq!(grid.get(2500), None);
}

#[test]
fn painted_cell_is_highlighted_again_after_the_hover_returns() {
    let mut ed = editor(3);
    select(&mut ed, ToolModeState::Path);
    ed.tick(Some(4), true);
    assert_eq!(ed.hover.hovered, Some(4));
    assert!(!ed.hover.highlighted);
    ed.tick(Some(5), false);
    let cmds = ed.tick(Some(4), false);
    assert_eq!(
        cmds,
        vec![
            TileCommand::SetColor { cell: 5, color: GRASS },
            TileCommand::SetColor { cell: 4, color: highlight() },
        ]
    );
    assert!(ed.hover.highlighted);
}

#[test]
fn paint_with_no_hover_change_emits_only_paint_commands() {
    let mut ed = editor(3);
    select(&mut ed, ToolModeState::Dirt);
    ed.tick(Some(1), false);
    let cmds = ed.tick(Some(1), true);
    let t = ed.grid.get(1).unwrap();
    assert_eq!(
        cmds,
        vec![TileCommand::Reshape { cell: 1, tile: t }, TileCommand::SetColor { cell: 1, color: DIRT }]
    );
}
