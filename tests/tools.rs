use tile_world::{handle_input, TileType, ToolKeys, ToolModeState};

fn keys(grass: bool, dirt: bool, path: bool, water: bool, cancel: bool) -> ToolKeys {
    ToolKeys { grass, dirt, path, water, cancel }
}

#[test]
fn each_key_selects_its_tool() {
    let none = ToolModeState::NoTool;
    assert_eq!(handle_input(none, &keys(true, false, false, false, false)), Some(ToolModeState::Grass));
    assert_eq!(handle_input(none, &keys(false, true, false, false, false)), Some(ToolModeState::Dirt));
    assert_eq!(handle_input(none, &keys(false, false, true, false, false)), Some(ToolModeState::Path));
    assert_eq!(handle_input(none, &keys(false, false, false, true, false)), Some(ToolModeState::Water));
    assert_eq!(
        handle_input(ToolModeState::Water, &keys(false, false, false, false, true)),
        Some(ToolModeState::NoTool)
    );
}

#[test]
fn pressing_the_current_tool_is_a_no_op() {
    assert_eq!(handle_input(ToolModeState::Dirt, &keys(false, true, false, false, false)), None);
    assert_eq!(handle_input(ToolModeState::NoTool, &keys(false, false, false, false, true)), None);
    assert_eq!(handle_input(ToolModeState::Path, &keys(false, false, false, false, false)), None);
}

#[test]
fn later_keys_win_over_earlier_ones() {
    assert_eq!(
        handle_input(ToolModeState::NoTool, &keys(true, true, false, true, false)),
        Some(ToolModeState::Water)
    );
    assert_eq!(
        handle_input(ToolModeState::Grass, &keys(true, true, true, true, true)),
        Some(ToolModeState::NoTool)
    );
    // the key of the current tool asks for nothing, so an earlier key wins
    assert_eq!(
        handle_input(ToolModeState::Dirt, &keys(true, true, false, false, false)),
        Some(ToolModeState::Grass)
    );
}

#[test]
fn tool_terrain() {
    assert_eq!(ToolModeState::NoTool.terrain(), None);
    assert_eq!(ToolModeState::Water.terrain(), Some(TileType::Water));
    assert_eq!(ToolModeState::Grass.terrain(), Some(TileType::Grass));
}
