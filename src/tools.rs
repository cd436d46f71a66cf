//! The paint tool that the user has selected.
use vstd::prelude::*;
use crate::terrain::TileType;

verus! {

/// The active paint tool: none, or the terrain that a click paints.
#[derive(Clone, Copy, Debug, PartialEq, Eq, Hash, Structural)]
pub enum ToolModeState {
    NoTool,
    Grass,
    Dirt,
    Path,
    Water,
}

/// The tool keys held down this frame.
#[derive(Clone, Copy, Debug, PartialEq, Eq, Structural)]
pub struct ToolKeys {
    pub grass: bool,
    pub dirt: bool,
    pub path: bool,
    pub water: bool,
    /// The cancel key, which puts the tool away.
    pub cancel: bool,
}

impl ToolModeState {
    /// The terrain that this tool paints; no tool paints nothing.
    pub open spec fn spec_terrain(self) -> Option<TileType> {
        match self {
            ToolModeState::NoTool => None,
            ToolModeState::Grass => Some(TileType::Grass),
            ToolModeState::Dirt => Some(TileType::Dirt),
            ToolModeState::Path => Some(TileType::Path),
            ToolModeState::Water => Some(TileType::Water),
        }
    }

    pub fn terrain(&self) -> (r: Option<TileType>)
        ensures
            r == self.spec_terrain(),
    {
        match self {
            ToolModeState::NoTool => None,
            ToolModeState::Grass => Some(TileType::Grass),
            ToolModeState::Dirt => Some(TileType::Dirt),
            ToolModeState::Path => Some(TileType::Path),
            ToolModeState::Water => Some(TileType::Water),
        }
    }
}

/// The tool that this frame's keys ask for, if it differs from `current`.
/// Each key names one tool; where several keys ask for a change, cancel wins,
/// then Water, Path, Dirt and Grass, in that order. A key that names the
/// current tool asks for nothing.
pub open spec fn spec_handle_input(current: ToolModeState, keys: ToolKeys) -> Option<ToolModeState> {
    if keys.cancel && current != ToolModeState::NoTool {
        Some(ToolModeState::NoTool)
    } else if keys.water && current != ToolModeState::Water {
        Some(ToolModeState::Water)
    } else if keys.path && current != ToolModeState::Path {
        Some(ToolModeState::Path)
    } else if keys.dirt && current != ToolModeState::Dirt {
        Some(ToolModeState::Dirt)
    } else if keys.grass && current != ToolModeState::Grass {
        Some(ToolModeState::Grass)
    } else {
        None
    }
}

/// The tool change, if any, that this frame's keys ask for.
pub fn handle_input(current: ToolModeState, keys: &ToolKeys) -> (r: Option<ToolModeState>)
    ensures
        r == spec_handle_input(current, *keys),
        r matches Some(next) ==> next != current,
{
    let mut next: Option<ToolModeState> = None;
    if keys.grass && current != ToolModeState::Grass {
        next = Some(ToolModeState::Grass);
    }
    if keys.dirt && current != ToolModeState::Dirt {
        next = Some(ToolModeState::Dirt);
    }
    if keys.path && current != ToolModeState::Path {
        next = Some(ToolModeState::Path);
    }
    if keys.water && current != ToolModeState::Water {
        next = Some(ToolModeState::Water);
    }
    if keys.cancel && current != ToolModeState::NoTool {
        next = Some(ToolModeState::NoTool);
    }
    next
}

} // verus!
