//! The interaction engine of a tile-world editor: a square grid of terrain
//! cells, the catalog that gives each terrain its look and height, the hover
//! highlight and the tool-driven painting of cells.
//!
//! Lengths are fixed-point integers in thousandths of a world unit.
pub mod editor;
pub mod grid;
pub mod hover;
pub mod layout;
pub mod paint;
pub mod terrain;
pub mod tools;

pub use editor::TileEditor;
pub use grid::TileGrid;
pub use hover::{HoverTracker, TileCommand};
pub use layout::{cell_center, cell_containing, cell_coords, cell_index, grid_fits, to_top_down, GroundPoint, Position, TileSettings, GRID_SIZE};
pub use paint::handle_click;
pub use tools::{handle_input, ToolKeys, ToolModeState};
pub use terrain::{BlendMode, Rgba, Tile, TileGenerator, TileType, highlight, spec_highlight, TERRAIN_COUNT};
