use vstd::prelude::*;

verus! {

/// Edge of one tile, in pixels.
pub const TILE_SIZE: i32 = 100;

/// Number of rows on the board.
pub const TILES_HEIGHT: i8 = 3;

/// Number of columns on the board.
pub const TILES_WIDTH: i8 = 3;

/// Width of the window, in pixels: three tiles.
pub const WINDOW_WIDTH: i32 = 300;

/// Height of the window, in pixels: three tiles.
pub const WINDOW_HEIGHT: i32 = 300;

/// Size of every text that is drawn.
pub const FONT_SIZE: u32 = 12;

/// Code of the key that starts a game: `E`, as the platform numbers its keys.
pub const START_KEY: u32 = 0x65;

/// Code of the key that clears the board after a game: `R`.
pub const RESET_KEY: u32 = 0x72;

/// Code of the mouse button that places a mark: the left one.
pub const PLACE_BUTTON: u32 = 1;

} // verus!
