use vstd::prelude::*;
use crate::draw::{Color, DrawCommand};
use crate::globals::{TILES_HEIGHT, TILE_SIZE};

verus! {

/// The mark in one cell of the board.
#[derive(Copy, Clone, Debug, PartialEq, Eq, Structural)]
pub enum TileState {
    Empty,
    Cross,
    Circle,
}

/// One cell of the board: its mark and where it lies.
#[derive(Copy, Clone, Debug)]
pub struct Tile {
    value: TileState,
    x: i8,
    y: i8,
}

/// Flat board index of the tile in `column` and `row`, counted row by row.
pub open spec fn tile_index(column: int, row: int) -> int {
    row * TILES_HEIGHT as int + column
}

/// On the board, the tiles have the indices 0 to 8, each tile its own: the
/// index of the tile in `column` and `row` is `row * 3 + column`, and two
/// tiles with one index are one tile.
pub proof fn lemma_tile_index_unique(column: int, row: int, other_column: int, other_row: int)
    requires
        0 <= column < 3,
        0 <= row < 3,
        0 <= other_column < 3,
        0 <= other_row < 3,
    ensures
        tile_index(column, row) == row * 3 + column,
        0 <= tile_index(column, row) <= 8,
        tile_index(column, row) % 3 == column,
        tile_index(column, row) / 3 == row,
        tile_index(column, row) == tile_index(other_column, other_row) ==> column == other_column
            && row == other_row,
{
}

/// What is drawn for a tile that holds `mark` in `column` and `row`.
pub open spec fn tile_drawing(mark: TileState, column: int, row: int) -> Option<DrawCommand> {
    match mark {
        TileState::Empty => None,
        TileState::Cross => Some(
            DrawCommand::Rectangle {
                color: Color::Red,
                x: (TILE_SIZE * column) as i32,
                y: (TILE_SIZE * row) as i32,
                size: TILE_SIZE,
            },
        ),
        TileState::Circle => Some(
            DrawCommand::Ellipse {
                color: Color::Red,
                x: (TILE_SIZE * column) as i32,
                y: (TILE_SIZE * row) as i32,
                size: TILE_SIZE,
            },
        ),
    }
}

impl Tile {
    /// The mark that the tile holds.
    pub closed spec fn mark(&self) -> TileState {
        self.value
    }

    /// The column of the tile.
    pub closed spec fn column(&self) -> int {
        self.x as int
    }

    /// The row of the tile.
    pub closed spec fn row(&self) -> int {
        self.y as int
    }

    /// An empty tile in column `_x` and row `_y`.
    pub fn new(_x: i8, _y: i8) -> (tile: Tile)
        ensures
            tile.mark() == TileState::Empty,
            tile.column() == _x,
            tile.row() == _y,
    {
        Tile { value: TileState::Empty, x: _x, y: _y }
    }

    /// Marks the tile if it is empty; a tile that holds a mark keeps it.
    pub fn set_value(&mut self, new_value: TileState)
        ensures
            old(self).mark() == TileState::Empty ==> final(self).mark() == new_value,
            old(self).mark() != TileState::Empty ==> final(self).mark() == old(self).mark(),
            final(self).column() == old(self).column(),
            final(self).row() == old(self).row(),
    {
        if self.value == TileState::Empty {
            self.value = new_value;
        }
    }

    /// Empties the tile.
    pub fn reset(&mut self)
        ensures
            final(self).mark() == TileState::Empty,
            final(self).column() == old(self).column(),
            final(self).row() == old(self).row(),
    {
        self.value = TileState::Empty;
    }

    /// Whether a mark can still be placed on the tile.
    pub fn can_set(&self) -> (free: bool)
        ensures
            free == (self.mark() == TileState::Empty),
    {
        self.value == TileState::Empty
    }

    /// Whether the tile holds `_inc_value`.
    pub fn is_value(&self, _inc_value: TileState) -> (same: bool)
        ensures
            same == (self.mark() == _inc_value),
    {
        self.value == _inc_value
    }

    /// What to draw for the tile: nothing while it is empty, a square for a
    /// cross and an ellipse for a circle, both in the same colour and filling
    /// the tile's place on the board.
    pub fn render(&self) -> (drawing: Option<DrawCommand>)
        ensures
            drawing == tile_drawing(self.mark(), self.column(), self.row()),
    {
        let x_position: i32 = TILE_SIZE * self.x as i32;
        let y_position: i32 = TILE_SIZE * self.y as i32;
        match self.value {
            TileState::Empty => None,
            TileState::Cross => Some(
                DrawCommand::Rectangle {
                    color: Color::Red,
                    x: x_position,
                    y: y_position,
                    size: TILE_SIZE,
                },
            ),
            TileState::Circle => Some(
                DrawCommand::Ellipse {
                    color: Color::Red,
                    x: x_position,
                    y: y_position,
                    size: TILE_SIZE,
                },
            ),
        }
    }

    /// Flat board index of the tile under a cursor in `column` and `row`.
    ///
    /// Nothing is checked: a cursor off the board gives an index off the board.
    pub fn calculate_tile_index(column: u32, row: u32) -> (index: u64)
        ensures
            index == tile_index(column as int, row as int),
    {
        let height: u64 = TILES_HEIGHT as u64;
        row as u64 * height + column as u64
    }
}

} // verus!

