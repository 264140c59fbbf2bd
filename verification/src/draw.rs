use vstd::prelude::*;

verus! {

/// The colours that the game draws with.
#[derive(Copy, Clone, Debug, PartialEq, Eq, Structural)]
pub enum Color {
    Green,
    Red,
    Black,
    White,
}

/// One step of drawing a frame, in pixels of the window.
///
/// A frame is a list of these, carried out in order.
#[derive(Copy, Clone, Debug, PartialEq, Eq)]
pub enum DrawCommand {
    /// Fill the whole window.
    Clear { color: Color },
    /// A filled square with its upper left corner at `(x, y)`.
    Rectangle { color: Color, x: i32, y: i32, size: i32 },
    /// A filled ellipse inscribed in the square at `(x, y)`.
    Ellipse { color: Color, x: i32, y: i32, size: i32 },
    /// A line of text starting at `(x, y)`.
    Text { color: Color, font_size: u32, text: &'static str, x: i32, y: i32 },
}

/// A frame: the commands that draw it, in order.
pub type Frame = Vec<DrawCommand>;

/// A line of text as the game draws it: black, starting at the pixel
/// `position`.
pub open spec fn text_drawing(font_size: u32, text: &'static str, position: (int, int)) -> DrawCommand {
    DrawCommand::Text {
        color: Color::Black,
        font_size,
        text,
        x: position.0 as i32,
        y: position.1 as i32,
    }
}

/// The command that draws `_text` in black, starting at the pixel `_pos`.
pub fn render_text(_font_size: u32, _text: &'static str, _pos: [i32; 2]) -> (drawing: DrawCommand)
    ensures
        drawing == text_drawing(_font_size, _text, (_pos[0] as int, _pos[1] as int)),
{
    DrawCommand::Text {
        color: Color::Black,
        font_size: _font_size,
        text: _text,
        x: _pos[0],
        y: _pos[1],
    }
}

} // verus!
