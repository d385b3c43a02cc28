//! The draw list of a frame: every body as a solid rectangle in one colour
//! over a background cleared to another.

use vstd::prelude::*;
use crate::config::RendererConfig;
use crate::rect::Rect;

verus! {

/// A colour of four channels.
#[derive(Clone, Copy, Debug, PartialEq, Eq, Structural)]
pub struct Color {
    pub r: u8,
    pub g: u8,
    pub b: u8,
    pub a: u8,
}

impl Color {
    /// The opaque colour with the channels of `rgb`.
    pub open spec fn opaque(rgb: [u8; 3]) -> Color {
        Color { r: rgb[0], g: rgb[1], b: rgb[2], a: 255 }
    }

    /// The opaque colour with the given red, green and blue.
    pub fn rgb(r: u8, g: u8, b: u8) -> (color: Color)
        ensures
            color == (Color { r, g, b, a: 255 }),
    {
        Color { r, g, b, a: 255 }
    }
}

/// One instruction to the surface that a frame is drawn on.
#[derive(Clone, Copy, Debug, PartialEq, Eq, Structural)]
pub enum DrawCommand {
    /// Selects the colour of what follows.
    SetDrawColor(Color),
    /// Fills the whole surface with the selected colour.
    Clear,
    /// Fills the rectangle with the selected colour.
    FillRect(Rect),
}

/// Draws bodies in one colour over a background of another.
#[derive(Clone, Copy, Debug)]
pub struct Renderer {
    background_color: Color,
    object_color: Color,
}

impl Renderer {
    /// The colour that the surface is cleared to.
    pub closed spec fn background(&self) -> Color {
        self.background_color
    }

    /// The colour that bodies are filled with.
    pub closed spec fn foreground(&self) -> Color {
        self.object_color
    }

    /// The draw list of a frame that shows `objects`: the surface is cleared
    /// to the background colour, then each rectangle is filled with the
    /// object colour, in the order given.
    pub open spec fn frame_commands(&self, objects: Seq<Rect>) -> Seq<DrawCommand> {
        seq![
            DrawCommand::SetDrawColor(self.background()),
            DrawCommand::Clear,
            DrawCommand::SetDrawColor(self.foreground()),
        ] + Seq::new(objects.len(), |i: int| DrawCommand::FillRect(objects[i]))
    }

    /// A renderer with the two colours of `config`, both opaque.
    pub fn new(config: &RendererConfig) -> (renderer: Renderer)
        ensures
            renderer.background() == Color::opaque(config.background_color),
            renderer.foreground() == Color::opaque(config.object_color),
    {
        let bg = &config.background_color;
        let obj = &config.object_color;
        Renderer {
            background_color: Color::rgb(bg[0], bg[1], bg[2]),
            object_color: Color::rgb(obj[0], obj[1], obj[2]),
        }
    }

    /// The draw list of a frame that shows the bodies whose rectangles are
    /// `objects`.
    pub fn draw(&self, objects: &[Rect]) -> (commands: Vec<DrawCommand>)
        ensures
            commands@ == self.frame_commands(objects@),
    {
        let mut commands: Vec<DrawCommand> = Vec::new();
        commands.push(DrawCommand::SetDrawColor(self.background_color));
        commands.push(DrawCommand::Clear);
        commands.push(DrawCommand::SetDrawColor(self.object_color));
        let ghost head = commands@;
        let mut index: usize = 0;
        while index < objects.len()
            invariant
                index <= objects.len(),
                commands@ == head + Seq::new(
                    index as nat,
                    |i: int| DrawCommand::FillRect(objects@[i]),
                ),
            decreases objects.len() - index,
        {
            commands.push(DrawCommand::FillRect(objects[index]));
            index = index + 1;
            assert(commands@ =~= head + Seq::new(
                index as nat,
                |i: int| DrawCommand::FillRect(objects@[i]),
            ));
        }
        assert(commands@ =~= self.frame_commands(objects@));
        commands
    }
}

} // verus!
