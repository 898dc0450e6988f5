use crate::common::{get_font_and_size, FontSize, Fonts, Point, SPACING};
use vstd::prelude::*;

verus! {

/// An RGBA colour.
#[derive(Clone, Copy, Debug, PartialEq, Eq, Structural)]
pub struct Color {
    pub r: u8,
    pub g: u8,
    pub b: u8,
    pub a: u8,
}

impl Color {
    pub fn black() -> (c: Color)
        ensures
            c == (Color { r: 0, g: 0, b: 0, a: 255 }),
    {
        Color { r: 0, g: 0, b: 0, a: 255 }
    }

    pub fn white() -> (c: Color)
        ensures
            c == (Color { r: 255, g: 255, b: 255, a: 255 }),
    {
        Color { r: 255, g: 255, b: 255, a: 255 }
    }
}

/// One run of text to put on the frame: which font, where, how large.
pub struct TextCommand<'a, F> {
    pub font: &'a F,
    pub text: String,
    pub position: Point,
    pub font_size: i32,
    pub spacing: i32,
    pub color: Color,
}

/// The drawing surface of one frame. It records text runs in the order they
/// are drawn; the frame's owner puts them on screen.
pub struct Draw<'a, F> {
    fonts: &'a Fonts<F>,
    dimensions: Point,
    commands: Vec<TextCommand<'a, F>>,
}

impl<'a, F> Draw<'a, F> {
    pub closed spec fn spec_fonts(&self) -> Fonts<F> {
        *self.fonts
    }

    pub closed spec fn spec_dimensions(&self) -> Point {
        self.dimensions
    }

    /// The text runs drawn so far, oldest first.
    pub closed spec fn spec_commands(&self) -> Seq<TextCommand<'a, F>> {
        self.commands@
    }

    pub open spec fn wf(&self) -> bool {
        &&& self.spec_fonts().wf()
        &&& self.spec_dimensions().x >= 0
        &&& self.spec_dimensions().y >= 0
    }

    /// `c` is the run that drawing `text` in class `size` at `position` yields.
    pub open spec fn is_run(
        &self,
        c: TextCommand<'a, F>,
        size: FontSize,
        text: Seq<char>,
        position: Point,
        color: Color,
    ) -> bool {
        &&& *c.font == self.spec_fonts()@[size.spec_index()]
        &&& c.text@ == text
        &&& c.position == position
        &&& c.font_size == size.spec_points()
        &&& c.spacing == SPACING
        &&& c.color == color
    }

    /// `r` is this surface with one more run at its end, as `is_run` describes.
    pub open spec fn appended(
        &self,
        r: Self,
        size: FontSize,
        text: Seq<char>,
        position: Point,
        color: Color,
    ) -> bool {
        &&& r.spec_fonts() == self.spec_fonts()
        &&& r.spec_dimensions() == self.spec_dimensions()
        &&& r.spec_commands().len() == self.spec_commands().len() + 1
        &&& r.spec_commands().drop_last() == self.spec_commands()
        &&& self.is_run(r.spec_commands().last(), size, text, position, color)
    }

    /// An empty surface for a screen of the given size.
    pub fn new(fonts: &'a Fonts<F>, dimensions: Point) -> (r: Self)
        requires
            fonts.wf(),
            dimensions.x >= 0,
            dimensions.y >= 0,
        ensures
            r.wf(),
            r.spec_fonts() == *fonts,
            r.spec_dimensions() == dimensions,
            r.spec_commands().len() == 0,
    {
        Draw { fonts, dimensions, commands: Vec::new() }
    }

    /// The size of the screen being drawn on.
    pub fn dimensions(&self) -> (r: Point)
        ensures
            r == self.spec_dimensions(),
    {
        self.dimensions
    }

    /// The loaded font of a size class.
    pub fn font(&self, size: FontSize) -> (r: &'a F)
        requires
            self.wf(),
        ensures
            *r == self.spec_fonts()@[size.spec_index()],
    {
        get_font_and_size(self.fonts, size).0
    }

    /// The recorded runs, oldest first.
    pub fn into_commands(self) -> (r: Vec<TextCommand<'a, F>>)
        ensures
            r@ == self.spec_commands(),
    {
        self.commands
    }

    fn draw_text(self, size: FontSize, text: &str, position: Point, color: Color) -> (r: Self)
        requires
            self.wf(),
        ensures
            r.wf(),
            self.appended(r, size, text@, position, color),
    {
        let (font, font_size) = get_font_and_size(self.fonts, size);
        let mut commands = self.commands;
        let ghost before = commands@;
        commands.push(
            TextCommand { font, text: text.to_owned(), position, font_size, spacing: SPACING, color },
        );
        assert(commands@.drop_last() == before);
        Draw { fonts: self.fonts, dimensions: self.dimensions, commands }
    }

    pub fn small(self, text: &str, position: Point, color: Color) -> (r: Self)
        requires
            self.wf(),
        ensures
            r.wf(),
            self.appended(r, FontSize::Small, text@, position, color),
    {
        self.draw_text(FontSize::Small, text, position, color)
    }

    pub fn medium(self, text: &str, position: Point, color: Color) -> (r: Self)
        requires
            self.wf(),
        ensures
            r.wf(),
            self.appended(r, FontSize::Medium, text@, position, color),
    {
        self.draw_text(FontSize::Medium, text, position, color)
    }

    pub fn large(self, text: &str, position: Point, color: Color) -> (r: Self)
        requires
            self.wf(),
        ensures
            r.wf(),
            self.appended(r, FontSize::Large, text@, position, color),
    {
        self.draw_text(FontSize::Large, text, position, color)
    }
}

} // verus!
