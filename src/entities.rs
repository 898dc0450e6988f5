use crate::common::{pos_to_vec2, scaled, FontSize, Point, Pos};
use crate::drawing::{Color, Draw, TextCommand};
use vstd::prelude::*;

verus! {

/// Where a run of text stands relative to its anchor.
#[derive(Clone, Copy, Debug, PartialEq, Eq, Structural)]
pub enum Justify {
    /// The run starts at the anchor.
    Left,
    /// The run is centred on the anchor.
    Center,
    /// The run ends at the anchor.
    Right,
}

/// Where a run of the given width starts when justified about `anchor`: half
/// the width (rounded down to a whole pixel) left of it when centred, the
/// whole width when right-justified.
pub open spec fn justified(anchor: int, width: int, justify: Justify) -> int {
    match justify {
        Justify::Left => anchor,
        Justify::Center => anchor - width / 2,
        Justify::Right => anchor - width,
    }
}

/// Start of a run of text of measured width `width` justified about `anchor`.
pub fn justify_x(anchor: i32, width: i32, justify: Justify) -> (r: i32)
    requires
        anchor >= 0,
        width >= 0,
    ensures
        r == justified(anchor as int, width as int, justify),
{
    match justify {
        Justify::Left => anchor,
        Justify::Center => anchor - width / 2,
        Justify::Right => anchor - width,
    }
}

/// A measured width as used for placement: a negative measure counts as none.
pub open spec fn used_width(w: i32) -> int {
    if w < 0 {
        0
    } else {
        w as int
    }
}

/// `c` is the run that drawing `text` in class `size`, justified about the
/// point `pos` stands for, adds to `draw`, for some width that `measure` gave
/// for that text in that font.
pub open spec fn is_text_run<'a, F, M: Fn(&F, &String, i32) -> i32>(
    draw: &Draw<'a, F>,
    c: TextCommand<'a, F>,
    size: FontSize,
    text: Seq<char>,
    pos: Pos,
    justify: Justify,
    measure: M,
) -> bool {
    exists|s: String, w: i32|
        {
            &&& s@ == text
            &&& #[trigger] measure.ensures(
                (&draw.spec_fonts()@[size.spec_index()], &s, size.spec_points() as i32),
                w,
            )
            &&& draw.is_run(
                c,
                size,
                text,
                Point {
                    x: justified(
                        scaled(draw.spec_dimensions().x, pos.0),
                        used_width(w),
                        justify,
                    ) as i32,
                    y: scaled(draw.spec_dimensions().y, pos.1) as i32,
                },
                Color { r: 0, g: 0, b: 0, a: 255 },
            )
        }
}

/// A line of text placed at a fraction of the screen, drawn in black.
#[derive(Debug)]
pub struct Text {
    text: String,
    font_size: FontSize,
    pos: Pos,
    justify: Justify,
}

impl Text {
    pub closed spec fn spec_text(&self) -> Seq<char> {
        self.text@
    }

    pub closed spec fn spec_font_size(&self) -> FontSize {
        self.font_size
    }

    pub closed spec fn spec_pos(&self) -> Pos {
        self.pos
    }

    pub closed spec fn spec_justify(&self) -> Justify {
        self.justify
    }

    /// `self` holds exactly the given parts.
    pub open spec fn holds(
        &self,
        text: Seq<char>,
        font_size: FontSize,
        pos: Pos,
        justify: Justify,
    ) -> bool {
        &&& self.spec_text() == text
        &&& self.spec_font_size() == font_size
        &&& self.spec_pos() == pos
        &&& self.spec_justify() == justify
    }

    fn new_inner(text: &str, font_size: FontSize, x: u8, y: u8, justify: Justify) -> (r: Self)
        ensures
            r.holds(text@, font_size, (x, y), justify),
    {
        Text { text: text.to_owned(), font_size, pos: (x, y), justify }
    }

    pub fn small(text: &str, x: u8, y: u8, justify: Justify) -> (r: Self)
        ensures
            r.holds(text@, FontSize::Small, (x, y), justify),
    {
        Self::new_inner(text, FontSize::Small, x, y, justify)
    }

    pub fn medium(text: &str, x: u8, y: u8, justify: Justify) -> (r: Self)
        ensures
            r.holds(text@, FontSize::Medium, (x, y), justify),
    {
        Self::new_inner(text, FontSize::Medium, x, y, justify)
    }

    pub fn large(text: &str, x: u8, y: u8, justify: Justify) -> (r: Self)
        ensures
            r.holds(text@, FontSize::Large, (x, y), justify),
    {
        Self::new_inner(text, FontSize::Large, x, y, justify)
    }

    /// Draws the text: its anchor is the point its position stands for on the
    /// screen, and `measure` gives its width in its font for justification.
    pub fn draw<'a, F, M: Fn(&F, &String, i32) -> i32>(&self, draw: Draw<'a, F>, measure: &M) -> (r:
        Draw<'a, F>)
        requires
            draw.wf(),
            forall|f: &F, s: &String, p: i32| measure.requires((f, s, p)),
        ensures
            r.wf(),
            r.spec_fonts() == draw.spec_fonts(),
            r.spec_dimensions() == draw.spec_dimensions(),
            r.spec_commands().len() == draw.spec_commands().len() + 1,
            r.spec_commands().drop_last() == draw.spec_commands(),
            is_text_run(
                &draw,
                r.spec_commands().last(),
                self.spec_font_size(),
                self.spec_text(),
                self.spec_pos(),
                self.spec_justify(),
                *measure,
            ),
    {
        let dimensions = draw.dimensions();
        let anchor = pos_to_vec2(self.pos, dimensions);
        let width = measure(draw.font(self.font_size), &self.text, self.font_size.points());
        let used = if width < 0 {
            0
        } else {
            width
        };
        let position = Point { x: justify_x(anchor.x, used, self.justify), y: anchor.y };
        let r = match self.font_size {
            FontSize::Small => draw.small(self.text.as_str(), position, Color::black()),
            FontSize::Medium => draw.medium(self.text.as_str(), position, Color::black()),
            FontSize::Large => draw.large(self.text.as_str(), position, Color::black()),
        };
        r
    }
}

} // verus!
