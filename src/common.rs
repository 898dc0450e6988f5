use vstd::prelude::*;

verus! {

/// Initial window size, which is also its minimum size.
pub const WIDTH: i32 = 600;
pub const HEIGHT: i32 = 800;

/// Frames per second asked of the window.
pub const FRAME_RATE: u32 = 60;

/// Gap between glyphs of drawn text.
pub const SPACING: i32 = 2;

/// Point size of each of the three size classes, in order.
pub const SMALL_POINTS: i32 = 30;
pub const MEDIUM_POINTS: i32 = 45;
pub const LARGE_POINTS: i32 = 60;

/// Number of fonts the registry holds, one per size class.
pub const FONT_COUNT: usize = 3;

/// The size class of a piece of text.
#[derive(Clone, Copy, Debug, PartialEq, Eq, Structural)]
pub enum FontSize {
    Small,
    Medium,
    Large,
}

impl FontSize {
    /// Position of this class in the registry.
    pub open spec fn spec_index(self) -> int {
        match self {
            FontSize::Small => 0,
            FontSize::Medium => 1,
            FontSize::Large => 2,
        }
    }

    /// Point size bound to this class.
    pub open spec fn spec_points(self) -> int {
        match self {
            FontSize::Small => SMALL_POINTS as int,
            FontSize::Medium => MEDIUM_POINTS as int,
            FontSize::Large => LARGE_POINTS as int,
        }
    }

    pub open spec fn from_index(i: int) -> FontSize {
        if i == 0 {
            FontSize::Small
        } else if i == 1 {
            FontSize::Medium
        } else {
            FontSize::Large
        }
    }

    pub fn index(self) -> (r: usize)
        ensures
            r == self.spec_index(),
    {
        match self {
            FontSize::Small => 0,
            FontSize::Medium => 1,
            FontSize::Large => 2,
        }
    }

    pub fn points(self) -> (r: i32)
        ensures
            r == self.spec_points(),
    {
        match self {
            FontSize::Small => SMALL_POINTS,
            FontSize::Medium => MEDIUM_POINTS,
            FontSize::Large => LARGE_POINTS,
        }
    }
}

/// The loaded fonts, one per size class, owned for the life of the program.
pub struct Fonts<F> {
    fonts: Vec<F>,
}

impl<F> Fonts<F> {
    pub closed spec fn view(&self) -> Seq<F> {
        self.fonts@
    }

    pub open spec fn wf(&self) -> bool {
        self@.len() == FONT_COUNT
    }
}

/// Loads one font per size class by calling `load` with the font bytes and the
/// class's point size, smallest first. The first failure is returned as is.
pub fn init_fonts<F, E, L: FnMut(&[u8], i32) -> Result<F, E>>(data: &[u8], load: L) -> (r:
    Result<Fonts<F>, E>)
    requires
        forall|p: i32| load.requires((data, p)),
    ensures
        r matches Ok(fonts) ==> {
            &&& fonts.wf()
            &&& forall|i: int|
                0 <= i < FONT_COUNT ==> load.ensures(
                    (data, FontSize::from_index(i).spec_points() as i32),
                    Ok(#[trigger] fonts@[i]),
                )
        },
        r matches Err(e) ==> exists|i: int|
            0 <= i < FONT_COUNT && load.ensures(
                (data, #[trigger] FontSize::from_index(i).spec_points() as i32),
                Err(e),
            ),
{
    let mut loader = load;
    let mut fonts: Vec<F> = Vec::new();
    let mut i: usize = 0;
    while i < FONT_COUNT
        invariant
            i <= FONT_COUNT,
            fonts@.len() == i,
            loader == load,
            forall|p: i32| load.requires((data, p)),
            forall|j: int|
                0 <= j < i ==> load.ensures(
                    (data, FontSize::from_index(j).spec_points() as i32),
                    Ok(#[trigger] fonts@[j]),
                ),
        decreases FONT_COUNT - i,
    {
        let size = if i == 0 {
            FontSize::Small
        } else if i == 1 {
            FontSize::Medium
        } else {
            FontSize::Large
        };
        assert(size == FontSize::from_index(i as int));
        match loader(data, size.points()) {
            Ok(f) => fonts.push(f),
            Err(e) => {
                assert(exists|k: int|
                    0 <= k < FONT_COUNT && load.ensures(
                        (data, #[trigger] FontSize::from_index(k).spec_points() as i32),
                        Err(e),
                    ));
                return Err(e);
            },
        }
        i = i + 1;
    }
    Ok(Fonts { fonts })
}

/// The font of a size class together with its point size.
pub fn get_font_and_size<F>(fonts: &Fonts<F>, size: FontSize) -> (r: (&F, i32))
    requires
        fonts.wf(),
    ensures
        *r.0 == fonts@[size.spec_index()],
        r.1 == size.spec_points(),
{
    (&fonts.fonts[size.index()], size.points())
}

/// A point or an extent on the screen, in whole pixels.
#[derive(Clone, Copy, Debug, PartialEq, Eq, Structural)]
pub struct Point {
    pub x: i32,
    pub y: i32,
}

/// A position on the screen as a fraction of its size, each axis in 255ths.
pub type Pos = (u8, u8);

pub const CENTER: u8 = 127;
pub const LEFT: u8 = 0;
pub const RIGHT: u8 = 255;
pub const TOP: u8 = 0;
pub const BOTTOM: u8 = 255;

/// The pixel that `p` 255ths of `extent` falls on, rounded down.
pub open spec fn scaled(extent: i32, p: u8) -> int {
    extent as int * p as int / 255
}

proof fn lemma_scaled_bounds(extent: i32, p: u8)
    requires
        extent >= 0,
    ensures
        0 <= extent as int * p as int <= extent as int * 255,
        0 <= scaled(extent, p) <= extent,
{
    assert(0 <= extent as int * p as int <= extent as int * 255) by (nonlinear_arith)
        requires
            extent >= 0,
            p <= 255,
    ;
    assert(extent as int * p as int / 255 <= extent as int * 255 / 255) by (nonlinear_arith)
        requires
            extent as int * p as int <= extent as int * 255,
    ;
    assert(extent as int * 255 / 255 == extent as int) by (nonlinear_arith);
}

/// The pixel that a fractional position stands for on a screen of the given size.
pub fn pos_to_vec2(pos: Pos, dimensions: Point) -> (r: Point)
    requires
        dimensions.x >= 0,
        dimensions.y >= 0,
    ensures
        r.x == scaled(dimensions.x, pos.0),
        r.y == scaled(dimensions.y, pos.1),
        0 <= r.x <= dimensions.x,
        0 <= r.y <= dimensions.y,
{
    proof {
        lemma_scaled_bounds(dimensions.x, pos.0);
        lemma_scaled_bounds(dimensions.y, pos.1);
    }
    let x: i64 = dimensions.x as i64 * pos.0 as i64 / 255;
    let y: i64 = dimensions.y as i64 * pos.1 as i64 / 255;
    Point { x: x as i32, y: y as i32 }
}

/// A key pressed during a frame. Only Enter has a meaning here.
#[derive(Clone, Copy, Debug, PartialEq, Eq, Structural)]
pub enum Key {
    Enter,
    Other(u32),
}

/// What the player did during one frame.
pub struct Input {
    pub clicked: bool,
    pub keys: Vec<Key>,
}

impl Input {
    /// The input asks for the other screen: a click, or Enter among the keys.
    pub open spec fn spec_triggered(&self) -> bool {
        self.clicked || self.keys@.contains(Key::Enter)
    }

    pub fn triggered(&self) -> (r: bool)
        ensures
            r == self.spec_triggered(),
    {
        if self.clicked {
            return true;
        }
        let mut i: usize = 0;
        while i < self.keys.len()
            invariant
                i <= self.keys@.len(),
                forall|j: int| 0 <= j < i ==> self.keys@[j] != Key::Enter,
            decreases self.keys@.len() - i,
        {
            if self.keys[i] == Key::Enter {
                assert(self.keys@[i as int] == Key::Enter);
                return true;
            }
            i = i + 1;
        }
        false
    }
}

/// Moving a coordinate by an offset along its axis.
pub trait Reposition: Sized {
    /// The coordinate moved by `by`, forward or backward; `None` where it leaves the type's range.
    spec fn shifted(self, by: Self, forward: bool) -> Option<Self>;

    fn up(self, by: Self) -> (r: Self)
        requires
            Self::shifted(self, by, false) is Some,
        ensures
            Self::shifted(self, by, false) == Some(r),
    ;

    fn down(self, by: Self) -> (r: Self)
        requires
            Self::shifted(self, by, true) is Some,
        ensures
            Self::shifted(self, by, true) == Some(r),
    ;

    fn left(self, by: Self) -> (r: Self)
        requires
            Self::shifted(self, by, false) is Some,
        ensures
            Self::shifted(self, by, false) == Some(r),
    ;

    fn right(self, by: Self) -> (r: Self)
        requires
            Self::shifted(self, by, true) is Some,
        ensures
            Self::shifted(self, by, true) == Some(r),
    ;
}

impl Reposition for u8 {
    open spec fn shifted(self, by: u8, forward: bool) -> Option<u8> {
        let v: int = if forward {
            self + by
        } else {
            self - by
        };
        if 0 <= v <= 255 {
            Some(v as u8)
        } else {
            None
        }
    }

    fn up(self, by: u8) -> (r: u8) {
        self - by
    }

    fn down(self, by: u8) -> (r: u8) {
        self + by
    }

    fn left(self, by: u8) -> (r: u8) {
        self - by
    }

    fn right(self, by: u8) -> (r: u8) {
        self + by
    }
}

} // verus!
