use vstd::prelude::*;
use vstd::rwlock::{RwLock, RwLockPredicate};
use vstd::string::StringExecFns;

use crate::color::Color;
use crate::error::OutOfBounds;
use crate::event::Event;
use crate::text::{decimal, push_decimal};

verus! {

/// After an event on the grid is applied, its cell holds the event's color and
/// the grid keeps its size.
pub proof fn lemma_read_after_write(pixels: Seq<Color>, width: u32, height: u32, e: Event)
    requires
        pixels.len() == width * height,
        in_bounds(width, height, e.x, e.y),
    ensures
        painted(pixels, width, height, e).len() == pixels.len(),
        painted(pixels, width, height, e)[cell_index(width, e.x, e.y)] == e.color,
        forall|i: int|
            0 <= i < pixels.len() && i != cell_index(width, e.x, e.y) ==> #[trigger] painted(
                pixels,
                width,
                height,
                e,
            )[i] == pixels[i],
{
    lemma_index_in_grid(width, height, e.x, e.y);
}

/// An event off the grid leaves every cell as it was.
pub proof fn lemma_off_grid_unchanged(pixels: Seq<Color>, width: u32, height: u32, e: Event)
    requires
        !in_bounds(width, height, e.x, e.y),
    ensures
        painted(pixels, width, height, e) == pixels,
{
}

/// Applying the same event twice leaves the grid as applying it once.
pub proof fn lemma_paint_idempotent(pixels: Seq<Color>, width: u32, height: u32, e: Event)
    requires
        pixels.len() == width * height,
    ensures
        painted(painted(pixels, width, height, e), width, height, e) == painted(
            pixels,
            width,
            height,
            e,
        ),
{
    if in_bounds(width, height, e.x, e.y) {
        lemma_index_in_grid(width, height, e.x, e.y);
        assert(painted(painted(pixels, width, height, e), width, height, e) =~= painted(
            pixels,
            width,
            height,
            e,
        ));
    }
}

/// Two writers of the same cell, in either order: afterwards the cell holds
/// exactly one of their two colors, that of the one applied last.
pub proof fn lemma_same_cell_last_wins(
    pixels: Seq<Color>,
    width: u32,
    height: u32,
    a: Event,
    b: Event,
)
    requires
        pixels.len() == width * height,
        in_bounds(width, height, a.x, a.y),
        a.x == b.x,
        a.y == b.y,
    ensures
        painted(painted(pixels, width, height, a), width, height, b)[cell_index(width, a.x, a.y)]
            == b.color,
        painted(painted(pixels, width, height, b), width, height, a)[cell_index(width, a.x, a.y)]
            == a.color,
{
    lemma_index_in_grid(width, height, a.x, a.y);
}

/// A color as a JSON string: its textual tag in quotes.
pub open spec fn quoted_name(c: Color) -> Seq<char> {
    "\""@ + c.spec_name()@ + "\""@
}

/// The colors as the items of a JSON array, separated by commas.
pub open spec fn name_list(s: Seq<Color>) -> Seq<char>
    decreases s.len(),
{
    if s.len() == 0 {
        Seq::empty()
    } else if s.len() == 1 {
        quoted_name(s[0])
    } else {
        name_list(s.drop_last()) + ","@ + quoted_name(s.last())
    }
}

/// The JSON text of a grid: `{"width":W,"height":H,"pixels":[...]}`.
pub open spec fn canvas_json(width: u32, height: u32, pixels: Seq<Color>) -> Seq<char> {
    "{\"width\":"@ + decimal(width as nat) + ",\"height\":"@ + decimal(height as nat)
        + ",\"pixels\":["@ + name_list(pixels) + "]}"@
}

/// Width and height of a canvas that is made without a size.
pub const DEFAULT_SIDE: u32 = 500;

/// Whether `(x, y)` lies on a `width` by `height` grid.
pub open spec fn in_bounds(width: u32, height: u32, x: u16, y: u16) -> bool {
    (x as u32) < width && (y as u32) < height
}

/// Position of the cell `(x, y)` in the row-major order of a grid `width` cells wide.
pub open spec fn cell_index(width: u32, x: u16, y: u16) -> int {
    y * width + x
}

/// The cells of a `width` by `height` grid after the event `e` is applied:
/// the addressed cell takes the event's color; an event off the grid changes nothing.
pub open spec fn painted(pixels: Seq<Color>, width: u32, height: u32, e: Event) -> Seq<Color> {
    if in_bounds(width, height, e.x, e.y) {
        pixels.update(cell_index(width, e.x, e.y), e.color)
    } else {
        pixels
    }
}

/// A grid on which every cell is white.
pub open spec fn blank_pixels(n: nat) -> Seq<Color> {
    Seq::new(n, |i: int| Color::White)
}

proof fn lemma_index_in_grid(width: u32, height: u32, x: u16, y: u16)
    requires
        in_bounds(width, height, x, y),
    ensures
        0 <= cell_index(width, x, y) < width * height,
{
    assert((y as int) * (width as int) + (x as int) < (width as int) * (height as int)) by (nonlinear_arith)
        requires
            (x as int) < (width as int),
            (y as int) < (height as int),
    ;
    assert(0 <= (y as int) * (width as int)) by (nonlinear_arith)
        requires
            0 <= y,
            0 <= width,
    ;
}

/// The row-major index of `(x, y)`, or `None` where the cell lies off the grid.
fn locate(width: u32, height: u32, x: u16, y: u16) -> (r: Option<usize>)
    requires
        width * height <= usize::MAX,
    ensures
        r is Some <==> in_bounds(width, height, x, y),
        r is Some ==> r->0 == cell_index(width, x, y),
        r is Some ==> r->0 < width * height,
{
    if (x as u32) < width && (y as u32) < height {
        proof {
            lemma_index_in_grid(width, height, x, y);
        }
        Some(y as usize * width as usize + x as usize)
    } else {
        None
    }
}

/// A point-in-time copy of a canvas: its size and its cells in row-major order.
#[derive(Debug)]
pub struct SerializableCanvas {
    pub width: u32,
    pub height: u32,
    pub pixels: Vec<Color>,
}

impl SerializableCanvas {
    /// Every cell of the grid is present.
    pub open spec fn wf(&self) -> bool {
        self.pixels@.len() == self.width * self.height
    }

    /// A grid of the given size whose cells are all white.
    pub fn blank(width: u32, height: u32) -> (r: SerializableCanvas)
        requires
            width * height <= usize::MAX,
        ensures
            r.wf(),
            r.width == width,
            r.height == height,
            r.pixels@ == blank_pixels((width * height) as nat),
    {
        let n: usize = width as usize * height as usize;
        let mut pixels: Vec<Color> = Vec::with_capacity(n);
        let mut i: usize = 0;
        while i < n
            invariant
                i <= n,
                pixels@ == blank_pixels(i as nat),
            decreases n - i,
        {
            pixels.push(Color::White);
            i = i + 1;
            assert(pixels@ =~= blank_pixels(i as nat));
        }
        SerializableCanvas { width, height, pixels }
    }

    /// Applies an event to the grid: an event on the grid recolors its cell,
    /// one off the grid is refused and changes nothing.
    pub fn apply(&mut self, e: Event) -> (r: Result<(), OutOfBounds>)
        requires
            old(self).wf(),
        ensures
            final(self).wf(),
            final(self).width == old(self).width,
            final(self).height == old(self).height,
            final(self).pixels@ == painted(old(self).pixels@, old(self).width, old(self).height, e),
            r is Ok <==> in_bounds(old(self).width, old(self).height, e.x, e.y),
    {
        let _ = self.pixels.len();
        match locate(self.width, self.height, e.x, e.y) {
            Some(i) => {
                self.pixels.set(i, e.color);
                Ok(())
            },
            None => Err(OutOfBounds),
        }
    }

    /// The color of the cell `(x, y)`, or `None` where it lies off the grid.
    pub fn color_at(&self, x: u16, y: u16) -> (r: Option<Color>)
        requires
            self.wf(),
        ensures
            r is Some <==> in_bounds(self.width, self.height, x, y),
            r is Some ==> r->0 == self.pixels@[cell_index(self.width, x, y)],
    {
        let _ = self.pixels.len();
        match locate(self.width, self.height, x, y) {
            Some(i) => Some(self.pixels[i]),
            None => None,
        }
    }

    /// The grid as a JSON document, as the snapshot endpoint serves it.
    pub fn to_json(&self) -> (r: String)
        ensures
            r@ == canvas_json(self.width, self.height, self.pixels@),
    {
        let mut out = String::from_str("{\"width\":");
        push_decimal(&mut out, self.width);
        out.append(",\"height\":");
        push_decimal(&mut out, self.height);
        out.append(",\"pixels\":[");
        let ghost head = out@;
        let n = self.pixels.len();
        let mut i: usize = 0;
        while i < n
            invariant
                n == self.pixels@.len(),
                i <= n,
                out@ == head + name_list(self.pixels@.subrange(0, i as int)),
            decreases n - i,
        {
            if i > 0 {
                out.append(",");
            }
            out.append("\"");
            out.append(self.pixels[i].name());
            out.append("\"");
            proof {
                let s = self.pixels@.subrange(0, i + 1);
                assert(s.drop_last() =~= self.pixels@.subrange(0, i as int));
                assert(s.last() == self.pixels@[i as int]);
                assert(out@ =~= head + name_list(s));
            }
            i = i + 1;
        }
        out.append("]}");
        assert(self.pixels@.subrange(0, n as int) =~= self.pixels@);
        assert(out@ =~= canvas_json(self.width, self.height, self.pixels@));
        out
    }
}

/// What a cell of the shared canvas may hold: any color of the palette.
pub struct AnyColor;

impl RwLockPredicate<Color> for AnyColor {
    open spec fn inv(self, c: Color) -> bool {
        true
    }
}

/// The shared canvas: a fixed-size grid whose every cell has a lock of its own,
/// so that painters of different cells never wait for each other.
pub struct Canvas {
    width: u32,
    height: u32,
    cells: Vec<RwLock<Color, AnyColor>>,
}

impl Canvas {
    pub closed spec fn spec_width(&self) -> u32 {
        self.width
    }

    pub closed spec fn spec_height(&self) -> u32 {
        self.height
    }

    /// There is one cell for each position of the grid.
    pub closed spec fn wf(&self) -> bool {
        self.cells@.len() == self.width * self.height
    }

    /// A canvas of the given size whose cells are all white.
    pub fn new(width: u32, height: u32) -> (r: Canvas)
        requires
            width * height <= usize::MAX,
        ensures
            r.wf(),
            r.spec_width() == width,
            r.spec_height() == height,
    {
        let n: usize = width as usize * height as usize;
        let mut cells: Vec<RwLock<Color, AnyColor>> = Vec::with_capacity(n);
        let mut i: usize = 0;
        while i < n
            invariant
                i <= n,
                cells@.len() == i,
            decreases n - i,
        {
            cells.push(RwLock::new(Color::White, Ghost(AnyColor)));
            i = i + 1;
        }
        Canvas { width, height, cells }
    }

    pub fn width(&self) -> (r: u32)
        ensures
            r == self.spec_width(),
    {
        self.width
    }

    pub fn height(&self) -> (r: u32)
        ensures
            r == self.spec_height(),
    {
        self.height
    }

    /// Recolors the cell that the event addresses, under that cell's lock alone.
    /// An event off the grid is refused and no cell is touched.
    pub fn set_pixel(&self, e: Event) -> (r: Result<(), OutOfBounds>)
        requires
            self.wf(),
        ensures
            r is Ok <==> in_bounds(self.spec_width(), self.spec_height(), e.x, e.y),
    {
        let _ = self.cells.len();
        match locate(self.width, self.height, e.x, e.y) {
            Some(i) => {
                let (_, handle) = self.cells[i].acquire_write();
                handle.release_write(e.color);
                Ok(())
            },
            None => Err(OutOfBounds),
        }
    }

    /// Reads every cell, each under its own lock, into a grid value. The copy
    /// is not one atomic picture of the whole canvas: each cell is as it was
    /// when that cell was read.
    pub fn snapshot(&self) -> (r: SerializableCanvas)
        requires
            self.wf(),
        ensures
            r.wf(),
            r.width == self.spec_width(),
            r.height == self.spec_height(),
    {
        let n = self.cells.len();
        let mut pixels: Vec<Color> = Vec::with_capacity(n);
        let mut i: usize = 0;
        while i < n
            invariant
                n == self.cells@.len(),
                i <= n,
                pixels@.len() == i,
            decreases n - i,
        {
            let handle = self.cells[i].acquire_read();
            let c = *handle.borrow();
            handle.release_read();
            pixels.push(c);
            i = i + 1;
        }
        SerializableCanvas { width: self.width, height: self.height, pixels }
    }
}

impl Default for Canvas {
    /// A canvas of the size that a server uses when it is not told otherwise.
    fn default() -> (r: Canvas)
        ensures
            r.wf(),
            r.spec_width() == DEFAULT_SIDE,
            r.spec_height() == DEFAULT_SIDE,
    {
        Canvas::new(DEFAULT_SIDE, DEFAULT_SIDE)
    }
}

} // verus!
