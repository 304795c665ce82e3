use vstd::prelude::*;

use embedded_graphics::mono_font::iso_8859_14::FONT_4X6;
use embedded_graphics::mono_font::MonoTextStyle;
use embedded_graphics::pixelcolor::Rgb888;
use embedded_graphics::prelude::Point;
use embedded_graphics::prelude::Primitive;
use embedded_graphics::prelude::RgbColor;
use embedded_graphics::prelude::Size;
use embedded_graphics::primitives::Line;
use embedded_graphics::primitives::PrimitiveStyle;
use embedded_graphics::primitives::PrimitiveStyleBuilder;
use embedded_graphics::primitives::Triangle;
use embedded_graphics::text::Text;
use embedded_graphics::Drawable;
use embedded_graphics_simulator::SimulatorDisplay;
use rpi_led_panel::Canvas;
use rpi_led_panel::RGBMatrix;
use rpi_led_panel::RGBMatrixConfig;
use tinybmp::Bmp;

verus! {

#[verifier::external_type_specification]
#[verifier::external_body]
pub struct ExCanvas(Canvas);

#[verifier::external_type_specification]
#[verifier::external_body]
pub struct ExRGBMatrix(RGBMatrix);

#[verifier::external_type_specification]
#[verifier::external_body]
#[verifier::reject_recursive_types(C)]
pub struct ExSimulatorDisplay<C>(SimulatorDisplay<C>);

#[verifier::external_type_specification]
#[verifier::external_body]
pub struct ExRgb888(Rgb888);

#[verifier::external_type_specification]
#[verifier::external_body]
#[verifier::reject_recursive_types(C)]
pub struct ExBmp<'a, C>(Bmp<'a, C>);

/// Which backend the display should drive.
pub enum DisplayMode {
    Real,
    Simulated,
}

/// The live backend: a hardware framebuffer canvas with its
/// vsync-driving matrix controller, or an in-memory simulated
/// display. Exactly one variant exists for the process lifetime.
pub enum DisplayOutput {
    Real(Canvas, RGBMatrix),
    Simulator(SimulatorDisplay<Rgb888>),
}

/// A color on the panel.
#[derive(Clone, Copy, Debug, PartialEq, Eq, Structural)]
pub struct Rgb {
    pub r: u8,
    pub g: u8,
    pub b: u8,
}

/// One drawing operation, as the display's model records it: what
/// was asked of the live backend since the last frame clear. The
/// pixels themselves live in the opaque backend; this ghost log is
/// what contracts about drawing speak of.
pub enum DrawOp {
    /// Glyph text: its characters and anchor.
    Text(Seq<char>, i32, i32),
    /// A decoded bitmap blitted with its top-left at the point.
    Bitmap(i32, i32),
    /// A stroked line: endpoints, color, stroke width.
    Line(i32, i32, i32, i32, Rgb, u32),
    /// A stroked and filled triangle: vertices and color.
    Triangle(i32, i32, i32, i32, i32, i32, Rgb),
}

/// The display surface: wraps exactly one backend and exposes a
/// backend-agnostic drawing API, so that apps never branch on the
/// backend in use.
pub struct PixelDisplay {
    pub output: DisplayOutput,
    pub rows: i32,
    pub cols: i32,
    /// The operations drawn since the last frame clear.
    pub ops: Ghost<Seq<DrawOp>>,
}

/// What every drawing call leaves untouched: the panel's shape and
/// the kind of backend that is live.
pub open spec fn same_shape(a: PixelDisplay, b: PixelDisplay) -> bool {
    &&& b.rows == a.rows
    &&& b.cols == a.cols
    &&& (b.output is Real <==> a.output is Real)
}

/// Relies on rpi_led_panel::RGBMatrix::new: builds the vsync
/// controller and its first canvas for a panel of the given size;
/// returns nothing exactly when hardware initialization fails.
#[verifier::external_body]
fn matrix_new(rows: usize, cols: usize) -> (r: Option<(Canvas, RGBMatrix)>) {
    let mut config = RGBMatrixConfig::default();
    config.rows = rows;
    config.cols = cols;
    match RGBMatrix::new(config, 0) {
        Ok((matrix, canvas)) => Some((*canvas, matrix)),
        Err(_) => None,
    }
}

/// Relies on embedded_graphics_simulator::SimulatorDisplay::new:
/// builds an in-memory display of the given size, filled black.
#[verifier::external_body]
fn sim_new(rows: u32, cols: u32) -> (r: SimulatorDisplay<Rgb888>) {
    SimulatorDisplay::<Rgb888>::new(Size::new(cols, rows))
}

/// Relies on rpi_led_panel::Canvas::fill: resets every pixel of the
/// hardware canvas to black.
#[verifier::external_body]
fn canvas_fill_black(c: &mut Canvas) {
    c.fill(0, 0, 0);
}

/// Relies on embedded_graphics::DrawTarget::clear for the simulated
/// display: resets every pixel to black; its error is infallible.
#[verifier::external_body]
fn sim_clear_black(s: &mut SimulatorDisplay<Rgb888>) {
    let _ = embedded_graphics::draw_target::DrawTarget::clear(s, Rgb888::BLACK);
}

/// Relies on embedded_graphics::text::Text::draw: rasterizes the
/// string in the 4x6 glyph font, white, anchored at the point.
#[verifier::external_body]
fn canvas_draw_text(c: &mut Canvas, text_str: &str, x: i32, y: i32) {
    let style = MonoTextStyle::new(&FONT_4X6, Rgb888::WHITE);
    let _ = Text::new(text_str, Point::new(x, y), style).draw(c);
}

/// Relies on embedded_graphics::text::Text::draw, as the hardware
/// variant does, against the simulated display.
#[verifier::external_body]
fn sim_draw_text(s: &mut SimulatorDisplay<Rgb888>, text_str: &str, x: i32, y: i32) {
    let style = MonoTextStyle::new(&FONT_4X6, Rgb888::WHITE);
    let _ = Text::new(text_str, Point::new(x, y), style).draw(s);
}

/// Relies on embedded_graphics::image::Image::draw: blits the
/// decoded bitmap with its top-left corner at the point.
#[verifier::external_body]
fn canvas_draw_bmp(c: &mut Canvas, bmp: &Bmp<'_, Rgb888>, x: i32, y: i32) {
    let _ = embedded_graphics::image::Image::new(bmp, Point::new(x, y)).draw(c);
}

/// Relies on embedded_graphics::image::Image::draw, against the
/// simulated display.
#[verifier::external_body]
fn sim_draw_bmp(s: &mut SimulatorDisplay<Rgb888>, bmp: &Bmp<'_, Rgb888>, x: i32, y: i32) {
    let _ = embedded_graphics::image::Image::new(bmp, Point::new(x, y)).draw(s);
}

/// Relies on embedded_graphics::primitives::Line::draw (styled):
/// strokes the segment in the given color and width.
#[verifier::external_body]
fn canvas_draw_line(c: &mut Canvas, x0: i32, y0: i32, x1: i32, y1: i32, color: Rgb, width: u32) {
    let style = PrimitiveStyle::with_stroke(Rgb888::new(color.r, color.g, color.b), width);
    let _ = Line::new(Point::new(x0, y0), Point::new(x1, y1)).into_styled(style).draw(c);
}

/// Relies on embedded_graphics::primitives::Line::draw (styled),
/// against the simulated display.
#[verifier::external_body]
fn sim_draw_line(
    s: &mut SimulatorDisplay<Rgb888>,
    x0: i32,
    y0: i32,
    x1: i32,
    y1: i32,
    color: Rgb,
    width: u32,
) {
    let style = PrimitiveStyle::with_stroke(Rgb888::new(color.r, color.g, color.b), width);
    let _ = Line::new(Point::new(x0, y0), Point::new(x1, y1)).into_styled(style).draw(s);
}

/// Relies on embedded_graphics::primitives::Triangle::draw (styled):
/// strokes and fills the triangle in one color.
#[verifier::external_body]
fn canvas_draw_triangle(
    c: &mut Canvas,
    x1: i32,
    y1: i32,
    x2: i32,
    y2: i32,
    x3: i32,
    y3: i32,
    color: Rgb,
) {
    let rgb = Rgb888::new(color.r, color.g, color.b);
    let style = PrimitiveStyleBuilder::new().stroke_color(rgb).stroke_width(1).fill_color(
        rgb,
    ).build();
    let tri = Triangle::new(Point::new(x1, y1), Point::new(x2, y2), Point::new(x3, y3));
    let _ = tri.into_styled(style).draw(c);
}

/// Relies on embedded_graphics::primitives::Triangle::draw (styled),
/// against the simulated display.
#[verifier::external_body]
fn sim_draw_triangle(
    s: &mut SimulatorDisplay<Rgb888>,
    x1: i32,
    y1: i32,
    x2: i32,
    y2: i32,
    x3: i32,
    y3: i32,
    color: Rgb,
) {
    let rgb = Rgb888::new(color.r, color.g, color.b);
    let style = PrimitiveStyleBuilder::new().stroke_color(rgb).stroke_width(1).fill_color(
        rgb,
    ).build();
    let tri = Triangle::new(Point::new(x1, y1), Point::new(x2, y2), Point::new(x3, y3));
    let _ = tri.into_styled(style).draw(s);
}

impl PixelDisplay {
    /// Selects and initializes a backend. The simulated backend
    /// always comes up; the hardware backend comes up only when the
    /// matrix controller can be opened, and a failure there is
    /// reported as `None` for the caller to treat as fatal.
    pub fn new(rows: u32, cols: u32, display_type: DisplayMode) -> (r: Option<PixelDisplay>)
        requires
            rows <= i32::MAX,
            cols <= i32::MAX,
        ensures
            (display_type is Simulated) ==> r is Some,
            match r {
                Some(d) => {
                    &&& d.rows == rows as i32
                    &&& d.cols == cols as i32
                    &&& ((d.output is Real) <==> (display_type is Real))
                    &&& d.ops@ == Seq::<DrawOp>::empty()
                },
                None => display_type is Real,
            },
    {
        match display_type {
            DisplayMode::Real => {
                match matrix_new(rows as usize, cols as usize) {
                    Some((canvas, matrix)) => Some(
                        PixelDisplay {
                            output: DisplayOutput::Real(canvas, matrix),
                            rows: rows as i32,
                            cols: cols as i32,
                            ops: Ghost(Seq::empty()),
                        },
                    ),
                    None => None,
                }
            },
            DisplayMode::Simulated => {
                let simulator = sim_new(rows, cols);
                Some(
                    PixelDisplay {
                        output: DisplayOutput::Simulator(simulator),
                        rows: rows as i32,
                        cols: cols as i32,
                        ops: Ghost(Seq::empty()),
                    },
                )
            },
        }
    }

    /// The per-frame clear: resets the live canvas to black and
    /// empties the model's log of drawn operations.
    pub fn update(&mut self)
        ensures
            same_shape(*old(self), *final(self)),
            final(self).ops@ == Seq::<DrawOp>::empty(),
    {
        self.ops = Ghost(Seq::empty());
        match &mut self.output {
            DisplayOutput::Real(c, _m) => canvas_fill_black(c),
            DisplayOutput::Simulator(s) => sim_clear_black(s),
        }
    }

    /// Draws glyph text anchored at the point, on whichever backend
    /// is live.
    pub fn draw_text(&mut self, text_str: &str, x: i32, y: i32)
        ensures
            same_shape(*old(self), *final(self)),
            final(self).ops@ == old(self).ops@.push(DrawOp::Text(text_str@, x, y)),
    {
        self.ops = Ghost(self.ops@.push(DrawOp::Text(text_str@, x, y)));
        match &mut self.output {
            DisplayOutput::Real(c, _m) => canvas_draw_text(c, text_str, x, y),
            DisplayOutput::Simulator(s) => sim_draw_text(s, text_str, x, y),
        }
    }

    /// Blits a decoded bitmap with its top-left corner at the point.
    pub fn draw_image(&mut self, bmp: &Bmp<'_, Rgb888>, x: i32, y: i32)
        ensures
            same_shape(*old(self), *final(self)),
            final(self).ops@ == old(self).ops@.push(DrawOp::Bitmap(x, y)),
    {
        self.ops = Ghost(self.ops@.push(DrawOp::Bitmap(x, y)));
        match &mut self.output {
            DisplayOutput::Real(c, _m) => canvas_draw_bmp(c, bmp, x, y),
            DisplayOutput::Simulator(s) => sim_draw_bmp(s, bmp, x, y),
        }
    }

    /// Strokes a line segment in the given color and width.
    pub fn draw_line(&mut self, x0: i32, y0: i32, x1: i32, y1: i32, color: Rgb, width: u32)
        ensures
            same_shape(*old(self), *final(self)),
            final(self).ops@ == old(self).ops@.push(DrawOp::Line(x0, y0, x1, y1, color, width)),
    {
        self.ops = Ghost(self.ops@.push(DrawOp::Line(x0, y0, x1, y1, color, width)));
        match &mut self.output {
            DisplayOutput::Real(c, _m) => canvas_draw_line(c, x0, y0, x1, y1, color, width),
            DisplayOutput::Simulator(s) => sim_draw_line(s, x0, y0, x1, y1, color, width),
        }
    }

    /// Strokes and fills a triangle in one color.
    pub fn draw_triangle(
        &mut self,
        x1: i32,
        y1: i32,
        x2: i32,
        y2: i32,
        x3: i32,
        y3: i32,
        color: Rgb,
    )
        ensures
            same_shape(*old(self), *final(self)),
            final(self).ops@ == old(self).ops@.push(
                DrawOp::Triangle(x1, y1, x2, y2, x3, y3, color),
            ),
    {
        self.ops = Ghost(self.ops@.push(DrawOp::Triangle(x1, y1, x2, y2, x3, y3, color)));
        match &mut self.output {
            DisplayOutput::Real(c, _m) => canvas_draw_triangle(c, x1, y1, x2, y2, x3, y3, color),
            DisplayOutput::Simulator(s) => sim_draw_triangle(s, x1, y1, x2, y2, x3, y3, color),
        }
    }
}

} // verus!
