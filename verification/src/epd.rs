use vstd::prelude::*;
use core::convert::Infallible;
use embedded_hal::spi::ErrorKind;
use embedded_graphics::Drawable;
use embedded_graphics::geometry::{Point, Size};
use embedded_graphics::mono_font::MonoTextStyle;
use embedded_graphics::mono_font::ascii::FONT_5X8;
use embedded_graphics::pixelcolor::BinaryColor;
use embedded_graphics::primitives::{Circle, Primitive, PrimitiveStyle, Rectangle};
use embedded_graphics::text::{Alignment, Text, TextStyleBuilder};
use ssd1680::driver::DisplayError;
use ssd1680::graphics::{Display, Display2in13, DisplayRotation};

verus! {

/// A failure reported by the e-paper display driver.
#[verifier::external_type_specification]
#[verifier::external_body]
pub struct ExDisplayError(DisplayError);

/// Bytes in the black-and-white frame of the 122 x 250 panel: 16 bytes
/// (122 pixels rounded up to whole bytes) per row, 250 rows.
pub const FRAME_LEN: usize = 4000;

/// Errors of the e-paper display test.
#[derive(Debug)]
pub enum Error {
    SpiError(ErrorKind),
    PinError(Infallible),
    DisplayError(DisplayError),
}

impl From<ErrorKind> for Error {
    fn from(error: ErrorKind) -> (e: Self) {
        Error::SpiError(error)
    }
}

impl vstd::std_specs::convert::FromSpecImpl<ErrorKind> for Error {
    open spec fn obeys_from_spec() -> bool {
        true
    }

    open spec fn from_spec(error: ErrorKind) -> Self {
        Error::SpiError(error)
    }
}

impl From<DisplayError> for Error {
    fn from(error: DisplayError) -> (e: Self) {
        Error::DisplayError(error)
    }
}

impl vstd::std_specs::convert::FromSpecImpl<DisplayError> for Error {
    open spec fn obeys_from_spec() -> bool {
        true
    }

    open spec fn from_spec(error: DisplayError) -> Self {
        Error::DisplayError(error)
    }
}

/// An all-white black-and-white frame.
pub open spec fn white_frame() -> Seq<u8> {
    Seq::new(FRAME_LEN as nat, |i: int| 0xffu8)
}

/// Bytes per row of the frame: 122 pixels, 8 to a byte, most significant
/// bit first.
pub const ROW_BYTES: usize = 16;

/// Width of the panel in pixels.
pub const PANEL_WIDTH: usize = 122;

/// The bits of byte `col` of a row (bit `0x80 >> k` for pixel `8 * col + k`)
/// whose pixels lie in `x .. x + width` and on the panel, from bit `k` on.
pub open spec fn rectangle_row_mask(col: int, x: int, width: int, k: nat) -> u8
    decreases 8 - k,
{
    if k >= 8 {
        0
    } else {
        let px = 8 * col + k;
        let bit: u8 = if x <= px < x + width && px < PANEL_WIDTH as int {
            0x80u8 >> (k as u8)
        } else {
            0
        };
        bit | rectangle_row_mask(col, x, width, k + 1)
    }
}

/// The frame after a black filled rectangle with top-left corner `(x, y)`
/// and the given size is drawn on it, unrotated: in the rows `y .. y +
/// height`, the bits of the pixels `x .. x + width` that lie on the panel
/// are cleared; every other bit stays.
pub open spec fn filled_rectangle_drawn(frame: Seq<u8>, x: i32, y: i32, width: u32, height: u32) -> Seq<u8> {
    Seq::new(
        frame.len(),
        |i: int|
            {
                let row = i / ROW_BYTES as int;
                let col = i % ROW_BYTES as int;
                if y <= row < y + height {
                    frame[i] & !rectangle_row_mask(col, x as int, width as int, 0)
                } else {
                    frame[i]
                }
            },
    )
}

/// Whether the pixel at column `x`, row `y` of the panel is black (its bit
/// cleared) in `frame`.
pub open spec fn pixel_is_black(frame: Seq<u8>, x: int, y: int) -> bool {
    frame[y * ROW_BYTES as int + x / 8] & (0x80u8 >> ((x % 8) as u8)) == 0
}

/// `after` has the length of `before` and only pixels turned black: no bit
/// that was clear in `before` is set in `after`.
pub open spec fn only_darkens(before: Seq<u8>, after: Seq<u8>) -> bool {
    &&& after.len() == before.len()
    &&& forall|i: int| 0 <= i < after.len() ==> #[trigger] after[i] & before[i] == after[i]
}

/// A pixel that is black stays black when the frame only darkens.
pub proof fn lemma_black_stays_black(before: Seq<u8>, after: Seq<u8>, x: int, y: int)
    requires
        only_darkens(before, after),
        0 <= x < PANEL_WIDTH,
        0 <= y < 250,
        before.len() == FRAME_LEN,
        pixel_is_black(before, x, y),
    ensures
        pixel_is_black(after, x, y),
{
    let i = y * ROW_BYTES as int + x / 8;
    assert(0 <= i < FRAME_LEN) by (nonlinear_arith)
        requires
            0 <= x < 122,
            0 <= y < 250,
            i == y * 16 + x / 8,
    ;
    let m: u8 = 0x80u8 >> ((x % 8) as u8);
    let a = after[i];
    let b = before[i];
    assert(a & b == a);
    assert(b & m == 0);
    assert(a & m == 0) by (bit_vector)
        requires
            a & b == a,
            b & m == 0,
    ;
}

/// Coordinates and sizes that the drawing calls handle without overflow.
pub open spec fn drawable(v: int) -> bool {
    0 <= v <= 1000
}

/// The frame after a black circle outline with top-left corner `(x, y)`,
/// the given diameter and stroke width is drawn on it, unrotated.
pub uninterp spec fn circle_outline_drawn(frame: Seq<u8>, x: i32, y: i32, diameter: u32, stroke: u32) -> Seq<u8>;

/// The frame after `text` is drawn on it in black in the 5 x 8 font,
/// centred on `(x, y)`, unrotated.
pub uninterp spec fn centered_text_drawn(frame: Seq<u8>, text: Seq<char>, x: i32, y: i32) -> Seq<u8>;

/// `Display2in13::bw()` from ssd1680: the display buffer starts all white
/// (`0xff` bytes), `FRAME_LEN` bytes long, as its source shows.
#[verifier::external_body]
fn blank_frame() -> (frame: Vec<u8>)
    ensures
        frame@ == white_frame(),
{
    Display2in13::bw().buffer().to_vec()
}

/// Draws a black filled rectangle with embedded-graphics on an unrotated
/// ssd1680 `Display2in13` that holds `frame`. Claimed: the rectangle's
/// pixels that lie on the panel are cleared (`fill_solid` visits every
/// point of the rectangle, and the display clears the bit `0x80 >> x % 8` of
/// byte `x / 8 + 16 * y` for black and skips points off the panel), the
/// frame keeps its length, and drawing succeeds (the display's `draw_iter`
/// only returns `Ok`). Coordinates and sizes are bounded so that
/// embedded-graphics' `i32` arithmetic cannot overflow.
#[verifier::external_body]
fn draw_filled_rectangle(frame: &mut Vec<u8>, x: i32, y: i32, width: u32, height: u32) -> (r: Result<(), DisplayError>)
    requires
        old(frame)@.len() == FRAME_LEN,
        drawable(x as int),
        drawable(y as int),
        drawable(width as int),
        drawable(height as int),
    ensures
        final(frame)@ == filled_rectangle_drawn(old(frame)@, x, y, width, height),
        final(frame)@.len() == FRAME_LEN,
        r is Ok,
{
    let mut display = Display2in13::bw();
    display.get_mut_buffer().copy_from_slice(frame);
    display.set_rotation(DisplayRotation::Rotate0);
    let style = PrimitiveStyle::with_fill(BinaryColor::Off);
    let r = Rectangle::new(Point::new(x, y), Size::new(width, height)).into_styled(style).draw(&mut display);
    frame.copy_from_slice(display.buffer());
    r
}

/// Draws a black circle outline with embedded-graphics on an unrotated
/// ssd1680 `Display2in13` that holds `frame`. Claimed: the new frame is
/// `circle_outline_drawn` of the old one and the arguments, it keeps its
/// length, drawing succeeds, only pixels turn black (the outline is drawn
/// in black with no fill), and for a diameter of at least 5 and a stroke of
/// at least 1 the top pixel of the circle, `(x + diameter / 2, y)`, is black
/// when it lies on the panel: it is inside the stroke circle (threshold
/// `(diameter + 2 * (stroke / 2))^2` around the doubled centre) and outside
/// the fill circle (diameter at most `diameter - 2`), so its scanline draws
/// it. The other pixels are not stated. Coordinates, diameter and stroke
/// are bounded so that embedded-graphics' `i32` arithmetic cannot overflow.
#[verifier::external_body]
fn draw_circle_outline(frame: &mut Vec<u8>, x: i32, y: i32, diameter: u32, stroke: u32) -> (r: Result<(), DisplayError>)
    requires
        old(frame)@.len() == FRAME_LEN,
        drawable(x as int),
        drawable(y as int),
        drawable(diameter as int),
        drawable(stroke as int),
    ensures
        final(frame)@ == circle_outline_drawn(old(frame)@, x, y, diameter, stroke),
        final(frame)@.len() == FRAME_LEN,
        r is Ok,
        only_darkens(old(frame)@, final(frame)@),
        diameter >= 5 && stroke >= 1 && x + diameter / 2 < PANEL_WIDTH && y < 250
            ==> pixel_is_black(final(frame)@, x + diameter / 2, y as int),
{
    let mut display = Display2in13::bw();
    display.get_mut_buffer().copy_from_slice(frame);
    display.set_rotation(DisplayRotation::Rotate0);
    let style = PrimitiveStyle::with_stroke(BinaryColor::Off, stroke);
    let r = Circle::new(Point::new(x, y), diameter).into_styled(style).draw(&mut display);
    frame.copy_from_slice(display.buffer());
    r
}

/// Draws `text` centred on `(x, y)` in black in embedded-graphics'
/// `FONT_5X8` on an unrotated ssd1680 `Display2in13` that holds `frame`.
/// Claimed: the new frame is `centered_text_drawn` of the old one and the
/// arguments, it keeps its length, drawing succeeds, and only pixels turn
/// black (the style has a black text colour and no background). The glyphs
/// themselves are not stated. The position and the length of the text are
/// bounded so that embedded-graphics' `i32` arithmetic cannot overflow.
#[verifier::external_body]
fn draw_centered_text(frame: &mut Vec<u8>, text: &str, x: i32, y: i32) -> (r: Result<(), DisplayError>)
    requires
        old(frame)@.len() == FRAME_LEN,
        drawable(x as int),
        drawable(y as int),
        drawable(text@.len() as int),
    ensures
        final(frame)@ == centered_text_drawn(old(frame)@, text@, x, y),
        final(frame)@.len() == FRAME_LEN,
        r is Ok,
        only_darkens(old(frame)@, final(frame)@),
{
    let mut display = Display2in13::bw();
    display.get_mut_buffer().copy_from_slice(frame);
    display.set_rotation(DisplayRotation::Rotate0);
    let style = MonoTextStyle::new(&FONT_5X8, BinaryColor::Off);
    let layout = TextStyleBuilder::new().alignment(Alignment::Center).build();
    let r = Text::with_text_style(text, Point::new(x, y), style, layout).draw(&mut display);
    frame.copy_from_slice(display.buffer());
    r.map(|_| ())
}

/// Draws `text` in black, centred on `(x, y)`; a drawing failure becomes
/// `Error::DisplayError`.
pub fn draw_text(frame: &mut Vec<u8>, text: &str, x: i32, y: i32) -> (r: Result<(), Error>)
    requires
        old(frame)@.len() == FRAME_LEN,
        drawable(x as int),
        drawable(y as int),
        drawable(text@.len() as int),
    ensures
        final(frame)@ == centered_text_drawn(old(frame)@, text@, x, y),
        final(frame)@.len() == FRAME_LEN,
        r is Ok,
        only_darkens(old(frame)@, final(frame)@),
{
    match draw_centered_text(frame, text, x, y) {
        Ok(()) => Ok(()),
        Err(e) => Err(Error::DisplayError(e)),
    }
}

/// The text the test frame shows.
pub open spec fn test_text() -> Seq<char> {
    "Just a test"@
}

/// The test frame: a filled 40 x 40 square at (60, 60), a circle outline
/// of diameter 30 and stroke 2 at (100, 60), and `Just a test` centred on
/// (0, 35), on white.
pub open spec fn test_frame() -> Seq<u8> {
    centered_text_drawn(
        circle_outline_drawn(filled_rectangle_drawn(white_frame(), 60, 60, 40, 40), 100, 60, 30, 2),
        test_text(),
        0,
        35,
    )
}

/// Draws the test frame.
pub fn render_test_frame() -> (frame: Vec<u8>)
    ensures
        frame@ == test_frame(),
        frame@.len() == FRAME_LEN,
        pixel_is_black(frame@, 115, 60),
{
    let mut frame = blank_frame();
    let _ = draw_filled_rectangle(&mut frame, 60, 60, 40, 40);
    let _ = draw_circle_outline(&mut frame, 100, 60, 30, 2);
    let ghost with_circle = frame@;
    let text = "Just a test";
    proof {
        reveal_strlit("Just a test");
    }
    let _ = draw_text(&mut frame, text, 0, 35);
    proof {
        lemma_black_stays_black(with_circle, frame@, 115, 60);
    }
    frame
}

/// `Clone::clone` of display-interface's `DisplayError`, a fieldless enum
/// whose derived clone returns the same variant. Claimed: the copy equals
/// the value it was taken from.
#[verifier::external_body]
fn copy_display_error(e: &DisplayError) -> (c: DisplayError)
    ensures
        c == *e,
{
    e.clone()
}

/// Where the display test stands.
#[derive(Clone, Copy, Debug)]
pub enum EpdStage {
    /// Waiting for the black-and-white RAM to be cleared.
    ClearBw,
    /// Waiting for the red RAM to be cleared.
    ClearRed,
    /// Waiting for the test frame to be sent.
    SendFrame,
    /// Waiting for the display to show the frame.
    Show,
    /// Over.
    Done,
}

/// What the hardware side has to do next with the display.
#[derive(Debug)]
pub enum EpdAction {
    ClearBwFrame,
    ClearRedFrame,
    /// Send this black-and-white frame.
    UpdateBwFrame(Vec<u8>),
    DisplayFrame,
    /// The test is over, with this result.
    Finish(Result<(), Error>),
}

pub enum EpdActionView {
    ClearBwFrame,
    ClearRedFrame,
    UpdateBwFrame(Seq<u8>),
    DisplayFrame,
    Finish(Result<(), Error>),
}

impl View for EpdAction {
    type V = EpdActionView;

    open spec fn view(&self) -> EpdActionView {
        match self {
            EpdAction::ClearBwFrame => EpdActionView::ClearBwFrame,
            EpdAction::ClearRedFrame => EpdActionView::ClearRedFrame,
            EpdAction::UpdateBwFrame(v) => EpdActionView::UpdateBwFrame(v@),
            EpdAction::DisplayFrame => EpdActionView::DisplayFrame,
            EpdAction::Finish(r) => EpdActionView::Finish(*r),
        }
    }
}

/// The e-paper display test: clear both frames, send the test frame and
/// show it; the first failure ends it.
pub struct EpdTest {
    stage: EpdStage,
    frame: Vec<u8>,
    failure: Option<DisplayError>,
}

pub struct EpdView {
    pub stage: EpdStage,
    pub frame: Seq<u8>,
    pub failure: Option<DisplayError>,
}

impl View for EpdTest {
    type V = EpdView;

    closed spec fn view(&self) -> EpdView {
        EpdView { stage: self.stage, frame: self.frame@, failure: self.failure }
    }
}

/// The shape the display test keeps: the frame it sends is the test frame,
/// and only a finished test can hold a failure.
pub open spec fn epd_wf(s: EpdView) -> bool {
    &&& (s.stage is SendFrame ==> s.frame == test_frame())
    &&& (s.failure is Some ==> s.stage is Done)
}

/// The action the display test waits on.
pub open spec fn epd_pending(s: EpdView) -> EpdActionView {
    match s.stage {
        EpdStage::ClearBw => EpdActionView::ClearBwFrame,
        EpdStage::ClearRed => EpdActionView::ClearRedFrame,
        EpdStage::SendFrame => EpdActionView::UpdateBwFrame(s.frame),
        EpdStage::Show => EpdActionView::DisplayFrame,
        EpdStage::Done => EpdActionView::Finish(
            match s.failure {
                Some(e) => Err(Error::DisplayError(e)),
                None => Ok(()),
            },
        ),
    }
}

/// The state after the pending operation reports `r`: on to the next
/// operation, or over with the first failure.
pub open spec fn epd_next(s: EpdView, r: Result<(), DisplayError>) -> EpdView {
    match s.stage {
        EpdStage::Done => s,
        _ => match r {
            Err(e) => EpdView { stage: EpdStage::Done, failure: Some(e), ..s },
            Ok(()) => match s.stage {
                EpdStage::ClearBw => EpdView { stage: EpdStage::ClearRed, ..s },
                EpdStage::ClearRed => EpdView { stage: EpdStage::SendFrame, frame: test_frame(), ..s },
                EpdStage::SendFrame => EpdView { stage: EpdStage::Show, ..s },
                _ => EpdView { stage: EpdStage::Done, ..s },
            },
        },
    }
}

/// Starts the display test at clearing the black-and-white frame.
pub fn test_epd() -> (t: EpdTest)
    ensures
        t.wf(),
        t@.stage is ClearBw,
        t@.failure is None,
{
    EpdTest { stage: EpdStage::ClearBw, frame: Vec::new(), failure: None }
}

impl EpdTest {
    pub open spec fn wf(&self) -> bool {
        epd_wf(self@)
    }

    /// The action the display test waits on.
    pub fn pending(&self) -> (a: EpdAction)
        ensures
            a@ == epd_pending(self@),
    {
        match self.stage {
            EpdStage::ClearBw => EpdAction::ClearBwFrame,
            EpdStage::ClearRed => EpdAction::ClearRedFrame,
            EpdStage::SendFrame => EpdAction::UpdateBwFrame(self.frame.clone()),
            EpdStage::Show => EpdAction::DisplayFrame,
            EpdStage::Done => match &self.failure {
                Some(e) => EpdAction::Finish(Err(Error::DisplayError(copy_display_error(e)))),
                None => EpdAction::Finish(Ok(())),
            },
        }
    }

    /// Reports the result of the pending display operation and returns the
    /// next action.
    pub fn step(&mut self, result: Result<(), DisplayError>) -> (a: EpdAction)
        requires
            old(self).wf(),
        ensures
            final(self).wf(),
            final(self)@ == epd_next(old(self)@, result),
            a@ == epd_pending(final(self)@),
    {
        match self.stage {
            EpdStage::Done => {},
            _ => match result {
                Err(e) => {
                    self.stage = EpdStage::Done;
                    self.failure = Some(e);
                },
                Ok(()) => match self.stage {
                    EpdStage::ClearBw => {
                        self.stage = EpdStage::ClearRed;
                    },
                    EpdStage::ClearRed => {
                        self.frame = render_test_frame();
                        self.stage = EpdStage::SendFrame;
                    },
                    EpdStage::SendFrame => {
                        self.stage = EpdStage::Show;
                    },
                    _ => {
                        self.stage = EpdStage::Done;
                    },
                },
            },
        }
        self.pending()
    }
}

/// Rank of a stage in the order the test goes through them.
pub open spec fn epd_rank(stage: EpdStage) -> int {
    match stage {
        EpdStage::ClearBw => 0,
        EpdStage::ClearRed => 1,
        EpdStage::SendFrame => 2,
        EpdStage::Show => 3,
        EpdStage::Done => 4,
    }
}

/// Every reported result moves an unfinished test forward; the frame sent
/// is always the test frame, the test succeeds only after the display
/// showed it, and a failure ends the test with that very failure.
pub proof fn lemma_epd_progress(s: EpdView, r: Result<(), DisplayError>)
    requires
        epd_wf(s),
        !(s.stage is Done),
    ensures
        epd_rank(epd_next(s, r).stage) > epd_rank(s.stage),
        epd_pending(epd_next(s, r)) matches EpdActionView::UpdateBwFrame(f) ==> f == test_frame(),
        epd_pending(epd_next(s, r)) == EpdActionView::Finish(Ok(())) ==> s.stage is Show && r is Ok,
        r matches Err(e) ==> epd_pending(epd_next(s, r)) == EpdActionView::Finish(Err(Error::DisplayError(e))),
{
}

} // verus!
