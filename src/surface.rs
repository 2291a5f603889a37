use embedded_canvas::Canvas;
use embedded_graphics::geometry::{Dimensions, Point, Size};
use embedded_graphics::mono_font::ascii::FONT_10X20;
use embedded_graphics::mono_font::MonoTextStyle;
use embedded_graphics::pixelcolor::{IntoStorage, Rgb565, RgbColor};
use embedded_graphics::text::Text;
use embedded_graphics::Drawable;
use embedded_layout::align::{horizontal, vertical, Align};
use embedded_layout::layout::linear::LinearLayout;
use embedded_layout::object_chain::Chain;
use vstd::prelude::*;

use crate::text::{displayed_line, truncate_line};

verus! {

/// Black in 5-6-5.
pub const BLACK: u16 = 0x0000;

/// White in 5-6-5.
pub const WHITE: u16 = 0xFFFF;

/// Width and height of the album-art region, at the surface's top left.
pub const ART_SIZE: usize = 240;

/// Height of the title and artist region, right below the art.
pub const TEXT_HEIGHT: usize = 50;

/// A pixel-addressable display: row-major 5-6-5 pixels.
#[derive(Debug, Clone)]
pub struct Surface {
    pub width: usize,
    pub height: usize,
    pub pixels: Vec<u16>,
}

/// An off-surface buffer placed at (`left`, `top`) on the surface; `None`
/// marks a pixel that nothing was drawn on.
#[derive(Debug, Clone)]
pub struct CanvasAt {
    pub left: usize,
    pub top: usize,
    pub width: usize,
    pub height: usize,
    pub pixels: Vec<Option<u16>>,
}

impl Surface {
    /// The pixel buffer holds exactly one value per coordinate.
    pub open spec fn wf(&self) -> bool {
        self.pixels@.len() == self.width * self.height
    }

    /// A surface of the given size, every pixel `color`.
    pub fn new(width: usize, height: usize, color: u16) -> (s: Surface)
        requires
            width * height <= usize::MAX,
        ensures
            s.wf(),
            s.width == width,
            s.height == height,
            s.pixels@ == Seq::new((width * height) as nat, |i: int| color),
    {
        let n: usize = width * height;
        let mut pixels: Vec<u16> = Vec::with_capacity(n);
        let mut i: usize = 0;
        while i < n
            invariant
                i <= n,
                pixels@ == Seq::new(i as nat, |k: int| color),
            decreases n - i,
        {
            pixels.push(color);
            i += 1;
            assert(pixels@ =~= Seq::new(i as nat, |k: int| color));
        }
        Surface { width, height, pixels }
    }
}

impl CanvasAt {
    /// The pixel buffer holds exactly one entry per coordinate of the canvas.
    pub open spec fn wf(&self) -> bool {
        self.pixels@.len() == self.width * self.height
    }
}

/// The colour that a canvas entry gives, with `bg` where nothing was drawn.
pub open spec fn or_background(p: Option<u16>, bg: u16) -> u16 {
    match p {
        Some(c) => c,
        None => bg,
    }
}

/// Whether surface position `i` (row-major, width `w`) lies under a
/// `cw` by `ch` region placed at (`left`, `top`).
pub open spec fn under_region(i: int, w: int, left: int, top: int, cw: int, ch: int) -> bool {
    &&& left <= i % w < left + cw
    &&& top <= i / w < top + ch
}

/// The surface pixels after a `cw` by `ch` region of entries placed at
/// (`left`, `top`) is copied over them, empty entries as `bg`; positions
/// outside the region keep their value.
pub open spec fn blit(
    px: Seq<u16>,
    w: int,
    left: int,
    top: int,
    cw: int,
    ch: int,
    entries: Seq<Option<u16>>,
    bg: u16,
) -> Seq<u16> {
    Seq::new(
        px.len(),
        |i: int|
            if under_region(i, w, left, top, cw, ch) {
                or_background(entries[(i / w - top) * cw + (i % w - left)], bg)
            } else {
                px[i]
            },
    )
}

/// `blit` for a canvas, at its own place and size.
pub open spec fn blit_canvas(px: Seq<u16>, w: int, c: CanvasAt, bg: u16) -> Seq<u16> {
    blit(px, w, c.left as int, c.top as int, c.width as int, c.height as int, c.pixels@, bg)
}

/// Paints every pixel of the surface with `color`.
pub fn fill_display(display: &mut Surface, color: u16)
    requires
        old(display).wf(),
    ensures
        final(display).wf(),
        final(display).width == old(display).width,
        final(display).height == old(display).height,
        final(display).pixels@ == Seq::new(old(display).pixels@.len(), |i: int| color),
{
    let n = display.pixels.len();
    let mut i: usize = 0;
    while i < n
        invariant
            display.wf(),
            display.width == old(display).width,
            display.height == old(display).height,
            n == display.pixels@.len(),
            i <= n,
            forall|k: int| 0 <= k < i ==> display.pixels@[k] == color,
        decreases n - i,
    {
        display.pixels.set(i, color);
        i += 1;
    }
    assert(display.pixels@ =~= Seq::new(old(display).pixels@.len(), |i: int| color));
}

proof fn lemma_canvas_index(row: int, col: int, w: int, h: int)
    requires
        0 <= row < h,
        0 <= col < w,
    ensures
        0 <= row * w + col < w * h,
{
    assert(0 <= row * w + col < w * h) by (nonlinear_arith)
        requires
            0 <= row < h,
            0 <= col < w,
    ;
}

/// Copies the canvas onto the surface at its place, clipped to the surface,
/// with `background` where the canvas holds nothing.
pub fn draw_canvas(display: &mut Surface, canvas: &CanvasAt, background: u16)
    requires
        old(display).wf(),
        canvas.wf(),
        old(display).width > 0,
    ensures
        final(display).wf(),
        final(display).width == old(display).width,
        final(display).height == old(display).height,
        final(display).pixels@ == blit_canvas(old(display).pixels@, old(display).width as int, *canvas, background),
{
    let n = display.pixels.len();
    let w = display.width;
    let clen = canvas.pixels.len();
    let mut i: usize = 0;
    while i < n
        invariant
            display.wf(),
            display.width == w,
            display.height == old(display).height,
            w > 0,
            canvas.wf(),
            clen == canvas.pixels@.len(),
            n == display.pixels@.len(),
            n == old(display).pixels@.len(),
            i <= n,
            forall|k: int|
                0 <= k < i ==> display.pixels@[k] == #[trigger] blit_canvas(
                    old(display).pixels@,
                    w as int,
                    *canvas,
                    background,
                )[k],
            forall|k: int| i <= k < n ==> display.pixels@[k] == old(display).pixels@[k],
        decreases n - i,
    {
        let x = i % w;
        let y = i / w;
        if canvas.left <= x && x - canvas.left < canvas.width && canvas.top <= y && y - canvas.top
            < canvas.height {
            let row = y - canvas.top;
            let col = x - canvas.left;
            proof {
                lemma_canvas_index(row as int, col as int, canvas.width as int, canvas.height as int);
            }
            let idx = row * canvas.width + col;
            let v = match canvas.pixels[idx] {
                Some(c) => c,
                None => background,
            };
            display.pixels.set(i, v);
        }
        i += 1;
    }
    assert(display.pixels@ =~= blit_canvas(old(display).pixels@, w as int, *canvas, background));
}

/// The 5-6-5 pixel stored big-endian at pixel position `k` of raw bytes.
pub open spec fn raw_pixel(b: Seq<u8>, k: int) -> u16 {
    (b[2 * k] as int * 256 + b[2 * k + 1] as int) as u16
}

/// The view of optional raw image bytes.
pub open spec fn bytes_view(image_bytes: Option<&[u8]>) -> Option<Seq<u8>> {
    match image_bytes {
        Some(b) => Some(b@),
        None => None,
    }
}

/// Entry `k` of the album-art canvas: the image is read as rows of 240
/// big-endian 5-6-5 pixels; only whole rows count, and positions that no
/// row covers, or every position when there is no image, stay empty.
pub open spec fn art_entry(bytes: Option<Seq<u8>>, k: int) -> Option<u16> {
    match bytes {
        Some(b) => if k < (b.len() as int / (2 * ART_SIZE as int)) * ART_SIZE as int {
            Some(raw_pixel(b, k))
        } else {
            None
        },
        None => None,
    }
}

/// All entries of the album-art canvas.
pub open spec fn art_entries(bytes: Option<Seq<u8>>) -> Seq<Option<u16>> {
    Seq::new((ART_SIZE * ART_SIZE) as nat, |k: int| art_entry(bytes, k))
}

/// The surface pixels after the album art is drawn over `px`: the top-left
/// 240 by 240 region shows the image, black where it has no pixel.
pub open spec fn with_album_cover(px: Seq<u16>, w: int, bytes: Option<Seq<u8>>) -> Seq<u16> {
    blit(px, w, 0, 0, ART_SIZE as int, ART_SIZE as int, art_entries(bytes), BLACK)
}

proof fn lemma_whole_rows(k: int, rows: int, len: int)
    requires
        0 <= k < rows * 240,
        rows == len / 480,
        len >= 0,
    ensures
        2 * k + 1 < len,
{
    assert(2 * k + 1 < len) by (nonlinear_arith)
        requires
            0 <= k < rows * 240,
            rows == len / 480,
            len >= 0,
    ;
}

/// Draws the album art in the top-left 240 by 240 region. The bytes are
/// rows of 240 big-endian 5-6-5 pixels; without an image, or where the
/// image has no pixel, the region is black.
pub fn draw_album_cover(display: &mut Surface, image_bytes: Option<&[u8]>)
    requires
        old(display).wf(),
        old(display).width > 0,
    ensures
        final(display).wf(),
        final(display).width == old(display).width,
        final(display).height == old(display).height,
        final(display).pixels@ == with_album_cover(
            old(display).pixels@,
            old(display).width as int,
            bytes_view(image_bytes),
        ),
{
    let n: usize = ART_SIZE * ART_SIZE;
    let mut entries: Vec<Option<u16>> = Vec::with_capacity(n);
    let mut k: usize = 0;
    while k < n
        invariant
            n == ART_SIZE * ART_SIZE,
            k <= n,
            entries@.len() == k,
            forall|j: int| 0 <= j < k ==> entries@[j] == #[trigger] art_entry(bytes_view(image_bytes), j),
        decreases n - k,
    {
        let entry = match image_bytes {
            Some(b) => {
                let rows = b.len() / (2 * ART_SIZE);
                if k < rows * ART_SIZE {
                    proof {
                        lemma_whole_rows(k as int, rows as int, b@.len() as int);
                    }
                    let hi = b[2 * k] as u16;
                    let lo = b[2 * k + 1] as u16;
                    Some(hi * 256 + lo)
                } else {
                    None
                }
            },
            None => None,
        };
        entries.push(entry);
        k += 1;
    }
    assert(entries@ =~= art_entries(bytes_view(image_bytes)));
    let canvas = CanvasAt { left: 0, top: 0, width: ART_SIZE, height: ART_SIZE, pixels: entries };
    draw_canvas(display, &canvas, BLACK);
}

/// Drawing the album art a second time, with the same image or none,
/// leaves the surface as the first drawing left it.
pub proof fn lemma_album_cover_idempotent(px: Seq<u16>, w: int, bytes: Option<Seq<u8>>)
    requires
        w > 0,
    ensures
        with_album_cover(with_album_cover(px, w, bytes), w, bytes) == with_album_cover(px, w, bytes),
{
    assert(with_album_cover(with_album_cover(px, w, bytes), w, bytes) =~= with_album_cover(px, w, bytes));
}

/// The pixels of two lines of text set white in the 10x20 monospace font,
/// stacked, left-aligned and vertically centred on a `width` by `height`
/// canvas: row-major, empty where no glyph pixel was drawn.
pub uninterp spec fn text_block_of(title: Seq<char>, artist: Seq<char>, width: u32, height: u32) -> Seq<Option<u16>>;

/// Relies on embedded-graphics (MonoTextStyle, Text), embedded-layout
/// (LinearLayout, Align) and embedded-canvas (Canvas) to rasterize the two
/// lines; a Canvas holds one entry per pixel, row-major.
#[verifier::external_body]
fn render_text_block(title: &str, artist: &str, width: u32, height: u32) -> (r: Vec<Option<u16>>)
    requires
        width * height <= usize::MAX,
    ensures
        r@ == text_block_of(title@, artist@, width, height),
        r@.len() == width * height,
{
    let style = MonoTextStyle::new(&FONT_10X20, Rgb565::WHITE);
    let mut canvas = Canvas::<Rgb565>::new(Size::new(width, height));
    let lines = Chain::new(Text::new(title, Point::zero(), style))
        .append(Text::new(artist, Point::zero(), style));
    let area = canvas.bounding_box();
    let _ = LinearLayout::vertical(lines).with_alignment(horizontal::Left).arrange()
        .align_to(&area, horizontal::Left, vertical::Center).draw(&mut canvas);
    canvas.pixels.iter().map(|p| p.map(|c| c.into_storage())).collect()
}

/// The surface pixels after the title and artist are drawn over `px`: the
/// 240 by 50 region below the album art shows the two shortened lines on black.
pub open spec fn with_title_and_artist(px: Seq<u16>, w: int, title: Seq<char>, artist: Seq<char>) -> Seq<u16> {
    blit(
        px,
        w,
        0,
        ART_SIZE as int,
        ART_SIZE as int,
        TEXT_HEIGHT as int,
        text_block_of(displayed_line(title), displayed_line(artist), ART_SIZE as u32, TEXT_HEIGHT as u32),
        BLACK,
    )
}

/// Draws the title and the artist, each cut to 22 characters plus ".." when
/// longer than 23, as two lines in the 240 by 50 region below the album art.
pub fn draw_title_and_artist(display: &mut Surface, title: String, artist: String)
    requires
        old(display).wf(),
        old(display).width > 0,
    ensures
        final(display).wf(),
        final(display).width == old(display).width,
        final(display).height == old(display).height,
        final(display).pixels@ == with_title_and_artist(
            old(display).pixels@,
            old(display).width as int,
            title@,
            artist@,
        ),
{
    let shown_title = truncate_line(title.as_str());
    let shown_artist = truncate_line(artist.as_str());
    let entries = render_text_block(
        shown_title.as_str(),
        shown_artist.as_str(),
        ART_SIZE as u32,
        TEXT_HEIGHT as u32,
    );
    let canvas = CanvasAt {
        left: 0,
        top: ART_SIZE,
        width: ART_SIZE,
        height: TEXT_HEIGHT,
        pixels: entries,
    };
    draw_canvas(display, &canvas, BLACK);
}

} // verus!
