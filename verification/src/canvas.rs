use vstd::prelude::*;
use vstd::pervasive::VecAdditionalExecFns;
use crate::color::{Color, CHANNEL_ONE};

verus! {

/// Fixed-point coordinate units per pixel: canvas geometry is held in
/// thousandths of a pixel, so sub-pixel positions stay exact.
pub const POS_UNIT: i64 = 1000;

/// Fixed-point rotation units in a full turn.
pub const ROTATION_TURN: u32 = 1000000;

/// Stroke width, in coordinate units, that vector text output is
/// rendered with.
pub const SVG_STROKE_WIDTH: u32 = 12;

// ---------------------------------------------------------------------
// Pixel buffers
// ---------------------------------------------------------------------

/// The `k`-th channel of a color, in RGBA order.
pub open spec fn channel(c: Color, k: int) -> u32 {
    if k == 0 {
        c.r
    } else if k == 1 {
        c.g
    } else if k == 2 {
        c.b
    } else {
        c.a
    }
}

/// The colors an 8-bit RGBA buffer decodes to, four bytes per pixel.
pub open spec fn decode_rgba(data: Seq<u8>) -> Seq<Color> {
    Seq::new(
        (data.len() / 4) as nat,
        |j: int|
            Color::spec_from_rgba8(data[4 * j], data[4 * j + 1], data[4 * j + 2], data[4 * j + 3]),
    )
}

/// The 8-bit RGBA buffer a sequence of colors encodes to, each channel
/// truncated to its level.
pub open spec fn encode_rgba(pixels: Seq<Color>) -> Seq<u8> {
    Seq::new(
        (pixels.len() * 4) as nat,
        |i: int| crate::color::level_of_intensity(channel(pixels[i / 4], i % 4)),
    )
}

/// Decoding an 8-bit RGBA buffer and encoding the result gives the
/// buffer back byte for byte: the scale-up on decode is exact, so the
/// truncation on encode loses nothing.
pub proof fn lemma_rgba_round_trip(data: Seq<u8>)
    requires
        data.len() % 4 == 0,
    ensures
        encode_rgba(decode_rgba(data)) == data,
{
    let pixels = decode_rgba(data);
    assert(pixels.len() * 4 == data.len()) by {
        vstd::arithmetic::div_mod::lemma_fundamental_div_mod(data.len() as int, 4);
    }
    assert forall|i: int| 0 <= i < data.len() implies encode_rgba(pixels)[i] == data[i] by {
        vstd::arithmetic::div_mod::lemma_fundamental_div_mod(i, 4);
        vstd::arithmetic::div_mod::lemma_mod_bound(i, 4);
        let j = i / 4;
        let k = i % 4;
        assert(0 <= j < pixels.len());
        assert(channel(pixels[j], k) == crate::color::intensity_of_level(data[4 * j + k]));
        crate::color::lemma_level_round_trip(data[i]);
    }
    assert(encode_rgba(pixels) =~= data);
}

/// A canvas copied in from an 8-bit RGBA buffer encodes back to that
/// buffer exactly: `from_rgba` establishes the left side of this
/// equation, `as_rgba` returns the right side.
pub proof fn lemma_canvas_round_trip(canvas: RasterCanvas, data: Seq<u8>)
    requires
        canvas.image@ == decode_rgba(data),
        data.len() == canvas.width * canvas.height * 4,
    ensures
        encode_rgba(canvas.image@) == data,
{
    assert(data.len() % 4 == 0) by (nonlinear_arith)
        requires data.len() == canvas.width * canvas.height * 4;
    lemma_rgba_round_trip(data);
}

// ---------------------------------------------------------------------
// RasterCanvas
// ---------------------------------------------------------------------

/// A fixed-size grid of colors, row-major: the pixel at `(x, y)` is at
/// index `y * width + x`.
#[derive(Debug)]
pub struct RasterCanvas {
    pub width: u32,
    pub height: u32,
    pub image: Vec<Color>,
}

impl RasterCanvas {
    /// The pixel sequence always holds exactly `width * height`
    /// well-formed colors.
    pub open spec fn wf(&self) -> bool {
        self.image@.len() == self.width * self.height && forall|j: int|
            0 <= j < self.image@.len() ==> (#[trigger] self.image@[j]).wf()
    }

    /// The color read at `(x, y)`: the stored pixel in bounds, the
    /// opaque black sentinel outside.
    pub open spec fn spec_get_pixel(&self, x: int, y: int) -> Color {
        if 0 <= x < self.width && 0 <= y < self.height {
            self.image@[y * self.width + x]
        } else {
            Color { r: 0, g: 0, b: 0, a: CHANNEL_ONE }
        }
    }

    /// A canvas of the given size with every pixel transparent black.
    pub fn new(width: u32, height: u32) -> (canvas: RasterCanvas)
        requires
            width * height <= usize::MAX,
        ensures
            canvas.wf(),
            canvas.width == width,
            canvas.height == height,
            forall|j: int|
                0 <= j < canvas.image@.len() ==> #[trigger] canvas.image@[j] == (Color {
                    r: 0u32,
                    g: 0u32,
                    b: 0u32,
                    a: 0u32,
                }),
    {
        let total: usize = (width as usize) * (height as usize);
        let mut image: Vec<Color> = Vec::new();
        let mut j: usize = 0;
        while j < total
            invariant
                j <= total,
                total == width * height,
                image@.len() == j,
                forall|k: int|
                    0 <= k < j ==> #[trigger] image@[k] == (Color {
                        r: 0u32,
                        g: 0u32,
                        b: 0u32,
                        a: 0u32,
                    }),
            decreases total - j,
        {
            image.push(Color::transparent());
            j += 1;
        }
        RasterCanvas { width, height, image }
    }

    /// Copies an 8-bit RGBA buffer in, scaling each channel up to
    /// fixed point exactly.
    pub fn from_rgba(width: u32, height: u32, data: &Vec<u8>) -> (canvas: RasterCanvas)
        requires
            data@.len() == width * height * 4,
        ensures
            canvas.wf(),
            canvas.width == width,
            canvas.height == height,
            canvas.image@ == decode_rgba(data@),
    {
        let len: usize = data.len();
        proof {
            assert(width * height * 4 % 4 == 0 && width * height * 4 / 4 == width * height)
                by (nonlinear_arith);
            assert(width * height <= width * height * 4) by (nonlinear_arith);
            assert(width * height <= len);
        }
        let total: usize = (width as usize) * (height as usize);
        let mut image: Vec<Color> = Vec::new();
        let mut j: usize = 0;
        while j < total
            invariant
                j <= total,
                total == width * height,
                data@.len() == 4 * total,
                4 * total <= usize::MAX,
                image@.len() == j,
                forall|k: int| 0 <= k < j ==> #[trigger] image@[k] == decode_rgba(data@)[k],
            decreases total - j,
        {
            proof {
                assert(4 * j + 3 < 4 * total) by (nonlinear_arith)
                    requires j < total;
            }
            let c = Color::from_rgba8(
                data[4 * j],
                data[4 * j + 1],
                data[4 * j + 2],
                data[4 * j + 3],
            );
            image.push(c);
            j += 1;
        }
        proof {
            assert(image@ =~= decode_rgba(data@));
        }
        RasterCanvas { width, height, image }
    }

    /// Encodes the canvas to an 8-bit RGBA buffer; each channel is
    /// truncated, never rounded.
    pub fn as_rgba(&self) -> (data: Vec<u8>)
        requires
            self.wf(),
        ensures
            data@ == encode_rgba(self.image@),
            data@.len() == self.width * self.height * 4,
    {
        let total: usize = self.image.len();
        let mut data: Vec<u8> = Vec::new();
        let mut j: usize = 0;
        while j < total
            invariant
                j <= total,
                total == self.image@.len(),
                self.wf(),
                data@.len() == 4 * j,
                forall|i: int| 0 <= i < 4 * j ==> #[trigger] data@[i] == encode_rgba(self.image@)[i],
            decreases total - j,
        {
            let p = self.image[j].to_rgba8();
            data.push(p.0);
            data.push(p.1);
            data.push(p.2);
            data.push(p.3);
            proof {
                let ji = j as int;
                vstd::arithmetic::div_mod::lemma_fundamental_div_mod_converse(4 * ji, 4, ji, 0);
                vstd::arithmetic::div_mod::lemma_fundamental_div_mod_converse(4 * ji + 1, 4, ji, 1);
                vstd::arithmetic::div_mod::lemma_fundamental_div_mod_converse(4 * ji + 2, 4, ji, 2);
                vstd::arithmetic::div_mod::lemma_fundamental_div_mod_converse(4 * ji + 3, 4, ji, 3);
                assert(4 * (j + 1) <= 4 * total) by (nonlinear_arith)
                    requires j < total;
            }
            j += 1;
        }
        proof {
            assert(data@ =~= encode_rgba(self.image@));
            assert(self.image@.len() * 4 == 4 * self.image@.len());
        }
        data
    }

    /// Stores a color; the caller guarantees the coordinates are in
    /// bounds.
    pub fn set_pixel(&mut self, x: u32, y: u32, color: Color)
        requires
            old(self).wf(),
            x < old(self).width,
            y < old(self).height,
            color.wf(),
        ensures
            final(self).wf(),
            final(self).width == old(self).width,
            final(self).height == old(self).height,
            final(self).image@ == old(self).image@.update(
                y * old(self).width + x,
                color,
            ),
    {
        let n: usize = self.image.len();
        proof {
            lemma_row_major_index_in_range(
                x as int,
                y as int,
                self.width as int,
                self.height as int,
            );
            assert(y * self.width + x < n);
        }
        let idx: usize = (y as usize) * (self.width as usize) + (x as usize);
        self.image.set(idx, color);
    }

    /// Reads a pixel; out-of-bounds coordinates yield the opaque black
    /// sentinel rather than failing.
    pub fn get_pixel(&self, x: u32, y: u32) -> (color: Color)
        requires
            self.wf(),
        ensures
            color == self.spec_get_pixel(x as int, y as int),
            color.wf(),
    {
        if x < self.width && y < self.height {
            let n: usize = self.image.len();
            proof {
                lemma_row_major_index_in_range(
                    x as int,
                    y as int,
                    self.width as int,
                    self.height as int,
                );
                assert(y * self.width + x < n);
            }
            let idx: usize = (y as usize) * (self.width as usize) + (x as usize);
            self.image[idx]
        } else {
            Color::black()
        }
    }

    /// Bulk read access to the pixel sequence.
    pub fn get_raw(&self) -> (pixels: &Vec<Color>)
        ensures
            pixels == &self.image,
    {
        &self.image
    }

    /// Bulk write access to the pixel sequence; the caller is
    /// responsible for keeping its length at `width * height`.
    pub fn get_raw_mut(&mut self) -> (pixels: &mut Vec<Color>)
        ensures
            *pixels == old(self).image,
            final(self).image == *final(pixels),
            final(self).width == old(self).width,
            final(self).height == old(self).height,
    {
        &mut self.image
    }

    pub fn width(&self) -> (w: u32)
        ensures
            w == self.width,
    {
        self.width
    }

    pub fn height(&self) -> (h: u32)
        ensures
            h == self.height,
    {
        self.height
    }
}

impl Clone for RasterCanvas {
    fn clone(&self) -> (res: Self)
        ensures
            res.width == self.width,
            res.height == self.height,
            res.image@ == self.image@,
    {
        let mut image: Vec<Color> = Vec::new();
        let mut j: usize = 0;
        let total: usize = self.image.len();
        while j < total
            invariant
                j <= total,
                total == self.image@.len(),
                image@.len() == j,
                forall|k: int| 0 <= k < j ==> #[trigger] image@[k] == self.image@[k],
            decreases total - j,
        {
            image.push(self.image[j]);
            j += 1;
        }
        proof {
            assert(image@ =~= self.image@);
        }
        RasterCanvas { width: self.width, height: self.height, image }
    }
}

// ---------------------------------------------------------------------
// VectorCanvas
// ---------------------------------------------------------------------

/// A point in fixed-point canvas coordinates (thousandths of a pixel).
#[derive(Clone, Copy, PartialEq, Eq, Structural, Debug)]
pub struct FxPoint {
    pub x: i64,
    pub y: i64,
}

/// A color together with an opacity. The opacity is in the same
/// fixed-point scale as a channel (`CHANNEL_ONE` is 1.0) but is not
/// clamped: the painting procedure below grows it without bound, and
/// what a renderer does with values above 1.0 is its own affair.
#[derive(Clone, Copy, PartialEq, Eq, Structural, Debug)]
pub struct Paint {
    pub color: Color,
    pub opacity: u64,
}

/// The geometry of one drawable element.
#[derive(Clone, Copy, PartialEq, Eq, Debug)]
pub enum Shape {
    /// An axis-aligned rectangle between two corners.
    Rect { min: FxPoint, max: FxPoint },
    /// A regular polygon: `edge_count` vertices evenly spaced on the
    /// circle of the given radius around the center, starting at
    /// `rotation` (in `ROTATION_TURN` units of a full turn).
    RegularPolygon { center: FxPoint, radius: u64, edge_count: u32, rotation: u32 },
}

/// One drawable element: geometry plus fill and stroke attributes.
#[derive(Clone, Copy, PartialEq, Eq, Debug)]
pub struct CanvasElement {
    pub shape: Shape,
    pub fill: Option<Paint>,
    pub stroke: Option<Paint>,
}

/// An ordered, append-only scene of drawable elements; order is paint
/// order (later elements draw over earlier ones).
#[derive(PartialEq, Eq, Debug)]
pub struct VectorCanvas {
    pub elements: Vec<CanvasElement>,
}

impl VectorCanvas {
    /// An empty scene.
    pub fn new() -> (canvas: VectorCanvas)
        ensures
            canvas.elements@ == Seq::<CanvasElement>::empty(),
    {
        let canvas = VectorCanvas { elements: Vec::new() };
        proof {
            assert(canvas.elements@ =~= Seq::<CanvasElement>::empty());
        }
        canvas
    }

    /// Appends one element at the end of the paint order.
    pub fn append(&mut self, element: CanvasElement)
        ensures
            final(self).elements@ == old(self).elements@.push(element),
    {
        self.elements.push(element);
    }

    /// Appends a rectangle between the two corners.
    pub fn draw_rect(
        &mut self,
        min: FxPoint,
        max: FxPoint,
        stroke: Option<Paint>,
        fill: Option<Paint>,
    )
        ensures
            final(self).elements@ == old(self).elements@.push(
                CanvasElement { shape: Shape::Rect { min, max }, fill, stroke },
            ),
    {
        self.elements.push(CanvasElement { shape: Shape::Rect { min, max }, fill, stroke });
    }

    pub fn len(&self) -> (n: usize)
        ensures
            n == self.elements@.len(),
    {
        self.elements.len()
    }
}

impl Default for VectorCanvas {
    fn default() -> (canvas: VectorCanvas)
        ensures
            canvas.elements@ == Seq::<CanvasElement>::empty(),
    {
        VectorCanvas::new()
    }
}

impl Clone for VectorCanvas {
    fn clone(&self) -> (res: Self)
        ensures
            res.elements@ == self.elements@,
    {
        let mut elements: Vec<CanvasElement> = Vec::new();
        let mut j: usize = 0;
        let total: usize = self.elements.len();
        while j < total
            invariant
                j <= total,
                total == self.elements@.len(),
                elements@.len() == j,
                forall|k: int| 0 <= k < j ==> #[trigger] elements@[k] == self.elements@[k],
            decreases total - j,
        {
            elements.push(self.elements[j]);
            j += 1;
        }
        proof {
            assert(elements@ =~= self.elements@);
        }
        VectorCanvas { elements }
    }
}

// ---------------------------------------------------------------------
// OmniCanvas
// ---------------------------------------------------------------------

/// Which algorithm to use when vectorizing a raster canvas.
pub enum VectorizerStyle {
    /// One unit square per pixel, at the pixel's integer coordinates,
    /// filled with the pixel's color, in row-major scan order.
    Pixels,
}

/// Either a vector scene or a raster grid, with explicit conversions
/// in both directions.
#[derive(Debug)]
pub enum OmniCanvas {
    VectorCanvas { inner: VectorCanvas },
    RasterCanvas { inner: RasterCanvas },
}

/// The unit square emitted for pixel `j` (row-major) of a raster
/// canvas by the `Pixels` vectorization.
pub open spec fn pixel_square(canvas: RasterCanvas, j: int) -> CanvasElement {
    let x = j % (canvas.width as int);
    let y = j / (canvas.width as int);
    CanvasElement {
        shape: Shape::Rect {
            min: FxPoint { x: (x * POS_UNIT) as i64, y: (y * POS_UNIT) as i64 },
            max: FxPoint { x: ((x + 1) * POS_UNIT) as i64, y: ((y + 1) * POS_UNIT) as i64 },
        },
        fill: Some(Paint { color: canvas.image@[j], opacity: CHANNEL_ONE as u64 }),
        stroke: None,
    }
}

/// The scene the `Pixels` vectorization produces: one unit square per
/// pixel, in row-major scan order.
pub open spec fn pixels_vectorization(canvas: RasterCanvas) -> Seq<CanvasElement> {
    Seq::new((canvas.width * canvas.height) as nat, |j: int| pixel_square(canvas, j))
}

/// The scene a canvas converts to: a vector scene is kept as it is, a
/// raster grid is vectorized pixel by pixel.
pub open spec fn spec_vectorize(canvas: OmniCanvas) -> Seq<CanvasElement> {
    match canvas {
        OmniCanvas::VectorCanvas { inner } => inner.elements@,
        OmniCanvas::RasterCanvas { inner } => pixels_vectorization(inner),
    }
}

/// What rasterizing a canvas comes to: a raster grid is already done
/// (the requested resolution is ignored), a vector scene still needs
/// the external renderer.
#[derive(Debug)]
pub enum Rasterization {
    /// The canvas already was a raster grid; it is returned unchanged.
    Ready { canvas: RasterCanvas },
    /// The scene and the parameters the external renderer must be run
    /// with to finish the conversion.
    NeedsRender { scene: VectorCanvas, request: RenderRequest },
}

/// Parameters for the external rendering capability.
#[derive(Clone, Copy, PartialEq, Eq, Structural, Debug)]
pub struct RenderRequest {
    pub width: u32,
    pub height: u32,
    pub antialias: bool,
    pub background: Option<Color>,
    /// Whether the output keeps the scene's aspect ratio (true) or is
    /// stretched to fill the requested resolution (false).
    pub preserve_height: bool,
}

impl OmniCanvas {
    /// Every raster variant holds a well-formed grid.
    pub open spec fn wf(&self) -> bool {
        match *self {
            OmniCanvas::VectorCanvas { inner } => true,
            OmniCanvas::RasterCanvas { inner } => inner.wf(),
        }
    }

    /// Consumes the canvas and returns a vector scene: the vector
    /// variant unchanged, the raster variant vectorized by the given
    /// style (only `Pixels` exists here).
    pub fn into_vector_canvas(self, style: VectorizerStyle) -> (vector: VectorCanvas)
        requires
            self.wf(),
        ensures
            vector.elements@ == spec_vectorize(self),
    {
        match self {
            OmniCanvas::VectorCanvas { inner } => inner,
            OmniCanvas::RasterCanvas { inner } => {
                let mut vector = VectorCanvas::new();
                match style {
                    VectorizerStyle::Pixels => {
                        let width = inner.width;
                        let height = inner.height;
                        let mut y: u32 = 0;
                        while y < height
                            invariant
                                y <= height,
                                inner.wf(),
                                width == inner.width,
                                height == inner.height,
                                vector.elements@.len() == y * width,
                                forall|k: int|
                                    0 <= k < y * width ==> #[trigger] vector.elements@[k]
                                        == pixel_square(inner, k),
                            decreases height - y,
                        {
                            let mut x: u32 = 0;
                            while x < width
                                invariant
                                    x <= width,
                                    y < height,
                                    inner.wf(),
                                    width == inner.width,
                                    height == inner.height,
                                    vector.elements@.len() == y * width + x,
                                    forall|k: int|
                                        0 <= k < y * width + x ==> #[trigger] vector.elements@[k]
                                            == pixel_square(inner, k),
                                decreases width - x,
                            {
                                proof {
                                    lemma_row_major_index_in_range(
                                        x as int,
                                        y as int,
                                        width as int,
                                        height as int,
                                    );
                                    vstd::arithmetic::div_mod::lemma_fundamental_div_mod_converse(
                                        (y as int) * (width as int) + (x as int),
                                        width as int,
                                        y as int,
                                        x as int,
                                    );
                                }
                                let color = inner.get_pixel(x, y);
                                vector.draw_rect(
                                    FxPoint { x: x as i64 * POS_UNIT, y: y as i64 * POS_UNIT },
                                    FxPoint {
                                        x: (x as i64 + 1) * POS_UNIT,
                                        y: (y as i64 + 1) * POS_UNIT,
                                    },
                                    None,
                                    Some(Paint { color, opacity: CHANNEL_ONE as u64 }),
                                );
                                x += 1;
                            }
                            y += 1;
                            proof {
                                assert((y - 1) * width + width == y * width) by (nonlinear_arith);
                            }
                        }
                        proof {
                            assert(height * width == width * height) by (nonlinear_arith);
                            assert(vector.elements@ =~= pixels_vectorization(inner));
                        }
                    }
                }
                vector
            }
        }
    }

    /// Non-destructive vectorization: clones, then converts.
    pub fn as_vector_canvas(&self, style: VectorizerStyle) -> (vector: VectorCanvas)
        requires
            self.wf(),
        ensures
            vector.elements@ == spec_vectorize(*self),
    {
        self.clone().into_vector_canvas(style)
    }

    /// What the consuming rasterization returns for a canvas and a
    /// render request.
    pub open spec fn spec_rasterize(
        canvas: OmniCanvas,
        request: RenderRequest,
    ) -> Rasterization {
        match canvas {
            OmniCanvas::VectorCanvas { inner } => Rasterization::NeedsRender {
                scene: inner,
                request,
            },
            OmniCanvas::RasterCanvas { inner } => Rasterization::Ready { canvas: inner },
        }
    }

    /// Consumes the canvas for rasterization: the raster variant is
    /// returned unchanged; the vector variant is handed on, with its
    /// parameters, to the external rendering capability, which
    /// produces a grid of exactly `width * height` pixels.
    pub fn into_raster_canvas(
        self,
        width: u32,
        height: u32,
        antialias: bool,
        background_color: Option<Color>,
        preserve_height: bool,
    ) -> (rasterization: Rasterization)
        ensures
            rasterization == OmniCanvas::spec_rasterize(
                self,
                RenderRequest {
                    width,
                    height,
                    antialias,
                    background: background_color,
                    preserve_height,
                },
            ),
    {
        let request = RenderRequest {
            width,
            height,
            antialias,
            background: background_color,
            preserve_height,
        };
        match self {
            OmniCanvas::VectorCanvas { inner } => Rasterization::NeedsRender {
                scene: inner,
                request,
            },
            OmniCanvas::RasterCanvas { inner } => Rasterization::Ready { canvas: inner },
        }
    }

    /// Non-destructive rasterization: clones, then converts.
    pub fn as_raster_canvas(
        &self,
        width: u32,
        height: u32,
        antialias: bool,
        background_color: Option<Color>,
        preserve_height: bool,
    ) -> (rasterization: Rasterization)
        ensures
            match rasterization {
                Rasterization::Ready { canvas } => *self matches OmniCanvas::RasterCanvas {
                    inner,
                } && canvas.width == inner.width && canvas.height == inner.height
                    && canvas.image@ == inner.image@,
                Rasterization::NeedsRender { scene, request } => *self
                    matches OmniCanvas::VectorCanvas { inner } && scene.elements@
                    == inner.elements@ && request == (RenderRequest {
                    width,
                    height,
                    antialias,
                    background: background_color,
                    preserve_height,
                }),
            },
    {
        self.clone().into_raster_canvas(width, height, antialias, background_color, preserve_height)
    }
}

impl Clone for OmniCanvas {
    fn clone(&self) -> (res: Self)
        ensures
            *self matches OmniCanvas::VectorCanvas { inner } ==> res
                matches OmniCanvas::VectorCanvas { inner: ri } && ri.elements@ == inner.elements@,
            *self matches OmniCanvas::RasterCanvas { inner } ==> res
                matches OmniCanvas::RasterCanvas { inner: ri } && ri.width == inner.width
                && ri.height == inner.height && ri.image@ == inner.image@,
            self.wf() ==> res.wf(),
            spec_vectorize(res) == spec_vectorize(*self),
    {
        match self {
            OmniCanvas::VectorCanvas { inner } => OmniCanvas::VectorCanvas {
                inner: inner.clone(),
            },
            OmniCanvas::RasterCanvas { inner } => {
                let ri = inner.clone();
                proof {
                    assert(pixels_vectorization(ri) =~= pixels_vectorization(*inner));
                }
                OmniCanvas::RasterCanvas { inner: ri }
            }
        }
    }
}

impl From<VectorCanvas> for OmniCanvas {
    fn from(canvas: VectorCanvas) -> (res: Self) {
        OmniCanvas::VectorCanvas { inner: canvas }
    }
}

impl vstd::std_specs::convert::FromSpecImpl<VectorCanvas> for OmniCanvas {
    open spec fn obeys_from_spec() -> bool {
        true
    }

    open spec fn from_spec(canvas: VectorCanvas) -> OmniCanvas {
        OmniCanvas::VectorCanvas { inner: canvas }
    }
}

impl From<RasterCanvas> for OmniCanvas {
    fn from(canvas: RasterCanvas) -> (res: Self) {
        OmniCanvas::RasterCanvas { inner: canvas }
    }
}

impl vstd::std_specs::convert::FromSpecImpl<RasterCanvas> for OmniCanvas {
    open spec fn obeys_from_spec() -> bool {
        true
    }

    open spec fn from_spec(canvas: RasterCanvas) -> OmniCanvas {
        OmniCanvas::RasterCanvas { inner: canvas }
    }
}

// ---------------------------------------------------------------------
// Export planning
// ---------------------------------------------------------------------

/// The index of the last occurrence of `b` in `s`, or -1 if there is
/// none.
pub open spec fn last_pos(s: Seq<u8>, b: u8) -> int
    decreases s.len(),
{
    if s.len() == 0 {
        -1
    } else if s[s.len() - 1] == b {
        s.len() - 1
    } else {
        last_pos(s.drop_last(), b)
    }
}

/// `last_pos` names the greatest occurrence, or -1 where there is
/// none.
pub proof fn lemma_last_pos(s: Seq<u8>, b: u8)
    ensures
        -1 <= last_pos(s, b) < s.len(),
        last_pos(s, b) >= 0 ==> s[last_pos(s, b)] == b,
        forall|j: int| last_pos(s, b) < j < s.len() ==> s[j] != b,
    decreases s.len(),
{
    if s.len() > 0 && s[s.len() - 1] != b {
        lemma_last_pos(s.drop_last(), b);
        assert(forall|j: int| 0 <= j < s.len() - 1 ==> s[j] == s.drop_last()[j]);
    }
}

/// The extension of a path: the part of the last path component after
/// its last dot, where a dot at the very start of the component (a
/// hidden file) does not count.
pub open spec fn spec_extension(path: Seq<u8>) -> Option<Seq<u8>> {
    let dot = last_pos(path, 0x2eu8);
    let name = last_pos(path, 0x2fu8) + 1;
    if dot > name {
        Some(path.subrange(dot + 1, path.len() as int))
    } else {
        None
    }
}

/// The raster encodings the save operation knows.
#[derive(Clone, Copy, PartialEq, Eq, Structural, Debug)]
pub enum RasterFormat {
    Bmp,
    Png,
    Jpg,
    Tiff,
}

/// The output family a path's extension selects.
#[derive(Clone, Copy, PartialEq, Eq, Structural, Debug)]
pub enum OutputFormat {
    Raster(RasterFormat),
    Svg,
}

/// Saving fails only on an unrecognized or missing extension; nothing
/// is written in that case.
#[derive(Clone, Copy, PartialEq, Eq, Structural, Debug)]
pub enum SaveError {
    UnsupportedOutputType,
}

impl SaveError {
    pub fn message(&self) -> (m: &'static str) {
        "That is not a valid output type."
    }
}

/// The output family a path maps to, if any: `bmp`, `png`, `jpg` and
/// `tiff` select raster encodings, `svg` the vector text output, and
/// anything else nothing. The match is case-sensitive.
pub open spec fn spec_output_format(path: Seq<u8>) -> Option<OutputFormat> {
    match spec_extension(path) {
        Some(e) => {
            if e == seq![0x62u8, 0x6du8, 0x70u8] {
                Some(OutputFormat::Raster(RasterFormat::Bmp))
            } else if e == seq![0x70u8, 0x6eu8, 0x67u8] {
                Some(OutputFormat::Raster(RasterFormat::Png))
            } else if e == seq![0x6au8, 0x70u8, 0x67u8] {
                Some(OutputFormat::Raster(RasterFormat::Jpg))
            } else if e == seq![0x74u8, 0x69u8, 0x66u8, 0x66u8] {
                Some(OutputFormat::Raster(RasterFormat::Tiff))
            } else if e == seq![0x73u8, 0x76u8, 0x67u8] {
                Some(OutputFormat::Svg)
            } else {
                None
            }
        },
        None => None,
    }
}

/// The index of the last occurrence of `b`, scanning from the end.
fn rfind(path: &[u8], b: u8) -> (r: Option<usize>)
    ensures
        match r {
            Some(i) => i == last_pos(path@, b),
            None => last_pos(path@, b) == -1,
        },
{
    proof {
        lemma_last_pos(path@, b);
    }
    let mut i: usize = path.len();
    while i > 0
        invariant
            i <= path@.len(),
            forall|j: int| i <= j < path@.len() ==> path@[j] != b,
            -1 <= last_pos(path@, b) < path@.len(),
            last_pos(path@, b) >= 0 ==> path@[last_pos(path@, b)] == b,
            forall|j: int| last_pos(path@, b) < j < path@.len() ==> path@[j] != b,
        decreases i,
    {
        i -= 1;
        if path[i] == b {
            return Some(i);
        }
    }
    None
}

/// Parses the path's extension and selects the output family, exactly
/// as the dispatch table states; an unknown or missing extension is
/// the unsupported-output error.
pub fn output_format(path: &[u8]) -> (r: Result<OutputFormat, SaveError>)
    ensures
        match spec_output_format(path@) {
            Some(f) => r == Ok::<OutputFormat, SaveError>(f),
            None => r == Err::<OutputFormat, SaveError>(SaveError::UnsupportedOutputType),
        },
{
    let n = path.len();
    proof {
        lemma_last_pos(path@, 0x2eu8);
        lemma_last_pos(path@, 0x2fu8);
    }
    let dot = rfind(path, 0x2eu8);
    let slash = rfind(path, 0x2fu8);
    let name_start: usize = match slash {
        Some(i) => i + 1,
        None => 0,
    };
    let ext_start: usize = match dot {
        Some(i) => {
            if i > name_start {
                i + 1
            } else {
                return Err(SaveError::UnsupportedOutputType);
            }
        },
        None => {
            return Err(SaveError::UnsupportedOutputType);
        },
    };
    let ghost ext = spec_extension(path@).unwrap();
    proof {
        assert(ext =~= path@.subrange(ext_start as int, path@.len() as int));
    }
    let len = n - ext_start;
    if len == 3 {
        let c0 = path[ext_start];
        let c1 = path[ext_start + 1];
        let c2 = path[ext_start + 2];
        proof {
            assert(ext.len() == 3);
            assert(ext[0] == c0 && ext[1] == c1 && ext[2] == c2);
        }
        if c0 == 0x62 && c1 == 0x6d && c2 == 0x70 {
            proof {
                assert(ext =~= seq![0x62u8, 0x6du8, 0x70u8]);
            }
            Ok(OutputFormat::Raster(RasterFormat::Bmp))
        } else if c0 == 0x70 && c1 == 0x6e && c2 == 0x67 {
            proof {
                assert(ext =~= seq![0x70u8, 0x6eu8, 0x67u8]);
            }
            Ok(OutputFormat::Raster(RasterFormat::Png))
        } else if c0 == 0x6a && c1 == 0x70 && c2 == 0x67 {
            proof {
                assert(ext =~= seq![0x6au8, 0x70u8, 0x67u8]);
            }
            Ok(OutputFormat::Raster(RasterFormat::Jpg))
        } else if c0 == 0x73 && c1 == 0x76 && c2 == 0x67 {
            proof {
                assert(ext =~= seq![0x73u8, 0x76u8, 0x67u8]);
            }
            Ok(OutputFormat::Svg)
        } else {
            proof {
                lemma_three_byte_ext_mismatch(ext, c0, c1, c2);
            }
            Err(SaveError::UnsupportedOutputType)
        }
    } else if len == 4 {
        let c0 = path[ext_start];
        let c1 = path[ext_start + 1];
        let c2 = path[ext_start + 2];
        let c3 = path[ext_start + 3];
        if c0 == 0x74 && c1 == 0x69 && c2 == 0x66 && c3 == 0x66 {
            proof {
                assert(ext =~= seq![0x74u8, 0x69u8, 0x66u8, 0x66u8]);
            }
            Ok(OutputFormat::Raster(RasterFormat::Tiff))
        } else {
            proof {
                lemma_ext_len_mismatch(ext, 3);
                assert(ext != seq![0x74u8, 0x69u8, 0x66u8, 0x66u8]);
            }
            Err(SaveError::UnsupportedOutputType)
        }
    } else {
        proof {
            lemma_ext_len_mismatch(ext, 3);
            lemma_ext_len_mismatch(ext, 4);
        }
        Err(SaveError::UnsupportedOutputType)
    }
}

/// A sequence whose length is not `n` differs from every sequence of
/// length `n`.
proof fn lemma_ext_len_mismatch(e: Seq<u8>, n: int)
    requires
        e.len() != n,
    ensures
        forall|f: Seq<u8>| f.len() == n ==> e != f,
{
}

/// A three-byte sequence is determined by its three bytes.
proof fn lemma_three_byte_ext_mismatch(e: Seq<u8>, c0: u8, c1: u8, c2: u8)
    requires
        e.len() == 3,
        e[0] == c0,
        e[1] == c1,
        e[2] == c2,
        !(c0 == 0x62 && c1 == 0x6d && c2 == 0x70),
        !(c0 == 0x70 && c1 == 0x6e && c2 == 0x67),
        !(c0 == 0x6a && c1 == 0x70 && c2 == 0x67),
        !(c0 == 0x73 && c1 == 0x76 && c2 == 0x67),
    ensures
        e != seq![0x62u8, 0x6du8, 0x70u8],
        e != seq![0x70u8, 0x6eu8, 0x67u8],
        e != seq![0x6au8, 0x70u8, 0x67u8],
        e != seq![0x73u8, 0x76u8, 0x67u8],
{
}

/// Everything needed to render vector text output.
#[derive(Clone, Copy, PartialEq, Eq, Structural, Debug)]
pub struct SvgOptions {
    pub width: u32,
    pub height: u32,
    pub background: Option<Color>,
    pub antialias: bool,
    pub preserve_height: bool,
    /// Fixed stroke width the vector text output is rendered with.
    pub stroke_width: u32,
}

/// What remains to be done outside to finish a save: encode a raster
/// image (rendering the scene first where one is pending) and write
/// the bytes, or serialize a vector scene as SVG text and write it.
#[derive(Debug)]
pub enum SaveJob {
    EncodeRaster { format: RasterFormat, rasterization: Rasterization },
    WriteSvg { scene: VectorCanvas, options: SvgOptions },
}

impl OmniCanvas {
    /// Plans a save: dispatches purely on the path's extension.
    ///
    /// `bmp`, `png`, `jpg` and `tiff` rasterize at the given size with
    /// antialiasing on, then encode in that format; `svg` vectorizes
    /// pixel by pixel and serializes with antialiasing off and the
    /// fixed stroke width; any other or missing extension fails at
    /// once, and no job — so no file — is produced.
    pub fn plan_save(
        &self,
        path: &[u8],
        width: u32,
        height: u32,
        background_color: Option<Color>,
        preserve_height: bool,
    ) -> (r: Result<SaveJob, SaveError>)
        requires
            self.wf(),
        ensures
            match spec_output_format(path@) {
                Some(OutputFormat::Raster(f)) => r matches Ok(SaveJob::EncodeRaster {
                    format,
                    rasterization,
                }) && format == f && match rasterization {
                    Rasterization::Ready { canvas } => *self matches OmniCanvas::RasterCanvas {
                        inner,
                    } && canvas.width == inner.width && canvas.height == inner.height
                        && canvas.image@ == inner.image@,
                    Rasterization::NeedsRender { scene, request } => *self
                        matches OmniCanvas::VectorCanvas { inner } && scene.elements@
                        == inner.elements@ && request == (RenderRequest {
                        width,
                        height,
                        antialias: true,
                        background: background_color,
                        preserve_height,
                    }),
                },
                Some(OutputFormat::Svg) => r matches Ok(SaveJob::WriteSvg { scene, options })
                    && scene.elements@ == spec_vectorize(*self) && options == (SvgOptions {
                    width,
                    height,
                    background: background_color,
                    antialias: false,
                    preserve_height,
                    stroke_width: SVG_STROKE_WIDTH,
                }),
                None => r == Err::<SaveJob, SaveError>(SaveError::UnsupportedOutputType),
            },
    {
        let format = match output_format(path) {
            Ok(f) => f,
            Err(e) => {
                return Err(e);
            },
        };
        match format {
            OutputFormat::Raster(format) => Ok(SaveJob::EncodeRaster {
                format,
                rasterization: self.as_raster_canvas(
                    width,
                    height,
                    true,
                    background_color,
                    preserve_height,
                ),
            }),
            OutputFormat::Svg => Ok(SaveJob::WriteSvg {
                scene: self.as_vector_canvas(VectorizerStyle::Pixels),
                options: SvgOptions {
                    width,
                    height,
                    background: background_color,
                    antialias: false,
                    preserve_height,
                    stroke_width: SVG_STROKE_WIDTH,
                },
            }),
        }
    }
}

/// A row-major index lies inside the pixel sequence.
pub proof fn lemma_row_major_index_in_range(x: int, y: int, width: int, height: int)
    requires
        0 <= x < width,
        0 <= y < height,
    ensures
        0 <= y * width + x < width * height,
{
    assert(y * width + x < width * height) by (nonlinear_arith)
        requires 0 <= x < width, 0 <= y < height;
    assert(y * width >= 0) by (nonlinear_arith)
        requires y >= 0, width > 0;
}

} // verus!
