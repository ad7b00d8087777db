use vstd::prelude::*;
use crate::canvas::{CanvasElement, FxPoint, Paint, Shape, VectorCanvas, POS_UNIT, ROTATION_TURN};
use crate::color::Color;

verus! {

/// Fixed-point value of the fraction 1.0: rates and thresholds are
/// held in parts per million.
pub const FRAC_ONE: u32 = 1000000;

/// Increment of the splitmix64 generator state.
pub const SPLITMIX_INCREMENT: u64 = 0x9e3779b97f4a7c15;

// ---------------------------------------------------------------------
// Reference image
// ---------------------------------------------------------------------

/// The 8-bit RGB raster a sketcher samples its colors from, row-major,
/// three bytes per pixel.
pub struct ReferenceImage {
    pub width: u32,
    pub height: u32,
    pub data: Vec<u8>,
}

impl ReferenceImage {
    pub open spec fn wf(&self) -> bool {
        self.data@.len() == self.width * self.height * 3
    }

    /// The RGB triple of the pixel at `(x, y)`.
    pub open spec fn spec_rgb(&self, x: int, y: int) -> (u8, u8, u8) {
        let i = 3 * (y * self.width + x);
        (self.data@[i], self.data@[i + 1], self.data@[i + 2])
    }

    pub fn from_raw(width: u32, height: u32, data: Vec<u8>) -> (image: ReferenceImage)
        requires
            data@.len() == width * height * 3,
        ensures
            image.wf(),
            image.width == width,
            image.height == height,
            image.data@ == data@,
    {
        ReferenceImage { width, height, data }
    }

    /// Reads the RGB triple at `(x, y)`; the caller guarantees the
    /// coordinates are in bounds.
    pub fn rgb(&self, x: u32, y: u32) -> (p: (u8, u8, u8))
        requires
            self.wf(),
            x < self.width,
            y < self.height,
        ensures
            p == self.spec_rgb(x as int, y as int),
    {
        let len: usize = self.data.len();
        proof {
            crate::canvas::lemma_row_major_index_in_range(
                x as int,
                y as int,
                self.width as int,
                self.height as int,
            );
            assert(3 * (y * self.width + x) + 2 < 3 * (self.width * self.height))
                by (nonlinear_arith)
                requires 0 <= y * self.width + x < self.width * self.height;
            assert(self.width * self.height * 3 == 3 * (self.width * self.height))
                by (nonlinear_arith);
        }
        let i: usize = 3 * ((y as usize) * (self.width as usize) + (x as usize));
        (self.data[i], self.data[i + 1], self.data[i + 2])
    }
}

// ---------------------------------------------------------------------
// Random source
// ---------------------------------------------------------------------

/// The next state of the splitmix64 generator.
#[verifier::opaque]
pub open spec fn splitmix_next(state: u64) -> u64 {
    vstd::wrapping::u64_specs::wrapping_add(state, SPLITMIX_INCREMENT)
}

/// The output mixed out of a splitmix64 state.
#[verifier::opaque]
pub open spec fn splitmix_mix(state: u64) -> u64 {
    let z0 = vstd::wrapping::u64_specs::wrapping_mul(
        state ^ (state >> 30u64),
        0xbf58476d1ce4e5b9u64,
    );
    let z1 = vstd::wrapping::u64_specs::wrapping_mul(z0 ^ (z0 >> 27u64), 0x94d049bb133111ebu64);
    z1 ^ (z1 >> 31u64)
}

/// The random strategy a sketcher is constructed with: a deterministic
/// seeded generator, whose whole run is reproducible, or fresh
/// operating-system entropy on every draw.
pub enum SketchRng {
    Seeded { state: u64 },
    Entropy,
}

/// What one bounded draw leaves the strategy in: the seeded state
/// advances deterministically, entropy keeps no state.
pub open spec fn rng_after_draw(rng: SketchRng) -> SketchRng {
    match rng {
        SketchRng::Seeded { state } => SketchRng::Seeded { state: splitmix_next(state) },
        SketchRng::Entropy => SketchRng::Entropy,
    }
}

/// The value a seeded draw below `bound` yields from `state`.
pub open spec fn seeded_draw(state: u64, bound: u64) -> u64 {
    splitmix_mix(splitmix_next(state)) % bound
}

#[verifier::external_type_specification]
#[verifier::external_body]
pub struct ExThreadRng(rand::rngs::ThreadRng);

/// Relies on rand::thread_rng: a handle to the thread-local
/// operating-system-seeded generator.
#[verifier::external_body]
fn fresh_thread_rng() -> rand::rngs::ThreadRng {
    rand::thread_rng()
}

/// Relies on rand::Rng::gen_range over the half-open range
/// `0..bound`: a draw uniformly distributed in that range, so always
/// below `bound`; the range is non-empty, so the call cannot panic.
#[verifier::external_body]
fn thread_rng_below(rng: &mut rand::rngs::ThreadRng, bound: u64) -> (r: u64)
    requires
        bound > 0,
    ensures
        r < bound,
{
    rand::Rng::gen_range(rng, 0..bound)
}

// ---------------------------------------------------------------------
// Settings and sketcher state
// ---------------------------------------------------------------------

/// Immutable configuration of the painting procedure. Lengths are in
/// fixed-point coordinate units (`POS_UNIT` per pixel), rates and the
/// threshold in parts per million (`FRAC_ONE` is 1.0), opacities in
/// channel units (`CHANNEL_ONE` is 1.0). Nothing is validated here:
/// malformed settings are the caller's contract violation and are
/// ruled out where `step` needs them.
pub struct PreslavSketcherSettings {
    pub output_width: u32,
    pub output_height: u32,
    /// How many steps a driver is expected to run; documentation only,
    /// never enforced.
    pub expected_iterations: usize,
    pub stroke_reduction: u32,
    pub stroke_jitter: u32,
    pub stroke_inversion_threshold: u32,
    pub initial_alpha: u32,
    pub alpha_increase: u32,
    pub min_edge_count: u32,
    pub max_edge_count: u32,
    pub initial_stroke_size: u32,
}

/// The painting procedure: approximates a reference raster coarse to
/// fine with semi-transparent regular polygons, one per step. The
/// stroke size decays geometrically, the fill opacity grows linearly
/// and without bound, and once the stroke size falls to the inversion
/// threshold each polygon gets a contrast outline.
pub struct PreslavSketcher {
    pub stroke_reduction: u32,
    pub stroke_jitter: u32,
    pub stroke_inversion_threshold: u32,
    pub initial_alpha: u32,
    pub alpha_increase: u32,
    pub min_edge_count: u32,
    pub max_edge_count: u32,
    /// Current polygon radius, in coordinate units; starts at the
    /// configured initial size and decays.
    pub stroke_size: u32,
    pub initial_stroke_size: u32,
    /// Current fill opacity, in channel units; starts at the
    /// configured initial alpha and grows without clamp.
    pub alpha: u64,
    pub canvas: VectorCanvas,
    pub rng: SketchRng,
}

/// The random draws one step consumes, in the order they are made.
/// `x` and `y` are in coordinate units within the reference image,
/// `jitter_x` and `jitter_y` raw offsets in `[0, 2 * stroke_jitter)`.
#[derive(Clone, Copy, PartialEq, Eq, Structural, Debug)]
pub struct StepDraws {
    pub x: u64,
    pub y: u64,
    pub jitter_x: u64,
    pub jitter_y: u64,
    pub edge_count: u32,
    pub rotation: u32,
}

impl PreslavSketcher {
    /// What `step` needs of the configuration so that no draw panics
    /// and no update overflows: the reduction rate is a fraction of
    /// one, the edge range is non-empty and below the type maximum,
    /// and the jitter is positive (the original draws from the empty
    /// jitter interval otherwise).
    pub open spec fn settings_ok(&self) -> bool {
        self.stroke_reduction <= FRAC_ONE && self.min_edge_count <= self.max_edge_count
            && self.max_edge_count < u32::MAX && self.stroke_jitter >= 1
    }

    /// The draws are within the ranges step samples them from.
    pub open spec fn draws_ok(&self, input: ReferenceImage, d: StepDraws) -> bool {
        d.x < input.width * POS_UNIT && d.y < input.height * POS_UNIT && d.jitter_x < 2
            * self.stroke_jitter && d.jitter_y < 2 * self.stroke_jitter && self.min_edge_count
            <= d.edge_count <= self.max_edge_count && d.rotation < ROTATION_TURN
    }

    /// The draws a seeded strategy makes in one step, in order: x, y,
    /// the two jitter offsets, the edge count, the rotation.
    pub open spec fn seeded_draws(&self, input: ReferenceImage, state: u64) -> StepDraws {
        let s1 = splitmix_next(state);
        let s2 = splitmix_next(s1);
        let s3 = splitmix_next(s2);
        let s4 = splitmix_next(s3);
        let s5 = splitmix_next(s4);
        let s6 = splitmix_next(s5);
        StepDraws {
            x: splitmix_mix(s1) % (input.width * POS_UNIT) as u64,
            y: splitmix_mix(s2) % (input.height * POS_UNIT) as u64,
            jitter_x: splitmix_mix(s3) % (2 * self.stroke_jitter) as u64,
            jitter_y: splitmix_mix(s4) % (2 * self.stroke_jitter) as u64,
            edge_count: (self.min_edge_count + splitmix_mix(s5) % (self.max_edge_count
                - self.min_edge_count + 1) as u64) as u32,
            rotation: (splitmix_mix(s6) % ROTATION_TURN as u64) as u32,
        }
    }

    /// The seeded state after the six draws of one step.
    pub open spec fn rng_after_step(rng: SketchRng) -> SketchRng {
        rng_after_draw(
            rng_after_draw(
                rng_after_draw(rng_after_draw(rng_after_draw(rng_after_draw(rng)))),
            ),
        )
    }

    /// Whether the current stroke size has fallen to the inversion
    /// threshold (a fraction of the initial stroke size), so that the
    /// polygon painted now gets an outline.
    pub open spec fn outline_due(&self) -> bool {
        self.stroke_size * FRAC_ONE <= self.stroke_inversion_threshold
            * self.initial_stroke_size
    }

    /// The outline of the polygon a step paints, if one is due: white
    /// over dark fills (RGB mean below 128), black over light ones,
    /// at twice the configured initial alpha.
    pub open spec fn spec_outline(&self, r: u8, g: u8, b: u8) -> Option<Paint> {
        if self.outline_due() {
            let color = if r + g + b < 384 {
                Color { r: crate::color::CHANNEL_ONE, g: crate::color::CHANNEL_ONE, b: crate::color::CHANNEL_ONE, a: crate::color::CHANNEL_ONE }
            } else {
                Color { r: 0, g: 0, b: 0, a: crate::color::CHANNEL_ONE }
            };
            Some(Paint { color, opacity: (2 * self.initial_alpha) as u64 })
        } else {
            None
        }
    }

    /// The polygon one step paints from the given draws: a regular
    /// polygon of the current stroke size around the jittered point,
    /// filled with the sampled color at the current opacity, outlined
    /// only once the stroke size has fallen to the threshold.
    pub open spec fn step_element(&self, input: ReferenceImage, d: StepDraws) -> CanvasElement {
        let px = d.x as int / POS_UNIT as int;
        let py = d.y as int / POS_UNIT as int;
        let rgb = input.spec_rgb(px, py);
        let center = FxPoint {
            x: (d.x + d.jitter_x - self.stroke_jitter) as i64,
            y: (d.y + d.jitter_y - self.stroke_jitter) as i64,
        };
        CanvasElement {
            shape: Shape::RegularPolygon {
                center,
                radius: self.stroke_size as u64,
                edge_count: d.edge_count,
                rotation: d.rotation,
            },
            fill: Some(
                Paint {
                    color: Color::spec_from_rgba8(rgb.0, rgb.1, rgb.2, 255),
                    opacity: self.alpha,
                },
            ),
            stroke: self.spec_outline(rgb.0, rgb.1, rgb.2),
        }
    }

    /// The stroke size after one step: reduced by the truncated
    /// reduction fraction of itself.
    pub open spec fn spec_next_stroke_size(size: u32, reduction: u32) -> u32 {
        (size - (reduction * size) / (FRAC_ONE as int)) as u32
    }

    /// Builds a sketcher from its settings and a random strategy; the
    /// scene starts empty, the stroke size at its initial value, the
    /// opacity at the initial alpha.
    pub fn new(settings: &PreslavSketcherSettings, rng: SketchRng) -> (sketcher: PreslavSketcher)
        ensures
            sketcher == (PreslavSketcher {
                stroke_reduction: settings.stroke_reduction,
                stroke_jitter: settings.stroke_jitter,
                stroke_inversion_threshold: settings.stroke_inversion_threshold,
                initial_alpha: settings.initial_alpha,
                alpha_increase: settings.alpha_increase,
                min_edge_count: settings.min_edge_count,
                max_edge_count: settings.max_edge_count,
                stroke_size: settings.initial_stroke_size,
                initial_stroke_size: settings.initial_stroke_size,
                alpha: settings.initial_alpha as u64,
                canvas: sketcher.canvas,
                rng,
            }),
            sketcher.canvas.elements@ == Seq::<CanvasElement>::empty(),
    {
        PreslavSketcher {
            stroke_reduction: settings.stroke_reduction,
            stroke_jitter: settings.stroke_jitter,
            stroke_inversion_threshold: settings.stroke_inversion_threshold,
            initial_alpha: settings.initial_alpha,
            alpha_increase: settings.alpha_increase,
            min_edge_count: settings.min_edge_count,
            max_edge_count: settings.max_edge_count,
            stroke_size: settings.initial_stroke_size,
            initial_stroke_size: settings.initial_stroke_size,
            alpha: settings.initial_alpha as u64,
            canvas: VectorCanvas::new(),
            rng,
        }
    }

    /// Runs the next step of the procedure, painting one new polygon:
    /// a point is drawn uniformly inside the reference image, jittered
    /// into the polygon center, the color sampled at the unjittered
    /// point, the edge count and rotation drawn, the polygon appended,
    /// and then the stroke size decays while the opacity grows.
    ///
    /// Every draw is within its stated range; with a seeded strategy
    /// the whole step is a function of the prior state and the image,
    /// which is what makes seeded runs reproducible.
    #[verifier::rlimit(100)]
    pub fn step(&mut self, input: &ReferenceImage)
        requires
            old(self).settings_ok(),
            input.wf(),
            input.width >= 1,
            input.height >= 1,
            old(self).alpha + old(self).alpha_increase <= u64::MAX,
        ensures
            final(self).stroke_reduction == old(self).stroke_reduction,
            final(self).stroke_jitter == old(self).stroke_jitter,
            final(self).stroke_inversion_threshold == old(self).stroke_inversion_threshold,
            final(self).initial_alpha == old(self).initial_alpha,
            final(self).alpha_increase == old(self).alpha_increase,
            final(self).min_edge_count == old(self).min_edge_count,
            final(self).max_edge_count == old(self).max_edge_count,
            final(self).initial_stroke_size == old(self).initial_stroke_size,
            final(self).stroke_size == PreslavSketcher::spec_next_stroke_size(
                old(self).stroke_size,
                old(self).stroke_reduction,
            ),
            final(self).alpha == old(self).alpha + old(self).alpha_increase,
            final(self).rng == PreslavSketcher::rng_after_step(old(self).rng),
            exists|d: StepDraws|
                #[trigger] old(self).draws_ok(*input, d) && final(self).canvas.elements@ == old(
                    self,
                ).canvas.elements@.push(old(self).step_element(*input, d)),
            old(self).rng matches SketchRng::Seeded { state } ==> final(self).canvas.elements@
                == old(self).canvas.elements@.push(
                old(self).step_element(*input, old(self).seeded_draws(*input, state)),
            ),
    {
        let ghost pre = *self;
        let w_units: u64 = (input.width as u64) * (POS_UNIT as u64);
        let h_units: u64 = (input.height as u64) * (POS_UNIT as u64);
        let jitter_span: u64 = 2 * (self.stroke_jitter as u64);
        let edge_span: u64 = (self.max_edge_count - self.min_edge_count) as u64 + 1;

        let x = self.rng.next_below(w_units);
        let y = self.rng.next_below(h_units);
        let jitter_x = self.rng.next_below(jitter_span);
        let jitter_y = self.rng.next_below(jitter_span);
        let edge_count = self.min_edge_count + (self.rng.next_below(edge_span) as u32);
        let rotation = self.rng.next_below(ROTATION_TURN as u64) as u32;

        let px: u32 = (x / (POS_UNIT as u64)) as u32;
        let py: u32 = (y / (POS_UNIT as u64)) as u32;
        proof {
            assert(x as int / (POS_UNIT as int) < input.width as int) by (nonlinear_arith)
                requires x < input.width as int * (POS_UNIT as int), POS_UNIT as int > 0;
            assert(y as int / (POS_UNIT as int) < input.height as int) by (nonlinear_arith)
                requires y < input.height as int * (POS_UNIT as int), POS_UNIT as int > 0;
        }
        let (r, g, b) = input.rgb(px, py);
        let fill_color = Color::from_rgba8(r, g, b, 255);

        let center = FxPoint {
            x: (x as i64) + (jitter_x as i64) - (self.stroke_jitter as i64),
            y: (y as i64) + (jitter_y as i64) - (self.stroke_jitter as i64),
        };

        proof {
            assert((pre.stroke_inversion_threshold as int) * (pre.initial_stroke_size as int)
                < 0x10000000000000000) by (nonlinear_arith)
                requires
                    pre.stroke_inversion_threshold < 0x100000000,
                    pre.initial_stroke_size < 0x100000000;
            assert((pre.stroke_size as int) * (FRAC_ONE as int) < 0x10000000000000000)
                by (nonlinear_arith)
                requires pre.stroke_size < 0x100000000;
        }
        let outline_due = (self.stroke_size as u64) * (FRAC_ONE as u64)
            <= (self.stroke_inversion_threshold as u64) * (self.initial_stroke_size as u64);
        let stroke: Option<Paint> = if outline_due {
            let sum: u32 = (r as u32) + (g as u32) + (b as u32);
            let color = if sum < 384 {
                Color::white()
            } else {
                Color::black()
            };
            Some(Paint { color, opacity: 2 * (self.initial_alpha as u64) })
        } else {
            None
        };

        let element = CanvasElement {
            shape: Shape::RegularPolygon {
                center,
                radius: self.stroke_size as u64,
                edge_count,
                rotation,
            },
            fill: Some(Paint { color: fill_color, opacity: self.alpha }),
            stroke,
        };
        self.canvas.append(element);

        proof {
            assert((pre.stroke_reduction as int) * (pre.stroke_size as int)
                < 0x10000000000000000) by (nonlinear_arith)
                requires pre.stroke_reduction <= FRAC_ONE, pre.stroke_size < 0x100000000;
            assert((pre.stroke_reduction as int) * (pre.stroke_size as int) / (FRAC_ONE as int)
                <= pre.stroke_size as int) by (nonlinear_arith)
                requires pre.stroke_reduction <= FRAC_ONE, pre.stroke_size >= 0;
        }
        let reduction: u64 = ((self.stroke_reduction as u64) * (self.stroke_size as u64)) / (
        FRAC_ONE as u64);
        self.stroke_size = self.stroke_size - (reduction as u32);
        self.alpha = self.alpha + (self.alpha_increase as u64);

        proof {
            let d = StepDraws { x, y, jitter_x, jitter_y, edge_count, rotation };
            assert(pre.draws_ok(*input, d));
            assert(self.canvas.elements@ == pre.canvas.elements@.push(
                pre.step_element(*input, d),
            ));
        }
    }

    /// The stroke size after `n` steps.
    pub open spec fn nth_stroke_size(initial: u32, reduction: u32, n: nat) -> u32
        decreases n,
    {
        if n == 0 {
            initial
        } else {
            PreslavSketcher::spec_next_stroke_size(
                PreslavSketcher::nth_stroke_size(initial, reduction, (n - 1) as nat),
                reduction,
            )
        }
    }

    /// A read-only snapshot of the accumulated scene.
    pub fn render(&self) -> (scene: VectorCanvas)
        ensures
            scene.elements@ == self.canvas.elements@,
    {
        self.canvas.clone()
    }
}

impl SketchRng {
    /// Draws a value below `bound`. A seeded strategy is a pure
    /// function of its state; entropy promises nothing beyond the
    /// bound.
    pub fn next_below(&mut self, bound: u64) -> (r: u64)
        requires
            bound > 0,
        ensures
            r < bound,
            *final(self) == rng_after_draw(*old(self)),
            (*old(self)) matches SketchRng::Seeded { state } ==> r == seeded_draw(state, bound),
    {
        proof {
            reveal(splitmix_next);
            reveal(splitmix_mix);
        }
        match self {
            SketchRng::Seeded { state } => {
                let ns: u64 = state.wrapping_add(SPLITMIX_INCREMENT);
                let z0: u64 = (ns ^ (ns >> 30u64)).wrapping_mul(0xbf58476d1ce4e5b9u64);
                let z1: u64 = (z0 ^ (z0 >> 27u64)).wrapping_mul(0x94d049bb133111ebu64);
                let out: u64 = z1 ^ (z1 >> 31u64);
                *state = ns;
                out % bound
            },
            SketchRng::Entropy => {
                let mut rng = fresh_thread_rng();
                thread_rng_below(&mut rng, bound)
            },
        }
    }
}

// ---------------------------------------------------------------------
// Laws
// ---------------------------------------------------------------------

/// One step of stroke decay, where the reduction is a positive proper
/// fraction and the current size is still large enough for the
/// truncated decrement to be positive, strictly shrinks the stroke and
/// keeps it positive. (Once `reduction * size` falls below `FRAC_ONE`
/// the truncated decrement is zero and the size stalls rather than
/// shrinking: such sizes are excluded here.)
pub proof fn lemma_stroke_size_decreases(size: u32, reduction: u32)
    requires
        0 < reduction < FRAC_ONE,
        reduction * size >= FRAC_ONE,
    ensures
        0 < PreslavSketcher::spec_next_stroke_size(size, reduction) < size,
{
    assert(size >= 1) by (nonlinear_arith)
        requires reduction * size >= 1000000, reduction < 1000000;
    assert((reduction * size) / 1000000 >= 1) by (nonlinear_arith)
        requires reduction * size >= 1000000;
    assert((reduction * size) / 1000000 < size) by (nonlinear_arith)
        requires reduction < 1000000, reduction >= 0, size >= 1;
    assert(FRAC_ONE as int == 1000000);
}

/// Across any number of steps with a positive proper reduction
/// fraction, as long as each size stays large enough for its truncated
/// decrement to be positive, the sequence of stroke sizes is strictly
/// decreasing and stays above zero.
pub proof fn lemma_stroke_sizes_strictly_decreasing(initial: u32, reduction: u32, n: nat)
    requires
        0 < reduction < FRAC_ONE,
        forall|k: nat|
            k < n ==> reduction * #[trigger] PreslavSketcher::nth_stroke_size(
                initial,
                reduction,
                k,
            ) >= FRAC_ONE,
    ensures
        forall|k: nat|
            k < n ==> 0 < #[trigger] PreslavSketcher::nth_stroke_size(
                initial,
                reduction,
                (k + 1) as nat,
            ) < PreslavSketcher::nth_stroke_size(initial, reduction, k),
    decreases n,
{
    if n > 0 {
        lemma_stroke_sizes_strictly_decreasing(initial, reduction, (n - 1) as nat);
        lemma_stroke_size_decreases(
            PreslavSketcher::nth_stroke_size(initial, reduction, (n - 1) as nat),
            reduction,
        );
    }
}

/// Reproducibility of seeded runs: two sketchers whose configurations,
/// run state and seeded generator state agree are bound, by `step`'s
/// seeded clause, to draw the same values, append the same polygon and
/// move to the same successor state — so the same seed, settings and
/// reference image, driven by the same step calls, produce identical
/// scenes, element for element.
pub proof fn lemma_seeded_step_deterministic(
    a: PreslavSketcher,
    b: PreslavSketcher,
    input: ReferenceImage,
    state: u64,
)
    requires
        a.rng == (SketchRng::Seeded { state }),
        b.rng == a.rng,
        a.stroke_reduction == b.stroke_reduction,
        a.stroke_jitter == b.stroke_jitter,
        a.stroke_inversion_threshold == b.stroke_inversion_threshold,
        a.initial_alpha == b.initial_alpha,
        a.alpha_increase == b.alpha_increase,
        a.min_edge_count == b.min_edge_count,
        a.max_edge_count == b.max_edge_count,
        a.stroke_size == b.stroke_size,
        a.initial_stroke_size == b.initial_stroke_size,
        a.alpha == b.alpha,
    ensures
        a.seeded_draws(input, state) == b.seeded_draws(input, state),
        a.step_element(input, a.seeded_draws(input, state)) == b.step_element(
            input,
            b.seeded_draws(input, state),
        ),
        PreslavSketcher::spec_next_stroke_size(a.stroke_size, a.stroke_reduction)
            == PreslavSketcher::spec_next_stroke_size(b.stroke_size, b.stroke_reduction),
        PreslavSketcher::rng_after_step(a.rng) == PreslavSketcher::rng_after_step(b.rng),
{
}

} // verus!
