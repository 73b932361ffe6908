use crate::rng::random_seed;
use crate::rng::rng_below;
use crate::rng::seed_after;
use crate::rng::step_seed;
use crate::rng::step_val;
use crate::theme::Color;
use crate::trig::sin_milli;
use crate::trig::sin_milli_spec;
use vstd::arithmetic::div_mod::{lemma_div_is_ordered, lemma_div_multiples_vanish};
use vstd::prelude::*;

verus! {

/// A single star with fixed-point position and parallax layer.
#[derive(Debug, Clone, Copy, PartialEq, Eq, Structural)]
pub struct Star {
    /// Horizontal position in milli-cells
    pub x: u32,
    /// Vertical position in milli-cells
    pub y: u32,
    /// Parallax layer: 0 = far (dim, slow), 2 = near (bright, fast)
    pub layer: u8,
    /// Twinkle phase offset in milliradians
    pub phase: u32,
}

/// Manages the starfield background effect.
#[derive(Debug, Clone)]
pub struct Starfield {
    pub stars: Vec<Star>,
    /// Current generator state; advanced by every draw.
    pub seed: u64,
    pub width: u16,
    pub height: u16,
}

/// How many stars a field of the given dimensions holds at a density of
/// 0-100: one star per 8 cells at full density, none at zero.
pub open spec fn star_count(width: u16, height: u16, density: u32) -> int {
    (width as int * height as int * density as int) / 800
}

/// The star drawn from four consecutive generator steps: position uniform
/// over the area, a layer from halving a draw in [0, 6), and a twinkle phase
/// below one turn.
pub open spec fn mk_star(seed: u64, w: u16, h: u16) -> Star {
    Star {
        x: (step_val(seed) as int % (w as int * 1000)) as u32,
        y: (step_val(seed_after(seed, 1)) as int % (h as int * 1000)) as u32,
        layer: ((step_val(seed_after(seed, 2)) as int % 6) / 2) as u8,
        phase: (step_val(seed_after(seed, 3)) as int % 6284) as u32,
    }
}

/// The full population drawn from a seed: star `k` consumes generator steps
/// `4k` through `4k+3`.
pub open spec fn stars_from(seed: u64, n: nat, w: u16, h: u16) -> Seq<Star>
    decreases n,
{
    if n == 0 {
        Seq::empty()
    } else {
        stars_from(seed, (n - 1) as nat, w, h).push(
            mk_star(seed_after(seed, 4 * (n - 1) as nat), w, h),
        )
    }
}

/// A star that lies within the field and has a valid layer and phase.
pub open spec fn star_wf(s: Star, w: u16, h: u16) -> bool {
    &&& s.x < w as int * 1000
    &&& s.y < h as int * 1000
    &&& s.layer <= 2
    &&& s.phase < 6284
}

/// Parallax drift speed in milli-cells per second.
pub open spec fn speed_mc(layer: u8) -> int {
    if layer == 0 {
        200
    } else if layer == 1 {
        500
    } else {
        1000
    }
}

/// How far a star of a layer drifts in `dt_ms` milliseconds, in milli-cells.
pub open spec fn move_amount(layer: u8, dt_ms: u32) -> int {
    speed_mc(layer) * dt_ms / 1000
}

/// One tick of a single star: drift left by the layer speed; on crossing the
/// left edge, wrap by a full width and redraw the row from the generator.
/// The twinkle phase advances by 2 milliradians per millisecond, modulo one
/// turn.
pub open spec fn tick_star(s: Star, seed: u64, w: u16, h: u16, dt_ms: u32) -> (Star, u64) {
    let m = move_amount(s.layer, dt_ms);
    let phase2 = ((s.phase + 2 * dt_ms as int) % 6284) as u32;
    if s.x >= m {
        (Star { x: (s.x - m) as u32, y: s.y, layer: s.layer, phase: phase2 }, seed)
    } else {
        (
            Star {
                x: (s.x + w as int * 1000 - m) as u32,
                y: (step_val(seed) as int % (h as int * 1000)) as u32,
                layer: s.layer,
                phase: phase2,
            },
            step_seed(seed),
        )
    }
}

/// One tick of the whole field, threading the generator seed through the
/// stars in order.
pub open spec fn tick_seq(stars: Seq<Star>, seed: u64, w: u16, h: u16, dt_ms: u32) -> (
    Seq<Star>,
    u64,
)
    decreases stars.len(),
{
    if stars.len() == 0 {
        (Seq::<Star>::empty(), seed)
    } else {
        let prev = tick_seq(stars.drop_last(), seed, w, h, dt_ms);
        let st = tick_star(stars.last(), prev.1, w, h, dt_ms);
        (prev.0.push(st.0), st.1)
    }
}

/// Base per-mille brightness of a layer.
pub open spec fn base_brightness(layer: u8) -> int {
    if layer == 0 {
        300
    } else if layer == 1 {
        600
    } else {
        900
    }
}

/// Per-mille brightness of a star: the layer base plus a fifth of the
/// sine of the twinkle phase, clamped into [0, 1000].
pub open spec fn star_brightness_spec(s: Star) -> int {
    let tw = sin_milli_spec(s.phase as int);
    let t = if tw >= 0 {
        tw / 5
    } else {
        -((-tw) / 5)
    };
    let b = base_brightness(s.layer) + t;
    if b > 1000 {
        1000
    } else if b < 0 {
        0
    } else {
        b
    }
}

/// Linear interpolation of one color channel from `a` toward `b` by a
/// per-mille factor `t`.
pub open spec fn lerp_spec(a: u8, b: u8, t: int) -> int {
    if b >= a {
        a + (b - a) * t / 1000
    } else {
        a - (a - b) * t / 1000
    }
}

/// The RGB triple of a color; non-RGB colors fall back to mid gray.
pub open spec fn color_rgb_spec(c: Color) -> (u8, u8, u8) {
    match c {
        Color::Rgb(r, g, b) => (r, g, b),
        _ => (128, 128, 128),
    }
}

/// The color of a star: each channel interpolated from dim toward bright by
/// the per-mille brightness.
pub open spec fn star_color_spec(brightness: int, bright: Color, dim: Color) -> Color {
    let bc = color_rgb_spec(bright);
    let dc = color_rgb_spec(dim);
    Color::Rgb(
        lerp_spec(dc.0, bc.0, brightness) as u8,
        lerp_spec(dc.1, bc.1, brightness) as u8,
        lerp_spec(dc.2, bc.2, brightness) as u8,
    )
}

/// The glyph a star is drawn with, by layer.
pub open spec fn star_char_spec(s: Star) -> char {
    if s.layer == 0 {
        '·'
    } else if s.layer == 1 {
        '∘'
    } else {
        '✦'
    }
}

impl Starfield {
    /// Every star lies within the current dimensions.
    pub open spec fn wf(self) -> bool {
        forall|i: int|
            0 <= i < self.stars@.len() ==> star_wf(
                #[trigger] self.stars@[i],
                self.width,
                self.height,
            )
    }

    pub open spec fn spec_width(self) -> u16 {
        self.width
    }

    pub open spec fn spec_height(self) -> u16 {
        self.height
    }

    pub open spec fn spec_seed(self) -> u64 {
        self.seed
    }

    /// Create a new starfield filling the given dimensions. `density` is
    /// 0-100 controlling how many stars to generate; a fixed seed yields a
    /// bit-identical field on every run.
    pub fn new(width: u16, height: u16, density: u32, seed: Option<u64>) -> (r: Starfield)
        requires
            density <= 100,
        ensures
            r.spec_width() == width,
            r.spec_height() == height,
            r.wf(),
            r.stars@.len() == star_count(width, height, density),
            seed matches Some(s) ==> r.stars@ == stars_from(
                s,
                star_count(width, height, density) as nat,
                width,
                height,
            ) && r.spec_seed() == seed_after(
                s,
                (4 * star_count(width, height, density)) as nat,
            ),
    {
        let s0: u64 = match seed {
            Some(s) => s,
            None => random_seed(),
        };
        let mut sf = Starfield { stars: Vec::new(), seed: s0, width, height };
        sf.populate(density);
        sf
    }

    /// Populate stars based on density (0-100), consuming four generator
    /// steps per star.
    fn populate(&mut self, density: u32)
        requires
            density <= 100,
        ensures
            final(self).width == old(self).width,
            final(self).height == old(self).height,
            final(self).wf(),
            final(self).stars@.len() == star_count(old(self).width, old(self).height, density),
            final(self).stars@ == stars_from(
                old(self).seed,
                star_count(old(self).width, old(self).height, density) as nat,
                old(self).width,
                old(self).height,
            ),
            final(self).seed == seed_after(
                old(self).seed,
                (4 * star_count(old(self).width, old(self).height, density)) as nat,
            ),
    {
        let w = self.width;
        let h = self.height;
        let ghost seed0 = self.seed;
        proof {
            assert(w as int * h as int <= 65535 * 65535) by (nonlinear_arith)
                requires
                    w <= 65535,
                    h <= 65535,
            ;
        }
        let area: u64 = (w as u64) * (h as u64);
        proof {
            assert(area as int * density as int <= 4294836225 * 100) by (nonlinear_arith)
                requires
                    area <= 4294836225,
                    density <= 100,
            ;
            assert((w as int == 0 || h as int == 0) ==> w as int * h as int == 0)
                by (nonlinear_arith);
        }
        let count: u64 = area * (density as u64) / 800;
        proof {
            if w == 0 || h == 0 {
                assert(area == 0);
                assert(area as int * density as int == 0) by (nonlinear_arith)
                    requires
                        area == 0,
                ;
                assert(count == 0);
            }
        }
        self.stars = Vec::new();
        let mut i: u64 = 0;
        while i < count
            invariant
                i <= count,
                count == star_count(w, h, density),
                self.width == w,
                self.height == h,
                count > 0 ==> w > 0 && h > 0,
                self.stars@.len() == i,
                self.stars@ == stars_from(seed0, i as nat, w, h),
                self.seed == seed_after(seed0, (4 * i) as nat),
                forall|j: int|
                    0 <= j < self.stars@.len() ==> star_wf(#[trigger] self.stars@[j], w, h),
            decreases count - i,
        {
            let w_mc: u64 = (w as u64) * 1000;
            let h_mc: u64 = (h as u64) * 1000;
            let d1 = rng_below(self.seed, w_mc);
            let d2 = rng_below(d1.0, h_mc);
            let d3 = rng_below(d2.0, 6);
            let d4 = rng_below(d3.0, 6284);
            let star = Star {
                x: d1.1 as u32,
                y: d2.1 as u32,
                layer: (d3.1 / 2) as u8,
                phase: d4.1 as u32,
            };
            proof {
                let k = (4 * i) as nat;
                let cur = seed_after(seed0, k);
                assert(seed_after(cur, 0) == cur);
                assert(seed_after(cur, 1) == step_seed(cur));
                assert(seed_after(cur, 2) == step_seed(seed_after(cur, 1)));
                assert(seed_after(cur, 3) == step_seed(seed_after(cur, 2)));
                assert(seed_after(seed0, (k + 1) as nat) == step_seed(seed_after(seed0, k)));
                assert(seed_after(seed0, (k + 2) as nat) == step_seed(
                    seed_after(seed0, (k + 1) as nat),
                ));
                assert(seed_after(seed0, (k + 3) as nat) == step_seed(
                    seed_after(seed0, (k + 2) as nat),
                ));
                assert(seed_after(seed0, (k + 4) as nat) == step_seed(
                    seed_after(seed0, (k + 3) as nat),
                ));
                assert(star == mk_star(seed_after(seed0, k), w, h));
                assert(stars_from(seed0, (i + 1) as nat, w, h) == stars_from(
                    seed0,
                    i as nat,
                    w,
                    h,
                ).push(mk_star(seed_after(seed0, k), w, h)));
            }
            self.stars.push(star);
            self.seed = d4.0;
            i = i + 1;
        }
    }

    /// Advance the starfield animation by `dt_ms` milliseconds: stars drift
    /// left by their layer speed, wrap to a fresh row when they cross the
    /// left edge, and their twinkle phases advance.
    pub fn tick(&mut self, dt_ms: u32)
        requires
            old(self).wf(),
            old(self).stars@.len() == 0 || dt_ms <= old(self).spec_width() as u32 * 1000,
        ensures
            final(self).wf(),
            final(self).spec_width() == old(self).spec_width(),
            final(self).spec_height() == old(self).spec_height(),
            final(self).stars@.len() == old(self).stars@.len(),
            final(self).stars@ == tick_seq(
                old(self).stars@,
                old(self).spec_seed(),
                old(self).spec_width(),
                old(self).spec_height(),
                dt_ms,
            ).0,
            final(self).spec_seed() == tick_seq(
                old(self).stars@,
                old(self).spec_seed(),
                old(self).spec_width(),
                old(self).spec_height(),
                dt_ms,
            ).1,
    {
        let ghost stars0 = self.stars@;
        let ghost seed0 = self.seed;
        let w = self.width;
        let h = self.height;
        let n = self.stars.len();
        let mut out: Vec<Star> = Vec::new();
        let mut seed_cur: u64 = self.seed;
        let mut i: usize = 0;
        while i < n
            invariant
                i <= n,
                n == stars0.len(),
                self.stars@ == stars0,
                self.width == w,
                self.height == h,
                n > 0 ==> dt_ms <= w as int * 1000,
                forall|j: int| 0 <= j < n ==> star_wf(#[trigger] stars0[j], w, h),
                out@ == tick_seq(stars0.take(i as int), seed0, w, h, dt_ms).0,
                seed_cur == tick_seq(stars0.take(i as int), seed0, w, h, dt_ms).1,
                out@.len() == i,
                forall|j: int| 0 <= j < out@.len() ==> star_wf(#[trigger] out@[j], w, h),
            decreases n - i,
        {
            let s = self.stars[i];
            let speed: u64 = if s.layer == 0 {
                200
            } else if s.layer == 1 {
                500
            } else {
                1000
            };
            proof {
                lemma_div_is_ordered(
                    speed as int * dt_ms as int,
                    1000 * dt_ms as int,
                    1000,
                );
                lemma_div_multiples_vanish(dt_ms as int, 1000);
                assert(speed as int * dt_ms as int <= 1000 * dt_ms as int) by (nonlinear_arith)
                    requires
                        speed <= 1000,
                        0 <= dt_ms,
                ;
            }
            let m: u32 = ((speed * dt_ms as u64) / 1000) as u32;
            let phase2: u32 = (s.phase + 2 * dt_ms) % 6284;
            let ghost seed_in = seed_cur;
            let s2: Star;
            if s.x >= m {
                s2 = Star { x: s.x - m, y: s.y, layer: s.layer, phase: phase2 };
            } else {
                let h_mc: u64 = (h as u64) * 1000;
                let r = rng_below(seed_cur, h_mc);
                seed_cur = r.0;
                let wmc: u32 = (w as u32) * 1000;
                s2 = Star { x: s.x + (wmc - m), y: r.1 as u32, layer: s.layer, phase: phase2 };
            }
            proof {
                let t1 = stars0.take(i as int + 1);
                assert(t1.drop_last() =~= stars0.take(i as int));
                assert(t1.last() == stars0[i as int]);
                assert(s2 == tick_star(stars0[i as int], seed_in, w, h, dt_ms).0);
                assert(seed_cur == tick_star(stars0[i as int], seed_in, w, h, dt_ms).1);
            }
            out.push(s2);
            i = i + 1;
        }
        proof {
            assert(stars0.take(n as int) =~= stars0);
        }
        self.stars = out;
        self.seed = seed_cur;
    }

    /// Resize the starfield. Re-populates (a fresh draw from the current
    /// generator state) if dimensions changed; otherwise leaves everything
    /// untouched.
    pub fn resize(&mut self, width: u16, height: u16, density: u32)
        requires
            density <= 100,
            old(self).wf(),
        ensures
            final(self).wf(),
            width == old(self).spec_width() && height == old(self).spec_height() ==> *final(self)
                == *old(self),
            width != old(self).spec_width() || height != old(self).spec_height() ==> {
                &&& final(self).spec_width() == width
                &&& final(self).spec_height() == height
                &&& final(self).stars@.len() == star_count(width, height, density)
                &&& final(self).stars@ == stars_from(
                    old(self).spec_seed(),
                    star_count(width, height, density) as nat,
                    width,
                    height,
                )
                &&& final(self).spec_seed() == seed_after(
                    old(self).spec_seed(),
                    (4 * star_count(width, height, density)) as nat,
                )
            },
    {
        if width != self.width || height != self.height {
            self.width = width;
            self.height = height;
            self.populate(density);
        }
    }

    /// Get the character for a star. Layers above 2 are out of the domain;
    /// every star a field holds satisfies this through `star_wf`.
    pub fn star_char(star: &Star) -> (r: char)
        requires
            star.layer <= 2,
        ensures
            r == star_char_spec(*star),
    {
        if star.layer == 0 {
            '·'
        } else if star.layer == 1 {
            '∘'
        } else {
            '✦'
        }
    }

    /// Compute a star's per-mille brightness (0-1000) including twinkle;
    /// it never leaves that range, whatever the layer and phase.
    pub fn star_brightness(star: &Star) -> (r: u32)
        requires
            star.phase < 6284,
        ensures
            r == star_brightness_spec(*star),
            r <= 1000,
    {
        let base: u32 = if star.layer == 0 {
            300
        } else if star.layer == 1 {
            600
        } else {
            900
        };
        let tw = sin_milli(star.phase);
        if tw >= 0 {
            let b = base + (tw as u32) / 5;
            if b > 1000 {
                1000
            } else {
                b
            }
        } else {
            let d = ((-tw) as u32) / 5;
            base - d
        }
    }

    /// Interpolate between dim and bright star colors based on per-mille
    /// brightness.
    pub fn star_color(brightness: u32, bright: Color, dim: Color) -> (r: Color)
        requires
            brightness <= 1000,
        ensures
            r == star_color_spec(brightness as int, bright, dim),
    {
        let b3 = color_rgb(bright);
        let d3 = color_rgb(dim);
        Color::Rgb(
            lerp_u8(d3.0, b3.0, brightness),
            lerp_u8(d3.1, b3.1, brightness),
            lerp_u8(d3.2, b3.2, brightness),
        )
    }
}

/// The RGB channels of a color, with a mid-gray fallback for named colors.
fn color_rgb(c: Color) -> (r: (u8, u8, u8))
    ensures
        r == color_rgb_spec(c),
{
    match c {
        Color::Rgb(r, g, b) => (r, g, b),
        _ => (128, 128, 128),
    }
}

/// Interpolate one channel from `a` toward `b` by the per-mille factor `t`;
/// the result always lies between the two.
pub(crate) fn lerp_u8(a: u8, b: u8, t: u32) -> (r: u8)
    requires
        t <= 1000,
    ensures
        r as int == lerp_spec(a, b, t as int),
{
    if b >= a {
        let diff: u32 = (b - a) as u32;
        proof {
            assert(diff as int * t as int <= diff as int * 1000 <= 255000) by (nonlinear_arith)
                requires
                    t <= 1000,
                    0 <= diff <= 255,
            ;
            lemma_div_is_ordered(diff as int * t as int, diff as int * 1000, 1000);
            lemma_div_multiples_vanish(diff as int, 1000);
            assert(diff as int * 1000 == 1000 * diff as int);
        }
        let d: u32 = diff * t / 1000;
        a + (d as u8)
    } else {
        let diff: u32 = (a - b) as u32;
        proof {
            assert(diff as int * t as int <= diff as int * 1000 <= 255000) by (nonlinear_arith)
                requires
                    t <= 1000,
                    0 <= diff <= 255,
            ;
            lemma_div_is_ordered(diff as int * t as int, diff as int * 1000, 1000);
            lemma_div_multiples_vanish(diff as int, 1000);
            assert(diff as int * 1000 == 1000 * diff as int);
        }
        let d: u32 = diff * t / 1000;
        a - (d as u8)
    }
}

/// Density monotonicity: for fixed dimensions the star count never falls as
/// the density rises, and density zero yields an empty field.
pub proof fn lemma_density_monotonic(width: u16, height: u16, d1: u32, d2: u32)
    requires
        d1 <= d2,
    ensures
        star_count(width, height, d1) <= star_count(width, height, d2),
        star_count(width, height, 0) == 0,
{
    let a = width as int * height as int;
    assert(a * d1 <= a * d2) by (nonlinear_arith)
        requires
            d1 <= d2,
            0 <= a,
    ;
    lemma_div_is_ordered(a * d1 as int, a * d2 as int, 800);
    assert(a * 0 == 0) by (nonlinear_arith);
}

/// Resize effect: growing the area at a fixed density never reduces the star
/// count; so whenever the count changes after such a resize, it grows.
pub proof fn lemma_area_monotonic(w1: u16, h1: u16, w2: u16, h2: u16, density: u32)
    requires
        w1 as int * h1 as int <= w2 as int * h2 as int,
    ensures
        star_count(w1, h1, density) <= star_count(w2, h2, density),
{
    let a1 = w1 as int * h1 as int;
    let a2 = w2 as int * h2 as int;
    assert(a1 * density <= a2 * density) by (nonlinear_arith)
        requires
            a1 <= a2,
            0 <= density,
    ;
    lemma_div_is_ordered(a1 * density as int, a2 * density as int, 800);
}

/// Determinism: two starfields built from the same seed, density and
/// dimensions hold the same stars, in count, position, layer and phase
/// alike. (`Starfield::new` pins its whole result to `stars_from`, so any
/// two such constructions agree.)
pub proof fn lemma_starfield_deterministic(a: Starfield, b: Starfield, w: u16, h: u16, d: u32, s: u64)
    requires
        a.stars@ == stars_from(s, star_count(w, h, d) as nat, w, h),
        b.stars@ == stars_from(s, star_count(w, h, d) as nat, w, h),
    ensures
        a.stars@ == b.stars@,
        a.stars@.len() == b.stars@.len(),
{
}

/// Wrap invariant: in a well-formed field every star's x coordinate lies
/// within [0, width) cells; it is in particular never negative.
pub proof fn lemma_wrap_invariant(sf: Starfield)
    requires
        sf.wf(),
    ensures
        forall|i: int|
            0 <= i < sf.stars@.len() ==> 0 <= (#[trigger] sf.stars@[i]).x < sf.spec_width()
                as int * 1000,
{
}

} // verus!
