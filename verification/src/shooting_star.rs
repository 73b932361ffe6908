use crate::rng::random_seed;
use crate::rng::rng_below;
use crate::rng::rng_next;
use crate::rng::seed_after;
use crate::rng::step_seed;
use crate::rng::step_val;
use vstd::arithmetic::div_mod::lemma_div_is_ordered;
use vstd::prelude::*;

verus! {

/// A shooting star that streaks across the screen.
#[derive(Debug, Clone, Copy, PartialEq, Eq, Structural)]
pub struct ShootingStar {
    /// Current head position in milli-cells
    pub x: i64,
    pub y: i64,
    /// Velocity in milli-cells per second
    pub vx: i64,
    pub vy: i64,
    /// Trail length in cells
    pub trail_len: u8,
    /// Remaining lifetime in milliseconds
    pub life: i64,
}

/// Manager for occasional shooting star effects.
#[derive(Debug, Clone)]
pub struct ShootingStarManager {
    pub active: Vec<ShootingStar>,
    /// Milliseconds until the next spawn
    pub cooldown: i64,
    /// Current generator state; advanced by every draw.
    pub seed: u64,
    pub width: u16,
    pub height: u16,
}

/// Bounds every active star satisfies: position within the extended visible
/// region, velocity within the spawnable range, a trail of 4 to 7 cells and
/// a positive bounded lifetime.
pub open spec fn shooting_star_wf(s: ShootingStar) -> bool {
    &&& -100_000_000 <= s.x <= 100_000_000
    &&& -100_000_000 <= s.y <= 100_000_000
    &&& -100_000 <= s.vx <= 100_000
    &&& -100_000 <= s.vy <= 100_000
    &&& 4 <= s.trail_len <= 7
    &&& 0 < s.life <= 2500
}

/// Truncating (toward zero) division by 1000, the way velocities integrate.
pub open spec fn div_trunc_1000(v: int) -> int {
    if v >= 0 {
        v / 1000
    } else {
        -((-v) / 1000)
    }
}

/// A star after integrating its velocity over `dt_ms` milliseconds and
/// spending that much lifetime.
pub open spec fn moved_star(s: ShootingStar, dt_ms: u32) -> ShootingStar {
    ShootingStar {
        x: (s.x + div_trunc_1000(s.vx * dt_ms)) as i64,
        y: (s.y + div_trunc_1000(s.vy * dt_ms)) as i64,
        vx: s.vx,
        vy: s.vy,
        trail_len: s.trail_len,
        life: (s.life - dt_ms) as i64,
    }
}

/// Whether a star stays active: lifetime left and its head still within the
/// generous extended bound around the visible area.
pub open spec fn keep_star(s: ShootingStar, w: u16, h: u16) -> bool {
    &&& s.life > 0
    &&& s.x > -(s.trail_len as int * 1000)
    &&& s.x < (w as int + 10) * 1000
    &&& s.y > -2000
    &&& s.y < (h as int + 2) * 1000
}

/// One tick of the active set: every star integrates its velocity, and only
/// those still alive and in bounds are retained, in order.
pub open spec fn tick_actives(stars: Seq<ShootingStar>, w: u16, h: u16, dt_ms: u32) -> Seq<
    ShootingStar,
>
    decreases stars.len(),
{
    if stars.len() == 0 {
        Seq::empty()
    } else {
        let prev = tick_actives(stars.drop_last(), w, h, dt_ms);
        let m = moved_star(stars.last(), dt_ms);
        if keep_star(m, w, h) {
            prev.push(m)
        } else {
            prev
        }
    }
}

/// The star spawned from six consecutive generator steps: head in the right
/// 40% of the width and the top half of the height, leftward speed in
/// [20, 50) cells/s, a downward angle factor in [0.1, 0.4) scaling the
/// vertical speed, a trail of 4-7 cells and a lifetime in [1.5, 2.5) s.
pub open spec fn spawn_star(seed: u64, w: u16, h: u16) -> ShootingStar {
    let speed = 20000 + step_val(seed_after(seed, 2)) as int % 30000;
    let angle = 100 + step_val(seed_after(seed, 3)) as int % 300;
    ShootingStar {
        x: (w as int * 600 + (
        if w > 0 {
            step_val(seed) as int % (w as int * 400)
        } else {
            0
        })) as i64,
        y: (
        if h > 0 {
            step_val(seed_after(seed, 1)) as int % (h as int * 500)
        } else {
            0
        }) as i64,
        vx: (-speed) as i64,
        vy: (speed * angle / 1000) as i64,
        trail_len: (4 + step_val(seed_after(seed, 4)) as int % 4) as u8,
        life: (1500 + step_val(seed_after(seed, 5)) as int % 1000) as i64,
    }
}

/// The glyphs of the trail, head to tail; indices past the list reuse the
/// dimmest.
pub open spec fn trail_char_spec(i: int) -> char {
    if i == 0 {
        '━'
    } else if i == 1 {
        '─'
    } else if i == 2 {
        '╌'
    } else {
        '·'
    }
}

/// Unit step (in cells) walked backward along the horizontal direction.
pub open spec fn trail_dx(s: ShootingStar) -> int {
    if s.vx > 10 {
        -1
    } else if s.vx < -10 {
        1
    } else {
        1
    }
}

/// Step walked backward along the vertical direction.
pub open spec fn trail_dy(s: ShootingStar) -> int {
    if s.vy > 10 {
        -1
    } else if s.vy < -10 {
        1
    } else {
        0
    }
}

/// Milli-cells to a whole cell index, saturating at the largest cell.
pub open spec fn to_cell(mc: int) -> u16 {
    let c = mc / 1000;
    if c > 65535 {
        65535
    } else {
        c as u16
    }
}

/// The first `n` trail positions of a star: each walks one compressed step
/// further back along the velocity direction, and only positions with
/// non-negative coordinates are emitted.
pub open spec fn trail_positions_spec(s: ShootingStar, n: int) -> Seq<(u16, u16, char)>
    decreases n,
{
    if n <= 0 {
        Seq::empty()
    } else {
        let prev = trail_positions_spec(s, n - 1);
        let i = n - 1;
        let tx = s.x + trail_dx(s) * i * 1000;
        let ty = s.y + trail_dy(s) * i * 300;
        if tx >= 0 && ty >= 0 {
            prev.push((to_cell(tx), to_cell(ty), trail_char_spec(i)))
        } else {
            prev
        }
    }
}

impl ShootingStarManager {
    /// Every active star is within bounds and the spawn cooldown is a
    /// positive stretch of at most 15 seconds.
    pub open spec fn wf(self) -> bool {
        &&& forall|i: int|
            0 <= i < self.active@.len() ==> shooting_star_wf(#[trigger] self.active@[i])
        &&& 0 < self.cooldown <= 15000
    }

    /// Create a manager with no active stars and a first-spawn cooldown
    /// drawn from [3, 8) seconds.
    pub fn new(width: u16, height: u16, seed: Option<u64>) -> (r: ShootingStarManager)
        ensures
            r.wf(),
            r.active@.len() == 0,
            r.width == width,
            r.height == height,
            3000 <= r.cooldown < 8000,
            seed matches Some(s) ==> r.cooldown == 3000 + step_val(s.wrapping_add(0xDEAD)) as int
                % 5000 && r.seed == step_seed(s.wrapping_add(0xDEAD)),
    {
        let s0: u64 = match seed {
            Some(s) => s.wrapping_add(0xDEAD),
            None => random_seed(),
        };
        let d = rng_below(s0, 5000);
        ShootingStarManager {
            active: Vec::new(),
            cooldown: 3000 + (d.1 as i64),
            seed: d.0,
            width,
            height,
        }
    }

    /// Advance the shooting star animation by `dt_ms` milliseconds: integrate
    /// and cull the active set, run down the cooldown, and on expiry spawn
    /// exactly one star and redraw the cooldown from [5, 15) seconds.
    pub fn tick(&mut self, dt_ms: u32)
        requires
            old(self).wf(),
        ensures
            final(self).wf(),
            final(self).width == old(self).width,
            final(self).height == old(self).height,
            ({
                let kept = tick_actives(old(self).active@, old(self).width, old(self).height, dt_ms);
                let cd = old(self).cooldown - dt_ms;
                if cd <= 0 {
                    &&& final(self).active@ == kept.push(
                        spawn_star(old(self).seed, old(self).width, old(self).height),
                    )
                    &&& final(self).seed == seed_after(old(self).seed, 7)
                    &&& final(self).cooldown == 5000 + step_val(seed_after(old(self).seed, 6)) as int
                        % 10000
                } else {
                    &&& final(self).active@ == kept
                    &&& final(self).seed == old(self).seed
                    &&& final(self).cooldown == cd
                }
            }),
    {
        let ghost active0 = self.active@;
        let w = self.width;
        let h = self.height;
        let n = self.active.len();
        let mut out: Vec<ShootingStar> = Vec::new();
        let mut i: usize = 0;
        while i < n
            invariant
                i <= n,
                n == active0.len(),
                self.active@ == active0,
                self.width == w,
                self.height == h,
                forall|j: int| 0 <= j < n ==> shooting_star_wf(#[trigger] active0[j]),
                out@ == tick_actives(active0.take(i as int), w, h, dt_ms),
                forall|j: int| 0 <= j < out@.len() ==> shooting_star_wf(#[trigger] out@[j]),
            decreases n - i,
        {
            let s = self.active[i];
            proof {
                assert(shooting_star_wf(active0[i as int]));
                assert((s.vx as int) * (dt_ms as int) <= 100_000 * 4294967295
                    && (s.vx as int) * (dt_ms as int) >= -(100_000 * 4294967295)
                    && (s.vy as int) * (dt_ms as int) <= 100_000 * 4294967295
                    && (s.vy as int) * (dt_ms as int) >= -(100_000 * 4294967295)
                    && ((-(s.vx as int)) * (dt_ms as int) == -((s.vx as int) * (dt_ms as int)))
                    && ((-(s.vy as int)) * (dt_ms as int) == -((s.vy as int) * (dt_ms as int))))
                    by (nonlinear_arith)
                    requires
                        -100_000 <= s.vx <= 100_000,
                        -100_000 <= s.vy <= 100_000,
                        0 <= dt_ms <= 4294967295,
                ;
            }
            let dx: i64 = if s.vx >= 0 {
                (((s.vx as u64) * (dt_ms as u64)) / 1000) as i64
            } else {
                -((((-s.vx) as u64) * (dt_ms as u64) / 1000) as i64)
            };
            let dy: i64 = if s.vy >= 0 {
                (((s.vy as u64) * (dt_ms as u64)) / 1000) as i64
            } else {
                -((((-s.vy) as u64) * (dt_ms as u64) / 1000) as i64)
            };
            let m = ShootingStar {
                x: s.x + dx,
                y: s.y + dy,
                vx: s.vx,
                vy: s.vy,
                trail_len: s.trail_len,
                life: s.life - (dt_ms as i64),
            };
            if m.life > 0 && m.x > -((m.trail_len as i64) * 1000) && m.x < ((w as i64) + 10)
                * 1000 && m.y > -2000 && m.y < ((h as i64) + 2) * 1000 {
                out.push(m);
            }
            proof {
                let t1 = active0.take(i as int + 1);
                assert(t1.drop_last() =~= active0.take(i as int));
                assert(t1.last() == active0[i as int]);
                assert(m == moved_star(active0[i as int], dt_ms));
            }
            i = i + 1;
        }
        proof {
            assert(active0.take(n as int) =~= active0);
        }
        self.active = out;
        let cd: i64 = self.cooldown - (dt_ms as i64);
        if cd <= 0 {
            self.spawn();
            let r = rng_below(self.seed, 10000);
            self.cooldown = 5000 + (r.1 as i64);
            self.seed = r.0;
            proof {
                assert(seed_after(old(self).seed, 7) == step_seed(seed_after(old(self).seed, 6)));
            }
        } else {
            self.cooldown = cd;
        }
    }

    /// Spawn one star from the right edge, consuming six generator steps.
    fn spawn(&mut self)
        ensures
            final(self).active@ == old(self).active@.push(
                spawn_star(old(self).seed, old(self).width, old(self).height),
            ),
            final(self).seed == seed_after(old(self).seed, 6),
            final(self).width == old(self).width,
            final(self).height == old(self).height,
            final(self).cooldown == old(self).cooldown,
            shooting_star_wf(spawn_star(old(self).seed, old(self).width, old(self).height)),
    {
        let ghost seed0 = self.seed;
        let w = self.width;
        let h = self.height;
        let d1 = rng_next(self.seed);
        let xoff: u64 = if w > 0 {
            d1.1 % ((w as u64) * 400)
        } else {
            0
        };
        let x: i64 = ((w as u64) * 600 + xoff) as i64;
        let d2 = rng_next(d1.0);
        let y: i64 = (
        if h > 0 {
            d2.1 % ((h as u64) * 500)
        } else {
            0
        }) as i64;
        let d3 = rng_next(d2.0);
        let speed: u64 = 20000 + d3.1 % 30000;
        let d4 = rng_next(d3.0);
        let angle: u64 = 100 + d4.1 % 300;
        let d5 = rng_next(d4.0);
        let trail: u8 = 4 + (d5.1 % 4) as u8;
        let d6 = rng_next(d5.0);
        let life: i64 = (1500 + d6.1 % 1000) as i64;
        proof {
            assert(0 <= speed as int * angle as int <= 49999 * 399) by (nonlinear_arith)
                requires
                    20000 <= speed <= 49999,
                    100 <= angle <= 399,
            ;
            lemma_div_is_ordered(speed as int * angle as int, (49999 * 399) as int, 1000);
        }
        let star = ShootingStar {
            x,
            y,
            vx: -(speed as i64),
            vy: (speed * angle / 1000) as i64,
            trail_len: trail,
            life,
        };
        proof {
            assert(seed_after(seed0, 0) == seed0);
            assert(seed_after(seed0, 1) == step_seed(seed_after(seed0, 0)));
            assert(seed_after(seed0, 2) == step_seed(seed_after(seed0, 1)));
            assert(seed_after(seed0, 3) == step_seed(seed_after(seed0, 2)));
            assert(seed_after(seed0, 4) == step_seed(seed_after(seed0, 3)));
            assert(seed_after(seed0, 5) == step_seed(seed_after(seed0, 4)));
            assert(seed_after(seed0, 6) == step_seed(seed_after(seed0, 5)));
            assert(star == spawn_star(seed0, w, h));
        }
        self.active.push(star);
        self.seed = d6.0;
    }

    /// Update the visible bounds; in-flight stars are neither discarded nor
    /// repositioned.
    pub fn resize(&mut self, width: u16, height: u16)
        requires
            old(self).wf(),
        ensures
            final(self).wf(),
            final(self).active@ == old(self).active@,
            final(self).cooldown == old(self).cooldown,
            final(self).seed == old(self).seed,
            final(self).width == width,
            final(self).height == height,
    {
        self.width = width;
        self.height = height;
    }

    /// Get trail positions for rendering (from head to tail).
    pub fn trail_positions(star: &ShootingStar) -> (r: Vec<(u16, u16, char)>)
        requires
            shooting_star_wf(*star),
        ensures
            r@ == trail_positions_spec(*star, star.trail_len as int),
            r@.len() <= star.trail_len,
            forall|k: int|
                0 <= k < r@.len() ==> ((#[trigger] r@[k]).2 == '━' || r@[k].2 == '─' || r@[k].2
                    == '╌' || r@[k].2 == '·'),
    {
        let mut positions: Vec<(u16, u16, char)> = Vec::new();
        let dx: i64 = if star.vx > 10 {
            -1
        } else if star.vx < -10 {
            1
        } else {
            1
        };
        let dy: i64 = if star.vy > 10 {
            -1
        } else if star.vy < -10 {
            1
        } else {
            0
        };
        let mut i: u8 = 0;
        while i < star.trail_len
            invariant
                i <= star.trail_len,
                star.trail_len <= 7,
                -100_000_000 <= star.x <= 100_000_000,
                -100_000_000 <= star.y <= 100_000_000,
                dx == trail_dx(*star),
                dy == trail_dy(*star),
                positions@ == trail_positions_spec(*star, i as int),
                positions@.len() <= i,
                forall|k: int|
                    0 <= k < positions@.len() ==> ((#[trigger] positions@[k]).2 == '━'
                        || positions@[k].2 == '─' || positions@[k].2 == '╌' || positions@[k].2
                        == '·'),
            decreases star.trail_len - i,
        {
            proof {
                assert(-7000 <= dx * (i as int) * 1000 <= 7000 && -2100 <= dy * (i as int) * 300
                    <= 2100) by (nonlinear_arith)
                    requires
                        -1 <= dx <= 1,
                        -1 <= dy <= 1,
                        0 <= i <= 7,
                ;
            }
            let tx: i64 = star.x + dx * (i as i64) * 1000;
            let ty: i64 = star.y + dy * (i as i64) * 300;
            if tx >= 0 && ty >= 0 {
                let cx = cell_of(tx);
                let cy = cell_of(ty);
                let ch = trail_char(i);
                positions.push((cx, cy, ch));
            }
            i = i + 1;
        }
        positions
    }
}

fn cell_of(mc: i64) -> (r: u16)
    requires
        mc >= 0,
    ensures
        r == to_cell(mc as int),
{
    let c: u64 = (mc as u64) / 1000;
    if c > 65535 {
        65535
    } else {
        c as u16
    }
}

fn trail_char(i: u8) -> (r: char)
    ensures
        r == trail_char_spec(i as int),
{
    if i == 0 {
        '━'
    } else if i == 1 {
        '─'
    } else if i == 2 {
        '╌'
    } else {
        '·'
    }
}

} // verus!
