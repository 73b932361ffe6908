use crate::app::App;
use crate::font::render_time_string;
use crate::font::rendered_width;
use crate::font::GLYPH_HEIGHT;
use crate::scanline::scanline_opacity;
use crate::shooting_star::ShootingStarManager;
use crate::starfield::lerp_u8;
use crate::starfield::Starfield;
use crate::theme::Color;
use crate::theme::Theme;
use vstd::arithmetic::div_mod::{lemma_div_is_ordered, lemma_div_multiples_vanish,
    lemma_mod_multiples_vanish, lemma_small_mod};
use vstd::prelude::*;

verus! {

/// One terminal cell of a composed frame.
#[derive(Debug, Clone, Copy, PartialEq, Eq, Structural)]
pub struct Cell {
    pub ch: char,
    pub fg: Color,
    pub bg: Color,
}

/// A rectangular grid of cells: one fully composed frame.
#[derive(Debug, Clone)]
pub struct Frame {
    pub cells: Vec<Vec<Cell>>,
    pub width: u16,
    pub height: u16,
}

impl Frame {
    /// The grid holds exactly `height` rows of exactly `width` cells.
    pub open spec fn wf(self) -> bool {
        &&& self.cells@.len() == self.height
        &&& forall|y: int|
            0 <= y < self.cells@.len() ==> (#[trigger] self.cells@[y])@.len() == self.width
    }
}

/// Write one cell, skipping silently anything outside the grid: no write can
/// ever land outside the declared area.
fn put_cell(f: &mut Frame, x: usize, y: usize, cell: Cell)
    requires
        old(f).wf(),
    ensures
        final(f).wf(),
        final(f).width == old(f).width,
        final(f).height == old(f).height,
        x < old(f).width && y < old(f).height ==> final(f).cells@[y as int]@ == old(
            f,
        ).cells@[y as int]@.update(x as int, cell),
        x < old(f).width && y < old(f).height ==> forall|r: int|
            0 <= r < old(f).cells@.len() && r != y ==> final(f).cells@[r] == old(f).cells@[r],
        !(x < old(f).width && y < old(f).height) ==> *final(f) == *old(f),
{
    if y < f.height as usize && x < f.width as usize {
        f.cells[y][x] = cell;
    }
}

/// Map glyph characters to the theme colors: solid strokes take the accent,
/// the thinner half-block edges the secondary color.
pub open spec fn glyph_color_spec(ch: char, t: Theme) -> Color {
    if ch == '█' {
        t.accent
    } else if ch == '▀' || ch == '▄' {
        t.secondary
    } else {
        t.accent
    }
}

fn glyph_color(ch: char, theme: &Theme) -> (r: Color)
    ensures
        r == glyph_color_spec(ch, *theme),
{
    if ch == '█' {
        theme.accent
    } else if ch == '▀' || ch == '▄' {
        theme.secondary
    } else {
        theme.accent
    }
}

/// Scale a channel toward black by a per-mille fade factor.
fn scale_channel(v: u8, fade: u32) -> (r: u8)
    requires
        fade <= 1000,
    ensures
        r as int == v as int * fade as int / 1000,
{
    proof {
        assert(v as int * fade as int <= v as int * 1000 <= 255000) by (nonlinear_arith)
            requires
                fade <= 1000,
                0 <= v <= 255,
        ;
        lemma_div_is_ordered(v as int * fade as int, v as int * 1000, 1000);
        lemma_div_multiples_vanish(v as int, 1000);
        assert(v as int * 1000 == 1000 * v as int);
    }
    ((v as u32) * fade / 1000) as u8
}

/// The cell a star paints: its layer glyph over the theme background, in
/// the color interpolated from its brightness.
pub open spec fn star_cell(s: crate::starfield::Star, t: Theme) -> Cell {
    Cell {
        ch: crate::starfield::star_char_spec(s),
        fg: crate::starfield::star_color_spec(
            crate::starfield::star_brightness_spec(s),
            t.star_bright,
            t.star_dim,
        ),
        bg: t.bg,
    }
}

/// A frame's grid as a sequence of rows of cells.
pub open spec fn grid_view(cells: Seq<Vec<Cell>>) -> Seq<Seq<Cell>> {
    Seq::new(cells.len(), |y: int| cells[y]@)
}

/// One star drawn onto a grid: its cell replaces the one at its truncated
/// position if that lies within the `w` by `h` area, else nothing changes.
pub open spec fn draw_star_on(
    g: Seq<Seq<Cell>>,
    s: crate::starfield::Star,
    t: Theme,
    w: u16,
    h: u16,
) -> Seq<Seq<Cell>> {
    let cx = s.x as int / 1000;
    let cy = s.y as int / 1000;
    if cx < w && cy < h {
        g.update(cy, g[cy].update(cx, star_cell(s, t)))
    } else {
        g
    }
}

/// The whole starfield drawn in order: a later star overwrites an earlier
/// one landing on the same cell.
pub open spec fn draw_stars(
    g: Seq<Seq<Cell>>,
    stars: Seq<crate::starfield::Star>,
    t: Theme,
    w: u16,
    h: u16,
) -> Seq<Seq<Cell>>
    decreases stars.len(),
{
    if stars.len() == 0 {
        g
    } else {
        draw_star_on(draw_stars(g, stars.drop_last(), t, w, h), stars.last(), t, w, h)
    }
}

/// Draw every in-bounds star with its layer glyph and interpolated color:
/// the resulting grid is exactly the old one with the whole field drawn
/// onto it in order.
fn render_starfield(f: &mut Frame, app: &App)
    requires
        old(f).wf(),
        app.wf(),
    ensures
        final(f).wf(),
        final(f).width == old(f).width,
        final(f).height == old(f).height,
        grid_view(final(f).cells@) == draw_stars(
            grid_view(old(f).cells@),
            app.starfield.stars@,
            app.theme,
            old(f).width,
            old(f).height,
        ),
{
    let ghost g0 = grid_view(f.cells@);
    let n = app.starfield.stars.len();
    let mut i: usize = 0;
    while i < n
        invariant
            f.wf(),
            f.width == old(f).width,
            f.height == old(f).height,
            app.wf(),
            i <= n,
            n == app.starfield.stars@.len(),
            g0 == grid_view(old(f).cells@),
            grid_view(f.cells@) == draw_stars(
                g0,
                app.starfield.stars@.take(i as int),
                app.theme,
                f.width,
                f.height,
            ),
        decreases n - i,
    {
        let star = app.starfield.stars[i];
        let ghost gprev = grid_view(f.cells@);
        let x: u32 = star.x / 1000;
        let y: u32 = star.y / 1000;
        if x < f.width as u32 && y < f.height as u32 {
            let brightness = Starfield::star_brightness(&star);
            let color = Starfield::star_color(
                brightness,
                app.theme.star_bright,
                app.theme.star_dim,
            );
            let ch = Starfield::star_char(&star);
            put_cell(f, x as usize, y as usize, Cell { ch, fg: color, bg: app.theme.bg });
            proof {
                assert(f.cells@[y as int]@[x as int] == star_cell(
                    app.starfield.stars@[i as int],
                    app.theme,
                ));
                assert(grid_view(f.cells@) =~~= draw_star_on(
                    gprev,
                    app.starfield.stars@[i as int],
                    app.theme,
                    f.width,
                    f.height,
                ));
            }
        } else {
            proof {
                assert(grid_view(f.cells@) =~~= draw_star_on(
                    gprev,
                    app.starfield.stars@[i as int],
                    app.theme,
                    f.width,
                    f.height,
                ));
            }
        }
        proof {
            let t1 = app.starfield.stars@.take(i as int + 1);
            assert(t1.drop_last() =~= app.starfield.stars@.take(i as int));
            assert(t1.last() == app.starfield.stars@[i as int]);
        }
        i = i + 1;
    }
    proof {
        assert(app.starfield.stars@.take(n as int) =~= app.starfield.stars@);
    }
}

/// The cell trail position `j` of `m` paints: its glyph, with the theme's
/// shooting-star color scaled per channel by the linear fade
/// `1000 - j*1000/m` (head bright, tail toward black), over the theme
/// background.
pub open spec fn faded_trail_cell(t: Theme, p: (u16, u16, char), j: int, m: int) -> Cell {
    let base = (match t.shooting_star {
        Color::Rgb(a, b, c) => (a, b, c),
        _ => (200u8, 220u8, 255u8),
    });
    let fade = 1000 - j * 1000 / m;
    Cell {
        ch: p.2,
        fg: Color::Rgb(
            (base.0 * fade / 1000) as u8,
            (base.1 * fade / 1000) as u8,
            (base.2 * fade / 1000) as u8,
        ),
        bg: t.bg,
    }
}

/// The first `j` positions of one trail drawn onto a grid, in order;
/// positions outside the `w` by `h` area are skipped.
pub open spec fn draw_trail_prefix(
    g: Seq<Seq<Cell>>,
    ps: Seq<(u16, u16, char)>,
    t: Theme,
    w: u16,
    h: u16,
    j: int,
) -> Seq<Seq<Cell>>
    decreases j,
{
    if j <= 0 {
        g
    } else {
        let prev = draw_trail_prefix(g, ps, t, w, h, j - 1);
        let p = ps[j - 1];
        if p.0 < w && p.1 < h {
            prev.update(
                p.1 as int,
                prev[p.1 as int].update(p.0 as int, faded_trail_cell(t, p, j - 1, ps.len() as int)),
            )
        } else {
            prev
        }
    }
}

/// Every active star's trail drawn onto a grid, in order: a later write
/// overwrites an earlier one on the same cell.
pub open spec fn draw_trails(
    g: Seq<Seq<Cell>>,
    stars: Seq<crate::shooting_star::ShootingStar>,
    t: Theme,
    w: u16,
    h: u16,
) -> Seq<Seq<Cell>>
    decreases stars.len(),
{
    if stars.len() == 0 {
        g
    } else {
        let prev = draw_trails(g, stars.drop_last(), t, w, h);
        let ps = crate::shooting_star::trail_positions_spec(
            stars.last(),
            stars.last().trail_len as int,
        );
        draw_trail_prefix(prev, ps, t, w, h, ps.len() as int)
    }
}

/// Draw every in-bounds trail position of every active shooting star,
/// fading linearly toward black from head to tail: the resulting grid is
/// exactly the old one with every active trail drawn onto it in order.
fn render_shooting_stars(f: &mut Frame, app: &App)
    requires
        old(f).wf(),
        app.wf(),
    ensures
        final(f).wf(),
        final(f).width == old(f).width,
        final(f).height == old(f).height,
        grid_view(final(f).cells@) == draw_trails(
            grid_view(old(f).cells@),
            app.shooting_stars.active@,
            app.theme,
            old(f).width,
            old(f).height,
        ),
{
    let ghost g0 = grid_view(f.cells@);
    let n = app.shooting_stars.active.len();
    let mut i: usize = 0;
    while i < n
        invariant
            f.wf(),
            f.width == old(f).width,
            f.height == old(f).height,
            app.wf(),
            i <= n,
            n == app.shooting_stars.active@.len(),
            g0 == grid_view(old(f).cells@),
            grid_view(f.cells@) == draw_trails(
                g0,
                app.shooting_stars.active@.take(i as int),
                app.theme,
                f.width,
                f.height,
            ),
        decreases n - i,
    {
        let star = app.shooting_stars.active[i];
        let ghost gouter = grid_view(f.cells@);
        let positions = ShootingStarManager::trail_positions(&star);
        let m = positions.len();
        let mut j: usize = 0;
        while j < m
            invariant
                f.wf(),
                f.width == old(f).width,
                f.height == old(f).height,
                app.wf(),
                j <= m,
                m == positions@.len(),
                m <= 7,
                positions@ == crate::shooting_star::trail_positions_spec(
                    app.shooting_stars.active@[i as int],
                    app.shooting_stars.active@[i as int].trail_len as int,
                ),
                i < n,
                n == app.shooting_stars.active@.len(),
                grid_view(f.cells@) == draw_trail_prefix(
                    gouter,
                    positions@,
                    app.theme,
                    f.width,
                    f.height,
                    j as int,
                ),
            decreases m - j,
        {
            let p = positions[j];
            let x = p.0;
            let y = p.1;
            let ch = p.2;
            let ghost gprev = grid_view(f.cells@);
            if x < f.width && y < f.height {
                proof {
                    lemma_div_is_ordered(j as int * 1000, m as int * 1000, m as int);
                    lemma_div_multiples_vanish(1000, m as int);
                    assert(j as int * 1000 <= m as int * 1000) by (nonlinear_arith)
                        requires
                            0 <= j <= m,
                    ;
                    assert(m as int * 1000 == 1000 * m as int);
                }
                let fade: u32 = 1000 - ((j as u32) * 1000 / (m as u32));
                let base = match app.theme.shooting_star {
                    Color::Rgb(r, g, b) => (r, g, b),
                    _ => (200, 220, 255),
                };
                let color = Color::Rgb(
                    scale_channel(base.0, fade),
                    scale_channel(base.1, fade),
                    scale_channel(base.2, fade),
                );
                put_cell(f, x as usize, y as usize, Cell { ch, fg: color, bg: app.theme.bg });
                proof {
                    assert(f.cells@[y as int]@[x as int] == faded_trail_cell(
                        app.theme,
                        positions@[j as int],
                        j as int,
                        m as int,
                    ));
                    assert(grid_view(f.cells@) =~~= draw_trail_prefix(
                        gouter,
                        positions@,
                        app.theme,
                        f.width,
                        f.height,
                        j as int + 1,
                    ));
                }
            } else {
                proof {
                    assert(grid_view(f.cells@) =~~= draw_trail_prefix(
                        gouter,
                        positions@,
                        app.theme,
                        f.width,
                        f.height,
                        j as int + 1,
                    ));
                }
            }
            j = j + 1;
        }
        proof {
            let t1 = app.shooting_stars.active@.take(i as int + 1);
            assert(t1.drop_last() =~= app.shooting_stars.active@.take(i as int));
            assert(t1.last() == app.shooting_stars.active@[i as int]);
        }
        i = i + 1;
    }
    proof {
        assert(app.shooting_stars.active@.take(n as int) =~= app.shooting_stars.active@);
    }
}

/// What the scanline pass leaves of one cell: on a row with
/// non-negligible opacity, an RGB background is blended per channel toward
/// the theme's scanline color by that opacity; every other cell, and every
/// character and foreground, is untouched.
pub open spec fn scanline_blend(oc: Cell, t: Theme, row: int, elapsed_ms: int) -> Cell {
    let op = crate::scanline::scanline_opacity_spec(row, elapsed_ms);
    let sc = (match t.scanline {
        Color::Rgb(a, b, c) => (a, b, c),
        _ => (0, 0, 0),
    });
    match oc.bg {
        Color::Rgb(br, bgc, bb) => if op > 10 {
            Cell {
                ch: oc.ch,
                fg: oc.fg,
                bg: Color::Rgb(
                    crate::starfield::lerp_spec(br, sc.0, op) as u8,
                    crate::starfield::lerp_spec(bgc, sc.1, op) as u8,
                    crate::starfield::lerp_spec(bb, sc.2, op) as u8,
                ),
            }
        } else {
            oc
        },
        _ => oc,
    }
}

/// Apply the scanline overlay as a final pass: on rows with non-negligible
/// opacity, blend each cell's existing background toward the theme's
/// scanline color, leaving foreground characters untouched.
fn render_scanlines(f: &mut Frame, app: &App)
    requires
        old(f).wf(),
    ensures
        final(f).wf(),
        final(f).width == old(f).width,
        final(f).height == old(f).height,
        forall|r: int, c: int|
            0 <= r < old(f).height && 0 <= c < old(f).width
                ==> (#[trigger] final(f).cells@[r]@[c]).ch == old(f).cells@[r]@[c].ch
                && final(f).cells@[r]@[c].fg == old(f).cells@[r]@[c].fg,
        forall|r: int|
            0 <= r < old(f).height && r % 2 == 0 ==> final(f).cells@[r] == old(f).cells@[r],
        forall|r: int, c: int|
            0 <= r < old(f).height && 0 <= c < old(f).width
                ==> (#[trigger] final(f).cells@[r]@[c]) == scanline_blend(
                old(f).cells@[r]@[c],
                app.theme,
                r,
                app.elapsed_ms as int,
            ),
{
    let h = f.height;
    let w = f.width;
    let mut y: u16 = 0;
    while y < h
        invariant
            f.wf(),
            f.width == w,
            f.height == h,
            w == old(f).width,
            h == old(f).height,
            forall|r: int| y <= r < h ==> f.cells@[r] == old(f).cells@[r],
            forall|r: int, c: int|
                0 <= r < y && 0 <= c < w ==> (#[trigger] f.cells@[r]@[c]).ch
                    == old(f).cells@[r]@[c].ch && f.cells@[r]@[c].fg == old(f).cells@[r]@[c].fg,
            forall|r: int| 0 <= r < y && r % 2 == 0 ==> f.cells@[r] == old(f).cells@[r],
            forall|r: int, c: int|
                0 <= r < y && 0 <= c < w ==> (#[trigger] f.cells@[r]@[c]) == scanline_blend(
                    old(f).cells@[r]@[c],
                    app.theme,
                    r,
                    app.elapsed_ms as int,
                ),
        decreases h - y,
    {
        let ghost row0 = f.cells@;
        let opacity = scanline_opacity(y, app.elapsed_ms);
        if opacity > 10 {
            let sc = match app.theme.scanline {
                Color::Rgb(r, g, b) => (r, g, b),
                _ => (0, 0, 0),
            };
            let mut x: u16 = 0;
            while x < w
                invariant
                    f.wf(),
                    f.width == w,
                    f.height == h,
                    y < h,
                    opacity <= 1000,
                    row0.len() == h,
                    forall|r: int| y <= r < h ==> row0[r] == old(f).cells@[r],
                    forall|r: int, c: int|
                        0 <= r < y && 0 <= c < w ==> (#[trigger] row0[r]@[c]).ch
                            == old(f).cells@[r]@[c].ch && row0[r]@[c].fg
                            == old(f).cells@[r]@[c].fg,
                    forall|r: int| 0 <= r < y && r % 2 == 0 ==> row0[r] == old(f).cells@[r],
                    forall|r: int| 0 <= r < h && r != y ==> f.cells@[r] == row0[r],
                    row0[y as int]@.len() == w,
                    forall|c: int|
                        0 <= c < w ==> (#[trigger] f.cells@[y as int]@[c]).ch
                            == row0[y as int]@[c].ch && f.cells@[y as int]@[c].fg == row0[y
                            as int]@[c].fg,
                    forall|c: int| x <= c < w ==> f.cells@[y as int]@[c] == row0[y as int]@[c],
                    opacity == crate::scanline::scanline_opacity_spec(
                        y as int,
                        app.elapsed_ms as int,
                    ),
                    opacity > 10,
                    sc == (match app.theme.scanline {
                        Color::Rgb(a, b, c) => (a, b, c),
                        _ => (0u8, 0u8, 0u8),
                    }),
                    forall|c: int|
                        0 <= c < x ==> (#[trigger] f.cells@[y as int]@[c]) == scanline_blend(
                            row0[y as int]@[c],
                            app.theme,
                            y as int,
                            app.elapsed_ms as int,
                        ),
                decreases w - x,
            {
                let cell = f.cells[y as usize][x as usize];
                match cell.bg {
                    Color::Rgb(br, bgc, bb) => {
                        let nr = lerp_u8(br, sc.0, opacity);
                        let ng = lerp_u8(bgc, sc.1, opacity);
                        let nb = lerp_u8(bb, sc.2, opacity);
                        put_cell(
                            f,
                            x as usize,
                            y as usize,
                            Cell { ch: cell.ch, fg: cell.fg, bg: Color::Rgb(nr, ng, nb) },
                        );
                    },
                    _ => {},
                }
                x = x + 1;
            }
        }
        proof {
            assert forall|r: int, c: int|
                0 <= r < y + 1 && 0 <= c < w implies (#[trigger] f.cells@[r]@[c]).ch == old(
                f,
            ).cells@[r]@[c].ch && f.cells@[r]@[c].fg == old(f).cells@[r]@[c].fg by {
                if r < y {
                    assert(f.cells@[r] == row0[r]);
                } else {
                    assert(row0[r] == old(f).cells@[r]);
                }
            }
            assert forall|r: int|
                0 <= r < y + 1 && r % 2 == 0 implies f.cells@[r] == old(f).cells@[r] by {
                if r == y {
                    assert(f.cells@[r] == row0[r]);
                }
            }
            assert forall|r: int, c: int|
                0 <= r < y + 1 && 0 <= c < w implies (#[trigger] f.cells@[r]@[c])
                == scanline_blend(old(f).cells@[r]@[c], app.theme, r, app.elapsed_ms as int) by {
                if r < y {
                    assert(f.cells@[r] == row0[r]);
                    assert(row0[r]@[c] == scanline_blend(
                        old(f).cells@[r]@[c],
                        app.theme,
                        r,
                        app.elapsed_ms as int,
                    ));
                } else {
                    assert(row0[r] == old(f).cells@[r]);
                    if opacity <= 10 {
                        assert(f.cells@[r] == row0[r]);
                    }
                }
            }
        }
        y = y + 1;
    }
}

/// A fresh frame with every cell set to the given blank cell.
fn blank_frame(width: u16, height: u16, blank: Cell) -> (r: Frame)
    ensures
        r.wf(),
        r.width == width,
        r.height == height,
        forall|y: int, x: int|
            0 <= y < height && 0 <= x < width ==> (#[trigger] r.cells@[y]@[x]) == blank,
{
    let mut cells: Vec<Vec<Cell>> = Vec::new();
    let mut y: usize = 0;
    while y < height as usize
        invariant
            y <= height,
            cells@.len() == y,
            forall|r: int| 0 <= r < y ==> (#[trigger] cells@[r])@.len() == width,
            forall|r: int, c: int|
                0 <= r < y && 0 <= c < width ==> (#[trigger] cells@[r]@[c]) == blank,
        decreases height - y,
    {
        let mut row: Vec<Cell> = Vec::new();
        let mut x: usize = 0;
        while x < width as usize
            invariant
                x <= width,
                row@.len() == x,
                forall|c: int| 0 <= c < x ==> (#[trigger] row@[c]) == blank,
            decreases width - x,
        {
            row.push(blank);
            x = x + 1;
        }
        cells.push(row);
        y = y + 1;
    }
    Frame { cells, width, height }
}

/// The blank cell the background fill uses.
pub open spec fn blank_cell(t: Theme) -> Cell {
    Cell { ch: ' ', fg: t.bg, bg: t.bg }
}

/// Left column of the centered clock block.
pub open spec fn clock_left(width: u16, time: Seq<char>) -> int {
    let rw = crate::font::rendered_width_spec(time);
    let tw = if rw > 65535 {
        65535
    } else {
        rw
    };
    if width > tw {
        (width - tw) / 2
    } else {
        0
    }
}

/// Top row of the clock block: two rows above exact center.
pub open spec fn clock_top(height: u16) -> int {
    if height > 7 {
        (height - 7) / 2
    } else {
        0
    }
}

/// Left column of the centered date line.
pub open spec fn date_left(width: u16, date: Seq<char>) -> int {
    if width > date.len() {
        (width - date.len()) / 2
    } else {
        0
    }
}

/// The character of the rendered time block at a row and column.
pub open spec fn glyph_pixel(time: Seq<char>, hide_colons: bool, row: int, col: int) -> char {
    crate::font::row_spec(time, hide_colons, row)[col]
}

/// The cell a non-blank glyph pixel is drawn as: the glyph layer writes
/// foreground only, so the background beneath it shows through.
pub open spec fn glyph_cell(
    base: Cell,
    time: Seq<char>,
    hide_colons: bool,
    row: int,
    col: int,
    t: Theme,
) -> Cell {
    Cell {
        ch: glyph_pixel(time, hide_colons, row, col),
        fg: glyph_color_spec(glyph_pixel(time, hide_colons, row, col), t),
        bg: base.bg,
    }
}

/// The cell character `k` of the date line is drawn as.
pub open spec fn date_cell(date: Seq<char>, k: int, t: Theme) -> Cell {
    Cell { ch: date[k], fg: t.date_color, bg: t.bg }
}

/// With effects disabled, the exact content of a composed frame at a cell:
/// a pixel of the centered clock block, a character of the date line one
/// row beneath it, or the blank background.
/// The text layers written over a base cell: a pixel of the centered clock
/// block, a character of the date line one row beneath it, or the base cell
/// untouched.
pub open spec fn text_cell_over(
    base: Cell,
    t: Theme,
    show_date: bool,
    hide_colons: bool,
    width: u16,
    height: u16,
    time: Seq<char>,
    date: Seq<char>,
    r: int,
    c: int,
) -> Cell {
    let cx = clock_left(width, time);
    let cy = clock_top(height);
    if cy <= r < cy + 5 && cx <= c < cx + crate::font::rendered_width_spec(time) && glyph_pixel(
        time,
        hide_colons,
        r - cy,
        c - cx,
    ) != ' ' {
        glyph_cell(base, time, hide_colons, r - cy, c - cx, t)
    } else if show_date && r == cy + 6 && date_left(width, date) <= c < date_left(width, date)
        + date.len() {
        date_cell(date, c - date_left(width, date), t)
    } else {
        base
    }
}

pub open spec fn plain_cell_at(
    t: Theme,
    show_date: bool,
    hide_colons: bool,
    width: u16,
    height: u16,
    time: Seq<char>,
    date: Seq<char>,
    r: int,
    c: int,
) -> Cell {
    text_cell_over(blank_cell(t), t, show_date, hide_colons, width, height, time, date, r, c)
}

/// A grid of blank background cells, as the fill pass leaves it.
pub open spec fn grid_of_blanks(width: u16, height: u16, t: Theme) -> Seq<Seq<Cell>> {
    Seq::new(height as nat, |rr: int| Seq::new(width as nat, |cc: int| blank_cell(t)))
}

/// The grid both effect passes together leave on a blank background.
pub open spec fn effects_grid(app: App, width: u16, height: u16) -> Seq<Seq<Cell>> {
    draw_trails(
        draw_stars(
            grid_of_blanks(width, height, app.theme),
            app.starfield.stars@,
            app.theme,
            width,
            height,
        ),
        app.shooting_stars.active@,
        app.theme,
        width,
        height,
    )
}

/// Compose one full frame of the given dimensions, in this fixed layer
/// order: background fill, then (if effects are on) stars and shooting-star
/// trails, then the centered time glyphs (foreground only), an optional date
/// line, and last the scanline overlay. Every write is bounds-checked, so
/// nothing outside the `width` by `height` grid is ever touched. The whole
/// frame is pinned cell by cell in both modes: with effects off it is
/// `plain_cell_at` everywhere, with effects on it is the scanline blend of
/// the text layers over `effects_grid`.
pub fn render_frame(app: &App, width: u16, height: u16, time_str: &str, date_str: &str) -> (r:
    Frame)
    requires
        app.wf(),
        time_str@.len() * 6 <= usize::MAX,
        date_str@.len() <= 65535,
    ensures
        r.wf(),
        r.width == width,
        r.height == height,
        ({
            let hide = app.blink && !app.blink_visible;
            let cy = clock_top(height);
            let cx = clock_left(width, time_str@);
            forall|rr: int, cc: int|
                cy <= rr < cy + 5 && cx <= cc < cx + crate::font::rendered_width_spec(time_str@)
                    && rr < height && cc < width && glyph_pixel(time_str@, hide, rr - cy, cc - cx)
                    != ' ' ==> (#[trigger] r.cells@[rr]@[cc]).ch == glyph_pixel(
                    time_str@,
                    hide,
                    rr - cy,
                    cc - cx,
                ) && r.cells@[rr]@[cc].fg == glyph_color_spec(
                    glyph_pixel(time_str@, hide, rr - cy, cc - cx),
                    app.theme,
                )
        }),
        app.show_date && clock_top(height) + 6 < height ==> forall|cc: int|
            date_left(width, date_str@) <= cc < date_left(width, date_str@) + date_str@.len()
                && cc < width ==> (#[trigger] r.cells@[clock_top(height) + 6]@[cc]).ch
                == date_str@[cc - date_left(width, date_str@)] && r.cells@[clock_top(height)
                + 6]@[cc].fg == app.theme.date_color,
        !app.effects_enabled ==> forall|rr: int, cc: int|
            0 <= rr < height && 0 <= cc < width ==> (#[trigger] r.cells@[rr]@[cc])
                == plain_cell_at(
                app.theme,
                app.show_date,
                app.blink && !app.blink_visible,
                width,
                height,
                time_str@,
                date_str@,
                rr,
                cc,
            ),
        app.effects_enabled ==> forall|rr: int, cc: int|
            0 <= rr < height && 0 <= cc < width ==> (#[trigger] r.cells@[rr]@[cc])
                == scanline_blend(
                text_cell_over(
                    effects_grid(*app, width, height)[rr][cc],
                    app.theme,
                    app.show_date,
                    app.blink && !app.blink_visible,
                    width,
                    height,
                    time_str@,
                    date_str@,
                    rr,
                    cc,
                ),
                app.theme,
                rr,
                app.elapsed_ms as int,
            ),
{
    let blank = Cell { ch: ' ', fg: app.theme.bg, bg: app.theme.bg };
    let mut frame = blank_frame(width, height, blank);

    proof {
        assert(grid_view(frame.cells@) =~~= grid_of_blanks(width, height, app.theme));
    }
    if app.effects_enabled {
        render_starfield(&mut frame, app);
        render_shooting_stars(&mut frame, app);
        proof {
            assert(grid_view(frame.cells@) == effects_grid(*app, width, height));
        }
    }
    let ghost gbase = grid_view(frame.cells@);
    proof {
        assert(gbase.len() == height);
        assert(forall|rr: int| 0 <= rr < height ==> (#[trigger] gbase[rr]).len() == width);
    }

    let hide_colons = app.blink && !app.blink_visible;
    let lines = render_time_string(time_str, hide_colons);
    let text_width = rendered_width(time_str);
    let tw: u16 = if text_width > 65535 {
        65535
    } else {
        text_width as u16
    };

    // Center the clock, slightly above center
    let cx: u16 = if width > tw {
        (width - tw) / 2
    } else {
        0
    };
    proof {
        if width > tw {
            vstd::arithmetic::div_mod::lemma_fundamental_div_mod((width - tw) as int, 2);
        }
        assert(cx <= width);
        assert(cx as int == clock_left(width, time_str@));
    }
    let cy: u16 = if height > (GLYPH_HEIGHT as u16) + 2 {
        (height - ((GLYPH_HEIGHT as u16) + 2)) / 2
    } else {
        0
    };
    proof {
        assert(cy as int == clock_top(height));
    }
    let ghost rwidth = crate::font::rendered_width_spec(time_str@);

    // Draw digit glyphs
    let mut row: usize = 0;
    while row < lines.len() && ((cy as u32) + (row as u32)) < (height as u32)
        invariant
            frame.wf(),
            frame.width == width,
            frame.height == height,
            app.wf(),
            lines@.len() == GLYPH_HEIGHT,
            forall|k: int|
                0 <= k < 5 ==> (#[trigger] lines@[k])@ == crate::font::row_spec(
                    time_str@,
                    hide_colons,
                    k,
                ),
            forall|k: int| 0 <= k < 5 ==> (#[trigger] lines@[k])@.len() == rwidth,
            rwidth == crate::font::rendered_width_spec(time_str@),
            hide_colons == (app.blink && !app.blink_visible),
            cx as int == clock_left(width, time_str@),
            cy as int == clock_top(height),
            cx <= width,
            row <= 5,
            gbase.len() == height,
            forall|rr: int| 0 <= rr < height ==> (#[trigger] gbase[rr]).len() == width,
            !app.effects_enabled ==> gbase == grid_of_blanks(width, height, app.theme),
            app.effects_enabled ==> gbase == effects_grid(*app, width, height),
            forall|rr: int, cc: int|
                cy <= rr < cy + row && cx <= cc < cx + rwidth && rr < height && cc < width
                    && glyph_pixel(time_str@, hide_colons, rr - cy, cc - cx) != ' '
                    ==> (#[trigger] frame.cells@[rr]@[cc]) == glyph_cell(
                    gbase[rr][cc],
                    time_str@,
                    hide_colons,
                    rr - cy,
                    cc - cx,
                    app.theme,
                ),
            forall|rr: int, cc: int|
                0 <= rr < height && 0 <= cc < width ==> (#[trigger] frame.cells@[rr]@[cc]) == (
                if cy <= rr < cy + row && cx <= cc < cx + rwidth && glyph_pixel(
                    time_str@,
                    hide_colons,
                    rr - cy,
                    cc - cx,
                ) != ' ' {
                    glyph_cell(gbase[rr][cc], time_str@, hide_colons, rr - cy, cc - cx, app.theme)
                } else {
                    gbase[rr][cc]
                }),
        decreases 5 - row,
    {
        let yy: u32 = (cy as u32) + (row as u32);
        let line = &lines[row];
        let line_len = line.as_str().unicode_len();
        let mut col: usize = 0;
        while col < line_len && ((cx as u64) + (col as u64)) < (width as u64)
            invariant
                frame.wf(),
                frame.width == width,
                frame.height == height,
                app.wf(),
                rwidth == crate::font::rendered_width_spec(time_str@),
                hide_colons == (app.blink && !app.blink_visible),
                cx as int == clock_left(width, time_str@),
                cy as int == clock_top(height),
                cx <= width,
                row < 5,
                yy == cy + row,
                yy < height,
                line@ == crate::font::row_spec(time_str@, hide_colons, row as int),
                line_len == line@.len(),
                line_len == rwidth,
                col <= line_len,
                cx as int + col as int <= width as int,
                forall|rr: int, cc: int|
                    cy <= rr < cy + row && cx <= cc < cx + rwidth && rr < height && cc < width
                        && glyph_pixel(time_str@, hide_colons, rr - cy, cc - cx) != ' '
                        ==> (#[trigger] frame.cells@[rr]@[cc]) == glyph_cell(
                        gbase[rr][cc],
                        time_str@,
                        hide_colons,
                        rr - cy,
                        cc - cx,
                        app.theme,
                    ),
                forall|cc: int|
                    cx <= cc < cx + col && cc < width && glyph_pixel(
                        time_str@,
                        hide_colons,
                        row as int,
                        cc - cx,
                    ) != ' ' ==> (#[trigger] frame.cells@[yy as int]@[cc]) == glyph_cell(
                        gbase[yy as int][cc],
                        time_str@,
                        hide_colons,
                        row as int,
                        cc - cx,
                        app.theme,
                    ),
                gbase.len() == height,
                forall|rr: int| 0 <= rr < height ==> (#[trigger] gbase[rr]).len() == width,
                !app.effects_enabled ==> gbase == grid_of_blanks(width, height, app.theme),
                app.effects_enabled ==> gbase == effects_grid(*app, width, height),
                forall|rr: int, cc: int|
                    0 <= rr < height && 0 <= cc < width ==> (#[trigger] frame.cells@[rr]@[cc])
                        == (
                    if ((cy <= rr < cy + row) || (rr == cy + row && cx <= cc < cx + col)) && cx
                        <= cc < cx + rwidth && glyph_pixel(
                        time_str@,
                        hide_colons,
                        rr - cy,
                        cc - cx,
                    ) != ' ' {
                        glyph_cell(gbase[rr][cc], time_str@, hide_colons, rr - cy, cc - cx, app.theme)
                    } else {
                        gbase[rr][cc]
                    }),
            decreases line_len - col,
        {
            let ch = line.as_str().get_char(col);
            let xx: u64 = (cx as u64) + (col as u64);
            let ghost before = frame.cells@;
            if ch != ' ' {
                let color = glyph_color(ch, &app.theme);
                // foreground only: the background beneath the glyph stays
                let cur_bg = frame.cells[yy as usize][xx as usize].bg;
                proof {
                    assert(before[yy as int]@[xx as int] == gbase[yy as int][xx as int]);
                }
                put_cell(
                    &mut frame,
                    xx as usize,
                    yy as usize,
                    Cell { ch, fg: color, bg: cur_bg },
                );
            }
            proof {
                assert(ch == glyph_pixel(time_str@, hide_colons, row as int, col as int));
                assert forall|rr: int, cc: int|
                    0 <= rr < height && 0 <= cc < width && !(rr == yy as int && cc == xx as int)
                    implies frame.cells@[rr]@[cc] == before[rr]@[cc] by {}
                if ch != ' ' {
                    assert(frame.cells@[yy as int]@[xx as int] == glyph_cell(
                        gbase[yy as int][xx as int],
                        time_str@,
                        hide_colons,
                        row as int,
                        col as int,
                        app.theme,
                    ));
                } else {
                    assert(frame.cells@[yy as int]@[xx as int] == before[yy as int]@[xx
                        as int]);
                }
            }
            col = col + 1;
        }
        proof {
            // the whole row is now placed: columns past `col` are off screen
            assert(col == line_len || cx as int + col as int >= width as int);
            assert forall|rr: int, cc: int|
                cy <= rr < cy + row + 1 && cx <= cc < cx + rwidth && rr < height && cc < width
                && glyph_pixel(time_str@, hide_colons, rr - cy, cc - cx) != ' ' implies (
            #[trigger] frame.cells@[rr]@[cc]) == glyph_cell(
                gbase[rr][cc],
                time_str@,
                hide_colons,
                rr - cy,
                cc - cx,
                app.theme,
            ) by {
                if rr == cy as int + row as int {
                    assert(cc < cx + col);
                    assert(frame.cells@[yy as int]@[cc] == glyph_cell(
                        gbase[yy as int][cc],
                        time_str@,
                        hide_colons,
                        row as int,
                        cc - cx,
                        app.theme,
                    ));
                }
            }
        }
        row = row + 1;
    }
    proof {
        // rows past `row` lie below the bottom edge
        assert(row == 5 || cy as int + row as int >= height as int);
        assert forall|rr: int, cc: int|
            cy <= rr < cy + 5 && cx <= cc < cx + rwidth && rr < height && cc < width
            && glyph_pixel(time_str@, hide_colons, rr - cy, cc - cx) != ' ' implies (
        #[trigger] frame.cells@[rr]@[cc]) == glyph_cell(
            gbase[rr][cc],
            time_str@,
            hide_colons,
            rr - cy,
            cc - cx,
            app.theme,
        ) by {
            assert(rr < cy + row);
        }
        assert forall|rr: int, cc: int|
            0 <= rr < height && 0 <= cc < width implies (#[trigger] frame.cells@[rr]@[cc]) == (
        if cy <= rr < cy + 5 && cx <= cc < cx + rwidth && glyph_pixel(
            time_str@,
            hide_colons,
            rr - cy,
            cc - cx,
        ) != ' ' {
            glyph_cell(gbase[rr][cc], time_str@, hide_colons, rr - cy, cc - cx, app.theme)
        } else {
            gbase[rr][cc]
        }) by {}
    }

    // Date line below the clock
    let ghost gglyph = frame.cells@;
    let mut drew_date: bool = false;
    let ghost date_l = date_left(width, date_str@);
    if app.show_date {
        let date_len = date_str.unicode_len();
        let dl: u16 = date_len as u16;
        let date_x: u16 = if width > dl {
            (width - dl) / 2
        } else {
            0
        };
        proof {
            assert(date_x as int == date_left(width, date_str@));
        }
        let date_y: u32 = (cy as u32) + (GLYPH_HEIGHT as u32) + 1;
        if date_y < height as u32 {
            drew_date = true;
            let mut i: usize = 0;
            while i < date_len
                invariant
                    frame.wf(),
                    frame.width == width,
                    frame.height == height,
                    app.wf(),
                    date_len == date_str@.len(),
                    date_len <= 65535,
                    date_x as int == date_l,
                    date_l == date_left(width, date_str@),
                    date_y == cy as int + 6,
                    date_y < height,
                    i <= date_len,
                    gglyph.len() == height,
                    cx as int == clock_left(width, time_str@),
                    cy as int == clock_top(height),
                    rwidth == crate::font::rendered_width_spec(time_str@),
                    hide_colons == (app.blink && !app.blink_visible),
                    gbase.len() == height,
                    forall|rr: int| 0 <= rr < height ==> (#[trigger] gbase[rr]).len() == width,
                    !app.effects_enabled ==> gbase == grid_of_blanks(width, height, app.theme),
                    app.effects_enabled ==> gbase == effects_grid(*app, width, height),
                    forall|rr: int, cc: int|
                        0 <= rr < height && 0 <= cc < width ==> (#[trigger] gglyph[rr]@[cc]) == (
                        if cy <= rr < cy + 5 && cx <= cc < cx + rwidth && glyph_pixel(
                            time_str@,
                            hide_colons,
                            rr - cy,
                            cc - cx,
                        ) != ' ' {
                            glyph_cell(gbase[rr][cc], time_str@, hide_colons, rr - cy, cc - cx, app.theme)
                        } else {
                            gbase[rr][cc]
                        }),
                    forall|rr: int|
                        0 <= rr < height && rr != date_y ==> frame.cells@[rr] == gglyph[rr],
                    forall|rr: int| 0 <= rr < height ==> (#[trigger] gglyph[rr])@.len() == width,
                    forall|cc: int|
                        0 <= cc < width && !(date_l <= cc < date_l + i) ==> (
                        #[trigger] frame.cells@[date_y as int]@[cc]) == gglyph[date_y as int]@[cc],
                    forall|cc: int|
                        date_l <= cc < date_l + i && cc < width ==> (
                        #[trigger] frame.cells@[date_y as int]@[cc]) == date_cell(
                            date_str@,
                            cc - date_l,
                            app.theme,
                        ),
                decreases date_len - i,
            {
                let xx: u64 = (date_x as u64) + (i as u64);
                if xx < width as u64 {
                    let ch = date_str.get_char(i);
                    let ghost before = frame.cells@;
                    put_cell(
                        &mut frame,
                        xx as usize,
                        date_y as usize,
                        Cell { ch, fg: app.theme.date_color, bg: app.theme.bg },
                    );
                    proof {
                        assert(frame.cells@[date_y as int]@[xx as int] == date_cell(
                            date_str@,
                            i as int,
                            app.theme,
                        ));
                        assert forall|rr: int, cc: int|
                            0 <= rr < height && 0 <= cc < width && !(rr == date_y as int && cc
                            == xx as int) implies frame.cells@[rr]@[cc] == before[rr]@[cc] by {}
                    }
                }
                i = i + 1;
            }
        }
    }
    proof {
        // the glyph block survives the date line (a disjoint row)
        assert forall|rr: int, cc: int|
            cy <= rr < cy + 5 && cx <= cc < cx + rwidth && rr < height && cc < width
            && glyph_pixel(time_str@, hide_colons, rr - cy, cc - cx) != ' ' implies (
        #[trigger] frame.cells@[rr]@[cc]).ch == glyph_pixel(
            time_str@,
            hide_colons,
            rr - cy,
            cc - cx,
        ) && frame.cells@[rr]@[cc].fg == glyph_color_spec(
            glyph_pixel(time_str@, hide_colons, rr - cy, cc - cx),
            app.theme,
        ) by {
            if drew_date {
                assert(rr != cy as int + 6);
            }
            assert(frame.cells@[rr]@[cc] == gglyph[rr]@[cc]);
        }
        assert forall|rr: int, cc: int|
            0 <= rr < height && 0 <= cc < width implies (#[trigger] frame.cells@[rr]@[cc])
            == text_cell_over(
            gbase[rr][cc],
            app.theme,
            app.show_date,
            hide_colons,
            width,
            height,
            time_str@,
            date_str@,
            rr,
            cc,
        ) by {
            if !(drew_date && rr == cy as int + 6) {
                assert(frame.cells@[rr]@[cc] == gglyph[rr]@[cc]);
            }
        }
        if !app.effects_enabled {
            assert forall|rr: int, cc: int|
                0 <= rr < height && 0 <= cc < width implies (#[trigger] frame.cells@[rr]@[cc])
                == plain_cell_at(
                app.theme,
                app.show_date,
                hide_colons,
                width,
                height,
                time_str@,
                date_str@,
                rr,
                cc,
            ) by {
                assert(gbase[rr][cc] == blank_cell(app.theme));
            }
        }
    }

    // Scanline overlay (last pass)
    let ghost gtext = frame.cells@;
    if app.effects_enabled {
        render_scanlines(&mut frame, app);
        proof {
            assert forall|rr: int, cc: int|
                0 <= rr < height && 0 <= cc < width implies (#[trigger] frame.cells@[rr]@[cc]).ch
                == gtext[rr]@[cc].ch && frame.cells@[rr]@[cc].fg == gtext[rr]@[cc].fg by {}
            assert forall|rr: int, cc: int|
                0 <= rr < height && 0 <= cc < width implies (#[trigger] frame.cells@[rr]@[cc])
                == scanline_blend(
                text_cell_over(
                    effects_grid(*app, width, height)[rr][cc],
                    app.theme,
                    app.show_date,
                    hide_colons,
                    width,
                    height,
                    time_str@,
                    date_str@,
                    rr,
                    cc,
                ),
                app.theme,
                rr,
                app.elapsed_ms as int,
            ) by {
                assert(gtext[rr]@[cc] == text_cell_over(
                    gbase[rr][cc],
                    app.theme,
                    app.show_date,
                    hide_colons,
                    width,
                    height,
                    time_str@,
                    date_str@,
                    rr,
                    cc,
                ));
                assert(gbase == effects_grid(*app, width, height));
            }
        }
    }

    frame
}

/// Relies on String::push: appends exactly one character to the string.
#[verifier::external_body]
fn push_char(s: &mut String, c: char)
    ensures
        final(s)@ == old(s)@.push(c),
{
    s.push(c);
}

/// One line of exactly `width` characters per row of a frame, each ended by
/// a newline: character `y*(width+1)+x` of the result is the character of
/// cell `(y, x)`.
pub fn frame_to_string(frame: &Frame) -> (r: String)
    requires
        frame.wf(),
    ensures
        r@.len() == frame.height as int * (frame.width as int + 1),
        forall|k: int|
            0 <= k < r@.len() && #[trigger] (k % (frame.width as int + 1)) == frame.width as int
                ==> r@[k] == '\n',
        forall|yy: int, xx: int|
            0 <= yy < frame.height && 0 <= xx < frame.width ==> r@[yy * (frame.width as int + 1)
                + xx] == (#[trigger] frame.cells@[yy]@[xx]).ch,
{
    let width = frame.width;
    let height = frame.height;
    let mut out = String::new();
    let mut y: usize = 0;
    while y < frame.cells.len()
        invariant
            frame.wf(),
            frame.width == width,
            frame.height == height,
            y <= height,
            out@.len() == y as int * (width as int + 1),
            forall|k: int|
                0 <= k < out@.len() && #[trigger] (k % (width as int + 1)) == width as int
                    ==> out@[k] == '\n',
            forall|yy: int, xx: int|
                0 <= yy < y && 0 <= xx < width ==> out@[yy * (width as int + 1) + xx] == (
                #[trigger] frame.cells@[yy]@[xx]).ch,
        decreases frame.cells@.len() - y,
    {
        let row = &frame.cells[y];
        let mut x: usize = 0;
        while x < row.len()
            invariant
                frame.wf(),
                frame.width == width,
                frame.height == height,
                y < height,
                row == frame.cells@[y as int],
                x <= width,
                out@.len() == y as int * (width as int + 1) + x as int,
                forall|k: int|
                    0 <= k < out@.len() && #[trigger] (k % (width as int + 1)) == width as int
                        ==> out@[k] == '\n',
                forall|yy: int, xx: int|
                    0 <= yy < y && 0 <= xx < width ==> out@[yy * (width as int + 1) + xx] == (
                    #[trigger] frame.cells@[yy]@[xx]).ch,
                forall|xx: int|
                    0 <= xx < x ==> out@[y as int * (width as int + 1) + xx] == (
                    #[trigger] frame.cells@[y as int]@[xx]).ch,
            decreases row@.len() - x,
        {
            proof {
                lemma_mod_multiples_vanish(y as int, x as int, width as int + 1);
                lemma_small_mod(x as nat, (width as int + 1) as nat);
                assert((width as int + 1) * (y as int) == y as int * (width as int + 1))
                    by (nonlinear_arith);
            }
            push_char(&mut out, row[x].ch);
            proof {
                assert forall|yy: int, xx: int|
                    0 <= yy < y && 0 <= xx < width implies out@[yy * (width as int + 1) + xx]
                    == (#[trigger] frame.cells@[yy]@[xx]).ch by {
                    assert(yy * (width as int + 1) + xx < y as int * (width as int + 1))
                        by (nonlinear_arith)
                        requires
                            0 <= yy < y as int,
                            0 <= xx < width as int,
                    ;
                }
            }
            x = x + 1;
        }
        proof {
            lemma_mod_multiples_vanish(y as int, width as int, width as int + 1);
            lemma_small_mod(width as nat, (width as int + 1) as nat);
            assert((width as int + 1) * (y as int) == y as int * (width as int + 1))
                by (nonlinear_arith);
        }
        push_char(&mut out, '\n');
        proof {
            assert(out@.len() == (y as int + 1) * (width as int + 1)) by (nonlinear_arith)
                requires
                    out@.len() == y as int * (width as int + 1) + width as int + 1,
            ;
            assert forall|yy: int, xx: int|
                0 <= yy < y + 1 && 0 <= xx < width implies out@[yy * (width as int + 1) + xx]
                == (#[trigger] frame.cells@[yy]@[xx]).ch by {
                assert(yy * (width as int + 1) + xx < (y as int + 1) * (width as int + 1) - 1)
                    by (nonlinear_arith)
                    requires
                        0 <= yy <= y as int,
                        0 <= xx < width as int,
                ;
            }
        }
        y = y + 1;
    }
    out
}

/// Render one frame to a newline-separated string of its characters, for
/// headless inspection and tests: one line of exactly `width` characters per
/// row, each ended by a newline, and the centered clock block's non-blank
/// glyph pixels stand at their computed positions in the text.
pub fn render_to_string(app: &App, width: u16, height: u16, time_str: &str, date_str: &str) -> (r:
    String)
    requires
        app.wf(),
        time_str@.len() * 6 <= usize::MAX,
        date_str@.len() <= 65535,
    ensures
        r@.len() == height as int * (width as int + 1),
        forall|k: int|
            0 <= k < r@.len() && #[trigger] (k % (width as int + 1)) == width as int ==> r@[k]
                == '\n',
        ({
            let hide = app.blink && !app.blink_visible;
            let cy = clock_top(height);
            let cx = clock_left(width, time_str@);
            forall|rr: int, cc: int|
                cy <= rr < cy + 5 && cx <= cc < cx + crate::font::rendered_width_spec(time_str@)
                    && rr < height && cc < width && #[trigger] glyph_pixel(
                    time_str@,
                    hide,
                    rr - cy,
                    cc - cx,
                ) != ' ' ==> r@[rr * (width as int + 1) + cc] == glyph_pixel(
                    time_str@,
                    hide,
                    rr - cy,
                    cc - cx,
                )
        }),
{
    let frame = render_frame(app, width, height, time_str, date_str);
    let out = frame_to_string(&frame);
    proof {
        let hide = app.blink && !app.blink_visible;
        let cy = clock_top(height);
        let cx = clock_left(width, time_str@);
        assert forall|rr: int, cc: int|
            cy <= rr < cy + 5 && cx <= cc < cx + crate::font::rendered_width_spec(time_str@)
            && rr < height && cc < width && #[trigger] glyph_pixel(time_str@, hide, rr - cy, cc
            - cx) != ' ' implies out@[rr * (width as int + 1) + cc] == glyph_pixel(
            time_str@,
            hide,
            rr - cy,
            cc - cx,
        ) by {
            assert(frame.cells@[rr]@[cc].ch == glyph_pixel(time_str@, hide, rr - cy, cc - cx));
            assert(out@[rr * (width as int + 1) + cc] == frame.cells@[rr]@[cc].ch);
        }
    }
    out
}

} // verus!
