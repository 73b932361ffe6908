use crate::cli::effective_format_spec;
use crate::cli::Args;
use crate::rng::seed_after;
use crate::rng::step_seed;
use crate::rng::step_val;
use crate::shooting_star::spawn_star;
use crate::shooting_star::tick_actives;
use crate::shooting_star::ShootingStarManager;
use crate::starfield::star_count;
use crate::starfield::stars_from;
use crate::starfield::tick_seq;
use crate::starfield::Starfield;
use crate::theme::is_luna;
use crate::theme::is_nebula;
use crate::theme::is_solar;
use crate::theme::is_void;
use crate::theme::parse_color_spec;
use crate::theme::Color;
use crate::theme::Theme;
use vstd::prelude::*;

verus! {

/// The theme that a name resolves to: one of the four palettes, with the
/// default as fallback for unknown names.
pub open spec fn named_theme_ok(name: Seq<char>, t: Theme) -> bool {
    if name == "nebula"@ {
        is_nebula(t)
    } else if name == "luna"@ {
        is_luna(t)
    } else if name == "solar"@ {
        is_solar(t)
    } else {
        is_void(t)
    }
}

/// A theme with its accent replaced, when an override color is present.
pub open spec fn accent_override(t: Theme, c: Option<Color>) -> Theme {
    match c {
        Some(col) => Theme { accent: col, ..t },
        None => t,
    }
}

/// The accent override a configuration asks for, if any parses.
pub open spec fn spec_color_override(args: Args) -> Option<Color> {
    match args.color {
        Some(cs) => parse_color_spec(cs@),
        None => None,
    }
}

/// Application state: the simulation clock that owns both particle
/// subsystems and the per-frame counters.
#[derive(Debug, Clone)]
pub struct App {
    pub theme: Theme,
    pub time_format: String,
    pub show_date: bool,
    pub blink: bool,
    pub blink_visible: bool,
    pub effects_enabled: bool,
    pub starfield: Starfield,
    pub shooting_stars: ShootingStarManager,
    pub fps: u32,
    pub star_density: u32,
    pub tick_count: u64,
    /// Elapsed time in milliseconds
    pub elapsed_ms: u64,
    pub demo_mode: bool,
    pub should_quit: bool,
    pub width: u16,
    pub height: u16,
}

impl App {
    /// Both subsystems are well formed, agree with the stored dimensions,
    /// and the density is a percentage.
    pub open spec fn wf(self) -> bool {
        &&& self.starfield.wf()
        &&& self.shooting_stars.wf()
        &&& self.starfield.spec_width() == self.width
        &&& self.starfield.spec_height() == self.height
        &&& self.star_density <= 100
    }

    /// Create from resolved configuration and initial terminal size.
    pub fn new(args: &Args, width: u16, height: u16) -> (r: App)
        requires
            args.stars <= 100,
        ensures
            r.wf(),
            exists|base: Theme|
                #[trigger] named_theme_ok(args.theme@, base) && r.theme == accent_override(
                    base,
                    spec_color_override(*args),
                ),
            r.time_format@ == effective_format_spec(*args),
            r.show_date == args.date,
            r.blink == args.blink,
            r.blink_visible == true,
            r.effects_enabled == !args.no_effects,
            r.fps == args.fps,
            r.star_density == args.stars,
            r.tick_count == 0,
            r.elapsed_ms == 0,
            r.demo_mode == args.demo,
            r.should_quit == false,
            r.width == width,
            r.height == height,
            r.starfield.stars@.len() == star_count(width, height, args.stars),
            r.shooting_stars.active@.len() == 0,
            r.shooting_stars.width == width,
            r.shooting_stars.height == height,
            args.seed matches Some(s) ==> r.starfield.stars@ == stars_from(
                s,
                star_count(width, height, args.stars) as nat,
                width,
                height,
            ) && r.starfield.seed == seed_after(
                s,
                (4 * star_count(width, height, args.stars)) as nat,
            ),
            args.seed matches Some(s) ==> r.shooting_stars.cooldown == 3000 + step_val(
                s.wrapping_add(0xDEAD),
            ) as int % 5000 && r.shooting_stars.seed == step_seed(s.wrapping_add(0xDEAD)),
            3000 <= r.shooting_stars.cooldown < 8000,
    {
        let base = Theme::by_name(args.theme.as_str());
        let ghost base_g = base;
        let theme = match &args.color {
            Some(c) => base.with_accent_override(c.as_str()),
            None => base,
        };
        let time_format = args.effective_format();
        let app = App {
            theme,
            time_format,
            show_date: args.date,
            blink: args.blink,
            blink_visible: true,
            effects_enabled: !args.no_effects,
            starfield: Starfield::new(width, height, args.stars, args.seed),
            shooting_stars: ShootingStarManager::new(width, height, args.seed),
            fps: args.fps,
            star_density: args.stars,
            tick_count: 0,
            elapsed_ms: 0,
            demo_mode: args.demo,
            should_quit: false,
            width,
            height,
        };
        proof {
            assert(named_theme_ok(args.theme@, base_g));
            assert(app.theme == accent_override(base_g, spec_color_override(*args)));
        }
        app
    }

    /// Advance one frame by `dt_ms` milliseconds: count the tick, accumulate
    /// time, toggle the colon on a strict half-second period when blinking,
    /// and advance both particle subsystems when effects are on.
    pub fn tick(&mut self, dt_ms: u32)
        requires
            old(self).wf(),
            old(self).tick_count < u64::MAX,
            old(self).elapsed_ms + dt_ms <= u64::MAX,
            old(self).effects_enabled ==> old(self).starfield.stars@.len() == 0 || dt_ms
                <= old(self).width as u32 * 1000,
        ensures
            final(self).wf(),
            final(self).tick_count == old(self).tick_count + 1,
            final(self).elapsed_ms == old(self).elapsed_ms + dt_ms,
            old(self).blink ==> final(self).blink_visible == ((old(self).elapsed_ms + dt_ms)
                / 500 % 2 == 0),
            !old(self).blink ==> final(self).blink_visible == old(self).blink_visible,
            old(self).effects_enabled ==> final(self).starfield.stars@ == tick_seq(
                old(self).starfield.stars@,
                old(self).starfield.spec_seed(),
                old(self).width,
                old(self).height,
                dt_ms,
            ).0,
            old(self).effects_enabled ==> final(self).starfield.seed == tick_seq(
                old(self).starfield.stars@,
                old(self).starfield.spec_seed(),
                old(self).width,
                old(self).height,
                dt_ms,
            ).1,
            final(self).starfield.width == old(self).starfield.width,
            final(self).starfield.height == old(self).starfield.height,
            old(self).effects_enabled ==> final(self).shooting_stars.active@ == ({
                let m = old(self).shooting_stars;
                let kept = tick_actives(m.active@, m.width, m.height, dt_ms);
                if m.cooldown - dt_ms <= 0 {
                    kept.push(spawn_star(m.seed, m.width, m.height))
                } else {
                    kept
                }
            }),
            old(self).effects_enabled ==> ({
                let m = old(self).shooting_stars;
                if m.cooldown - dt_ms <= 0 {
                    &&& final(self).shooting_stars.seed == seed_after(m.seed, 7)
                    &&& final(self).shooting_stars.cooldown == 5000 + step_val(
                        seed_after(m.seed, 6),
                    ) as int % 10000
                } else {
                    &&& final(self).shooting_stars.seed == m.seed
                    &&& final(self).shooting_stars.cooldown == m.cooldown - dt_ms
                }
            }),
            final(self).shooting_stars.width == old(self).shooting_stars.width,
            final(self).shooting_stars.height == old(self).shooting_stars.height,
            !old(self).effects_enabled ==> final(self).starfield == old(self).starfield
                && final(self).shooting_stars == old(self).shooting_stars,
            final(self).theme == old(self).theme,
            final(self).time_format == old(self).time_format,
            final(self).show_date == old(self).show_date,
            final(self).blink == old(self).blink,
            final(self).effects_enabled == old(self).effects_enabled,
            final(self).fps == old(self).fps,
            final(self).star_density == old(self).star_density,
            final(self).demo_mode == old(self).demo_mode,
            final(self).should_quit == old(self).should_quit,
            final(self).width == old(self).width,
            final(self).height == old(self).height,
    {
        self.tick_count = self.tick_count + 1;
        self.elapsed_ms = self.elapsed_ms + (dt_ms as u64);
        if self.blink {
            self.blink_visible = (self.elapsed_ms / 500) % 2 == 0;
        }
        if self.effects_enabled {
            self.starfield.tick(dt_ms);
            self.shooting_stars.tick(dt_ms);
        }
    }

    /// Handle terminal resize: store the new dimensions and propagate them;
    /// the starfield repopulates, the shooting stars only update bounds.
    pub fn resize(&mut self, width: u16, height: u16)
        requires
            old(self).wf(),
        ensures
            final(self).wf(),
            final(self).width == width,
            final(self).height == height,
            width == old(self).width && height == old(self).height ==> final(self).starfield
                == old(self).starfield,
            width != old(self).width || height != old(self).height ==> final(self)
                .starfield.stars@.len() == star_count(width, height, old(self).star_density)
                && final(self).starfield.stars@ == stars_from(
                old(self).starfield.spec_seed(),
                star_count(width, height, old(self).star_density) as nat,
                width,
                height,
            ) && final(self).starfield.seed == seed_after(
                old(self).starfield.spec_seed(),
                (4 * star_count(width, height, old(self).star_density)) as nat,
            ),
            final(self).shooting_stars.active@ == old(self).shooting_stars.active@,
            final(self).shooting_stars.width == width,
            final(self).shooting_stars.height == height,
            final(self).shooting_stars.cooldown == old(self).shooting_stars.cooldown,
            final(self).shooting_stars.seed == old(self).shooting_stars.seed,
            final(self).theme == old(self).theme,
            final(self).time_format == old(self).time_format,
            final(self).show_date == old(self).show_date,
            final(self).blink == old(self).blink,
            final(self).blink_visible == old(self).blink_visible,
            final(self).effects_enabled == old(self).effects_enabled,
            final(self).fps == old(self).fps,
            final(self).star_density == old(self).star_density,
            final(self).tick_count == old(self).tick_count,
            final(self).elapsed_ms == old(self).elapsed_ms,
            final(self).demo_mode == old(self).demo_mode,
            final(self).should_quit == old(self).should_quit,
    {
        self.width = width;
        self.height = height;
        let density = self.star_density;
        self.starfield.resize(width, height, density);
        self.shooting_stars.resize(width, height);
    }
}

} // verus!
