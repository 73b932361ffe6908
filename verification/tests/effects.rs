use stardial::scanline::scanline_opacity;
use stardial::shooting_star::ShootingStarManager;
use stardial::starfield::Star;
use stardial::starfield::Starfield;
use stardial::theme::Color;

#[test]
fn test_even_rows_no_scanline() {
    assert_eq!(scanline_opacity(0, 0), 0);
    assert_eq!(scanline_opacity(2, 1000), 0);
    assert_eq!(scanline_opacity(100, 5000), 0);
}

#[test]
fn test_odd_rows_have_scanline() {
    let o = scanline_opacity(1, 0);
    assert!(o > 0 && o < 500);
}

#[test]
fn test_scanline_exact_value() {
    // row 1 at time zero: phase 100 mrad, |sin| = 101 per mille,
    // opacity = 80 + 101 * 70 / 1000 = 87 per mille
    assert_eq!(scanline_opacity(1, 0), 87);
}

#[test]
fn test_scanline_parity_sweep() {
    for row in 0..60u16 {
        for &t in &[0u64, 250, 1000, 12345, 99999] {
            let o = scanline_opacity(row, t);
            if row % 2 == 0 {
                assert_eq!(o, 0);
            } else {
                assert!(o > 0 && o < 500);
            }
        }
    }
}

#[test]
fn test_deterministic_seed() {
    let sf1 = Starfield::new(80, 24, 50, Some(42));
    let sf2 = Starfield::new(80, 24, 50, Some(42));
    assert_eq!(sf1.stars.len(), sf2.stars.len());
    for (a, b) in sf1.stars.iter().zip(sf2.stars.iter()) {
        assert_eq!(a.x, b.x);
        assert_eq!(a.y, b.y);
        assert_eq!(a.layer, b.layer);
    }
}

#[test]
fn test_star_count_formula() {
    // 80 * 24 * 50 / 800 = 120 stars
    let sf = Starfield::new(80, 24, 50, Some(42));
    assert_eq!(sf.stars.len(), 120);
}

#[test]
fn test_stars_vary_with_the_generator() {
    // A generator stuck on its seed would give every star the same position.
    let sf = Starfield::new(80, 24, 100, Some(7));
    assert!(sf.stars.len() >= 2);
    let first = &sf.stars[0];
    assert!(
        sf.stars.iter().any(|s| s.x != first.x || s.y != first.y),
        "all stars identical: the generator did not advance"
    );
}

#[test]
fn test_zero_density_no_stars() {
    let sf = Starfield::new(80, 24, 0, Some(1));
    assert!(sf.stars.is_empty());
}

#[test]
fn test_density_monotonic() {
    let mut prev = 0usize;
    for d in [0u32, 10, 30, 50, 80, 100] {
        let sf = Starfield::new(80, 24, d, Some(3));
        assert!(sf.stars.len() >= prev, "star count fell as density rose");
        prev = sf.stars.len();
    }
}

#[test]
fn test_star_brightness_range() {
    let star = Star { x: 0, y: 0, layer: 2, phase: 0 };
    let b = Starfield::star_brightness(&star);
    assert!(b <= 1000);
}

#[test]
fn test_star_brightness_all_layers_and_phases() {
    for layer in 0..3u8 {
        for phase in [0u32, 785, 1571, 3142, 4712, 6283] {
            let star = Star { x: 0, y: 0, layer, phase };
            let b = Starfield::star_brightness(&star);
            assert!(b <= 1000, "brightness {b} out of range");
        }
    }
}

#[test]
fn test_star_brightness_exact_at_zero_phase() {
    // sin(0) = 0, so layer bases come through exactly
    assert_eq!(Starfield::star_brightness(&Star { x: 0, y: 0, layer: 0, phase: 0 }), 300);
    assert_eq!(Starfield::star_brightness(&Star { x: 0, y: 0, layer: 1, phase: 0 }), 600);
    assert_eq!(Starfield::star_brightness(&Star { x: 0, y: 0, layer: 2, phase: 0 }), 900);
}

#[test]
fn test_star_color_endpoints() {
    let bright = Color::Rgb(255, 255, 255);
    let dim = Color::Rgb(0, 0, 0);
    assert_eq!(Starfield::star_color(1000, bright, dim), Color::Rgb(255, 255, 255));
    assert_eq!(Starfield::star_color(0, bright, dim), Color::Rgb(0, 0, 0));
    assert_eq!(Starfield::star_color(500, bright, dim), Color::Rgb(127, 127, 127));
}

#[test]
fn test_tick_wraps_stars() {
    let mut sf = Starfield::new(80, 24, 50, Some(42));
    // Tick a lot: stars should wrap, not go negative
    for _ in 0..1000 {
        sf.tick(100);
    }
    for star in &sf.stars {
        assert!((star.x as i64) >= 0, "star x should be non-negative after wrap");
        assert!((star.x as u64) < 80 * 1000, "star x should stay within the field");
    }
}

#[test]
fn test_resize_repopulates() {
    let mut sf = Starfield::new(80, 24, 50, Some(42));
    let old_count = sf.stars.len();
    sf.resize(160, 48, 50);
    // Larger area should produce more stars
    assert!(sf.stars.len() > old_count);
}

#[test]
fn test_shooting_star_lifecycle() {
    // Ticked past its initial cooldown the manager eventually holds a star;
    // ticking past that star's lifetime removes it again.
    let mut mgr = ShootingStarManager::new(80, 24, Some(5));
    let mut spawned = false;
    for _ in 0..100 {
        mgr.tick(100);
        if !mgr.active.is_empty() {
            spawned = true;
            break;
        }
    }
    assert!(spawned, "no shooting star spawned within 10 seconds");
    // Lifetimes stay below 2.5 s and the next spawn is at least 5 s away,
    // so 2.6 s later the set is empty again.
    for _ in 0..26 {
        mgr.tick(100);
    }
    assert!(mgr.active.is_empty(), "shooting star outlived its lifetime");
}

#[test]
fn test_shooting_star_deterministic() {
    let mut a = ShootingStarManager::new(80, 24, Some(9));
    let mut b = ShootingStarManager::new(80, 24, Some(9));
    for _ in 0..120 {
        a.tick(77);
        b.tick(77);
    }
    assert_eq!(a.active.len(), b.active.len());
    for (x, y) in a.active.iter().zip(b.active.iter()) {
        assert_eq!(x, y);
    }
}

#[test]
fn test_trail_positions_shape() {
    let mut mgr = ShootingStarManager::new(80, 24, Some(5));
    for _ in 0..100 {
        mgr.tick(100);
        if !mgr.active.is_empty() {
            break;
        }
    }
    let star = mgr.active[0];
    let positions = ShootingStarManager::trail_positions(&star);
    assert!(positions.len() <= star.trail_len as usize);
    assert!(!positions.is_empty(), "a freshly spawned star shows its head");
}

#[test]
fn test_shooting_star_resize_keeps_active_set() {
    let mut mgr = ShootingStarManager::new(80, 24, Some(5));
    for _ in 0..100 {
        mgr.tick(100);
        if !mgr.active.is_empty() {
            break;
        }
    }
    let before = mgr.active.clone();
    mgr.resize(10, 5);
    assert_eq!(before.len(), mgr.active.len());
    for (x, y) in before.iter().zip(mgr.active.iter()) {
        assert_eq!(x, y);
    }
}
