use stardial::app::App;
use stardial::cli::Args;

fn base_args() -> Args {
    Args {
        format: "%H:%M:%S".into(),
        twelve: false,
        twentyfour: false,
        date: false,
        no_seconds: false,
        blink: false,
        fps: 30,
        theme: "void".into(),
        color: None,
        no_effects: false,
        stars: 50,
        seed: Some(42),
        demo: false,
        log: None,
    }
}

#[test]
fn test_app_new_initial_state() {
    let args = base_args();
    let app = App::new(&args, 80, 24);
    assert_eq!(app.tick_count, 0);
    assert_eq!(app.elapsed_ms, 0);
    assert!(app.blink_visible);
    assert!(!app.should_quit);
    assert!(app.effects_enabled);
    assert_eq!(app.width, 80);
    assert_eq!(app.height, 24);
    assert_eq!(app.time_format, "%H:%M:%S");
    assert_eq!(app.star_density, 50);
    assert_eq!(app.starfield.stars.len(), 80 * 24 * 50 / 800);
    assert!(app.shooting_stars.active.is_empty());
}

#[test]
fn test_app_tick_accumulates() {
    let args = base_args();
    let mut app = App::new(&args, 80, 24);
    app.tick(100);
    app.tick(250);
    assert_eq!(app.tick_count, 2);
    assert_eq!(app.elapsed_ms, 350);
}

#[test]
fn test_app_resize_propagates() {
    let args = base_args();
    let mut app = App::new(&args, 80, 24);
    app.resize(160, 48);
    assert_eq!(app.width, 160);
    assert_eq!(app.height, 48);
    // the starfield repopulates for the new area at the stored density
    assert_eq!(app.starfield.stars.len(), 160 * 48 * 50 / 800);
}

#[test]
fn test_app_blink_toggles_on_half_seconds() {
    let mut args = base_args();
    args.blink = true;
    args.no_effects = true;
    let mut app = App::new(&args, 80, 24);
    app.tick(499);
    assert!(app.blink_visible);
    app.tick(2);
    assert!(!app.blink_visible);
    app.tick(500);
    assert!(app.blink_visible);
}

#[test]
fn test_app_effects_disabled_freezes_particles() {
    let mut args = base_args();
    args.no_effects = true;
    let mut app = App::new(&args, 80, 24);
    let before: Vec<_> = app.starfield.stars.clone();
    app.tick(1000);
    assert_eq!(app.starfield.stars.len(), before.len());
    for (a, b) in app.starfield.stars.iter().zip(before.iter()) {
        assert_eq!(a, b);
    }
}
