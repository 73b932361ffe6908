use stardial::app::App;
use stardial::cli::Args;
use stardial::render::render_frame;
use stardial::render::render_to_string;

fn test_args() -> Args {
    Args {
        format: "%H:%M:%S".into(),
        twelve: false,
        twentyfour: false,
        date: false,
        no_seconds: false,
        blink: false,
        fps: 30,
        theme: "void".into(),
        color: None,
        no_effects: true,
        stars: 0,
        seed: Some(42),
        demo: false,
        log: None,
    }
}

#[test]
fn test_headless_render_contains_digits() {
    let args = test_args();
    let app = App::new(&args, 80, 24);
    let output = render_to_string(&app, 80, 24, "12:34:56", "2024-01-01 Monday");
    // Should contain block characters (digits are rendered)
    assert!(
        output.contains('█'),
        "rendered output should contain block chars"
    );
}

#[test]
fn test_headless_render_with_date() {
    let mut args = test_args();
    args.date = true;
    let app = App::new(&args, 80, 24);
    let output = render_to_string(&app, 80, 24, "12:34:56", "2024-01-01 Monday");
    assert!(output.contains('█'));
    assert!(output.contains("2024-01-01 Monday"));
}

#[test]
fn test_render_small_terminal() {
    // Should not panic even with a tiny terminal
    let args = test_args();
    let app = App::new(&args, 20, 5);
    let output = render_to_string(&app, 20, 5, "12:34:56", "2024-01-01 Monday");
    // every line is exactly as wide as the area: nothing lands outside it
    assert_eq!(output.lines().count(), 5);
    for line in output.lines() {
        assert_eq!(line.chars().count(), 20);
    }
}

#[test]
fn test_render_small_terminal_with_effects() {
    let mut args = test_args();
    args.no_effects = false;
    args.stars = 100;
    let mut app = App::new(&args, 20, 5);
    for _ in 0..50 {
        app.tick(100);
    }
    let frame = render_frame(&app, 20, 5, "12:34:56", "2024-01-01 Monday");
    assert_eq!(frame.cells.len(), 5);
    for row in &frame.cells {
        assert_eq!(row.len(), 20);
    }
}

#[test]
fn test_blink_hides_colons() {
    let mut args = test_args();
    args.blink = true;
    let mut app = App::new(&args, 80, 24);
    // after 0.6 s the half-period is odd: colons are hidden
    app.tick(600);
    assert!(!app.blink_visible);
    let hidden = render_to_string(&app, 80, 24, "12:34:56", "");
    // after a full second they are visible again
    app.tick(400);
    assert!(app.blink_visible);
    let visible = render_to_string(&app, 80, 24, "12:34:56", "");
    assert_eq!(hidden.lines().count(), visible.lines().count());
    assert_ne!(hidden, visible);
}

#[test]
fn test_clock_block_position() {
    // 80x24, "12:34:56": rendered width 39, so the block starts at column
    // (80-39)/2 = 20 and row (24-7)/2 = 8. The top row of '1' is "  ▀█ ".
    let args = test_args();
    let app = App::new(&args, 80, 24);
    let output = render_to_string(&app, 80, 24, "12:34:56", "");
    let top_row: Vec<char> = output.lines().nth(8).unwrap().chars().collect();
    assert_eq!(top_row[20], ' ');
    assert_eq!(top_row[21], ' ');
    assert_eq!(top_row[22], '▀');
    assert_eq!(top_row[23], '█');
    // after the gap, '2' begins with its solid corner
    assert_eq!(top_row[26], '█');
}
