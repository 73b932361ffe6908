use stardial::cli::Args;

fn default_args() -> Args {
    Args {
        format: "%H:%M:%S".into(),
        twelve: false,
        twentyfour: false,
        date: false,
        no_seconds: false,
        blink: false,
        fps: 30,
        theme: "void".into(),
        color: None,
        no_effects: false,
        stars: 40,
        seed: None,
        demo: false,
        log: None,
    }
}

#[test]
fn test_twelve_hour_format() {
    let args = Args { twelve: true, no_seconds: false, format: "%H:%M:%S".into(), ..default_args() };
    assert_eq!(args.effective_format(), "%I:%M:%S %p");
}

#[test]
fn test_twelve_no_seconds() {
    let args = Args { twelve: true, no_seconds: true, format: "%H:%M:%S".into(), ..default_args() };
    assert_eq!(args.effective_format(), "%I:%M %p");
}

#[test]
fn test_twentyfour_no_seconds() {
    let args = Args { twelve: false, no_seconds: true, format: "%H:%M:%S".into(), ..default_args() };
    assert_eq!(args.effective_format(), "%H:%M");
}

#[test]
fn test_default_format_passthrough() {
    let args = default_args();
    assert_eq!(args.effective_format(), "%H:%M:%S");
}
