use vstd::prelude::*;

verus! {

/// Resolved configuration for the clock: the time format, display flags,
/// theme selection, effect tuning and the optional random seed.
#[derive(Debug, Clone)]
pub struct Args {
    /// Time format string
    pub format: String,
    /// Use 12-hour format (overrides `format`)
    pub twelve: bool,
    /// Use 24-hour format (default)
    pub twentyfour: bool,
    /// Show date line below clock
    pub date: bool,
    /// Hide seconds from display
    pub no_seconds: bool,
    /// Blink the colon separator
    pub blink: bool,
    /// Target frames per second (1-60)
    pub fps: u32,
    /// Color theme
    pub theme: String,
    /// Override primary accent color (name or #hex)
    pub color: Option<String>,
    /// Disable all background effects
    pub no_effects: bool,
    /// Star density (0-100)
    pub stars: u32,
    /// Random seed for deterministic visuals
    pub seed: Option<u64>,
    /// Run a scripted demo loop
    pub demo: bool,
    /// Write debug logs to file
    pub log: Option<String>,
}

/// The format string the clock displays with, as resolved from the flags.
pub open spec fn effective_format_spec(a: Args) -> Seq<char> {
    if a.twelve {
        if a.no_seconds {
            "%I:%M %p"@
        } else {
            "%I:%M:%S %p"@
        }
    } else if a.no_seconds {
        "%H:%M"@
    } else {
        a.format@
    }
}

impl Args {
    /// Resolve the effective time format string based on flags.
    pub fn effective_format(&self) -> (r: String)
        ensures
            r@ == effective_format_spec(*self),
    {
        if self.twelve {
            if self.no_seconds {
                String::from_str("%I:%M %p")
            } else {
                String::from_str("%I:%M:%S %p")
            }
        } else if self.no_seconds {
            String::from_str("%H:%M")
        } else {
            self.format.clone()
        }
    }
}

} // verus!
