use vstd::prelude::*;

verus! {

/// A terminal color: either an exact RGB triple or one of the classic named
/// terminal colors.
#[derive(Clone, Copy, Debug, PartialEq, Eq, Structural)]
pub enum Color {
    Rgb(u8, u8, u8),
    Red,
    Green,
    Blue,
    Cyan,
    Magenta,
    Yellow,
    White,
    Black,
}

/// A color theme: a fixed bundle of named colors, immutable once built.
#[derive(Clone, Debug)]
pub struct Theme {
    pub name: &'static str,
    /// Primary accent color for digits
    pub accent: Color,
    /// Secondary color for colon / dim elements
    pub secondary: Color,
    /// Date line color
    pub date_color: Color,
    /// Star color (bright)
    pub star_bright: Color,
    /// Star color (dim)
    pub star_dim: Color,
    /// Shooting star color
    pub shooting_star: Color,
    /// Scanline tint
    pub scanline: Color,
    /// Background color (usually near-black)
    pub bg: Color,
}

pub open spec fn is_void(t: Theme) -> bool {
    &&& t.name@ == "void"@
    &&& t.accent == Color::Rgb(0, 255, 255)
    &&& t.secondary == Color::Rgb(0, 160, 180)
    &&& t.date_color == Color::Rgb(80, 120, 140)
    &&& t.star_bright == Color::Rgb(220, 230, 255)
    &&& t.star_dim == Color::Rgb(60, 70, 90)
    &&& t.shooting_star == Color::Rgb(180, 220, 255)
    &&& t.scanline == Color::Rgb(0, 40, 50)
    &&& t.bg == Color::Rgb(0, 0, 0)
}

pub open spec fn is_nebula(t: Theme) -> bool {
    &&& t.name@ == "nebula"@
    &&& t.accent == Color::Rgb(255, 106, 193)
    &&& t.secondary == Color::Rgb(180, 80, 160)
    &&& t.date_color == Color::Rgb(140, 80, 130)
    &&& t.star_bright == Color::Rgb(255, 200, 240)
    &&& t.star_dim == Color::Rgb(90, 50, 80)
    &&& t.shooting_star == Color::Rgb(255, 150, 220)
    &&& t.scanline == Color::Rgb(40, 0, 30)
    &&& t.bg == Color::Rgb(5, 0, 10)
}

pub open spec fn is_luna(t: Theme) -> bool {
    &&& t.name@ == "luna"@
    &&& t.accent == Color::Rgb(200, 210, 240)
    &&& t.secondary == Color::Rgb(140, 150, 180)
    &&& t.date_color == Color::Rgb(100, 110, 140)
    &&& t.star_bright == Color::Rgb(240, 240, 255)
    &&& t.star_dim == Color::Rgb(50, 55, 70)
    &&& t.shooting_star == Color::Rgb(210, 220, 255)
    &&& t.scanline == Color::Rgb(15, 15, 25)
    &&& t.bg == Color::Rgb(2, 2, 8)
}

pub open spec fn is_solar(t: Theme) -> bool {
    &&& t.name@ == "solar"@
    &&& t.accent == Color::Rgb(255, 200, 50)
    &&& t.secondary == Color::Rgb(200, 150, 40)
    &&& t.date_color == Color::Rgb(160, 120, 50)
    &&& t.star_bright == Color::Rgb(255, 240, 200)
    &&& t.star_dim == Color::Rgb(80, 70, 40)
    &&& t.shooting_star == Color::Rgb(255, 220, 100)
    &&& t.scanline == Color::Rgb(30, 20, 0)
    &&& t.bg == Color::Rgb(5, 2, 0)
}

impl Theme {
    /// Look a theme up by name, falling back to the default for unknown names.
    pub fn by_name(name: &str) -> (r: Theme)
        ensures
            name@ == "nebula"@ ==> is_nebula(r),
            name@ == "luna"@ ==> is_luna(r),
            name@ == "solar"@ ==> is_solar(r),
            name@ != "nebula"@ && name@ != "luna"@ && name@ != "solar"@ ==> is_void(r),
    {
        proof {
            reveal_strlit("nebula");
            reveal_strlit("luna");
            reveal_strlit("solar");
            assert("nebula"@.len() == 6 && "luna"@.len() == 4 && "solar"@.len() == 5);
        }
        if str_eq(name, "nebula") {
            Theme::nebula()
        } else if str_eq(name, "luna") {
            Theme::luna()
        } else if str_eq(name, "solar") {
            Theme::solar()
        } else {
            Theme::void()
        }
    }

    /// Deep space: cool cyan/blue on black.
    pub fn void() -> (r: Theme)
        ensures
            is_void(r),
    {
        Theme {
            name: "void",
            accent: Color::Rgb(0, 255, 255),
            secondary: Color::Rgb(0, 160, 180),
            date_color: Color::Rgb(80, 120, 140),
            star_bright: Color::Rgb(220, 230, 255),
            star_dim: Color::Rgb(60, 70, 90),
            shooting_star: Color::Rgb(180, 220, 255),
            scanline: Color::Rgb(0, 40, 50),
            bg: Color::Rgb(0, 0, 0),
        }
    }

    /// Purple-pink nebula haze.
    pub fn nebula() -> (r: Theme)
        ensures
            is_nebula(r),
    {
        Theme {
            name: "nebula",
            accent: Color::Rgb(255, 106, 193),
            secondary: Color::Rgb(180, 80, 160),
            date_color: Color::Rgb(140, 80, 130),
            star_bright: Color::Rgb(255, 200, 240),
            star_dim: Color::Rgb(90, 50, 80),
            shooting_star: Color::Rgb(255, 150, 220),
            scanline: Color::Rgb(40, 0, 30),
            bg: Color::Rgb(5, 0, 10),
        }
    }

    /// Soft silver-blue moonlight.
    pub fn luna() -> (r: Theme)
        ensures
            is_luna(r),
    {
        Theme {
            name: "luna",
            accent: Color::Rgb(200, 210, 240),
            secondary: Color::Rgb(140, 150, 180),
            date_color: Color::Rgb(100, 110, 140),
            star_bright: Color::Rgb(240, 240, 255),
            star_dim: Color::Rgb(50, 55, 70),
            shooting_star: Color::Rgb(210, 220, 255),
            scanline: Color::Rgb(15, 15, 25),
            bg: Color::Rgb(2, 2, 8),
        }
    }

    /// Warm golden sun.
    pub fn solar() -> (r: Theme)
        ensures
            is_solar(r),
    {
        Theme {
            name: "solar",
            accent: Color::Rgb(255, 200, 50),
            secondary: Color::Rgb(200, 150, 40),
            date_color: Color::Rgb(160, 120, 50),
            star_bright: Color::Rgb(255, 240, 200),
            star_dim: Color::Rgb(80, 70, 40),
            shooting_star: Color::Rgb(255, 220, 100),
            scanline: Color::Rgb(30, 20, 0),
            bg: Color::Rgb(5, 2, 0),
        }
    }

    /// Override the accent color from a user-supplied string; an unparseable
    /// string leaves the theme unchanged.
    pub fn with_accent_override(self, color_str: &str) -> (r: Theme)
        ensures
            parse_color_spec(color_str@) matches Some(c) ==> r == (Theme {
                accent: c,
                ..self
            }),
            parse_color_spec(color_str@) is None ==> r == self,
    {
        let parsed = parse_color(color_str);
        match parsed {
            Some(c) => Theme { accent: c, ..self },
            None => self,
        }
    }
}

/// Character-wise string equality.
pub fn str_eq(a: &str, b: &str) -> (r: bool)
    ensures
        r == (a@ == b@),
{
    let n = a.unicode_len();
    let m = b.unicode_len();
    if n != m {
        proof {
            assert(a@ != b@) by {
                if a@ == b@ {
                    assert(a@.len() == b@.len());
                }
            }
        }
        return false;
    }
    let mut i: usize = 0;
    while i < n
        invariant
            i <= n,
            n == a@.len(),
            n == b@.len(),
            forall|j: int| 0 <= j < i ==> a@[j] == b@[j],
        decreases n - i,
    {
        if a.get_char(i) != b.get_char(i) {
            proof {
                assert(a@ != b@) by {
                    if a@ == b@ {
                        assert(a@[i as int] == b@[i as int]);
                    }
                }
            }
            return false;
        }
        i = i + 1;
    }
    proof {
        assert(a@ =~= b@);
    }
    true
}

pub open spec fn is_space_char(c: char) -> bool {
    c == ' ' || c == '\t' || c == '\n' || c == '\r'
}

/// The sequence with its leading whitespace removed.
pub open spec fn trim_front(s: Seq<char>) -> Seq<char>
    decreases s.len(),
{
    if s.len() > 0 && is_space_char(s[0]) {
        trim_front(s.drop_first())
    } else {
        s
    }
}

/// The sequence with its trailing whitespace removed.
pub open spec fn trim_back(s: Seq<char>) -> Seq<char>
    decreases s.len(),
{
    if s.len() > 0 && is_space_char(s.last()) {
        trim_back(s.drop_last())
    } else {
        s
    }
}

pub open spec fn trimmed(s: Seq<char>) -> Seq<char> {
    trim_back(trim_front(s))
}

proof fn lemma_trim_front_skip(s: Seq<char>, i: int)
    requires
        0 <= i <= s.len(),
        forall|j: int| 0 <= j < i ==> is_space_char(s[j]),
        i < s.len() ==> !is_space_char(s[i]),
    ensures
        trim_front(s) == s.skip(i),
    decreases i,
{
    if i == 0 {
        assert(s.skip(0) =~= s);
    } else {
        lemma_trim_front_skip(s.drop_first(), i - 1);
        assert(s.drop_first().skip(i - 1) =~= s.skip(i));
    }
}

proof fn lemma_trim_back_take(s: Seq<char>, e: int)
    requires
        0 <= e <= s.len(),
        forall|j: int| e <= j < s.len() ==> is_space_char(s[j]),
        e > 0 ==> !is_space_char(s[e - 1]),
    ensures
        trim_back(s) == s.take(e),
    decreases s.len(),
{
    if e == s.len() {
        assert(s.take(e) =~= s);
    } else {
        lemma_trim_back_take(s.drop_last(), e);
        assert(s.drop_last().take(e) =~= s.take(e));
    }
}

/// Numeric value of a hex digit; 16 marks a non-digit.
pub open spec fn hex_val(c: char) -> int {
    let u = c as int;
    if 48 <= u <= 57 {
        u - 48
    } else if 97 <= u <= 102 {
        u - 87
    } else if 65 <= u <= 70 {
        u - 55
    } else {
        16
    }
}

fn hex_val_exec(c: char) -> (r: u32)
    ensures
        r == hex_val(c),
{
    let u = c as u32;
    if 48 <= u && u <= 57 {
        u - 48
    } else if 97 <= u && u <= 102 {
        u - 87
    } else if 65 <= u && u <= 70 {
        u - 55
    } else {
        16
    }
}

pub open spec fn hex_ok(t: Seq<char>) -> bool {
    forall|i: int| 1 <= i < 7 ==> hex_val(#[trigger] t[i]) < 16
}

pub open spec fn hex_pair(t: Seq<char>, i: int) -> int {
    hex_val(t[i]) * 16 + hex_val(t[i + 1])
}

/// Per-position case-insensitive match of `a` against a name given in its
/// lower- and upper-case spellings.
pub open spec fn seq_matches_ci(a: Seq<char>, lo: Seq<char>, up: Seq<char>) -> bool {
    &&& a.len() == lo.len()
    &&& a.len() == up.len()
    &&& forall|i: int| 0 <= i < a.len() ==> (#[trigger] a[i]) == lo[i] || a[i] == up[i]
}

pub open spec fn named_color_spec(t: Seq<char>) -> Option<Color> {
    if seq_matches_ci(t, "red"@, "RED"@) {
        Some(Color::Red)
    } else if seq_matches_ci(t, "green"@, "GREEN"@) {
        Some(Color::Green)
    } else if seq_matches_ci(t, "blue"@, "BLUE"@) {
        Some(Color::Blue)
    } else if seq_matches_ci(t, "cyan"@, "CYAN"@) {
        Some(Color::Cyan)
    } else if seq_matches_ci(t, "magenta"@, "MAGENTA"@) {
        Some(Color::Magenta)
    } else if seq_matches_ci(t, "yellow"@, "YELLOW"@) {
        Some(Color::Yellow)
    } else if seq_matches_ci(t, "white"@, "WHITE"@) {
        Some(Color::White)
    } else if seq_matches_ci(t, "black"@, "BLACK"@) {
        Some(Color::Black)
    } else {
        None
    }
}

/// What `parse_color` yields: a hex triple for a well-formed `#RRGGBB`, a
/// named color for a known name in any letter case, and nothing otherwise.
/// Surrounding whitespace is ignored.
pub open spec fn parse_color_spec(s: Seq<char>) -> Option<Color> {
    let t = trimmed(s);
    if t.len() > 0 && t[0] == '#' {
        if t.len() == 7 && hex_ok(t) {
            Some(
                Color::Rgb(
                    hex_pair(t, 1) as u8,
                    hex_pair(t, 3) as u8,
                    hex_pair(t, 5) as u8,
                ),
            )
        } else {
            None
        }
    } else {
        named_color_spec(t)
    }
}

fn name_matches(t: &str, lo: &str, up: &str) -> (r: bool)
    ensures
        r == seq_matches_ci(t@, lo@, up@),
{
    let n = t.unicode_len();
    if n != lo.unicode_len() || n != up.unicode_len() {
        return false;
    }
    let mut i: usize = 0;
    while i < n
        invariant
            i <= n,
            n == t@.len(),
            n == lo@.len(),
            n == up@.len(),
            forall|j: int| 0 <= j < i ==> (#[trigger] t@[j]) == lo@[j] || t@[j] == up@[j],
        decreases n - i,
    {
        let c = t.get_char(i);
        if c != lo.get_char(i) && c != up.get_char(i) {
            return false;
        }
        i = i + 1;
    }
    true
}

/// Parse a color from a name or `#RRGGBB` hex string.
pub fn parse_color(s: &str) -> (r: Option<Color>)
    ensures
        r == parse_color_spec(s@),
{
    let n = s.unicode_len();
    let mut start: usize = 0;
    while start < n && is_space_exec(s.get_char(start))
        invariant
            start <= n,
            n == s@.len(),
            forall|j: int| 0 <= j < start ==> is_space_char(s@[j]),
        decreases n - start,
    {
        start = start + 1;
    }
    let mut end: usize = n;
    while end > start && is_space_exec(s.get_char(end - 1))
        invariant
            start <= end <= n,
            n == s@.len(),
            forall|j: int| end <= j < n ==> is_space_char(s@[j]),
        decreases end,
    {
        end = end - 1;
    }
    let t = s.substring_char(start, end);
    proof {
        lemma_trim_front_skip(s@, start as int);
        lemma_trim_back_take(s@.skip(start as int), (end - start) as int);
        assert(s@.skip(start as int).take((end - start) as int) =~= s@.subrange(
            start as int,
            end as int,
        ));
        assert(trimmed(s@) == t@);
    }
    let m = end - start;
    if m > 0 && t.get_char(0) == '#' {
        if m == 7 {
            let h1 = hex_val_exec(t.get_char(1));
            let h2 = hex_val_exec(t.get_char(2));
            let h3 = hex_val_exec(t.get_char(3));
            let h4 = hex_val_exec(t.get_char(4));
            let h5 = hex_val_exec(t.get_char(5));
            let h6 = hex_val_exec(t.get_char(6));
            if h1 < 16 && h2 < 16 && h3 < 16 && h4 < 16 && h5 < 16 && h6 < 16 {
                Some(
                    Color::Rgb(
                        (h1 * 16 + h2) as u8,
                        (h3 * 16 + h4) as u8,
                        (h5 * 16 + h6) as u8,
                    ),
                )
            } else {
                None
            }
        } else {
            None
        }
    } else if name_matches(t, "red", "RED") {
        Some(Color::Red)
    } else if name_matches(t, "green", "GREEN") {
        Some(Color::Green)
    } else if name_matches(t, "blue", "BLUE") {
        Some(Color::Blue)
    } else if name_matches(t, "cyan", "CYAN") {
        Some(Color::Cyan)
    } else if name_matches(t, "magenta", "MAGENTA") {
        Some(Color::Magenta)
    } else if name_matches(t, "yellow", "YELLOW") {
        Some(Color::Yellow)
    } else if name_matches(t, "white", "WHITE") {
        Some(Color::White)
    } else if name_matches(t, "black", "BLACK") {
        Some(Color::Black)
    } else {
        None
    }
}

fn is_space_exec(c: char) -> (r: bool)
    ensures
        r == is_space_char(c),
{
    c == ' ' || c == '\t' || c == '\n' || c == '\r'
}

} // verus!
