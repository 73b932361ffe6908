use vstd::prelude::*;

verus! {

/// Height of each glyph in rows.
pub const GLYPH_HEIGHT: usize = 5;

/// Width of a digit glyph in columns.
pub const DIGIT_WIDTH: usize = 5;

/// Width of the colon glyph in columns.
pub const COLON_WIDTH: usize = 1;

/// Width of a space glyph.
pub const SPACE_WIDTH: usize = 3;

/// Display width (in columns) of a character's glyph.
pub open spec fn glyph_width(ch: char) -> int {
    if ch == ':' {
        1
    } else if ch == ' ' {
        3
    } else {
        5
    }
}

/// The block-glyph rows of a character, top to bottom.
pub open spec fn glyph_rows(ch: char) -> Seq<Seq<char>> {
    if ch == '0' {
        seq!["█▀▀▀█"@, "█   █"@, "█   █"@, "█   █"@, "█▄▄▄█"@]
    } else if ch == '1' {
        seq!["  ▀█ "@, "   █ "@, "   █ "@, "   █ "@, "   █ "@]
    } else if ch == '2' {
        seq!["█▀▀▀█"@, "    █"@, "█▀▀▀█"@, "█    "@, "█▄▄▄█"@]
    } else if ch == '3' {
        seq!["█▀▀▀█"@, "    █"@, " ▀▀▀█"@, "    █"@, "█▄▄▄█"@]
    } else if ch == '4' {
        seq!["█   █"@, "█   █"@, "█▀▀▀█"@, "    █"@, "    █"@]
    } else if ch == '5' {
        seq!["█▀▀▀█"@, "█    "@, "█▀▀▀█"@, "    █"@, "█▄▄▄█"@]
    } else if ch == '6' {
        seq!["█▀▀▀█"@, "█    "@, "█▀▀▀█"@, "█   █"@, "█▄▄▄█"@]
    } else if ch == '7' {
        seq!["█▀▀▀█"@, "    █"@, "    █"@, "    █"@, "    █"@]
    } else if ch == '8' {
        seq!["█▀▀▀█"@, "█   █"@, "█▀▀▀█"@, "█   █"@, "█▄▄▄█"@]
    } else if ch == '9' {
        seq!["█▀▀▀█"@, "█   █"@, "█▀▀▀█"@, "    █"@, "█▄▄▄█"@]
    } else if ch == ':' {
        seq![" "@, "█"@, " "@, "█"@, " "@]
    } else if ch == ' ' {
        seq!["   "@, "   "@, "   "@, "   "@, "   "@]
    } else if ch == 'A' || ch == 'a' {
        seq!["█▀▀▀█"@, "█   █"@, "█▀▀▀█"@, "█   █"@, "█   █"@]
    } else if ch == 'P' || ch == 'p' {
        seq!["█▀▀▀█"@, "█   █"@, "█▀▀▀█"@, "█    "@, "█    "@]
    } else if ch == 'M' || ch == 'm' {
        seq!["█   █"@, "██ ██"@, "█ █ █"@, "█   █"@, "█   █"@]
    } else {
        seq!["     "@, "     "@, "     "@, "     "@, "     "@]
    }
}

/// Every glyph is `GLYPH_HEIGHT` rows tall and each of its rows is exactly
/// `glyph_width` columns wide.
pub proof fn lemma_glyph_rows_props(ch: char)
    ensures
        glyph_rows(ch).len() == 5,
        forall|i: int| 0 <= i < 5 ==> (#[trigger] glyph_rows(ch)[i]).len() == glyph_width(ch),
{
    reveal_strlit("█▀▀▀█");
    reveal_strlit("█   █");
    reveal_strlit("█▄▄▄█");
    reveal_strlit("  ▀█ ");
    reveal_strlit("   █ ");
    reveal_strlit("    █");
    reveal_strlit("█    ");
    reveal_strlit(" ▀▀▀█");
    reveal_strlit(" ");
    reveal_strlit("█");
    reveal_strlit("   ");
    reveal_strlit("██ ██");
    reveal_strlit("█ █ █");
    reveal_strlit("     ");
}

/// Returns the glyph lines for a single character; unsupported characters map
/// to a blank glyph of digit width.
pub fn glyph(ch: char) -> (r: Vec<&'static str>)
    ensures
        r.deep_view() == glyph_rows(ch),
        r@.len() == 5,
        forall|i: int| 0 <= i < 5 ==> (#[trigger] r@[i])@.len() == glyph_width(ch),
{
    let r: Vec<&'static str> = if ch == '0' {
        vec!["█▀▀▀█", "█   █", "█   █", "█   █", "█▄▄▄█"]
    } else if ch == '1' {
        vec!["  ▀█ ", "   █ ", "   █ ", "   █ ", "   █ "]
    } else if ch == '2' {
        vec!["█▀▀▀█", "    █", "█▀▀▀█", "█    ", "█▄▄▄█"]
    } else if ch == '3' {
        vec!["█▀▀▀█", "    █", " ▀▀▀█", "    █", "█▄▄▄█"]
    } else if ch == '4' {
        vec!["█   █", "█   █", "█▀▀▀█", "    █", "    █"]
    } else if ch == '5' {
        vec!["█▀▀▀█", "█    ", "█▀▀▀█", "    █", "█▄▄▄█"]
    } else if ch == '6' {
        vec!["█▀▀▀█", "█    ", "█▀▀▀█", "█   █", "█▄▄▄█"]
    } else if ch == '7' {
        vec!["█▀▀▀█", "    █", "    █", "    █", "    █"]
    } else if ch == '8' {
        vec!["█▀▀▀█", "█   █", "█▀▀▀█", "█   █", "█▄▄▄█"]
    } else if ch == '9' {
        vec!["█▀▀▀█", "█   █", "█▀▀▀█", "    █", "█▄▄▄█"]
    } else if ch == ':' {
        vec![" ", "█", " ", "█", " "]
    } else if ch == ' ' {
        vec!["   ", "   ", "   ", "   ", "   "]
    } else if ch == 'A' || ch == 'a' {
        vec!["█▀▀▀█", "█   █", "█▀▀▀█", "█   █", "█   █"]
    } else if ch == 'P' || ch == 'p' {
        vec!["█▀▀▀█", "█   █", "█▀▀▀█", "█    ", "█    "]
    } else if ch == 'M' || ch == 'm' {
        vec!["█   █", "██ ██", "█ █ █", "█   █", "█   █"]
    } else {
        vec!["     ", "     ", "     ", "     ", "     "]
    };
    proof {
        assert(r.deep_view() =~~= glyph_rows(ch));
        lemma_glyph_rows_props(ch);
        assert forall|i: int| 0 <= i < 5 implies (#[trigger] r@[i])@.len() == glyph_width(
            ch,
        ) by {
            assert(r@[i]@ == r.deep_view()[i]);
            assert(r.deep_view()[i] == glyph_rows(ch)[i]);
        }
    }
    r
}

/// Compute the display width (in columns) of a character.
pub fn char_width(ch: char) -> (r: usize)
    ensures
        r == glyph_width(ch),
{
    if ch == ':' {
        COLON_WIDTH
    } else if ch == ' ' {
        SPACE_WIDTH
    } else {
        DIGIT_WIDTH
    }
}

/// The row a single character contributes: its glyph row, or a blank column
/// of colon width when colons are hidden.
pub open spec fn char_row(ch: char, hide_colons: bool, row: int) -> Seq<char> {
    if hide_colons && ch == ':' {
        seq![' ']
    } else {
        glyph_rows(ch)[row]
    }
}

/// One full rendered row of a string: the characters' rows joined by single
/// blank gap columns.
pub open spec fn row_spec(s: Seq<char>, hide_colons: bool, row: int) -> Seq<char>
    decreases s.len(),
{
    if s.len() == 0 {
        Seq::empty()
    } else if s.len() == 1 {
        char_row(s[0], hide_colons, row)
    } else {
        row_spec(s.drop_last(), hide_colons, row) + seq![' '] + char_row(
            s.last(),
            hide_colons,
            row,
        )
    }
}

/// The widths of the characters of `s`, summed.
pub open spec fn sum_widths(s: Seq<char>) -> int
    decreases s.len(),
{
    if s.len() == 0 {
        0
    } else {
        sum_widths(s.drop_last()) + glyph_width(s.last())
    }
}

/// Total display width of a rendered string: character widths plus one gap
/// column between each pair of characters.
pub open spec fn rendered_width_spec(s: Seq<char>) -> int {
    if s.len() == 0 {
        0
    } else {
        sum_widths(s) + s.len() - 1
    }
}

/// Every rendered row has the width `rendered_width_spec` gives, whether or
/// not colons are hidden.
pub proof fn lemma_row_spec_len(s: Seq<char>, hide_colons: bool, row: int)
    requires
        0 <= row < 5,
    ensures
        row_spec(s, hide_colons, row).len() == rendered_width_spec(s),
    decreases s.len(),
{
    if s.len() == 0 {
    } else if s.len() == 1 {
        lemma_glyph_rows_props(s[0]);
        assert(s.last() == s[0]);
        assert(s.drop_last().len() == 0);
        assert(sum_widths(s.drop_last()) == 0);
        assert(sum_widths(s) == glyph_width(s[0]));
        assert(row_spec(s, hide_colons, row) == char_row(s[0], hide_colons, row));
        assert(char_row(s[0], hide_colons, row).len() == glyph_width(s[0]));
    } else {
        lemma_row_spec_len(s.drop_last(), hide_colons, row);
        lemma_glyph_rows_props(s.last());
        assert(char_row(s.last(), hide_colons, row).len() == glyph_width(s.last()));
        assert(row_spec(s, hide_colons, row).len() == rendered_width_spec(s.drop_last()) + 1
            + glyph_width(s.last()));
    }
}

/// Hiding the colons never changes the width of a rendered row.
pub proof fn lemma_hide_colons_same_width(s: Seq<char>, row: int)
    requires
        0 <= row < 5,
    ensures
        row_spec(s, true, row).len() == row_spec(s, false, row).len(),
{
    lemma_row_spec_len(s, true, row);
    lemma_row_spec_len(s, false, row);
}

/// Render a time string into `GLYPH_HEIGHT` rows of characters. When
/// `hide_colons` is set, colon glyphs become blank columns of identical
/// width, so the layout does not shift with the blink state.
pub fn render_time_string(s: &str, hide_colons: bool) -> (r: Vec<String>)
    ensures
        r@.len() == GLYPH_HEIGHT,
        forall|row: int|
            0 <= row < 5 ==> (#[trigger] r@[row])@ == row_spec(s@, hide_colons, row),
        forall|row: int|
            0 <= row < 5 ==> (#[trigger] r@[row])@.len() == rendered_width_spec(s@),
{
    let n = s.unicode_len();
    let mut lines: Vec<String> = Vec::new();
    let mut row: usize = 0;
    while row < GLYPH_HEIGHT
        invariant
            row <= 5,
            n == s@.len(),
            lines@.len() == row,
            forall|k: int|
                0 <= k < row ==> (#[trigger] lines@[k])@ == row_spec(s@, hide_colons, k),
        decreases 5 - row,
    {
        let mut line = String::new();
        let mut i: usize = 0;
        while i < n
            invariant
                i <= n,
                row < 5,
                n == s@.len(),
                line@ == row_spec(s@.take(i as int), hide_colons, row as int),
            decreases n - i,
        {
            proof {
                reveal_strlit(" ");
            }
            if i > 0 {
                line.append(" ");
            }
            let ch = s.get_char(i);
            if hide_colons && ch == ':' {
                line.append(" ");
            } else {
                let g = glyph(ch);
                line.append(g[row]);
            }
            proof {
                let t1 = s@.take(i as int + 1);
                assert(t1.drop_last() =~= s@.take(i as int));
                assert(t1.last() == s@[i as int]);
                assert(line@ =~= row_spec(t1, hide_colons, row as int));
            }
            i = i + 1;
        }
        proof {
            assert(s@.take(n as int) =~= s@);
            lemma_row_spec_len(s@, hide_colons, row as int);
        }
        lines.push(line);
        row = row + 1;
    }
    proof {
        assert forall|k: int| 0 <= k < 5 implies (#[trigger] lines@[k])@.len()
            == rendered_width_spec(s@) by {
            lemma_row_spec_len(s@, hide_colons, k);
        }
    }
    lines
}

/// Compute total display width for a string.
pub fn rendered_width(s: &str) -> (r: usize)
    requires
        s@.len() * 6 <= usize::MAX,
    ensures
        r == rendered_width_spec(s@),
{
    let n = s.unicode_len();
    if n == 0 {
        return 0;
    }
    let mut total: usize = 0;
    let mut i: usize = 0;
    while i < n
        invariant
            i <= n,
            n == s@.len(),
            n * 6 <= usize::MAX,
            total == sum_widths(s@.take(i as int)),
            total <= i * 5,
        decreases n - i,
    {
        let w = char_width(s.get_char(i));
        proof {
            let t1 = s@.take(i as int + 1);
            assert(t1.drop_last() =~= s@.take(i as int));
            assert(t1.last() == s@[i as int]);
            assert((i as int + 1) * 5 == i as int * 5 + 5) by (nonlinear_arith);
            assert((i as int + 1) * 5 <= n as int * 5) by (nonlinear_arith)
                requires
                    i as int + 1 <= n as int,
            ;
            assert(n as int * 5 + n as int == n as int * 6) by (nonlinear_arith);
        }
        total = total + w;
        i = i + 1;
    }
    proof {
        assert(s@.take(n as int) =~= s@);
        assert(n as int * 5 + n as int == n as int * 6) by (nonlinear_arith);
        assert(i as int * 5 <= n as int * 5) by (nonlinear_arith)
            requires
                i as int <= n as int,
        ;
    }
    total + (n - 1)
}

} // verus!
