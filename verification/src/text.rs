use vstd::prelude::*;

use crate::controls::Controls;

verus! {

/// The character of a decimal digit.
pub open spec fn digit_char(d: nat) -> char {
    (('0' as nat) + d) as char
}

/// The decimal notation of `n`, without leading zeros (`"0"` for zero).
pub open spec fn decimal_spec(n: nat) -> Seq<char>
    decreases n,
{
    if n < 10 {
        seq![digit_char(n)]
    } else {
        decimal_spec(n / 10).push(digit_char(n % 10))
    }
}

/// The one-character string of a decimal digit.
fn digit_str(d: u32) -> (s: &'static str)
    requires
        d < 10,
    ensures
        s@ == seq![digit_char(d as nat)],
{
    proof {
        reveal_strlit("0");
        reveal_strlit("1");
        reveal_strlit("2");
        reveal_strlit("3");
        reveal_strlit("4");
        reveal_strlit("5");
        reveal_strlit("6");
        reveal_strlit("7");
        reveal_strlit("8");
        reveal_strlit("9");
    }
    match d {
        0 => "0",
        1 => "1",
        2 => "2",
        3 => "3",
        4 => "4",
        5 => "5",
        6 => "6",
        7 => "7",
        8 => "8",
        _ => "9",
    }
}

/// Appends the decimal notation of `n` to `s`.
pub fn push_decimal(s: &mut String, n: u32)
    ensures
        final(s)@ == old(s)@ + decimal_spec(n as nat),
    decreases n,
{
    if n >= 10 {
        push_decimal(s, n / 10);
    }
    s.append(digit_str(n % 10));
    assert(decimal_spec(n as nat) == if n < 10 {
        seq![digit_char(n as nat)]
    } else {
        decimal_spec((n / 10) as nat).push(digit_char((n % 10) as nat))
    });
}

/// The flags section of the status bar: `MIRROR `, `PAUSED ` and `INV `, each
/// present when its setting is on.
pub open spec fn flags_spec(c: Controls) -> Seq<char> {
    (if c.mirror {
        "MIRROR "@
    } else {
        Seq::<char>::empty()
    }) + (if c.paused {
        "PAUSED "@
    } else {
        Seq::<char>::empty()
    }) + (if c.invert_lum {
        "INV "@
    } else {
        Seq::<char>::empty()
    })
}

/// The status bar: colour effect, dark and light pixel counts, the average
/// luminance as already formatted in `avg`, ramp, tile size, the flags, and a
/// reminder of the keys.
pub open spec fn status_spec(c: Controls, dark: u32, light: u32, avg: Seq<char>) -> Seq<char> {
    " color:"@ + c.color_mode.name_spec() + " | dark:"@ + decimal_spec(dark as nat) + " light:"@
        + decimal_spec(light as nat) + " avg:"@ + avg + " | ramp:"@ + c.ramp_mode.name_spec()
        + " tile:"@ + decimal_spec(c.tile_size as nat) + " | "@ + flags_spec(c)
        + " | c:color b:ramp m:mirror p:pause i:invert s:shot +/-:tile 1-9:jump q:quit "@
}

/// The text of the status bar for the current settings and pixel counts.
pub fn status_line(c: &Controls, dark: u32, light: u32, avg: &str) -> (s: String)
    ensures
        s@ == status_spec(*c, dark, light, avg@),
{
    let mut s = String::new();
    s.append(" color:");
    s.append(c.color_mode.name());
    s.append(" | dark:");
    push_decimal(&mut s, dark);
    s.append(" light:");
    push_decimal(&mut s, light);
    s.append(" avg:");
    s.append(avg);
    s.append(" | ramp:");
    s.append(c.ramp_mode.name());
    s.append(" tile:");
    push_decimal(&mut s, c.tile_size as u32);
    s.append(" | ");
    let ghost before_flags = s@;
    if c.mirror {
        s.append("MIRROR ");
    }
    if c.paused {
        s.append("PAUSED ");
    }
    if c.invert_lum {
        s.append("INV ");
    }
    assert(s@ =~= before_flags + flags_spec(*c));
    s.append(" | c:color b:ramp m:mirror p:pause i:invert s:shot +/-:tile 1-9:jump q:quit ");
    assert(s@ =~= status_spec(*c, dark, light, avg@));
    s
}

/// The part of a line that fits in `cols` terminal columns: the whole line
/// when it is short enough, else its first `cols` characters.
pub open spec fn fit_spec(line: Seq<char>, cols: u16) -> Seq<char> {
    if line.len() > cols {
        line.take(cols as int)
    } else {
        line
    }
}

/// Cuts a line to the terminal width.
pub fn fit_to_width(line: &str, cols: u16) -> (r: &str)
    ensures
        r@ == fit_spec(line@, cols),
{
    let n = line.unicode_len();
    if n > cols as usize {
        line.substring_char(0, cols as usize)
    } else {
        line
    }
}

/// How a boolean setting is written in a snapshot header.
pub open spec fn bool_text(b: bool) -> Seq<char> {
    if b {
        "true"@
    } else {
        "false"@
    }
}

/// The header of a snapshot file: a title line, then the colour effect,
/// ramp, tile size, mirror and inversion settings.
pub open spec fn snapshot_header_spec(c: Controls) -> Seq<char> {
    "# asciitubing capture\n# color:"@ + c.color_mode.name_spec() + " ramp:"@
        + c.ramp_mode.name_spec() + " tile:"@ + decimal_spec(c.tile_size as nat) + " mirror:"@
        + bool_text(c.mirror) + " invert:"@ + bool_text(c.invert_lum) + "\n"@
}

/// The rows of a picture, each followed by a line break.
pub open spec fn rows_text(rows: Seq<Seq<char>>) -> Seq<char>
    decreases rows.len(),
{
    if rows.len() == 0 {
        Seq::<char>::empty()
    } else {
        rows_text(rows.drop_last()) + rows.last() + "\n"@
    }
}

fn append_bool(s: &mut String, b: bool)
    ensures
        final(s)@ == old(s)@ + bool_text(b),
{
    if b {
        s.append("true");
    } else {
        s.append("false");
    }
}

/// The contents of a snapshot file: the header, then the picture's rows.
pub fn snapshot_text(c: &Controls, rows: &Vec<String>) -> (s: String)
    ensures
        s@ == snapshot_header_spec(*c) + rows_text(rows@.map_values(|r: String| r@)),
{
    let mut s = String::new();
    s.append("# asciitubing capture\n# color:");
    s.append(c.color_mode.name());
    s.append(" ramp:");
    s.append(c.ramp_mode.name());
    s.append(" tile:");
    push_decimal(&mut s, c.tile_size as u32);
    s.append(" mirror:");
    append_bool(&mut s, c.mirror);
    s.append(" invert:");
    append_bool(&mut s, c.invert_lum);
    s.append("\n");
    let ghost header = s@;
    assert(header =~= snapshot_header_spec(*c));
    let ghost views = rows@.map_values(|r: String| r@);
    let mut i: usize = 0;
    while i < rows.len()
        invariant
            i <= rows@.len(),
            views == rows@.map_values(|r: String| r@),
            s@ == header + rows_text(views.take(i as int)),
        decreases rows@.len() - i,
    {
        s.append(rows[i].as_str());
        s.append("\n");
        assert(views.take(i + 1).drop_last() =~= views.take(i as int));
        assert(s@ =~= header + rows_text(views.take(i + 1)));
        i = i + 1;
    }
    assert(views.take(rows@.len() as int) =~= views);
    s
}

/// A snapshot header records the mirror and inversion settings in its last
/// two fields, as `true` or `false`, and nothing else about them: the pause
/// and running state do not appear in it.
pub proof fn lemma_snapshot_header_fields(c: Controls, paused: bool, running: bool)
    ensures
        snapshot_header_spec(c) == snapshot_header_spec(Controls { paused, running, ..c }),
        c.invert_lum ==> snapshot_header_spec(c).subrange(
            snapshot_header_spec(c).len() - 13,
            snapshot_header_spec(c).len() as int,
        ) == " invert:true\n"@,
        !c.invert_lum ==> snapshot_header_spec(c).subrange(
            snapshot_header_spec(c).len() - 14,
            snapshot_header_spec(c).len() as int,
        ) == " invert:false\n"@,
        snapshot_header_spec(Controls { invert_lum: true, ..c }) != snapshot_header_spec(
            Controls { invert_lum: false, ..c },
        ),
        snapshot_header_spec(Controls { mirror: true, ..c }) != snapshot_header_spec(
            Controls { mirror: false, ..c },
        ),
{
    reveal_strlit(" invert:");
    reveal_strlit("true");
    reveal_strlit("false");
    reveal_strlit("\n");
    reveal_strlit(" invert:true\n");
    reveal_strlit(" invert:false\n");
    let h = snapshot_header_spec(c);
    let pre = "# asciitubing capture\n# color:"@ + c.color_mode.name_spec() + " ramp:"@
        + c.ramp_mode.name_spec() + " tile:"@ + decimal_spec(c.tile_size as nat) + " mirror:"@
        + bool_text(c.mirror);
    let tail = " invert:"@ + bool_text(c.invert_lum) + "\n"@;
    assert(h =~= pre + tail);
    assert(h.subrange(h.len() - tail.len(), h.len() as int) =~= tail);
    if c.invert_lum {
        assert(tail =~= " invert:true\n"@);
    } else {
        assert(tail =~= " invert:false\n"@);
    }
    let ht = snapshot_header_spec(Controls { invert_lum: true, ..c });
    let hf = snapshot_header_spec(Controls { invert_lum: false, ..c });
    assert(ht.len() + 1 == hf.len());
    let mt = snapshot_header_spec(Controls { mirror: true, ..c });
    let mf = snapshot_header_spec(Controls { mirror: false, ..c });
    assert(mt.len() + 1 == mf.len());
}

/// The flags section of the status bar names exactly the settings that are on.
pub proof fn lemma_status_flags(c: Controls)
    ensures
        !c.mirror && !c.paused && !c.invert_lum ==> flags_spec(c) == Seq::<char>::empty(),
        c.mirror && !c.paused && !c.invert_lum ==> flags_spec(c) == "MIRROR "@,
        !c.mirror && c.paused && !c.invert_lum ==> flags_spec(c) == "PAUSED "@,
        !c.mirror && !c.paused && c.invert_lum ==> flags_spec(c) == "INV "@,
        flags_spec(c).len() == (if c.mirror {
            7int
        } else {
            0int
        }) + (if c.paused {
            7int
        } else {
            0int
        }) + (if c.invert_lum {
            4int
        } else {
            0int
        }),
{
    reveal_strlit("MIRROR ");
    reveal_strlit("PAUSED ");
    reveal_strlit("INV ");
    assert(Seq::<char>::empty() + Seq::<char>::empty() + Seq::<char>::empty() =~= Seq::<char>::empty());
    assert("MIRROR "@ + Seq::<char>::empty() + Seq::<char>::empty() =~= "MIRROR "@);
    assert(Seq::<char>::empty() + "PAUSED "@ + Seq::<char>::empty() =~= "PAUSED "@);
    assert(Seq::<char>::empty() + Seq::<char>::empty() + "INV "@ =~= "INV "@);
}

/// A line cut to the terminal width is a prefix of the line that fits:
/// never longer than `cols`, and the whole line when it already fits.
pub proof fn lemma_fit_is_prefix(line: Seq<char>, cols: u16)
    ensures
        fit_spec(line, cols).len() <= cols,
        fit_spec(line, cols).len() <= line.len(),
        fit_spec(line, cols) =~= line.take(fit_spec(line, cols).len() as int),
        line.len() <= cols ==> fit_spec(line, cols) == line,
        line.len() > cols ==> fit_spec(line, cols).len() == cols,
{
}

/// The numeric value of a string of decimal digits.
pub open spec fn digits_value(s: Seq<char>) -> int
    decreases s.len(),
{
    if s.len() == 0 {
        0
    } else {
        digits_value(s.drop_last()) * 10 + ((s.last() as int) - ('0' as int))
    }
}

/// The decimal notation of a number is made of digits, reads back as the
/// number, and has no leading zero (zero itself is written `0`).
pub proof fn lemma_decimal_reads_back(n: nat)
    ensures
        decimal_spec(n).len() >= 1,
        forall|i: int| 0 <= i < decimal_spec(n).len() ==> '0' <= #[trigger] decimal_spec(n)[i] <= '9',
        digits_value(decimal_spec(n)) == n,
        n > 0 ==> decimal_spec(n)[0] != '0',
        n == 0 ==> decimal_spec(n) == seq!['0'],
    decreases n,
{
    assert(('0' as int) == 48);
    assert((digit_char(n % 10) as int) == 48 + n % 10);
    let d = decimal_spec(n);
    if n < 10 {
        assert(n % 10 == n);
        assert(d.drop_last() =~= Seq::<char>::empty());
        assert(d.last() == digit_char(n));
        assert(digits_value(d) == digits_value(d.drop_last()) * 10 + ((d.last() as int) - 48));
    } else {
        lemma_decimal_reads_back(n / 10);
        let p = decimal_spec(n / 10);
        assert(d == p.push(digit_char(n % 10)));
        assert(d.drop_last() =~= p);
        assert(d.last() == digit_char(n % 10));
        assert(d[0] == p[0]);
        assert(digits_value(d) == digits_value(p) * 10 + ((d.last() as int) - 48));
        assert(digits_value(p) == n / 10);
        assert(n == (n / 10) * 10 + n % 10);
    }
}

} // verus!
