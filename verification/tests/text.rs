use asciitubing::color::ColorMode;
use asciitubing::controls::Controls;
use asciitubing::ramp::RampMode;
use asciitubing::text::{fit_to_width, push_decimal, snapshot_text, status_line};

#[test]
fn decimal_numbers() {
    for n in [0u32, 7, 10, 99, 100, 12450, 4294967295] {
        let mut s = String::from("x");
        push_decimal(&mut s, n);
        assert_eq!(s, format!("x{}", n));
    }
}

#[test]
fn status_bar_example() {
    let mut c = Controls::new();
    c.color_mode = ColorMode::Matrix;
    let s = status_line(&c, 12450, 8230, "0.42");
    assert!(s.starts_with(" color:matrix | dark:12450 light:8230 avg:0.42 | ramp:normal tile:100 | "));
    assert_eq!(
        s,
        " color:matrix | dark:12450 light:8230 avg:0.42 | ramp:normal tile:100 |  | c:color b:ramp m:mirror p:pause i:invert s:shot +/-:tile 1-9:jump q:quit "
    );
}

#[test]
fn status_bar_flags() {
    let mut c = Controls::new();
    c.mirror = true;
    c.paused = true;
    c.invert_lum = true;
    c.ramp_mode = RampMode::Block8;
    c.tile_size = 4;
    let s = status_line(&c, 0, 1, "1.00");
    assert_eq!(
        s,
        " color:green | dark:0 light:1 avg:1.00 | ramp:block8 tile:4 | MIRROR PAUSED INV  | c:color b:ramp m:mirror p:pause i:invert s:shot +/-:tile 1-9:jump q:quit "
    );
    c.paused = false;
    c.mirror = false;
    assert!(status_line(&c, 0, 1, "1.00").contains("| INV  |"));
}

#[test]
fn fit_cuts_to_width() {
    assert_eq!(fit_to_width("abcdef", 3), "abc");
    assert_eq!(fit_to_width("abcdef", 6), "abcdef");
    assert_eq!(fit_to_width("abcdef", 100), "abcdef");
    assert_eq!(fit_to_width("abcdef", 0), "");
}

#[test]
fn snapshot_file_text() {
    let mut c = Controls::new();
    c.ramp_mode = RampMode::Sparse;
    c.mirror = true;
    let rows = vec![String::from(" .:"), String::from("@%#")];
    assert_eq!(
        snapshot_text(&c, &rows),
        "# asciitubing capture\n# color:green ramp:sparse tile:100 mirror:true invert:false\n .:\n@%#\n"
    );
    assert_eq!(
        snapshot_text(&c, &Vec::new()),
        "# asciitubing capture\n# color:green ramp:sparse tile:100 mirror:true invert:false\n"
    );
}
