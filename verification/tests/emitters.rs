use axtc::ColorScheme;
use axtc::render_alacritty;
use axtc::render_color_files;
use axtc::render_polybar;

fn nord_colors() -> Vec<String> {
    vec![
        "#3b4252".to_string(),
        "#bf616a".to_string(),
        "#a3be8c".to_string(),
        "#ebcb8b".to_string(),
        "#81a1c1".to_string(),
        "#b48ead".to_string(),
        "#88c0d0".to_string(),
        "#e5e9f0".to_string(),
        "#4c566a".to_string(),
        "#bf616a".to_string(),
        "#a3be8c".to_string(),
        "#ebcb8b".to_string(),
        "#81a1c1".to_string(),
        "#b48ead".to_string(),
        "#8fbcbb".to_string(),
        "#eceff4".to_string(),
    ]
}

fn nord_scheme() -> ColorScheme {
    ColorScheme::new(
        "nord".to_string(),
        nord_colors(),
        "#2e3440".to_string(),
        "#d8dee9".to_string(),
    )
    .unwrap_or_else(|_| panic!("sixteen entries must be accepted"))
}

const NORD_ALACRITTY: &str = "\
# Colors (nord Theme)
 colors:
  # Default colors
  primary:
    background: '0x2e3440'
    foreground: '0xd8dee9'

  # Normal colors
  normal:
    black:    '0x3b4252'
    red:      '0xbf616a'
    green:    '0xa3be8c'
    yellow:   '0xebcb8b'
    blue:     '0x81a1c1'
    magenta:  '0xb48ead'
    cyan:     '0x88c0d0'
    white:    '0xe5e9f0'

  # Bright colors
  bright:
    black:    '0x4c566a'
    red:      '0xbf616a'
    green:    '0xa3be8c'
    yellow:   '0xebcb8b'
    blue:     '0x81a1c1'
    magenta:  '0xb48ead'
    cyan:     '0x8fbcbb'
    white:    '0xeceff4'

";

const NORD_POLYBAR: &str = "\
[color]
background = #2e3440
foreground = #d8dee9
black = #3b4252
red = #bf616a
green = #a3be8c
yellow = #ebcb8b
blue = #81a1c1
magenta = #b48ead
cyan = #88c0d0
white = #e5e9f0
altblack = #4c566a
altred = #bf616a
altgreen = #a3be8c
altyellow = #ebcb8b
altblue = #81a1c1
altmagenta = #b48ead
altcyan = #8fbcbb
altwhite = #eceff4
";

#[test]
fn alacritty_example_end_to_end() {
    let cs = nord_scheme();
    let out = render_alacritty(&cs);
    assert_eq!(out, NORD_ALACRITTY);
    assert!(out.contains("background: '0x2e3440'"));
    assert!(out.contains("foreground: '0xd8dee9'"));
}

#[test]
fn polybar_example_end_to_end() {
    let cs = nord_scheme();
    let out = render_polybar(&cs);
    assert_eq!(out, NORD_POLYBAR);
    let mut lines = out.lines();
    assert_eq!(lines.next(), Some("[color]"));
    assert_eq!(lines.next(), Some("background = #2e3440"));
    assert_eq!(lines.next(), Some("foreground = #d8dee9"));
}

#[test]
fn alacritty_normal_bright_shift() {
    let cs = nord_scheme();
    let colors = nord_colors();
    let out = render_alacritty(&cs);
    let lines: Vec<&str> = out.lines().collect();
    let normal_at = lines.iter().position(|l| *l == "  normal:").unwrap();
    let bright_at = lines.iter().position(|l| *l == "  bright:").unwrap();
    let names = ["black", "red", "green", "yellow", "blue", "magenta", "cyan", "white"];
    for i in 0..8 {
        let normal = lines[normal_at + 1 + i];
        let bright = lines[bright_at + 1 + i];
        let rendered_normal = format!("'0x{}'", &colors[i][1..]);
        let rendered_bright = format!("'0x{}'", &colors[i + 8][1..]);
        assert!(normal.trim_start().starts_with(&format!("{}:", names[i])));
        assert!(bright.trim_start().starts_with(&format!("{}:", names[i])));
        assert!(normal.ends_with(&rendered_normal));
        assert!(bright.ends_with(&rendered_bright));
    }
}

#[test]
fn polybar_has_exactly_18_untransformed_data_lines() {
    let cs = nord_scheme();
    let colors = nord_colors();
    let out = render_polybar(&cs);
    let lines: Vec<&str> = out.lines().collect();
    assert_eq!(lines[0], "[color]");
    let data: Vec<&str> = lines[1..].to_vec();
    assert_eq!(data.len(), 18);
    assert_eq!(data[0], "background = #2e3440");
    assert_eq!(data[1], "foreground = #d8dee9");
    let names = ["black", "red", "green", "yellow", "blue", "magenta", "cyan", "white"];
    for i in 0..8 {
        assert_eq!(data[2 + i], format!("{} = {}", names[i], colors[i]));
        assert_eq!(data[10 + i], format!("alt{} = {}", names[i], colors[i + 8]));
    }
    for line in &data {
        assert!(!line.contains("0x"));
    }
}

#[test]
fn repeated_rendering_is_byte_identical() {
    let first = nord_scheme();
    let second = nord_scheme();
    assert_eq!(render_alacritty(&first), render_alacritty(&second));
    assert_eq!(render_polybar(&first), render_polybar(&second));
}

#[test]
fn render_color_files_projects_both() {
    let files = render_color_files(
        "nord".to_string(),
        nord_colors(),
        "#2e3440".to_string(),
        "#d8dee9".to_string(),
    )
    .unwrap_or_else(|_| panic!("valid input must render"));
    assert_eq!(files.alacritty, NORD_ALACRITTY);
    assert_eq!(files.polybar, NORD_POLYBAR);
}
