use axtc::ColorScheme;
use axtc::OutputAction;
use axtc::ThemeError;
use axtc::decimal::usize_to_decimal;
use axtc::render_color_files;
use axtc::verify_input_file;
use axtc::verify_output_file;

fn palette_of(len: usize) -> Vec<String> {
    let mut v = Vec::new();
    for _ in 0..len {
        v.push("#a1b2c3".to_string());
    }
    v
}

#[test]
fn palette_of_16_is_accepted() {
    let r = ColorScheme::new(
        "nord".to_string(),
        palette_of(16),
        "#2e3440".to_string(),
        "#d8dee9".to_string(),
    );
    assert!(r.is_ok());
}

#[test]
fn empty_palette_is_rejected() {
    let r = ColorScheme::new(
        "nord".to_string(),
        palette_of(0),
        "#2e3440".to_string(),
        "#d8dee9".to_string(),
    );
    assert!(matches!(r, Err(ThemeError::InvalidPaletteSize { got: 0 })));
}

#[test]
fn palette_of_15_is_rejected() {
    let r = ColorScheme::new(
        "nord".to_string(),
        palette_of(15),
        "#2e3440".to_string(),
        "#d8dee9".to_string(),
    );
    assert!(matches!(r, Err(ThemeError::InvalidPaletteSize { got: 15 })));
}

#[test]
fn palette_of_17_is_rejected() {
    let r = ColorScheme::new(
        "nord".to_string(),
        palette_of(17),
        "#2e3440".to_string(),
        "#d8dee9".to_string(),
    );
    assert!(matches!(r, Err(ThemeError::InvalidPaletteSize { got: 17 })));
}

#[test]
fn render_color_files_rejects_short_palette_without_output() {
    let r = render_color_files(
        "nord".to_string(),
        palette_of(15),
        "#2e3440".to_string(),
        "#d8dee9".to_string(),
    );
    assert!(matches!(r, Err(ThemeError::InvalidPaletteSize { got: 15 })));
}

#[test]
fn input_file_must_exist() {
    let r = verify_input_file("/tmp/colors.json", false, false);
    match r {
        Err(ThemeError::MissingInputFile { path }) => assert_eq!(path, "/tmp/colors.json"),
        _ => panic!("a missing input file must be reported"),
    }
}

#[test]
fn input_file_must_not_be_a_directory() {
    let r = verify_input_file("/tmp", true, true);
    match r {
        Err(ThemeError::PathIsDirectory { path }) => assert_eq!(path, "/tmp"),
        _ => panic!("a directory input path must be reported"),
    }
}

#[test]
fn existing_input_file_is_accepted() {
    assert!(verify_input_file("/tmp/colors.json", true, false).is_ok());
}

#[test]
fn absent_output_path_is_created() {
    let r = verify_output_file("/tmp/out", false, false);
    assert!(matches!(r, Ok(OutputAction::CreateFile)));
}

#[test]
fn existing_output_file_is_used() {
    let r = verify_output_file("/tmp/out", true, false);
    assert!(matches!(r, Ok(OutputAction::UseExisting)));
}

#[test]
fn output_directory_is_fatal() {
    let r = verify_output_file("/tmp", true, true);
    match r {
        Err(ThemeError::PathIsDirectory { path }) => assert_eq!(path, "/tmp"),
        _ => panic!("a directory output path must be reported"),
    }
}

#[test]
fn only_missing_asset_directory_is_non_fatal() {
    let missing_dir = ThemeError::AssetDirectoryMissing { path: "/tmp/wallpapers".to_string() };
    assert!(!missing_dir.is_fatal());
    assert!(ThemeError::MalformedInput { detail: "x".to_string() }.is_fatal());
    assert!(ThemeError::InvalidPaletteSize { got: 3 }.is_fatal());
    assert!(ThemeError::PathIsDirectory { path: "p".to_string() }.is_fatal());
    assert!(ThemeError::MissingInputFile { path: "p".to_string() }.is_fatal());
    assert!(ThemeError::IoFailure { path: "p".to_string() }.is_fatal());
}

#[test]
fn palette_size_message_reports_actual_versus_expected() {
    let e = ThemeError::InvalidPaletteSize { got: 17 };
    assert_eq!(e.message(), "length of color array is 17, expected 16");
}

#[test]
fn path_messages_name_the_path() {
    let missing = ThemeError::MissingInputFile { path: "/tmp/in.json".to_string() };
    assert_eq!(missing.message(), "provided file \"/tmp/in.json\" does not exist");
    let dir = ThemeError::PathIsDirectory { path: "/tmp".to_string() };
    assert_eq!(dir.message(), "\"/tmp\" is a directory");
    let io = ThemeError::IoFailure { path: "/tmp/out".to_string() };
    assert_eq!(io.message(), "could not read or write \"/tmp/out\"");
    let wlp = ThemeError::AssetDirectoryMissing { path: "/tmp/wlp".to_string() };
    assert_eq!(wlp.message(), "could not find wallpaper directory \"/tmp/wlp\"");
    let bad = ThemeError::MalformedInput { detail: "not json".to_string() };
    assert_eq!(bad.message(), "malformed input: not json");
}

#[test]
fn decimal_rendering_is_exact() {
    assert_eq!(usize_to_decimal(0), "0");
    assert_eq!(usize_to_decimal(7), "7");
    assert_eq!(usize_to_decimal(10), "10");
    assert_eq!(usize_to_decimal(16), "16");
    assert_eq!(usize_to_decimal(120345), "120345");
}
