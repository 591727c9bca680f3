use syntect_swift::{
    assemble_spans, background_or_default, color_to_hex, font_style_to_u8,
    get_app_theme_background, get_available_languages, get_available_themes,
    get_theme_background, highlight_code, highlight_code_with_app_theme, map_dotviewer_theme,
    Bundle, HighlightResult, Rgb, StyledText,
};

fn bundle() -> Bundle {
    Bundle::load_defaults().expect("bundled grammars and themes")
}

fn is_upper_hex_color(s: &str) -> bool {
    s.len() == 7
        && s.starts_with('#')
        && s[1..].chars().all(|c| c.is_ascii_digit() || ('A'..='F').contains(&c))
}

fn terminators(r: &HighlightResult) -> usize {
    r.spans.iter().filter(|s| s.text == "\n").count()
}

#[test]
fn test_highlight_rust_code() {
    let b = bundle();
    let code = "fn main() {}";
    let result = highlight_code(&b, code, "Rust", "base16-ocean.dark");

    assert!(!result.spans.is_empty(), "Should produce spans");
    assert!(!result.background.is_empty(), "Should have background color");

    let has_fn = result.spans.iter().any(|s| s.text.contains("fn"));
    assert!(has_fn, "Should contain 'fn' keyword");
}

#[test]
fn test_get_available_languages() {
    let languages = get_available_languages(&bundle());
    assert!(!languages.is_empty(), "Should have languages");
    assert!(languages.iter().any(|l| l == "Rust"), "Should include Rust");
    assert!(languages.len() > 50, "Should have many languages (has {})", languages.len());
}

#[test]
fn test_highlight_swift_code() {
    let b = bundle();
    let code = "func hello() { print(\"Hello\") }";
    let result = highlight_code(&b, code, "swift", "base16-ocean.dark");

    assert!(!result.spans.is_empty(), "Should produce spans for Swift code");
    let has_func = result.spans.iter().any(|s| s.text.contains("func"));
    assert!(has_func, "Should contain 'func' keyword");
}

#[test]
fn test_get_available_themes() {
    let themes = get_available_themes(&bundle());
    assert!(!themes.is_empty(), "Should have themes");
    assert!(themes.iter().any(|t| t == "base16-ocean.dark"), "Should include base16-ocean.dark");
}

#[test]
fn test_plain_text_fallback() {
    let b = bundle();
    let code = "hello world";
    let result = highlight_code(&b, code, "nonexistent_language", "base16-ocean.dark");

    assert!(!result.spans.is_empty(), "Should still produce spans for unknown language");
}

#[test]
fn test_theme_mapping() {
    assert_eq!(map_dotviewer_theme("atomOneLight"), "base16-ocean.light");
    assert_eq!(map_dotviewer_theme("github"), "InspiredGitHub");
    assert_eq!(map_dotviewer_theme("solarizedLight"), "Solarized (light)");

    assert_eq!(map_dotviewer_theme("atomOneDark"), "base16-ocean.dark");
    assert_eq!(map_dotviewer_theme("solarizedDark"), "Solarized (dark)");
    assert_eq!(map_dotviewer_theme("blackout"), "base16-mocha.dark");

    assert_eq!(map_dotviewer_theme("auto"), "base16-ocean.dark");
    assert_eq!(map_dotviewer_theme("unknown_theme"), "base16-ocean.dark");
}

#[test]
fn test_highlight_with_app_theme() {
    let b = bundle();
    let code = "fn main() {}";

    let result_dark = highlight_code_with_app_theme(&b, code, "Rust", "atomOneDark");
    assert!(!result_dark.spans.is_empty(), "Should produce spans with app theme");
    assert!(!result_dark.background.is_empty(), "Should have background");

    let result_light = highlight_code_with_app_theme(&b, code, "Rust", "atomOneLight");
    assert!(!result_light.spans.is_empty(), "Should produce spans with light theme");

    assert_ne!(result_dark.background, result_light.background,
        "Dark and light themes should have different backgrounds");
}

#[test]
fn test_app_theme_background() {
    let b = bundle();
    let dark_bg = get_app_theme_background(&b, "atomOneDark");
    assert!(dark_bg.starts_with("#"), "Background should be hex color");

    let light_bg = get_app_theme_background(&b, "atomOneLight");
    assert!(light_bg.starts_with("#"), "Background should be hex color");

    assert_ne!(dark_bg, light_bg, "Dark and light backgrounds should differ");
}

#[test]
fn remaining_alias_entries() {
    assert_eq!(map_dotviewer_theme("xcode"), "base16-ocean.light");
    assert_eq!(map_dotviewer_theme("githubDark"), "base16-ocean.dark");
    assert_eq!(map_dotviewer_theme("xcodeDark"), "base16-eighties.dark");
    assert_eq!(map_dotviewer_theme("tokyoNight"), "base16-ocean.dark");
    assert_eq!(map_dotviewer_theme(""), "base16-ocean.dark");
    assert_eq!(map_dotviewer_theme("AtomOneLight"), "base16-ocean.dark");
}

#[test]
fn hex_encoding_is_upper_case_and_padded() {
    assert_eq!(color_to_hex(Rgb { r: 255, g: 0, b: 171 }), "#FF00AB");
    assert_eq!(color_to_hex(Rgb { r: 1, g: 16, b: 10 }), "#01100A");
    assert_eq!(color_to_hex(Rgb { r: 0, g: 0, b: 0 }), "#000000");
}

#[test]
fn font_flags_become_style_bits() {
    // engine flags: bold 1, underline 2, italic 4
    assert_eq!(font_style_to_u8(0), 0);
    assert_eq!(font_style_to_u8(1), 1);
    assert_eq!(font_style_to_u8(4), 2);
    assert_eq!(font_style_to_u8(5), 3);
    assert_eq!(font_style_to_u8(2), 4);
    assert_eq!(font_style_to_u8(7), 7);
}

#[test]
fn background_falls_back_to_fixed_dark() {
    assert!(is_upper_hex_color(&background_or_default(None)));
    assert_eq!(background_or_default(None), "#1E1E1E");
    assert_eq!(background_or_default(Some(Rgb { r: 43, g: 48, b: 59 })), "#2B303B");
}

#[test]
fn assembling_ends_each_line_with_terminator() {
    let run = |t: &str, fg: Rgb, flags: u8| StyledText {
        foreground: fg,
        background: Rgb { r: 0, g: 0, b: 0 },
        font_flags: flags,
        text: t.to_string(),
    };
    let red = Rgb { r: 255, g: 0, b: 0 };
    let runs = vec![vec![run("fn", red, 1), run(" x", red, 0)], vec![], vec![run("y", red, 4)]];
    let spans = assemble_spans(&runs, Rgb { r: 192, g: 197, b: 206 }, &"#2B303B".to_string());
    let texts: Vec<&str> = spans.iter().map(|s| s.text.as_str()).collect();
    assert_eq!(texts, vec!["fn", " x", "\n", "\n", "y", "\n"]);
    assert_eq!(spans[0].foreground, "#FF0000");
    assert_eq!(spans[0].background, "#000000");
    assert_eq!(spans[0].font_style, 1);
    assert_eq!(spans[4].font_style, 2);
    assert_eq!(spans[2].foreground, "#C0C5CE");
    assert_eq!(spans[2].background, "#2B303B");
    assert_eq!(spans[2].font_style, 0);
}

#[test]
fn one_terminator_per_line() {
    let b = bundle();
    let cases = [("", 0), ("a", 1), ("a\n", 1), ("a\nb", 2), ("a\r\nb\n\n", 3), ("\n", 1)];
    for (code, lines) in cases {
        let r = highlight_code(&b, code, "Rust", "base16-ocean.dark");
        assert_eq!(terminators(&r), lines, "code {:?}", code);
    }
}

#[test]
fn line_texts_survive_highlighting() {
    let b = bundle();
    let r = highlight_code(&b, "let x = 1;\r\nlet y = 2;", "rs", "InspiredGitHub");
    let text: String = r.spans.iter().map(|s| s.text.as_str()).collect();
    assert_eq!(text, "let x = 1;\nlet y = 2;\n");
}

#[test]
fn unknown_language_is_plain_text() {
    let b = bundle();
    let r = highlight_code(&b, "hello world", "no_such_language", "base16-ocean.dark");
    assert_eq!(r.spans.len(), 2);
    assert_eq!(r.spans[0].text, "hello world");
    assert_eq!(r.spans[1].text, "\n");
}

#[test]
fn every_color_is_upper_hex() {
    let b = bundle();
    for theme in get_available_themes(&b) {
        let r = highlight_code(&b, "fn main() { let s = \"x\"; }\n// c", "Rust", &theme);
        for s in &r.spans {
            assert!(is_upper_hex_color(&s.foreground), "{} {}", theme, s.foreground);
            assert!(is_upper_hex_color(&s.background));
        }
        assert!(is_upper_hex_color(&r.background));
        assert_eq!(r.background, get_theme_background(&b, &theme));
    }
}

#[test]
fn highlighting_twice_gives_same_output() {
    let b = bundle();
    let code = "struct A { x: u8 }\nfn f() -> u8 { 3 }";
    let one = highlight_code(&b, code, "Rust", "Solarized (dark)");
    let two = highlight_code(&b, code, "Rust", "Solarized (dark)");
    assert_eq!(one.background, two.background);
    assert_eq!(one.spans.len(), two.spans.len());
    for (a, c) in one.spans.iter().zip(two.spans.iter()) {
        assert_eq!(a.text, c.text);
        assert_eq!(a.foreground, c.foreground);
        assert_eq!(a.background, c.background);
        assert_eq!(a.font_style, c.font_style);
    }
}

#[test]
fn unknown_theme_uses_default_dark() {
    let b = bundle();
    let r = highlight_code(&b, "x", "Rust", "no_such_theme");
    let d = highlight_code(&b, "x", "Rust", "base16-ocean.dark");
    assert_eq!(r.background, d.background);
    assert_eq!(get_theme_background(&b, "no_such_theme"), get_theme_background(&b, "base16-ocean.dark"));
    assert_eq!(get_theme_background(&b, "base16-ocean.dark"), d.background);
}

#[test]
fn bundle_declares_rust_and_java() {
    let languages = get_available_languages(&bundle());
    assert!(languages.iter().any(|l| l == "Rust"));
    assert!(languages.iter().any(|l| l == "Java"));
    assert!(languages.iter().any(|l| l == "Objective-C"));
}

#[test]
fn theme_lists_hold_each_name_once() {
    let b = bundle();
    let themes = get_available_themes(&b);
    let mut sorted = themes.clone();
    sorted.sort();
    sorted.dedup();
    assert_eq!(sorted.len(), themes.len());
    assert!(get_available_languages(&b).iter().any(|l| l == "Plain Text"));
}

#[test]
fn app_theme_highlighting_matches_mapped_theme() {
    let b = bundle();
    let code = "let a = 1;\nlet b = 2;";
    let via_app = highlight_code_with_app_theme(&b, code, "Rust", "xcodeDark");
    let direct = highlight_code(&b, code, "Rust", "base16-eighties.dark");
    assert_eq!(via_app.background, direct.background);
    assert_eq!(via_app.spans.len(), direct.spans.len());
    assert_eq!(get_app_theme_background(&b, "xcodeDark"), direct.background);
}
