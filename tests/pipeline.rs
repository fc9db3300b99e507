use delta::config::{get_config, ConfigError, Options, PaintConfig};
use delta::extension::extract_extension;
use delta::pipeline::{process_line, process_lines, DiffState};
use delta::section::{classify, Section};
use syntect::highlighting::ThemeSet;
use syntect::parsing::SyntaxSet;

fn options() -> Options {
    Options {
        light: false,
        dark: false,
        plus_color: None,
        minus_color: None,
        theme: None,
        width: None,
    }
}

fn lines(v: &[&str]) -> Vec<String> {
    v.iter().map(|s| s.to_string()).collect()
}

fn chars(s: &str) -> Vec<char> {
    s.chars().collect()
}

fn with_config<F: FnOnce(&PaintConfig)>(o: Options, f: F) {
    let themes = ThemeSet::load_defaults();
    let syntaxes = SyntaxSet::load_defaults_nonewlines();
    let config = get_config(&themes, &syntaxes, &o).ok().unwrap();
    f(&config);
}

const LIGHT_MINUS_BG: &str = "\x1b[48;2;255;208;208m";
const LIGHT_PLUS_BG: &str = "\x1b[48;2;208;255;208m";

#[test]
fn rust_hunk_is_painted() {
    let input = lines(&[
        "diff --git a/x.rs b/x.rs",
        "index 111..222",
        "@@ -1,1 +1,1 @@",
        "-let x = 1;",
        "+let x = 2;",
    ]);
    with_config(options(), |config| {
        let out = process_lines(&input, config);
        assert_eq!(out.len(), 5);
        assert_eq!(out[0], input[0]);
        assert_eq!(out[1], input[1]);
        assert_eq!(out[2], input[2]);
        assert!(out[3].contains(LIGHT_MINUS_BG));
        assert!(!out[3].contains(LIGHT_PLUS_BG));
        assert!(out[3].contains("\x1b[38;2;"));
        assert!(out[4].contains(LIGHT_PLUS_BG));
        assert!(!out[4].contains(LIGHT_MINUS_BG));
        assert!(out[4].contains("\x1b[38;2;"));
        assert!(out[4].contains("let"));
    });
}

#[test]
fn unknown_extension_passes_through() {
    let input = lines(&[
        "diff --git a/x.unknownlang b/x.unknownlang",
        "index 111..222",
        "@@ -1,1 +1,1 @@",
        "-let x = 1;",
        "+let x = 2;",
    ]);
    with_config(options(), |config| {
        let out = process_lines(&input, config);
        assert_eq!(out, input);
    });
}

#[test]
fn malformed_header_passes_through() {
    assert_eq!(extract_extension("diff --git garbage"), None);
    let input = lines(&["diff --git garbage", "@@ -1,1 +1,1 @@", "-a", "+b", " c"]);
    with_config(options(), |config| {
        let out = process_lines(&input, config);
        assert_eq!(out, input);
    });
}

#[test]
fn output_has_one_line_per_input_line() {
    let input = lines(&[
        "commit 1234",
        "Author: someone",
        "",
        "diff --git a/a.rs b/a.rs",
        "@@ -1,2 +1,2 @@",
        " fn main() {}",
        "-x",
        "+y",
        "diff --git a/b.unknownlang b/b.unknownlang",
        "@@ -1 +1 @@",
        "+z",
    ]);
    with_config(options(), |config| {
        let out = process_lines(&input, config);
        assert_eq!(out.len(), input.len());
        assert_eq!(out[0..5].to_vec(), input[0..5].to_vec());
        assert_ne!(out[5], input[5]);
        assert_ne!(out[6], input[6]);
        assert_ne!(out[7], input[7]);
        assert_eq!(out[8..].to_vec(), input[8..].to_vec());
    });
}

#[test]
fn colored_lines_outside_hunks_are_kept_verbatim() {
    let input = lines(&[
        "\x1b[33mcommit abc\x1b[0m",
        "\x1b[1mdiff --git a/q.rs b/q.rs\x1b[0m",
        "\x1b[1mindex 1..2\x1b[0m",
    ]);
    with_config(options(), |config| {
        let out = process_lines(&input, config);
        assert_eq!(out, input);
    });
}

#[test]
fn escape_codes_are_taken_out_before_painting() {
    with_config(options(), |config| {
        let mut state = DiffState::new();
        process_line(&mut state, "\x1b[1mdiff --git a/q.rs b/q.rs\x1b[0m", config);
        assert_eq!(state.section, Section::DiffMeta);
        assert!(state.grammar.is_some());
        process_line(&mut state, "\x1b[36m@@ -1 +1 @@\x1b[0m", config);
        assert_eq!(state.section, Section::DiffHunk);
        let out = process_line(&mut state, "\x1b[32m+let y = 3;\x1b[0m", config);
        assert!(!out.contains("\x1b[32m"));
        assert!(out.contains(LIGHT_PLUS_BG));
    });
}

#[test]
fn hunk_section_survives_any_other_line() {
    let mut s = Section::Unknown;
    for l in ["diff --git a/a.rs b/a.rs", "index 1..2", "--- a/a.rs", "+++ b/a.rs", "@@ -1 +1 @@"] {
        s = classify(s, &chars(l));
    }
    assert_eq!(s, Section::DiffHunk);
    for l in ["-x", "+y", " z", "", "diff", "@@ -5 +5 @@", "comm", "+commit"] {
        s = classify(s, &chars(l));
        assert_eq!(s, Section::DiffHunk);
    }
    assert_eq!(classify(s, &chars("commit 42")), Section::Commit);
    assert_eq!(classify(Section::DiffHunk, &chars("diff --cc a/b b/b")), Section::DiffMeta);
}

#[test]
fn classifier_follows_markers_in_priority_order() {
    assert_eq!(classify(Section::Unknown, &chars("plain")), Section::Unknown);
    assert_eq!(classify(Section::Commit, &chars("Author: x")), Section::Commit);
    assert_eq!(classify(Section::Unknown, &chars("commit")), Section::Commit);
    assert_eq!(classify(Section::Commit, &chars("diff --git a/x b/x")), Section::DiffMeta);
    assert_eq!(classify(Section::DiffMeta, &chars("@@")), Section::DiffHunk);
    assert_eq!(classify(Section::DiffMeta, &chars("diff -u")), Section::DiffMeta);
    assert_eq!(classify(Section::Unknown, &chars("diff -u")), Section::Unknown);
    assert_eq!(classify(Section::Unknown, &chars("@")), Section::Unknown);
}

#[test]
fn grammar_sticks_across_hunks() {
    let mut state: DiffState<u32> = DiffState::new();
    assert_eq!(state.section, Section::Unknown);
    assert_eq!(state.grammar, None);
    assert!(!state.advance(&chars("diff --git a/a.rs b/a.rs"), Some(7)));
    assert_eq!(state.grammar, Some(7));
    assert!(!state.advance(&chars("@@ -1 +1 @@"), Some(9)));
    assert!(state.advance(&chars("+a"), Some(9)));
    assert!(!state.advance(&chars("@@ -8 +8 @@"), None));
    assert!(state.advance(&chars(" b"), None));
    assert_eq!(state.grammar, Some(7));
    assert!(!state.advance(&chars("diff --git a/b.zz b/b.zz"), None));
    assert_eq!(state.grammar, None);
    assert!(!state.advance(&chars("@@ -1 +1 @@"), Some(3)));
    assert!(!state.advance(&chars("+c"), Some(3)));
    assert_eq!(state.section, Section::DiffHunk);
}

#[test]
fn extension_comes_from_new_path() {
    assert_eq!(extract_extension("diff --git a/src/main.rs b/src/main.rs"), Some("rs".to_string()));
    assert_eq!(extract_extension("diff --git a/x.tar.gz b/x.tar.gz"), Some("gz".to_string()));
    assert_eq!(extract_extension("diff --git a/old.py b/new.rb"), Some("rb".to_string()));
    assert_eq!(extract_extension("diff --cc a/f.c b/f.c"), Some("c".to_string()));
}

#[test]
fn extension_missing_gives_none() {
    assert_eq!(extract_extension("diff --git a/Makefile b/Makefile"), None);
    assert_eq!(extract_extension("diff --git a/.bashrc b/.bashrc"), None);
    assert_eq!(extract_extension("diff --git a/dir.d/file b/dir.d/file"), None);
    assert_eq!(extract_extension("diff --git a/x. b/x."), None);
    assert_eq!(extract_extension("diff --git a/a b.rs"), None);
    assert_eq!(extract_extension("diff --git x/a.rs y/a.rs"), None);
    assert_eq!(extract_extension("diff --git a/my file.rs b/my file.rs"), None);
    assert_eq!(extract_extension("diff --git  a/a.rs b/a.rs"), None);
    assert_eq!(extract_extension(""), None);
}

#[test]
fn conflicting_modes_are_refused() {
    let themes = ThemeSet::load_defaults();
    let syntaxes = SyntaxSet::load_defaults_nonewlines();
    let mut o = options();
    o.light = true;
    o.dark = true;
    assert_eq!(get_config(&themes, &syntaxes, &o).err(), Some(ConfigError::ConflictingModes));
}

#[test]
fn unknown_theme_is_refused() {
    let themes = ThemeSet::load_defaults();
    let syntaxes = SyntaxSet::load_defaults_nonewlines();
    let mut o = options();
    o.theme = Some("No Such Theme".to_string());
    assert_eq!(get_config(&themes, &syntaxes, &o).err(), Some(ConfigError::UnknownTheme));
    o.theme = Some("Solarized (dark)".to_string());
    assert!(get_config(&themes, &syntaxes, &o).is_ok());
}

#[test]
fn overlay_colors_follow_mode_and_overrides() {
    let themes = ThemeSet::load_defaults();
    let syntaxes = SyntaxSet::load_defaults_nonewlines();
    let mut o = options();
    let c = get_config(&themes, &syntaxes, &o).ok().unwrap();
    assert_eq!((c.plus_color().r, c.plus_color().g, c.plus_color().b), (0xd0, 0xff, 0xd0));
    assert_eq!((c.minus_color().r, c.minus_color().g, c.minus_color().b), (0xff, 0xd0, 0xd0));
    o.dark = true;
    o.width = Some(40);
    let c = get_config(&themes, &syntaxes, &o).ok().unwrap();
    assert_eq!((c.plus_color().r, c.plus_color().g, c.plus_color().b), (0x01, 0x3b, 0x01));
    assert_eq!((c.minus_color().r, c.minus_color().g, c.minus_color().b), (0x3f, 0x00, 0x01));
    assert_eq!(c.width(), Some(40));
    o.plus_color = Some("#123456".to_string());
    o.minus_color = Some("not a color".to_string());
    let c = get_config(&themes, &syntaxes, &o).ok().unwrap();
    assert_eq!((c.plus_color().r, c.plus_color().g, c.plus_color().b, c.plus_color().a), (0x12, 0x34, 0x56, 255));
    assert_eq!((c.minus_color().r, c.minus_color().g, c.minus_color().b), (0x3f, 0x00, 0x01));
    o.plus_color = Some("#abc".to_string());
    o.minus_color = Some("#01020304".to_string());
    let c = get_config(&themes, &syntaxes, &o).ok().unwrap();
    assert_eq!((c.plus_color().r, c.plus_color().g, c.plus_color().b), (10, 11, 12));
    assert_eq!((c.minus_color().r, c.minus_color().g, c.minus_color().b, c.minus_color().a), (1, 2, 3, 4));
}

#[test]
fn theme_follows_mode_or_name() {
    let themes = ThemeSet::load_defaults();
    let syntaxes = SyntaxSet::load_defaults_nonewlines();
    let mut o = options();
    let c = get_config(&themes, &syntaxes, &o).ok().unwrap();
    assert_eq!(c.theme_name(), "InspiredGitHub");
    assert_eq!(c.width(), None);
    o.light = true;
    let c = get_config(&themes, &syntaxes, &o).ok().unwrap();
    assert_eq!(c.theme_name(), "InspiredGitHub");
    o.light = false;
    o.dark = true;
    let c = get_config(&themes, &syntaxes, &o).ok().unwrap();
    assert_eq!(c.theme_name(), "base16-mocha.dark");
    o.theme = Some("base16-ocean.light".to_string());
    let c = get_config(&themes, &syntaxes, &o).ok().unwrap();
    assert_eq!(c.theme_name(), "base16-ocean.light");
    assert_eq!((c.plus_color().r, c.plus_color().g, c.plus_color().b), (0x01, 0x3b, 0x01));
}

#[test]
fn extension_lookup_ignores_ascii_case() {
    let input = lines(&["diff --git a/X.RS b/X.RS", "@@ -1 +1 @@", "+let a = 1;"]);
    with_config(options(), |config| {
        let out = process_lines(&input, config);
        assert_eq!(out[0..2].to_vec(), input[0..2].to_vec());
        assert!(out[2].contains(LIGHT_PLUS_BG));
    });
}

#[test]
fn width_pads_painted_hunk_lines() {
    let mut o = options();
    o.width = Some(30);
    let input = lines(&["diff --git a/x.rs b/x.rs", "@@ -1 +1 @@", "+a"]);
    with_config(o, |config| {
        let out = process_lines(&input, config);
        let text: String = strip(&out[2]);
        assert_eq!(text.chars().count(), 30);
        assert!(text.starts_with("+a"));
        assert!(text[2..].chars().all(|c| c == ' '));
    });
}

fn strip(s: &str) -> String {
    let mut r = String::new();
    let mut in_code = false;
    for c in s.chars() {
        if in_code {
            if c == 'm' {
                in_code = false;
            }
        } else if c == '\x1b' {
            in_code = true;
        } else {
            r.push(c);
        }
    }
    r
}
