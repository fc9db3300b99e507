use vstd::prelude::*;
use crate::color::{color_of_text, dark_minus, dark_plus, light_minus, light_plus, opaque_rgb, Rgba};
use crate::engine::{find_theme, parse_color, theme_names};

verus! {

/// What the user asked for, before it is checked.
pub struct Options {
    pub light: bool,
    pub dark: bool,
    pub plus_color: Option<String>,
    pub minus_color: Option<String>,
    pub theme: Option<String>,
    pub width: Option<usize>,
}

/// Why a set of options cannot be used.
#[derive(Clone, Copy, Debug, PartialEq, Eq, Structural)]
pub enum ConfigError {
    /// Light and dark mode were both asked for.
    ConflictingModes,
    /// The theme catalog has no theme of the chosen name.
    UnknownTheme,
}

/// Everything the painter reads, fixed for a whole run. Its theme is the
/// entry of the theme catalog under `theme_name`, which the catalog holds.
pub struct PaintConfig<'a> {
    themes: &'a syntect::highlighting::ThemeSet,
    theme_name: String,
    syntax_set: &'a syntect::parsing::SyntaxSet,
    plus_color: Rgba,
    minus_color: Rgba,
    width: Option<usize>,
}

impl<'a> PaintConfig<'a> {
    #[verifier::type_invariant]
    spec fn theme_is_listed(&self) -> bool {
        theme_names(*self.themes).contains(self.theme_name@)
    }

    pub closed spec fn spec_themes(&self) -> &'a syntect::highlighting::ThemeSet {
        self.themes
    }

    pub closed spec fn spec_theme_name(&self) -> Seq<char> {
        self.theme_name@
    }

    pub closed spec fn spec_syntax_set(&self) -> &'a syntect::parsing::SyntaxSet {
        self.syntax_set
    }

    pub closed spec fn spec_plus_color(&self) -> Rgba {
        self.plus_color
    }

    pub closed spec fn spec_minus_color(&self) -> Rgba {
        self.minus_color
    }

    pub closed spec fn spec_width(&self) -> Option<usize> {
        self.width
    }

    /// The theme catalog.
    pub fn themes(&self) -> (r: &'a syntect::highlighting::ThemeSet)
        ensures
            r == self.spec_themes(),
    {
        self.themes
    }

    /// The name of the theme in use; the catalog always holds it.
    pub fn theme_name(&self) -> (r: &str)
        ensures
            r@ == self.spec_theme_name(),
            theme_names(*self.spec_themes()).contains(r@),
    {
        proof {
            use_type_invariant(self);
        }
        self.theme_name.as_str()
    }

    /// The grammar catalog.
    pub fn syntax_set(&self) -> (r: &'a syntect::parsing::SyntaxSet)
        ensures
            r == self.spec_syntax_set(),
    {
        self.syntax_set
    }

    /// The background of added lines.
    pub fn plus_color(&self) -> (r: Rgba)
        ensures
            r == self.spec_plus_color(),
    {
        self.plus_color
    }

    /// The background of removed lines.
    pub fn minus_color(&self) -> (r: Rgba)
        ensures
            r == self.spec_minus_color(),
    {
        self.minus_color
    }

    /// The number of columns the overlay spans, if fixed.
    pub fn width(&self) -> (r: Option<usize>)
        ensures
            r == self.spec_width(),
    {
        self.width
    }
}

/// The overlay written in `text`, or `default` where there is none or it
/// does not parse.
pub open spec fn chosen_color(text: Option<String>, default: Rgba) -> Rgba {
    match text {
        Some(t) => match color_of_text(t@) {
            Some(c) => c,
            None => default,
        },
        None => default,
    }
}

pub open spec fn default_plus(dark: bool) -> Rgba {
    if dark {
        opaque_rgb(0x01, 0x3b, 0x01)
    } else {
        opaque_rgb(0xd0, 0xff, 0xd0)
    }
}

pub open spec fn default_minus(dark: bool) -> Rgba {
    if dark {
        opaque_rgb(0x3f, 0x00, 0x01)
    } else {
        opaque_rgb(0xff, 0xd0, 0xd0)
    }
}

/// The name of the theme to use: the one asked for, else the default of
/// the mode.
pub open spec fn chosen_theme(o: Options) -> Seq<char> {
    match o.theme {
        Some(t) => t@,
        None => if o.dark {
            "base16-mocha.dark"@
        } else {
            "InspiredGitHub"@
        },
    }
}

/// The overlay that `text` asks for, falling back to `default`.
pub fn color_or(text: &Option<String>, default: Rgba) -> (r: Rgba)
    ensures
        r == chosen_color(*text, default),
{
    match text {
        Some(t) => match parse_color(t.as_str()) {
            Ok(c) => c,
            Err(_) => default,
        },
        None => default,
    }
}

/// The theme name that the options select.
pub fn theme_name(o: &Options) -> (r: String)
    ensures
        r@ == chosen_theme(*o),
{
    match &o.theme {
        Some(t) => t.clone(),
        None => if o.dark {
            String::from_str("base16-mocha.dark")
        } else {
            String::from_str("InspiredGitHub")
        },
    }
}

/// Checks the options and builds the painter's configuration: the two modes
/// exclude each other, the chosen theme must be in the catalog, and an
/// overlay color that does not parse falls back to the mode's default.
pub fn get_config<'a>(
    themes: &'a syntect::highlighting::ThemeSet,
    syntaxes: &'a syntect::parsing::SyntaxSet,
    o: &Options,
) -> (r: Result<PaintConfig<'a>, ConfigError>)
    ensures
        o.light && o.dark ==> r == Err::<PaintConfig<'a>, ConfigError>(ConfigError::ConflictingModes),
        !(o.light && o.dark) ==> (r.is_ok() <==> theme_names(*themes).contains(chosen_theme(*o))),
        !(o.light && o.dark) ==> match r {
            Ok(c) => {
                &&& c.spec_theme_name() == chosen_theme(*o)
                &&& c.spec_themes() == themes
                &&& c.spec_syntax_set() == syntaxes
                &&& c.spec_plus_color() == chosen_color(o.plus_color, default_plus(o.dark))
                &&& c.spec_minus_color() == chosen_color(o.minus_color, default_minus(o.dark))
                &&& c.spec_width() == o.width
            },
            Err(e) => e == ConfigError::UnknownTheme,
        },
{
    if o.light && o.dark {
        return Err(ConfigError::ConflictingModes);
    }
    let name = theme_name(o);
    if find_theme(themes, name.as_str()).is_none() {
        return Err(ConfigError::UnknownTheme);
    }
    let (plus, minus) = if o.dark {
        (dark_plus(), dark_minus())
    } else {
        (light_plus(), light_minus())
    };
    Ok(
        PaintConfig {
            themes,
            theme_name: name,
            syntax_set: syntaxes,
            plus_color: color_or(&o.plus_color, plus),
            minus_color: color_or(&o.minus_color, minus),
            width: o.width,
        },
    )
}

} // verus!
