use vstd::prelude::*;
use std::str::FromStr;
use crate::color::{color_of_text, Rgba};
use crate::paint::Span;

verus! {

#[verifier::external_type_specification]
#[verifier::external_body]
pub struct ExSyntaxSet(syntect::parsing::SyntaxSet);

#[verifier::external_type_specification]
#[verifier::external_body]
pub struct ExSyntaxReference(syntect::parsing::SyntaxReference);

#[verifier::external_type_specification]
#[verifier::external_body]
pub struct ExTheme(syntect::highlighting::Theme);

#[verifier::external_type_specification]
#[verifier::external_body]
pub struct ExThemeSet(syntect::highlighting::ThemeSet);

#[verifier::external_type_specification]
#[verifier::external_body]
pub struct ExHighlightLines<'a>(syntect::easy::HighlightLines<'a>);

#[verifier::external_type_specification]
#[verifier::external_body]
pub struct ExError(syntect::Error);

#[verifier::external_type_specification]
#[verifier::external_body]
pub struct ExParseThemeError(syntect::highlighting::ParseThemeError);

/// What is left of a line once its escape codes are taken out.
pub uninterp spec fn strip_ansi_of(s: Seq<char>) -> Seq<char>;

/// Relies on console::strip_ansi_codes: the text of `s` without its ANSI
/// escape codes; the result depends on `s` alone.
#[verifier::external_body]
pub(crate) fn strip_ansi(s: &str) -> (r: String)
    ensures
        r@ == strip_ansi_of(s@),
{
    console::strip_ansi_codes(s).into_owned()
}

/// A grammar together with the catalog that holds it; only a lookup in that
/// catalog makes one, so the two always belong together.
#[derive(Clone, Copy)]
pub struct Grammar<'a> {
    set: &'a syntect::parsing::SyntaxSet,
    syntax: &'a syntect::parsing::SyntaxReference,
}

/// A highlighter for one grammar, kept with the catalog of that grammar.
pub struct Highlighter<'a> {
    lines: syntect::easy::HighlightLines<'a>,
    set: &'a syntect::parsing::SyntaxSet,
}

/// The file extensions that the grammars of a catalog claim.
pub uninterp spec fn grammar_exts(set: syntect::parsing::SyntaxSet) -> Set<Seq<char>>;

/// The names of the themes of a catalog.
pub uninterp spec fn theme_names(set: syntect::highlighting::ThemeSet) -> Set<Seq<char>>;

/// Two characters that are equal once ASCII upper case is lowered.
pub open spec fn same_char_ignoring_case(x: char, y: char) -> bool {
    ||| x == y
    ||| 'A' <= x && x <= 'Z' && y as u32 == x as u32 + 32
    ||| 'A' <= y && y <= 'Z' && x as u32 == y as u32 + 32
}

/// Two texts that are equal once ASCII upper case is lowered.
pub open spec fn same_ignoring_ascii_case(a: Seq<char>, b: Seq<char>) -> bool {
    a.len() == b.len() && forall|i: int| 0 <= i < a.len() ==> same_char_ignoring_case(a[i], b[i])
}

/// Some grammar of the catalog claims `ext`, ASCII case aside.
pub open spec fn claims(set: syntect::parsing::SyntaxSet, ext: Seq<char>) -> bool {
    exists|e: Seq<char>| #[trigger] grammar_exts(set).contains(e) && same_ignoring_ascii_case(e, ext)
}

/// Relies on SyntaxSet::find_syntax_by_extension: a grammar of the catalog
/// that lists the extension, compared ignoring ASCII case, if there is one.
#[verifier::external_body]
pub(crate) fn find_grammar<'a>(set: &'a syntect::parsing::SyntaxSet, ext: &str) -> (r: Option<Grammar<'a>>)
    ensures
        r.is_some() == (exists|e: Seq<char>|
            #[trigger] grammar_exts(*set).contains(e) && same_ignoring_ascii_case(e, ext@)),
{
    set.find_syntax_by_extension(ext).map(|syntax| Grammar { set, syntax })
}

/// Relies on HighlightLines::new: a highlighter for one grammar and theme.
#[verifier::external_body]
pub(crate) fn new_highlighter<'a>(
    grammar: &Grammar<'a>,
    theme: &'a syntect::highlighting::Theme,
) -> (r: Highlighter<'a>) {
    Highlighter {
        lines: syntect::easy::HighlightLines::new(grammar.syntax, theme),
        set: grammar.set,
    }
}

/// Relies on HighlightLines::highlight_line, given the catalog of the
/// highlighter's grammar: the pieces of `line` with the foreground color of
/// each.
#[verifier::external_body]
pub(crate) fn highlight(h: &mut Highlighter, line: &str) -> (r: Result<Vec<Span>, syntect::Error>) {
    h.lines.highlight_line(line, h.set).map(
        |v|
            v.into_iter().map(
                |(style, text)|
                    Span {
                        fg: Rgba {
                            r: style.foreground.r,
                            g: style.foreground.g,
                            b: style.foreground.b,
                            a: style.foreground.a,
                        },
                        text: text.to_string(),
                    },
            ).collect(),
    )
}

/// Relies on BTreeMap::get on the `themes` map of a ThemeSet: the theme of
/// that name, where the catalog has one.
#[verifier::external_body]
pub(crate) fn find_theme<'a>(set: &'a syntect::highlighting::ThemeSet, name: &str) -> (r: Option<
    &'a syntect::highlighting::Theme,
>)
    ensures
        r.is_some() == theme_names(*set).contains(name@),
{
    set.themes.get(name)
}

/// Relies on syntect's FromStr for Color: `#` and then three, six or eight
/// hexadecimal digits.
#[verifier::external_body]
pub(crate) fn parse_color(s: &str) -> (r: Result<Rgba, syntect::highlighting::ParseThemeError>)
    ensures
        match r {
            Ok(c) => color_of_text(s@) == Some(c),
            Err(_) => color_of_text(s@).is_none(),
        },
{
    syntect::highlighting::Color::from_str(s).map(|c| Rgba { r: c.r, g: c.g, b: c.b, a: c.a })
}

} // verus!
