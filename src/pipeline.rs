use vstd::prelude::*;
use crate::config::PaintConfig;
use crate::engine::{
    claims, find_grammar, find_theme, highlight, new_highlighter, strip_ansi, strip_ansi_of, Grammar,
};
use crate::extension::{header_extension, header_extension_chars};
use crate::paint::{overlay_color, overlay_for, paint_tokens, painted, Span};
use crate::render::render;
use crate::section::{
    classify, is_header, is_header_line, is_marker, is_marker_line, next_section, section_after,
    Section,
};
use crate::text::{chars_of, string_of};

verus! {

/// What the driver remembers from one line to the next: the section and the
/// grammar of the current file, if one was found.
pub struct DiffState<G> {
    pub section: Section,
    pub grammar: Option<G>,
}

/// The state after `line`, where `found` is the grammar looked up for it
/// when it is a header.
pub open spec fn step<G>(s: DiffState<G>, line: Seq<char>, found: Option<G>) -> DiffState<G> {
    DiffState {
        section: next_section(s.section, line),
        grammar: if is_header(line) {
            found
        } else {
            s.grammar
        },
    }
}

/// The state after each line of `lines` in turn, the `i`th header taking
/// `found[i]` as its grammar.
pub open spec fn run<G>(s: DiffState<G>, lines: Seq<Seq<char>>, found: Seq<Option<G>>) -> DiffState<
    G,
>
    decreases lines.len(),
{
    if lines.len() == 0 {
        s
    } else {
        step(run(s, lines.drop_last(), found.drop_last()), lines.last(), found.last())
    }
}

/// Whether a line seen in state `s` is painted: a hunk line, not itself a
/// section marker, of a file whose grammar is known.
pub open spec fn paints<G>(s: DiffState<G>, line: Seq<char>) -> bool {
    !is_marker(line) && s.section == Section::DiffHunk && s.grammar.is_some()
}

impl<G> DiffState<G> {
    /// The state at the start of a stream.
    pub fn new() -> (r: Self)
        ensures
            r.section == Section::Unknown,
            r.grammar.is_none(),
    {
        DiffState { section: Section::Unknown, grammar: None }
    }

    /// Moves past `line` and says whether it is to be painted.
    pub fn advance(&mut self, line: &Vec<char>, found: Option<G>) -> (r: bool)
        ensures
            r == paints(*old(self), line@),
            *final(self) == step(*old(self), line@, found),
    {
        let header = is_header_line(line);
        let r = match (&self.grammar, self.section) {
            (Some(_), Section::DiffHunk) => !is_marker_line(line),
            _ => false,
        };
        self.section = classify(self.section, line);
        if header {
            self.grammar = found;
        }
        r
    }
}

/// A header whose extension some grammar of the catalog claims.
pub open spec fn header_claimed(set: syntect::parsing::SyntaxSet, line: Seq<char>) -> bool {
    match header_extension(line) {
        Some(e) => claims(set, e),
        None => false,
    }
}

/// The grammar looked up for the extension of a header line.
fn lookup<'a>(config: &PaintConfig<'a>, line: &Vec<char>) -> (r: Option<Grammar<'a>>)
    ensures
        r.is_some() == header_claimed(*config.spec_syntax_set(), line@),
{
    match header_extension_chars(line) {
        Some(e) => find_grammar(config.syntax_set(), string_of(&e).as_str()),
        None => None,
    }
}

/// `line` painted with the colors that `grammar` and the configured theme
/// give it, over the overlay that its first character selects.
pub fn paint_line(line: &str, grammar: &Grammar, config: &PaintConfig) -> (r: String)
    ensures
        exists|spans: Seq<Span>|
            r@ == render(
                painted(
                    line@,
                    spans,
                    overlay_for(line@, config.spec_plus_color(), config.spec_minus_color()),
                    config.spec_width(),
                ),
            ),
{
    let chars = chars_of(line);
    let overlay = overlay_color(&chars, config.plus_color(), config.minus_color());
    let spans = match find_theme(config.themes(), config.theme_name()) {
        Some(theme) => {
            let mut h = new_highlighter(grammar, theme);
            match highlight(&mut h, line) {
                Ok(v) => v,
                Err(_) => Vec::new(),
            }
        },
        None => Vec::new(),
    };
    paint_tokens(line, &spans, overlay, config.width())
}

/// The output line for the raw input line `raw`: painted where it is a hunk
/// line of a file with a known grammar, else `raw` unchanged. The section and
/// the grammar are read and updated from the line with its escape codes
/// taken out; a header sets the grammar exactly when the catalog claims its
/// extension.
pub fn process_line<'a>(state: &mut DiffState<Grammar<'a>>, raw: &str, config: &PaintConfig<'a>) -> (r:
    String)
    ensures
        ({
            let plain = strip_ansi_of(raw@);
            &&& final(state).section == next_section(old(state).section, plain)
            &&& !is_header(plain) ==> final(state).grammar == old(state).grammar
            &&& is_header(plain) ==> (final(state).grammar.is_some() <==> header_claimed(
                *config.spec_syntax_set(),
                plain,
            ))
            &&& !paints(*old(state), plain) ==> r@ == raw@
            &&& paints(*old(state), plain) ==> exists|spans: Seq<Span>|
                r@ == render(
                    painted(
                        plain,
                        spans,
                        overlay_for(plain, config.spec_plus_color(), config.spec_minus_color()),
                        config.spec_width(),
                    ),
                )
        }),
{
    let plain = strip_ansi(raw);
    let chars = chars_of(plain.as_str());
    let found = if is_header_line(&chars) {
        lookup(config, &chars)
    } else {
        None
    };
    let paint = state.advance(&chars, found);
    if paint {
        match state.grammar {
            Some(g) => paint_line(plain.as_str(), &g, config),
            None => String::from_str(raw),
        }
    } else {
        String::from_str(raw)
    }
}

/// The lines of `lines` with their escape codes taken out.
pub open spec fn plain_lines(lines: Seq<String>) -> Seq<Seq<char>> {
    lines.map_values(|s: String| strip_ansi_of(s@))
}

/// The last header before line `i` names an extension that the catalog
/// claims.
pub open spec fn has_claimed_header(set: syntect::parsing::SyntaxSet, plains: Seq<Seq<char>>, i: int) -> bool {
    exists|j: int|
        0 <= j < i && is_header(#[trigger] plains[j]) && header_claimed(set, plains[j]) && (forall|
            k: int,
        |
            j < k < i ==> !is_header(#[trigger] plains[k]))
}

/// Line `i` is painted: a hunk line, not itself a marker, of a file whose
/// header names an extension that the catalog claims.
pub open spec fn painted_at(set: syntect::parsing::SyntaxSet, plains: Seq<Seq<char>>, i: int) -> bool {
    &&& !is_marker(plains[i])
    &&& section_after(Section::Unknown, plains.subrange(0, i)) == Section::DiffHunk
    &&& has_claimed_header(set, plains, i)
}

/// What line `i` of the output is, given the plain form `plain` of the
/// input line `raw`.
pub open spec fn output_line(
    config: PaintConfig,
    plains: Seq<Seq<char>>,
    i: int,
    raw: Seq<char>,
    out: Seq<char>,
) -> bool {
    if painted_at(*config.spec_syntax_set(), plains, i) {
        exists|spans: Seq<Span>|
            out == render(
                painted(
                    plains[i],
                    spans,
                    overlay_for(plains[i], config.spec_plus_color(), config.spec_minus_color()),
                    config.spec_width(),
                ),
            )
    } else {
        out == raw
    }
}

/// One output line for each input line, in order: a hunk line of a file
/// whose last header names an extension that the catalog claims is painted,
/// and every other line is the input line unchanged.
pub fn process_lines(lines: &Vec<String>, config: &PaintConfig) -> (r: Vec<String>)
    ensures
        r@.len() == lines@.len(),
        forall|i: int|
            0 <= i < lines@.len() ==> output_line(
                *config,
                plain_lines(lines@),
                i,
                lines@[i]@,
                (#[trigger] r@[i])@,
            ),
{
    let ghost plains = plain_lines(lines@);
    let ghost set = *config.spec_syntax_set();
    let mut state = DiffState::new();
    let mut out: Vec<String> = Vec::new();
    let mut i: usize = 0;
    assert(plains.subrange(0, 0) =~= Seq::<Seq<char>>::empty());
    while i < lines.len()
        invariant
            i <= lines@.len(),
            plains == plain_lines(lines@),
            set == *config.spec_syntax_set(),
            out@.len() == i,
            state.section == section_after(Section::Unknown, plains.subrange(0, i as int)),
            state.grammar.is_some() <==> has_claimed_header(set, plains, i as int),
            forall|j: int|
                0 <= j < i ==> output_line(*config, plains, j, lines@[j]@, (#[trigger] out@[j])@),
        decreases lines@.len() - i,
    {
        let ghost before = state;
        let ghost plain = plains[i as int];
        assert(plain == strip_ansi_of(lines@[i as int]@));
        let line = process_line(&mut state, lines[i].as_str(), config);
        assert(plains.subrange(0, i + 1).drop_last() =~= plains.subrange(0, i as int));
        assert(plains.subrange(0, i + 1).last() == plain);
        proof {
            if is_header(plain) {
                if has_claimed_header(set, plains, i + 1) {
                    let j = choose|j: int|
                        0 <= j < i + 1 && is_header(#[trigger] plains[j]) && header_claimed(
                            set,
                            plains[j],
                        ) && (forall|k: int| j < k < i + 1 ==> !is_header(#[trigger] plains[k]));
                    if j < i {
                        assert(!is_header(plains[i as int]));
                    }
                }
                if header_claimed(set, plain) {
                    assert(has_claimed_header(set, plains, i + 1));
                }
            } else {
                if has_claimed_header(set, plains, i as int) {
                    let j = choose|j: int|
                        0 <= j < i && is_header(#[trigger] plains[j]) && header_claimed(
                            set,
                            plains[j],
                        ) && (forall|k: int| j < k < i ==> !is_header(#[trigger] plains[k]));
                    assert(forall|k: int| j < k < i + 1 ==> !is_header(#[trigger] plains[k]));
                    assert(has_claimed_header(set, plains, i + 1));
                }
                if has_claimed_header(set, plains, i + 1) {
                    let j = choose|j: int|
                        0 <= j < i + 1 && is_header(#[trigger] plains[j]) && header_claimed(
                            set,
                            plains[j],
                        ) && (forall|k: int| j < k < i + 1 ==> !is_header(#[trigger] plains[k]));
                    assert(j != i);
                    assert(forall|k: int| j < k < i ==> !is_header(#[trigger] plains[k]));
                    assert(has_claimed_header(set, plains, i as int));
                }
            }
            assert(paints(before, plain) == painted_at(set, plains, i as int));
        }
        out.push(line);
        assert(out@[i as int] == line);
        i = i + 1;
    }
    out
}

/// The grammar that a header sets stays in force, whatever hunks follow,
/// until the next header.
pub proof fn lemma_grammar_sticks<G>(
    s: DiffState<G>,
    header: Seq<char>,
    g: Option<G>,
    lines: Seq<Seq<char>>,
    found: Seq<Option<G>>,
)
    requires
        is_header(header),
        found.len() == lines.len(),
        forall|i: int| 0 <= i < lines.len() ==> !is_header(#[trigger] lines[i]),
    ensures
        forall|k: int|
            0 <= k <= lines.len() ==> (#[trigger] run(
                step(s, header, g),
                lines.subrange(0, k),
                found.subrange(0, k),
            )).grammar == g,
{
    assert forall|k: int| 0 <= k <= lines.len() implies (#[trigger] run(
        step(s, header, g),
        lines.subrange(0, k),
        found.subrange(0, k),
    )).grammar == g by {
        lemma_run_keeps_grammar(step(s, header, g), lines.subrange(0, k), found.subrange(0, k));
    }
}

/// Lines that are not headers leave the grammar as it was.
pub proof fn lemma_run_keeps_grammar<G>(s: DiffState<G>, lines: Seq<Seq<char>>, found: Seq<Option<G>>)
    requires
        found.len() == lines.len(),
        forall|i: int| 0 <= i < lines.len() ==> !is_header(#[trigger] lines[i]),
    ensures
        run(s, lines, found).grammar == s.grammar,
    decreases lines.len(),
{
    if lines.len() > 0 {
        let n = lines.len() - 1;
        assert(!is_header(lines[n]));
        lemma_run_keeps_grammar(s, lines.drop_last(), found.drop_last());
    }
}

} // verus!
