use vstd::prelude::*;
use vstd::slice::slice_subrange;
use crate::color::Rgba;
use crate::render::{render, render_cells};
use crate::text::{chars_of, has_prefix, starts_with, string_of};

verus! {

/// A piece of a line with the foreground color that the highlighter gave it.
#[derive(Debug)]
pub struct Span {
    pub fg: Rgba,
    pub text: String,
}

/// One column of a painted line.
#[derive(Clone, Copy, Debug)]
pub struct Cell {
    pub ch: char,
    pub fg: Option<Rgba>,
    pub bg: Option<Rgba>,
}

/// The foreground colors of the part of `line` that `spans` cover: span
/// after span, for as long as each span's text is what comes next in the
/// line.
pub open spec fn token_colors(line: Seq<char>, spans: Seq<Span>) -> Seq<Rgba>
    decreases spans.len(),
{
    if spans.len() == 0 {
        Seq::empty()
    } else {
        let t = spans[0].text@;
        if starts_with(line, t) {
            Seq::new(t.len(), |_i: int| spans[0].fg) + token_colors(
                line.subrange(t.len() as int, line.len() as int),
                spans.drop_first(),
            )
        } else {
            Seq::empty()
        }
    }
}

/// The background of a line: added lines take `plus`, removed lines take
/// `minus`, other lines none.
pub open spec fn overlay_for(line: Seq<char>, plus: Rgba, minus: Rgba) -> Option<Rgba> {
    if line.len() > 0 && line[0] == '+' {
        Some(plus)
    } else if line.len() > 0 && line[0] == '-' {
        Some(minus)
    } else {
        None
    }
}

/// Whether column `i` lies in the overlay region.
pub open spec fn in_overlay(i: int, width: Option<usize>) -> bool {
    match width {
        Some(w) => i < w,
        None => true,
    }
}

/// The number of columns of a painted line of `n` characters: a line under
/// an overlay is padded out to the width.
pub open spec fn painted_len(n: nat, overlay: Option<Rgba>, width: Option<usize>) -> nat {
    match (overlay, width) {
        (Some(_), Some(w)) => if w > n {
            w as nat
        } else {
            n
        },
        _ => n,
    }
}

/// Column `i` of a painted line.
pub open spec fn painted_cell(
    line: Seq<char>,
    colors: Seq<Rgba>,
    overlay: Option<Rgba>,
    width: Option<usize>,
    i: int,
) -> Cell {
    if i < line.len() {
        Cell {
            ch: line[i],
            fg: if i < colors.len() {
                Some(colors[i])
            } else {
                None
            },
            bg: if in_overlay(i, width) {
                overlay
            } else {
                None
            },
        }
    } else {
        Cell { ch: ' ', fg: None, bg: overlay }
    }
}

/// The columns of `line` painted with the colors of `spans` over `overlay`.
pub open spec fn painted(
    line: Seq<char>,
    spans: Seq<Span>,
    overlay: Option<Rgba>,
    width: Option<usize>,
) -> Seq<Cell> {
    let colors = token_colors(line, spans);
    Seq::new(
        painted_len(line.len(), overlay, width),
        |i: int| painted_cell(line, colors, overlay, width, i),
    )
}

/// Within the overlay region every column of a line that begins with `+`
/// has the added color behind it, of one that begins with `-` the removed
/// color, and of any other line none; outside the region there is none.
pub proof fn lemma_overlay_follows_marker(
    line: Seq<char>,
    spans: Seq<Span>,
    plus: Rgba,
    minus: Rgba,
    width: Option<usize>,
)
    ensures
        ({
            let cells = painted(line, spans, overlay_for(line, plus, minus), width);
            forall|i: int|
                0 <= i < cells.len() ==> {
                    &&& in_overlay(i, width) && line.len() > 0 && line[0] == '+' ==> (
                    #[trigger] cells[i]).bg == Some(plus)
                    &&& in_overlay(i, width) && line.len() > 0 && line[0] == '-' ==> cells[i].bg
                        == Some(minus)
                    &&& !(line.len() > 0 && (line[0] == '+' || line[0] == '-')) ==> cells[i].bg
                        is None
                    &&& !in_overlay(i, width) ==> cells[i].bg is None
                }
        }),
{
}

/// With a width `w` and an overlay, exactly the first `w` columns carry the
/// overlay: a shorter line is padded with spaces up to `w`, a longer one
/// keeps all its characters and only loses the overlay past `w`.
pub proof fn lemma_width_clamps_overlay(line: Seq<char>, spans: Seq<Span>, overlay: Rgba, w: usize)
    ensures
        ({
            let cells = painted(line, spans, Some(overlay), Some(w));
            &&& cells.len() == if w > line.len() {
                w as nat
            } else {
                line.len()
            }
            &&& forall|i: int| 0 <= i < cells.len() ==> ((#[trigger] cells[i]).bg is Some <==> i < w)
            &&& forall|i: int| 0 <= i < line.len() ==> (#[trigger] cells[i]).ch == line[i]
            &&& forall|i: int| line.len() <= i < cells.len() ==> (#[trigger] cells[i]).ch == ' '
        }),
{
}

/// Painting keeps every character of the line in its place; the only
/// columns added are spaces that carry an overlay out to the width.
pub proof fn lemma_text_kept(line: Seq<char>, spans: Seq<Span>, overlay: Option<Rgba>, width: Option<usize>)
    ensures
        ({
            let cells = painted(line, spans, overlay, width);
            &&& cells.len() >= line.len()
            &&& forall|i: int| 0 <= i < line.len() ==> (#[trigger] cells[i]).ch == line[i]
            &&& forall|i: int|
                line.len() <= i < cells.len() ==> (#[trigger] cells[i]).ch == ' ' && cells[i].bg
                    == overlay && overlay is Some
        }),
{
}

/// The foreground colors of the covered part of `line`.
pub fn span_colors(line: &Vec<char>, spans: &Vec<Span>) -> (r: Vec<Rgba>)
    ensures
        r@ == token_colors(line@, spans@),
{
    let mut colors: Vec<Rgba> = Vec::new();
    let mut pos: usize = 0;
    let mut k: usize = 0;
    let mut stopped = false;
    assert(line@.subrange(0, line@.len() as int) =~= line@);
    assert(spans@.subrange(0, spans@.len() as int) =~= spans@);
    while k < spans.len() && !stopped
        invariant
            pos <= line@.len(),
            k <= spans@.len(),
            colors@.len() == pos,
            colors@ + token_colors(
                line@.subrange(pos as int, line@.len() as int),
                spans@.subrange(k as int, spans@.len() as int),
            ) == token_colors(line@, spans@),
            stopped ==> token_colors(
                line@.subrange(pos as int, line@.len() as int),
                spans@.subrange(k as int, spans@.len() as int),
            ) == Seq::<Rgba>::empty(),
        decreases spans@.len() - k, if stopped { 0int } else { 1int },
    {
        let ghost rest = line@.subrange(pos as int, line@.len() as int);
        let ghost todo = spans@.subrange(k as int, spans@.len() as int);
        let t = chars_of(spans[k].text.as_str());
        let fg = spans[k].fg;
        let tail = slice_subrange(line.as_slice(), pos, line.len());
        if has_prefix(tail, t.as_slice()) {
            let ghost before = colors@;
            let mut j: usize = 0;
            while j < t.len()
                invariant
                    j <= t@.len(),
                    colors@ == before + Seq::new(j as nat, |_i: int| fg),
                decreases t@.len() - j,
            {
                colors.push(fg);
                assert(colors@ =~= before + Seq::new((j + 1) as nat, |_i: int| fg));
                j = j + 1;
            }
            assert(todo[0] == spans@[k as int]);
            assert(todo.drop_first() =~= spans@.subrange(k as int + 1, spans@.len() as int));
            assert(rest.subrange(t@.len() as int, rest.len() as int) =~= line@.subrange(
                pos + t@.len(),
                line@.len() as int,
            ));
            assert(before + Seq::new(t@.len(), |_i: int| fg) + token_colors(
                line@.subrange(pos + t@.len(), line@.len() as int),
                spans@.subrange(k as int + 1, spans@.len() as int),
            ) =~= before + token_colors(rest, todo));
            pos = pos + t.len();
            k = k + 1;
        } else {
            assert(todo[0] == spans@[k as int]);
            stopped = true;
        }
    }
    if !stopped {
        assert(spans@.subrange(k as int, spans@.len() as int) =~= Seq::<Span>::empty());
    }
    assert(colors@ =~= token_colors(line@, spans@));
    colors
}

/// The background for `line`: `plus` under an added line, `minus` under a
/// removed one, none otherwise.
pub fn overlay_color(line: &Vec<char>, plus: Rgba, minus: Rgba) -> (r: Option<Rgba>)
    ensures
        r == overlay_for(line@, plus, minus),
{
    if line.len() > 0 && line[0] == '+' {
        Some(plus)
    } else if line.len() > 0 && line[0] == '-' {
        Some(minus)
    } else {
        None
    }
}

/// The columns of `line` painted with the colors of `spans` over `overlay`,
/// with the overlay held to `width` columns when a width is given.
pub fn paint_cells(line: &Vec<char>, spans: &Vec<Span>, overlay: Option<Rgba>, width: Option<usize>) -> (r:
    Vec<Cell>)
    ensures
        r@ == painted(line@, spans@, overlay, width),
{
    let colors = span_colors(line, spans);
    let n = line.len();
    let total: usize = match (overlay, width) {
        (Some(_), Some(w)) => if w > n {
            w
        } else {
            n
        },
        _ => n,
    };
    let ghost target = painted(line@, spans@, overlay, width);
    let mut cells: Vec<Cell> = Vec::new();
    let mut i: usize = 0;
    while i < total
        invariant
            n == line@.len(),
            total == target.len(),
            colors@ == token_colors(line@, spans@),
            target == painted(line@, spans@, overlay, width),
            i <= total,
            cells@ == target.subrange(0, i as int),
        decreases total - i,
    {
        let cell = if i < n {
            let fg = if i < colors.len() {
                Some(colors[i])
            } else {
                None
            };
            let bg = match width {
                Some(w) => if i < w {
                    overlay
                } else {
                    None
                },
                None => overlay,
            };
            Cell { ch: line[i], fg, bg }
        } else {
            Cell { ch: ' ', fg: None, bg: overlay }
        };
        assert(target[i as int] == painted_cell(line@, colors@, overlay, width, i as int));
        assert(cell == painted_cell(line@, colors@, overlay, width, i as int));
        cells.push(cell);
        assert(cells@ =~= target.subrange(0, i + 1));
        i = i + 1;
    }
    assert(cells@ =~= target);
    cells
}

/// `line` painted with the colors of `spans` over `overlay`, as a string of
/// text and escape codes.
pub fn paint_tokens(line: &str, spans: &Vec<Span>, overlay: Option<Rgba>, width: Option<usize>) -> (r:
    String)
    ensures
        r@ == render(painted(line@, spans@, overlay, width)),
{
    let chars = chars_of(line);
    let cells = paint_cells(&chars, spans, overlay, width);
    string_of(&render_cells(&cells))
}

} // verus!
