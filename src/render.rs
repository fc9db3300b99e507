use vstd::prelude::*;
use crate::color::Rgba;
use crate::paint::Cell;

verus! {

pub open spec fn digit_char(d: nat) -> char {
    seq!['0', '1', '2', '3', '4', '5', '6', '7', '8', '9'][d as int]
}

/// The decimal digits of `n`, without leading zeros.
pub open spec fn decimal(n: nat) -> Seq<char>
    decreases n,
{
    if n < 10 {
        seq![digit_char(n)]
    } else {
        decimal(n / 10) + seq![digit_char(n % 10)]
    }
}

/// `ESC [ <kind> ; 2 ; r ; g ; b m`: a 24-bit color, `kind` 38 for the
/// foreground and 48 for the background.
pub open spec fn color_code(kind: char, c: Rgba) -> Seq<char> {
    seq!['\x1b', '[', kind, '8', ';', '2', ';'] + decimal(c.r as nat) + seq![';'] + decimal(
        c.g as nat,
    ) + seq![';'] + decimal(c.b as nat) + seq!['m']
}

/// `ESC [ 0 m`: back to the terminal's own colors.
pub open spec fn reset_code() -> Seq<char> {
    seq!['\x1b', '[', '0', 'm']
}

pub open spec fn is_plain(fg: Option<Rgba>, bg: Option<Rgba>) -> bool {
    fg.is_none() && bg.is_none()
}

/// The codes that select a foreground and a background.
pub open spec fn style_code(fg: Option<Rgba>, bg: Option<Rgba>) -> Seq<char> {
    (match fg {
        Some(c) => color_code('3', c),
        None => Seq::empty(),
    }) + (match bg {
        Some(c) => color_code('4', c),
        None => Seq::empty(),
    })
}

/// The text of `cells` after a column colored `fg` over `bg`: a run of
/// columns of one style is opened by its codes and closed by a reset.
pub open spec fn render_from(cells: Seq<Cell>, fg: Option<Rgba>, bg: Option<Rgba>) -> Seq<char>
    decreases cells.len(),
{
    if cells.len() == 0 {
        if is_plain(fg, bg) {
            Seq::empty()
        } else {
            reset_code()
        }
    } else {
        let c = cells[0];
        let switch = if c.fg == fg && c.bg == bg {
            Seq::empty()
        } else {
            (if is_plain(fg, bg) {
                Seq::empty()
            } else {
                reset_code()
            }) + style_code(c.fg, c.bg)
        };
        switch + seq![c.ch] + render_from(cells.drop_first(), c.fg, c.bg)
    }
}

/// The text of a painted line, with its escape codes.
pub open spec fn render(cells: Seq<Cell>) -> Seq<char> {
    render_from(cells, None, None)
}

/// The decimal digits of `n`.
pub fn decimal_digits(n: u8) -> (r: Vec<char>)
    ensures
        r@ == decimal(n as nat),
{
    let digits = vec!['0', '1', '2', '3', '4', '5', '6', '7', '8', '9'];
    assert(digits@ =~= seq!['0', '1', '2', '3', '4', '5', '6', '7', '8', '9']);
    let ghost m = n as nat;
    if n < 10 {
        let r = vec![digits[n as usize]];
        assert(r@ =~= decimal(m));
        r
    } else if n < 100 {
        let r = vec![digits[(n / 10) as usize], digits[(n % 10) as usize]];
        assert(decimal(m / 10) == seq![digit_char(m / 10)]);
        assert(r@ =~= decimal(m));
        r
    } else {
        let r = vec![digits[(n / 100) as usize], digits[(n / 10 % 10) as usize], digits[(n % 10) as usize]];
        assert(m / 10 / 10 == m / 100);
        assert(decimal(m / 10 / 10) == seq![digit_char(m / 100)]);
        assert(decimal(m / 10) == decimal(m / 10 / 10) + seq![digit_char(m / 10 % 10)]);
        assert(r@ =~= decimal(m));
        r
    }
}

fn push_color(out: &mut Vec<char>, kind: char, c: Rgba)
    ensures
        final(out)@ == old(out)@ + color_code(kind, c),
{
    let head = vec!['\x1b', '[', kind, '8', ';', '2', ';'];
    out.extend_from_slice(head.as_slice());
    out.extend_from_slice(decimal_digits(c.r).as_slice());
    out.push(';');
    out.extend_from_slice(decimal_digits(c.g).as_slice());
    out.push(';');
    out.extend_from_slice(decimal_digits(c.b).as_slice());
    out.push('m');
    assert(final(out)@ =~= old(out)@ + color_code(kind, c));
}

fn push_reset(out: &mut Vec<char>)
    ensures
        final(out)@ == old(out)@ + reset_code(),
{
    out.push('\x1b');
    out.push('[');
    out.push('0');
    out.push('m');
    assert(final(out)@ =~= old(out)@ + reset_code());
}

fn push_style(out: &mut Vec<char>, fg: Option<Rgba>, bg: Option<Rgba>)
    ensures
        final(out)@ == old(out)@ + style_code(fg, bg),
{
    let ghost start = out@;
    match fg {
        Some(c) => push_color(out, '3', c),
        None => {},
    }
    let ghost mid = out@;
    match bg {
        Some(c) => push_color(out, '4', c),
        None => {},
    }
    assert(out@ =~= start + style_code(fg, bg));
}

fn same_color(a: Option<Rgba>, b: Option<Rgba>) -> (r: bool)
    ensures
        r == (a == b),
{
    match (a, b) {
        (Some(x), Some(y)) => x == y,
        (None, None) => true,
        _ => false,
    }
}

/// The characters of a painted line with the escape codes of its colors.
pub fn render_cells(cells: &Vec<Cell>) -> (r: Vec<char>)
    ensures
        r@ == render(cells@),
{
    let mut out: Vec<char> = Vec::new();
    let mut fg: Option<Rgba> = None;
    let mut bg: Option<Rgba> = None;
    let mut i: usize = 0;
    assert(cells@.subrange(0, cells@.len() as int) =~= cells@);
    while i < cells.len()
        invariant
            i <= cells@.len(),
            out@ + render_from(cells@.subrange(i as int, cells@.len() as int), fg, bg) == render(
                cells@,
            ),
        decreases cells@.len() - i,
    {
        let ghost rest = cells@.subrange(i as int, cells@.len() as int);
        let ghost before = out@;
        let c = cells[i];
        assert(rest[0] == c);
        assert(rest.drop_first() =~= cells@.subrange(i + 1, cells@.len() as int));
        if !(same_color(c.fg, fg) && same_color(c.bg, bg)) {
            if !(fg.is_none() && bg.is_none()) {
                push_reset(&mut out);
            }
            push_style(&mut out, c.fg, c.bg);
        }
        out.push(c.ch);
        assert(before + render_from(rest, fg, bg) =~= out@ + render_from(
            cells@.subrange(i + 1, cells@.len() as int),
            c.fg,
            c.bg,
        ));
        fg = c.fg;
        bg = c.bg;
        i = i + 1;
    }
    if !(fg.is_none() && bg.is_none()) {
        push_reset(&mut out);
    }
    assert(out@ =~= render(cells@));
    out
}

} // verus!
