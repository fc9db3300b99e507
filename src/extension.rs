use vstd::prelude::*;
use vstd::slice::{slice_subrange, slice_to_vec};
use crate::text::{
    chars_of, find_last, find_spaces, has_prefix, last_index_of, lemma_spaces_ordered,
    space_positions, starts_with, string_of,
};

verus! {

/// The new path of a header `diff --<mode> a/<old> b/<new>`, made of four
/// words parted by single spaces; `None` for a line of any other shape.
pub open spec fn header_new_path(line: Seq<char>) -> Option<Seq<char>> {
    let sp = space_positions(line);
    if sp.len() == 3 && line.subrange(0, sp[0]) == seq!['d', 'i', 'f', 'f'] && starts_with(
        line.subrange(sp[0] + 1, sp[1]),
        seq!['-', '-'],
    ) && starts_with(line.subrange(sp[1] + 1, sp[2]), seq!['a', '/']) && starts_with(
        line.subrange(sp[2] + 1, line.len() as int),
        seq!['b', '/'],
    ) {
        Some(line.subrange(sp[2] + 3, line.len() as int))
    } else {
        None
    }
}

/// The file name of `path`: what follows its last `/`.
pub open spec fn file_name(path: Seq<char>) -> Seq<char> {
    path.subrange(last_index_of(path, '/') + 1, path.len() as int)
}

/// The non-empty text after the last `.` of the file name, where that dot
/// does not open the name.
pub open spec fn extension_of(path: Seq<char>) -> Option<Seq<char>> {
    let name = file_name(path);
    let d = last_index_of(name, '.');
    if d > 0 && d + 1 < name.len() {
        Some(name.subrange(d + 1, name.len() as int))
    } else {
        None
    }
}

/// The extension named by a diff header line.
pub open spec fn header_extension(line: Seq<char>) -> Option<Seq<char>> {
    match header_new_path(line) {
        Some(p) => extension_of(p),
        None => None,
    }
}

/// Whether `s[start..end]` begins with `p`.
fn prefix_in(s: &Vec<char>, start: usize, end: usize, p: &Vec<char>) -> (r: bool)
    requires
        start <= end <= s@.len(),
    ensures
        r == starts_with(s@.subrange(start as int, end as int), p@),
{
    let part = slice_subrange(s.as_slice(), start, end);
    has_prefix(part, p.as_slice())
}

/// The extension of a path, as `extension_of` describes it.
pub fn path_extension(path: &[char]) -> (r: Option<Vec<char>>)
    ensures
        match r {
            Some(e) => extension_of(path@) == Some(e@),
            None => extension_of(path@).is_none(),
        },
{
    let n = path.len();
    let start = match find_last(path, '/') {
        Some(i) => i + 1,
        None => 0,
    };
    let name = slice_subrange(path, start, n);
    assert(name@ =~= file_name(path@));
    match find_last(name, '.') {
        Some(d) => {
            if d > 0 && d + 1 < name.len() {
                let e = slice_to_vec(slice_subrange(name, d + 1, name.len()));
                Some(e)
            } else {
                None
            }
        },
        None => None,
    }
}

/// The characters of the extension in a header line, as `header_extension`
/// describes them.
pub fn header_extension_chars(line: &Vec<char>) -> (r: Option<Vec<char>>)
    ensures
        match r {
            Some(e) => header_extension(line@) == Some(e@),
            None => header_extension(line@).is_none(),
        },
{
    let sp = find_spaces(line);
    proof {
        lemma_spaces_ordered(line@);
    }
    if sp.len() != 3 {
        return None;
    }
    let ghost spec_sp = space_positions(line@);
    assert(spec_sp[0] == sp@[0] as int && spec_sp[1] == sp@[1] as int && spec_sp[2] == sp@[2] as int) by {
        assert(sp@.map_values(|k: usize| k as int)[0] == sp@[0] as int);
        assert(sp@.map_values(|k: usize| k as int)[1] == sp@[1] as int);
        assert(sp@.map_values(|k: usize| k as int)[2] == sp@[2] as int);
    }
    assert(spec_sp[0] < spec_sp[1] < spec_sp[2] < line@.len());
    assert(0 <= spec_sp[0]);
    let n = line.len();
    let (s0, s1, s2) = (sp[0], sp[1], sp[2]);
    let diff = vec!['d', 'i', 'f', 'f'];
    let dashes = vec!['-', '-'];
    let old_mark = vec!['a', '/'];
    let new_mark = vec!['b', '/'];
    let first_is_diff = s0 == 4 && prefix_in(line, 0, s0, &diff);
    proof {
        assert(diff@ =~= seq!['d', 'i', 'f', 'f']);
        if first_is_diff {
            assert(line@.subrange(0, spec_sp[0]) =~= seq!['d', 'i', 'f', 'f']);
        } else if s0 == 4 {
            assert(!starts_with(line@.subrange(0, spec_sp[0]), seq!['d', 'i', 'f', 'f']));
            let first = line@.subrange(0, spec_sp[0]);
            assert(first.subrange(0, 4) =~= first);
        } else {
            assert(line@.subrange(0, spec_sp[0]).len() != seq!['d', 'i', 'f', 'f'].len());
        }
    }
    if !first_is_diff || !prefix_in(line, s0 + 1, s1, &dashes) || !prefix_in(
        line,
        s1 + 1,
        s2,
        &old_mark,
    ) || !prefix_in(line, s2 + 1, n, &new_mark) {
        proof {
            assert(diff@ =~= seq!['d', 'i', 'f', 'f']);
            assert(dashes@ =~= seq!['-', '-']);
            assert(old_mark@ =~= seq!['a', '/']);
            assert(new_mark@ =~= seq!['b', '/']);
        }
        return None;
    }
    assert(diff@ =~= seq!['d', 'i', 'f', 'f']);
    assert(dashes@ =~= seq!['-', '-']);
    assert(old_mark@ =~= seq!['a', '/']);
    assert(new_mark@ =~= seq!['b', '/']);
    assert(line@.subrange(0, spec_sp[0]) =~= seq!['d', 'i', 'f', 'f']);
    let path = slice_subrange(line.as_slice(), s2 + 3, n);
    path_extension(path)
}

/// The extension of the file that a diff header line names: the text after
/// the last `.` in the file name of its `b/` path. `None` where the line is
/// not of the shape `diff --<mode> a/<old> b/<new>` or the name has no
/// extension.
pub fn extract_extension(line: &str) -> (r: Option<String>)
    ensures
        match r {
            Some(e) => header_extension(line@) == Some(e@),
            None => header_extension(line@).is_none(),
        },
{
    let chars = chars_of(line);
    match header_extension_chars(&chars) {
        Some(e) => Some(string_of(&e)),
        None => None,
    }
}

} // verus!
