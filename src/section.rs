use vstd::prelude::*;
use crate::text::{has_prefix, starts_with};

verus! {

/// The part of a diff that the current line belongs to.
#[derive(Clone, Copy, Debug, PartialEq, Eq, Structural)]
pub enum Section {
    Commit,
    DiffMeta,
    DiffHunk,
    Unknown,
}

/// Opens the diff of one file.
pub open spec fn header_marker() -> Seq<char> {
    seq!['d', 'i', 'f', 'f', ' ', '-', '-']
}

/// Opens a commit's metadata.
pub open spec fn commit_marker() -> Seq<char> {
    seq!['c', 'o', 'm', 'm', 'i', 't']
}

/// Opens a hunk.
pub open spec fn hunk_marker() -> Seq<char> {
    seq!['@', '@']
}

/// A line that announces the diff of one file.
pub open spec fn is_header(line: Seq<char>) -> bool {
    starts_with(line, header_marker())
}

/// A line that moves the classifier to another section.
pub open spec fn is_marker(line: Seq<char>) -> bool {
    is_header(line) || starts_with(line, commit_marker()) || starts_with(line, hunk_marker())
}

/// The section after `line`, when `cur` was the section before it.
pub open spec fn next_section(cur: Section, line: Seq<char>) -> Section {
    if is_header(line) {
        Section::DiffMeta
    } else if starts_with(line, commit_marker()) {
        Section::Commit
    } else if starts_with(line, hunk_marker()) {
        Section::DiffHunk
    } else {
        cur
    }
}

/// The section after every line of `lines`, starting from `start`.
pub open spec fn section_after(start: Section, lines: Seq<Seq<char>>) -> Section
    decreases lines.len(),
{
    if lines.len() == 0 {
        start
    } else {
        next_section(section_after(start, lines.drop_last()), lines.last())
    }
}

/// Whether `line` begins a file's diff.
pub fn is_header_line(line: &Vec<char>) -> (r: bool)
    ensures
        r == is_header(line@),
{
    let p = vec!['d', 'i', 'f', 'f', ' ', '-', '-'];
    assert(p@ =~= header_marker());
    has_prefix(line.as_slice(), p.as_slice())
}

/// Whether `line` moves the classifier to another section.
pub fn is_marker_line(line: &Vec<char>) -> (r: bool)
    ensures
        r == is_marker(line@),
{
    let c = vec!['c', 'o', 'm', 'm', 'i', 't'];
    let h = vec!['@', '@'];
    assert(c@ =~= commit_marker());
    assert(h@ =~= hunk_marker());
    is_header_line(line) || has_prefix(line.as_slice(), c.as_slice()) || has_prefix(
        line.as_slice(),
        h.as_slice(),
    )
}

/// The section after `line`, given the section `cur` before it.
pub fn classify(cur: Section, line: &Vec<char>) -> (r: Section)
    ensures
        r == next_section(cur, line@),
{
    let c = vec!['c', 'o', 'm', 'm', 'i', 't'];
    let h = vec!['@', '@'];
    assert(c@ =~= commit_marker());
    assert(h@ =~= hunk_marker());
    if is_header_line(line) {
        Section::DiffMeta
    } else if has_prefix(line.as_slice(), c.as_slice()) {
        Section::Commit
    } else if has_prefix(line.as_slice(), h.as_slice()) {
        Section::DiffHunk
    } else {
        cur
    }
}

/// Once in a hunk, the classifier stays there through any lines that begin
/// neither a file's diff nor a commit, whatever else they hold.
pub proof fn lemma_hunk_is_stable(lines: Seq<Seq<char>>)
    requires
        forall|i: int|
            0 <= i < lines.len() ==> !is_header(#[trigger] lines[i]) && !starts_with(
                lines[i],
                commit_marker(),
            ),
    ensures
        forall|k: int|
            0 <= k <= lines.len() ==> section_after(Section::DiffHunk, #[trigger] lines.subrange(0, k))
                == Section::DiffHunk,
    decreases lines.len(),
{
    if lines.len() > 0 {
        let rest = lines.drop_last();
        lemma_hunk_is_stable(rest);
        assert forall|k: int| 0 <= k <= lines.len() implies section_after(
            Section::DiffHunk,
            #[trigger] lines.subrange(0, k),
        ) == Section::DiffHunk by {
            if k < lines.len() {
                assert(lines.subrange(0, k) =~= rest.subrange(0, k));
            } else {
                let all = lines.subrange(0, k);
                assert(all.drop_last() =~= rest.subrange(0, rest.len() as int));
                assert(all.last() == lines[k - 1]);
            }
        }
    }
}

} // verus!
