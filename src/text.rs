use vstd::prelude::*;

verus! {

/// `p` is a prefix of `s`.
pub open spec fn starts_with(s: Seq<char>, p: Seq<char>) -> bool {
    p.len() <= s.len() && s.subrange(0, p.len() as int) == p
}

/// Index of the last occurrence of `c` in `s`, or -1 where `c` does not occur.
pub open spec fn last_index_of(s: Seq<char>, c: char) -> int
    decreases s.len(),
{
    if s.len() == 0 {
        -1
    } else if s.last() == c {
        s.len() - 1
    } else {
        last_index_of(s.drop_last(), c)
    }
}

/// Positions of the space characters of `s`, in increasing order.
pub open spec fn space_positions(s: Seq<char>) -> Seq<int>
    decreases s.len(),
{
    if s.len() == 0 {
        Seq::empty()
    } else if s.last() == ' ' {
        space_positions(s.drop_last()).push(s.len() - 1)
    } else {
        space_positions(s.drop_last())
    }
}

/// Relies on str::chars: the characters of `s`, in order.
#[verifier::external_body]
pub(crate) fn chars_of(s: &str) -> (r: Vec<char>)
    ensures
        r@ == s@,
{
    s.chars().collect()
}

/// Relies on FromIterator<char> for String: the string of the characters of `v`.
#[verifier::external_body]
pub(crate) fn string_of(v: &Vec<char>) -> (r: String)
    ensures
        r@ == v@,
{
    v.iter().collect()
}

/// Whether `p` is a prefix of `s`.
pub fn has_prefix(s: &[char], p: &[char]) -> (r: bool)
    ensures
        r == starts_with(s@, p@),
{
    if p.len() > s.len() {
        return false;
    }
    let mut i: usize = 0;
    while i < p.len()
        invariant
            p.len() <= s.len(),
            i <= p.len(),
            forall|j: int| 0 <= j < i ==> s@[j] == p@[j],
        decreases p.len() - i,
    {
        if s[i] != p[i] {
            assert(s@.subrange(0, p.len() as int)[i as int] != p@[i as int]);
            return false;
        }
        i = i + 1;
    }
    assert(s@.subrange(0, p.len() as int) =~= p@);
    true
}

/// Index of the last occurrence of `c` in `s`.
pub fn find_last(s: &[char], c: char) -> (r: Option<usize>)
    ensures
        match r {
            Some(i) => i as int == last_index_of(s@, c) && i < s@.len(),
            None => last_index_of(s@, c) == -1,
        },
{
    let mut i: usize = s.len();
    assert(s@.subrange(0, i as int) =~= s@);
    while i > 0
        invariant
            i <= s@.len(),
            last_index_of(s@.subrange(0, i as int), c) == last_index_of(s@, c),
        decreases i,
    {
        let ghost pre = s@.subrange(0, i as int);
        if s[i - 1] == c {
            return Some(i - 1);
        }
        assert(pre.drop_last() =~= s@.subrange(0, i - 1));
        i = i - 1;
    }
    assert(s@.subrange(0, 0) =~= Seq::<char>::empty());
    None
}

/// The positions of the spaces of `s` are increasing and inside `s`.
pub proof fn lemma_spaces_ordered(s: Seq<char>)
    ensures
        forall|i: int, j: int|
            0 <= i < j < space_positions(s).len() ==> space_positions(s)[i] < space_positions(s)[j],
        forall|i: int|
            0 <= i < space_positions(s).len() ==> 0 <= #[trigger] space_positions(s)[i] < s.len(),
    decreases s.len(),
{
    if s.len() > 0 {
        let t = s.drop_last();
        lemma_spaces_ordered(t);
        let pt = space_positions(t);
        let ps = space_positions(s);
        if s.last() == ' ' {
            assert(ps == pt.push(s.len() - 1));
            assert forall|i: int| 0 <= i < ps.len() implies 0 <= #[trigger] ps[i] < s.len() by {
                if i < pt.len() {
                    assert(ps[i] == pt[i]);
                }
            }
            assert forall|i: int, j: int| 0 <= i < j < ps.len() implies ps[i] < ps[j] by {
                assert(ps[i] == pt[i]);
                if j < pt.len() {
                    assert(ps[j] == pt[j]);
                }
            }
        } else {
            assert(ps == pt);
        }
    }
}

/// Positions of the spaces in `s`.
pub fn find_spaces(s: &Vec<char>) -> (r: Vec<usize>)
    ensures
        r@.map_values(|k: usize| k as int) == space_positions(s@),
        forall|k: int| 0 <= k < r@.len() ==> r@[k] < s@.len(),
{
    let mut r: Vec<usize> = Vec::new();
    let mut i: usize = 0;
    while i < s.len()
        invariant
            i <= s@.len(),
            r@.map_values(|k: usize| k as int) == space_positions(s@.subrange(0, i as int)),
            forall|k: int| 0 <= k < r@.len() ==> r@[k] < i,
        decreases s@.len() - i,
    {
        let ghost pre = s@.subrange(0, i as int + 1);
        assert(pre.drop_last() =~= s@.subrange(0, i as int));
        if s[i] == ' ' {
            r.push(i);
            assert(r@.map_values(|k: usize| k as int) =~= space_positions(pre));
        }
        i = i + 1;
    }
    assert(s@.subrange(0, s@.len() as int) =~= s@);
    r
}

} // verus!
