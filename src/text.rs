//! Character-level helpers over strings, stated over their character sequences.
use vstd::prelude::*;

verus! {

/// The characters that Unicode gives the `White_Space` property.
pub open spec fn is_space(c: char) -> bool {
    let n = c as u32;
    (0x09 <= n && n <= 0x0d) || n == 0x20 || n == 0x85 || n == 0xa0 || n == 0x1680 || (0x2000
        <= n && n <= 0x200a) || n == 0x2028 || n == 0x2029 || n == 0x202f || n == 0x205f || n
        == 0x3000
}

/// Whether `c` is a Unicode white-space character.
pub fn is_space_char(c: char) -> (r: bool)
    ensures
        r == is_space(c),
{
    let n = c as u32;
    (0x09 <= n && n <= 0x0d) || n == 0x20 || n == 0x85 || n == 0xa0 || n == 0x1680 || (0x2000
        <= n && n <= 0x200a) || n == 0x2028 || n == 0x2029 || n == 0x202f || n == 0x205f || n
        == 0x3000
}

/// Relies on `str::chars`, collected into a vector: the characters of `s`, in order.
#[verifier::external_body]
pub(crate) fn chars_of(s: &str) -> (r: Vec<char>)
    ensures
        r@ == s@,
{
    s.chars().collect()
}

/// Relies on `String`'s `FromIterator<&char>`: the string made of these characters.
#[verifier::external_body]
pub(crate) fn string_of(v: &[char]) -> (r: String)
    ensures
        r@ == v@,
{
    v.iter().collect()
}

/// `p` occurs in `s` starting at index `i`.
pub open spec fn occurs_at(s: Seq<char>, p: Seq<char>, i: int) -> bool {
    0 <= i && i + p.len() <= s.len() && s.subrange(i, i + p.len()) == p
}

/// `p` occurs somewhere in `s`.
pub open spec fn has_infix(s: Seq<char>, p: Seq<char>) -> bool {
    exists|i: int| occurs_at(s, p, i)
}

/// Whether `p` occurs in `s` starting at index `i`.
pub fn occurs_at_exec(s: &Vec<char>, p: &Vec<char>, i: usize) -> (r: bool)
    ensures
        r == occurs_at(s@, p@, i as int),
{
    if i > s.len() || p.len() > s.len() - i {
        return false;
    }
    let mut k: usize = 0;
    while k < p.len()
        invariant
            i + p.len() <= s.len(),
            k <= p.len(),
            forall|j: int| 0 <= j < k ==> s@[i + j] == p@[j],
        decreases p.len() - k,
    {
        if s[i + k] != p[k] {
            assert(s@.subrange(i as int, i + p.len())[k as int] != p@[k as int]);
            return false;
        }
        k = k + 1;
    }
    assert(s@.subrange(i as int, i + p.len()) =~= p@);
    true
}

/// Whether `p` occurs somewhere in `s`.
pub fn has_infix_exec(s: &Vec<char>, p: &Vec<char>) -> (r: bool)
    ensures
        r == has_infix(s@, p@),
{
    let mut i: usize = 0;
    while i < s.len()
        invariant
            i <= s.len(),
            forall|j: int| 0 <= j < i ==> !occurs_at(s@, p@, j),
        decreases s.len() - i,
    {
        if occurs_at_exec(s, p, i) {
            return true;
        }
        i = i + 1;
    }
    if occurs_at_exec(s, p, i) {
        return true;
    }
    assert forall|j: int| !occurs_at(s@, p@, j) by {
        if 0 <= j <= i {
        }
    }
    false
}

/// The pieces of `s` between the occurrences of `sep`, as `str::split` yields them, for the
/// scan that is at index `i` with the current piece begun at `start`.
pub open spec fn split_from(s: Seq<char>, sep: char, start: int, i: int) -> Seq<Seq<char>>
    decreases s.len() - i,
{
    if i < 0 || start < 0 || start > i || i >= s.len() {
        seq![s.subrange(start, s.len() as int)]
    } else if s[i] == sep {
        seq![s.subrange(start, i)] + split_from(s, sep, i + 1, i + 1)
    } else {
        split_from(s, sep, start, i + 1)
    }
}

/// The pieces of `s` between the occurrences of `sep`; one piece more than there are
/// separators, empty pieces included.
pub open spec fn split_on(s: Seq<char>, sep: char) -> Seq<Seq<char>> {
    split_from(s, sep, 0, 0)
}

/// The pieces of `s` between the occurrences of `sep` (see [`split_on`]).
pub fn split_str(s: &str, sep: char) -> (r: Vec<String>)
    ensures
        r@.map_values(|x: String| x@) == split_on(s@, sep),
{
    let v = chars_of(s);
    let mut r: Vec<String> = Vec::new();
    let mut start: usize = 0;
    let mut i: usize = 0;
    while i < v.len()
        invariant
            start <= i <= v.len(),
            v@ == s@,
            r@.map_values(|x: String| x@) + split_from(v@, sep, start as int, i as int) == split_on(
                s@,
                sep,
            ),
        decreases v.len() - i,
    {
        if v[i] == sep {
            let piece = string_of(&v.as_slice()[start..i]);
            let ghost old_r = r@;
            r.push(piece);
            assert(r@.map_values(|x: String| x@) =~= old_r.map_values(|x: String| x@).push(piece@));
            assert(r@.map_values(|x: String| x@) + split_from(v@, sep, (i + 1) as int, (i + 1) as int)
                =~= old_r.map_values(|x: String| x@) + split_from(v@, sep, start as int, i as int));
            start = i + 1;
        }
        i = i + 1;
    }
    let piece = string_of(&v.as_slice()[start..v.len()]);
    let ghost old_r = r@;
    r.push(piece);
    assert(r@.map_values(|x: String| x@) =~= old_r.map_values(|x: String| x@) + split_from(
        v@,
        sep,
        start as int,
        i as int,
    ));
    r
}

/// Index of the first `'\n'` of `s` at or after `i`, or the length of `s` if there is none.
pub open spec fn newline_from(s: Seq<char>, i: int) -> int
    decreases s.len() - i,
{
    if i < 0 || i >= s.len() {
        s.len() as int
    } else if s[i] == '\n' {
        i
    } else {
        newline_from(s, i + 1)
    }
}

/// The first line of `s`, as `str::lines` yields it: the text before the first `'\n'`, without
/// a `'\r'` that stands just before that `'\n'`; `None` for the empty string.
pub open spec fn first_line(s: Seq<char>) -> Option<Seq<char>> {
    if s.len() == 0 {
        None
    } else {
        let k = newline_from(s, 0);
        if k < s.len() && k > 0 && s[k - 1] == '\r' {
            Some(s.subrange(0, k - 1))
        } else {
            Some(s.subrange(0, k))
        }
    }
}

/// The first line of `s` (see [`first_line`]), or `None` when `s` is empty.
pub fn first_line_of(s: &str) -> (r: Option<String>)
    ensures
        r is Some <==> first_line(s@) is Some,
        r is Some ==> r->0@ == first_line(s@)->0,
{
    let v = chars_of(s);
    if v.len() == 0 {
        return None;
    }
    let mut k: usize = 0;
    while k < v.len() && v[k] != '\n'
        invariant
            k <= v.len(),
            newline_from(v@, k as int) == newline_from(v@, 0),
        decreases v.len() - k,
    {
        k = k + 1;
    }
    let end: usize = if k < v.len() && k > 0 && v[k - 1] == '\r' {
        k - 1
    } else {
        k
    };
    let line = string_of(&v.as_slice()[0..end]);
    assert(line@ =~= first_line(s@)->0);
    Some(line)
}

/// Index of the first character of `s` at or after `i` that is not white space, or the length
/// of `s` if there is none.
pub open spec fn space_end(s: Seq<char>, i: int) -> int
    decreases s.len() - i,
{
    if i < 0 || i >= s.len() {
        s.len() as int
    } else if is_space(s[i]) {
        space_end(s, i + 1)
    } else {
        i
    }
}

/// For `0 < j <= s.len()`: the end of `s.subrange(0, j)` once its trailing white space is
/// dropped.
pub open spec fn space_start_back(s: Seq<char>, j: int) -> int
    decreases j,
{
    if j <= 0 || j > s.len() {
        0
    } else if is_space(s[j - 1]) {
        space_start_back(s, j - 1)
    } else {
        j
    }
}

/// `s` without its leading and trailing white space, as `str::trim` gives it.
pub open spec fn trimmed(s: Seq<char>) -> Seq<char> {
    let a = space_end(s, 0);
    let b = space_start_back(s, s.len() as int);
    if a < b {
        s.subrange(a, b)
    } else {
        Seq::empty()
    }
}

/// `s` without its leading and trailing white space.
pub fn trim_of(s: &str) -> (r: String)
    ensures
        r@ == trimmed(s@),
{
    let v = chars_of(s);
    let mut a: usize = 0;
    while a < v.len() && is_space_char(v[a])
        invariant
            a <= v.len(),
            space_end(v@, a as int) == space_end(v@, 0),
        decreases v.len() - a,
    {
        a = a + 1;
    }
    let mut b: usize = v.len();
    while b > 0 && is_space_char(v[b - 1])
        invariant
            b <= v.len(),
            space_start_back(v@, b as int) == space_start_back(v@, v.len() as int),
        decreases b,
    {
        b = b - 1;
    }
    if a < b {
        let r = string_of(&v.as_slice()[a..b]);
        assert(r@ =~= trimmed(s@));
        r
    } else {
        let r = String::new();
        assert(r@ =~= trimmed(s@));
        r
    }
}

/// Whether two strings hold the same characters.
pub fn same_text(a: &str, b: &str) -> (r: bool)
    ensures
        r == (a@ == b@),
{
    a.to_owned() == b.to_owned()
}

/// What `str::to_uppercase` makes of a string.
pub uninterp spec fn upper_of(s: Seq<char>) -> Seq<char>;

/// Relies on `str::to_uppercase`: its result depends on the characters of `s` alone.
#[verifier::external_body]
pub(crate) fn uppercase(s: &str) -> (r: String)
    ensures
        r@ == upper_of(s@),
{
    s.to_uppercase()
}

/// What `str::to_lowercase` makes of a string.
pub uninterp spec fn lower_of(s: Seq<char>) -> Seq<char>;

/// Relies on `str::to_lowercase`: its result depends on the characters of `s` alone.
#[verifier::external_body]
pub(crate) fn lowercase(s: &str) -> (r: String)
    ensures
        r@ == lower_of(s@),
{
    s.to_lowercase()
}

} // verus!
