//! Character-level helpers shared by the text processing of the library.

use vstd::prelude::*;

verus! {

/// Splits a string into its characters.
pub(crate) fn chars_of(s: &str) -> (r: Vec<char>)
    ensures
        r@ == s@,
{
    broadcast use vstd::string::axiom_spec_iter;
    let mut out: Vec<char> = Vec::new();
    for c in it: s.chars()
        invariant
            it.seq() == s@,
            out@ == it.seq().take(it.index() as int),
    {
        out.push(c);
    }
    out
}

/// Builds a string from a slice of characters.
///
/// Trusted: `String`'s `FromIterator<&char>`; the string holds exactly the
/// given characters, in order.
#[verifier::external_body]
pub(crate) fn string_from_chars(v: &[char]) -> (r: String)
    ensures
        r@ == v@,
{
    v.iter().collect()
}

/// The lower-case hexadecimal digit for a value below 16.
pub open spec fn hex_digit(v: int) -> char {
    if v < 10 {
        ((v + 48) as u8) as char
    } else {
        ((v + 87) as u8) as char
    }
}

/// The lower-case hexadecimal rendering of a byte sequence: two digits per
/// byte, most significant nibble first.
pub open spec fn hex_lower(data: Seq<u8>) -> Seq<char> {
    Seq::new(
        2 * data.len(),
        |i: int|
            if i % 2 == 0 {
                hex_digit(data[i / 2] as int / 16)
            } else {
                hex_digit(data[i / 2] as int % 16)
            },
    )
}

fn hex_char(v: u8) -> (c: char)
    requires
        v < 16,
    ensures
        c == hex_digit(v as int),
{
    if v < 10 {
        (v + 48) as char
    } else {
        (v + 87) as char
    }
}

/// Renders bytes as lower-case hexadecimal text.
pub fn to_hex_lower(data: &[u8]) -> (r: String)
    ensures
        r@ == hex_lower(data@),
{
    let mut out: Vec<char> = Vec::new();
    let n = data.len();
    for i in 0..n
        invariant
            n == data@.len(),
            out@.len() == 2 * i,
            forall|j: int| 0 <= j < 2 * i ==> out@[j] == #[trigger] hex_lower(data@)[j],
    {
        let b = data[i];
        out.push(hex_char(b / 16));
        out.push(hex_char(b % 16));
        assert(out@[2 * i as int] == hex_lower(data@)[2 * i as int]);
        assert(out@[2 * i + 1] == hex_lower(data@)[2 * i + 1]);
    }
    assert(out@ =~= hex_lower(data@));
    string_from_chars(out.as_slice())
}

} // verus!

verus! {

/// `p` occurs in `s` at position `i`.
pub open spec fn matches_at(s: Seq<char>, p: Seq<char>, i: int) -> bool {
    0 <= i && i + p.len() <= s.len() && s.subrange(i, i + p.len()) == p
}

/// `s` starts with `p`.
pub open spec fn starts_with(s: Seq<char>, p: Seq<char>) -> bool {
    matches_at(s, p, 0)
}

/// The first position at or after `from` where `p` occurs in `s`.
pub open spec fn first_match_from(s: Seq<char>, p: Seq<char>, from: int) -> Option<int>
    decreases s.len() + 1 - from,
{
    if from < 0 || from + p.len() > s.len() {
        None
    } else if matches_at(s, p, from) {
        Some(from)
    } else {
        first_match_from(s, p, from + 1)
    }
}

/// The second piece of `s` split at the (non-overlapping, leftmost) matches
/// of `p`, when there is one: the text between the first match and the next
/// one, or the end. An empty pattern matches between every two characters,
/// so its second piece is the first character, or nothing for empty text.
pub open spec fn second_split_piece(s: Seq<char>, p: Seq<char>) -> Option<Seq<char>> {
    if p.len() == 0 {
        if s.len() > 0 {
            Some(s.take(1))
        } else {
            Some(Seq::empty())
        }
    } else {
        match first_match_from(s, p, 0) {
            Some(i) => {
                let start = i + p.len();
                match first_match_from(s, p, start) {
                    Some(j) => Some(s.subrange(start, j)),
                    None => Some(s.subrange(start, s.len() as int)),
                }
            },
            None => None,
        }
    }
}

proof fn lemma_first_match_bounds(s: Seq<char>, p: Seq<char>, from: int)
    ensures
        first_match_from(s, p, from) matches Some(i) ==> from <= i && matches_at(s, p, i),
    decreases s.len() + 1 - from,
{
    if from < 0 || from + p.len() > s.len() {
    } else if matches_at(s, p, from) {
    } else {
        lemma_first_match_bounds(s, p, from + 1);
    }
}

/// Whether `p` occurs in `s` at position `i`.
pub fn match_at(s: &Vec<char>, p: &Vec<char>, i: usize) -> (r: bool)
    requires
        i + p@.len() <= s@.len(),
    ensures
        r == matches_at(s@, p@, i as int),
{
    let m = p.len();
    let n = s.len();
    let mut k: usize = 0;
    while k < m
        invariant
            m == p@.len(),
            n == s@.len(),
            i + m <= n,
            0 <= k <= m,
            forall|j: int| 0 <= j < k ==> s@[i + j] == p@[j],
        decreases m - k,
    {
        if s[i + k] != p[k] {
            assert(s@.subrange(i as int, i + m)[k as int] != p@[k as int]);
            return false;
        }
        k = k + 1;
    }
    assert(s@.subrange(i as int, i + m) =~= p@);
    true
}

/// The first position at or after `from` where `p` occurs in `s`.
pub fn find_from(s: &Vec<char>, p: &Vec<char>, from: usize) -> (r: Option<usize>)
    ensures
        match r {
            Some(i) => first_match_from(s@, p@, from as int) == Some(i as int),
            None => first_match_from(s@, p@, from as int) is None,
        },
{
    let n = s.len();
    let m = p.len();
    if m > n {
        return None;
    }
    if m == 0 {
        if from <= n {
            assert(matches_at(s@, p@, from as int)) by {
                assert(s@.subrange(from as int, from as int) =~= p@);
            }
            return Some(from);
        } else {
            return None;
        }
    }
    let mut i = from;
    while i <= n - m
        invariant
            n == s@.len(),
            m == p@.len(),
            1 <= m <= n,
            from <= i,
            first_match_from(s@, p@, from as int) == first_match_from(s@, p@, i as int),
        decreases n - m + 1 - i,
    {
        if match_at(s, p, i) {
            return Some(i);
        }
        i = i + 1;
    }
    None
}

/// The second piece of `s` split at the matches of `p` (see
/// `second_split_piece`), when there is one.
pub fn second_piece(s: &Vec<char>, p: &Vec<char>) -> (r: Option<Vec<char>>)
    ensures
        match r {
            Some(v) => second_split_piece(s@, p@) == Some(v@),
            None => second_split_piece(s@, p@) is None,
        },
{
    let n = s.len();
    if p.len() == 0 {
        let mut out: Vec<char> = Vec::new();
        if n > 0 {
            out.push(s[0]);
        }
        assert(n > 0 ==> out@ =~= s@.take(1));
        assert(n == 0 ==> out@ =~= Seq::<char>::empty());
        return Some(out);
    }
    match find_from(s, p, 0) {
        Some(i) => {
            proof {
                lemma_first_match_bounds(s@, p@, 0);
            }
            let start = i + p.len();
            let end = match find_from(s, p, start) {
                Some(j) => {
                    proof {
                        lemma_first_match_bounds(s@, p@, start as int);
                    }
                    j
                },
                None => n,
            };
            let mut out: Vec<char> = Vec::new();
            let mut k = start;
            while k < end
                invariant
                    start <= k <= end,
                    end <= n,
                    n == s@.len(),
                    out@ == s@.subrange(start as int, k as int),
                decreases end - k,
            {
                out.push(s[k]);
                k = k + 1;
                assert(out@ =~= s@.subrange(start as int, k as int));
            }
            Some(out)
        },
        None => None,
    }
}

/// Whether `s` starts with `p`.
pub fn has_prefix(s: &Vec<char>, p: &Vec<char>) -> (r: bool)
    ensures
        r == starts_with(s@, p@),
{
    if p.len() > s.len() {
        false
    } else {
        match_at(s, p, 0)
    }
}

} // verus!

verus! {

/// Whether two texts are equal.
pub fn text_eq(a: &str, b: &str) -> (r: bool)
    ensures
        r == (a@ == b@),
{
    let x = chars_of(a);
    let y = chars_of(b);
    if x.len() != y.len() {
        return false;
    }
    let n = x.len();
    for i in 0..n
        invariant
            n == x@.len(),
            n == y@.len(),
            x@ == a@,
            y@ == b@,
            forall|j: int| 0 <= j < i ==> x@[j] == y@[j],
    {
        if x[i] != y[i] {
            return false;
        }
    }
    assert(x@ =~= y@);
    true
}

/// Joins texts with single spaces, as `join(" ")` does.
pub open spec fn join_space(parts: Seq<Seq<char>>) -> Seq<char>
    decreases parts.len(),
{
    if parts.len() == 0 {
        Seq::empty()
    } else if parts.len() == 1 {
        parts[0]
    } else {
        join_space(parts.drop_last()) + seq![' '] + parts.last()
    }
}

/// Appends a text to a growing space-joined text (`count` parts so far).
pub fn push_joined(out: &mut String, count: usize, part: &str)
    ensures
        final(out)@ == if count == 0 {
            part@
        } else {
            old(out)@ + seq![' '] + part@
        },
{
    if count == 0 {
        *out = String::from_str(part);
    } else {
        out.append(" ");
        proof {
            reveal_strlit(" ");
        }
        out.append(part);
    }
}

} // verus!
