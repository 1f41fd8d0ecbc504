//! Character-sequence primitives shared by the wire-protocol parsers:
//! conversion between strings and character vectors, substring search,
//! ASCII case folding, trimming and decimal parsing.

use vstd::prelude::*;

verus! {

/// `p` occurs in `h` starting at index `i`.
pub open spec fn match_at(h: Seq<char>, p: Seq<char>, i: int) -> bool {
    &&& 0 <= i
    &&& i + p.len() <= h.len()
    &&& h.subrange(i, i + p.len()) == p
}

/// Index of the first occurrence of `p` in `h` at or after `from`.
pub open spec fn first_match_from(h: Seq<char>, p: Seq<char>, from: int) -> Option<int>
    decreases h.len() + 1 - from,
{
    if from < 0 || from + p.len() > h.len() {
        None
    } else if match_at(h, p, from) {
        Some(from)
    } else {
        first_match_from(h, p, from + 1)
    }
}

/// Index of the first occurrence of the character `c` in `h` at or after `from`.
pub open spec fn first_char_from(h: Seq<char>, c: char, from: int) -> Option<int>
    decreases h.len() - from,
{
    if from < 0 || from >= h.len() {
        None
    } else if h[from] == c {
        Some(from)
    } else {
        first_char_from(h, c, from + 1)
    }
}

/// A found match lies at or after the start of the search and is a match.
pub proof fn lemma_first_match_some(h: Seq<char>, p: Seq<char>, from: int, i: int)
    requires
        first_match_from(h, p, from) == Some(i),
    ensures
        from <= i,
        match_at(h, p, i),
    decreases h.len() + 1 - from,
{
    if !(from < 0 || from + p.len() > h.len()) && !match_at(h, p, from) {
        lemma_first_match_some(h, p, from + 1, i);
    }
}

/// A found character lies at or after the start of the search, in range.
pub proof fn lemma_first_char_some(h: Seq<char>, c: char, from: int, i: int)
    requires
        first_char_from(h, c, from) == Some(i),
    ensures
        from <= i < h.len(),
        h[i] == c,
    decreases h.len() - from,
{
    if !(from < 0 || from >= h.len()) && h[from] != c {
        lemma_first_char_some(h, c, from + 1, i);
    }
}

/// Splitting at the first occurrence of `sep`: the part before it and the
/// part after it, or nothing when `sep` does not occur.
pub open spec fn split_at_first(s: Seq<char>, sep: Seq<char>) -> Option<(Seq<char>, Seq<char>)> {
    match first_match_from(s, sep, 0) {
        None => None,
        Some(i) => Some((s.subrange(0, i), s.subrange(i + sep.len(), s.len() as int))),
    }
}

/// The characters of a string slice, in order.
pub fn str_to_chars(s: &str) -> (v: Vec<char>)
    ensures
        v@ == s@,
{
    let n = s.unicode_len();
    let mut v: Vec<char> = Vec::new();
    let mut i: usize = 0;
    while i < n
        invariant
            i <= n,
            n == s@.len(),
            v@ == s@.subrange(0, i as int),
        decreases n - i,
    {
        v.push(s.get_char(i));
        assert(v@ =~= s@.subrange(0, i + 1));
        i += 1;
    }
    assert(v@ =~= s@);
    v
}

/// Relies on `String::push`: appends exactly the given character.
#[verifier::external_body]
fn push_char(s: &mut String, c: char)
    ensures
        final(s)@ == old(s)@.push(c),
{
    s.push(c);
}

/// A `String` holding exactly the characters of `v`.
pub fn chars_to_string(v: &Vec<char>) -> (s: String)
    ensures
        s@ == v@,
{
    let mut s = String::new();
    let mut i: usize = 0;
    while i < v.len()
        invariant
            i <= v.len(),
            s@ == v@.subrange(0, i as int),
        decreases v.len() - i,
    {
        push_char(&mut s, v[i]);
        assert(s@ =~= v@.subrange(0, i + 1));
        i += 1;
    }
    assert(s@ =~= v@);
    s
}

/// The character vector holds the same characters as the string slice.
pub fn chars_eq_str(v: &Vec<char>, s: &str) -> (r: bool)
    ensures
        r == (v@ == s@),
{
    let n = s.unicode_len();
    if v.len() != n {
        assert(v@ != s@) by {
            if v@ == s@ {
                assert(v@.len() == s@.len());
            }
        }
        return false;
    }
    let mut i: usize = 0;
    while i < n
        invariant
            i <= n,
            n == s@.len(),
            v@.len() == n,
            forall|k: int| 0 <= k < i ==> v@[k] == s@[k],
        decreases n - i,
    {
        if v[i] != s.get_char(i) {
            assert(v@ != s@) by {
                if v@ == s@ {
                    assert(v@[i as int] == s@[i as int]);
                }
            }
            return false;
        }
        i += 1;
    }
    assert(v@ =~= s@);
    true
}

/// ASCII upper-case letters fold to lower case; everything else is unchanged.
pub open spec fn lower_char(c: char) -> char {
    if 0x41 <= c as u32 && c as u32 <= 0x5a {
        ((c as u32 + 0x20) as u8) as char
    } else {
        c
    }
}

/// Pointwise ASCII case folding of a character sequence.
pub open spec fn lower_chars(s: Seq<char>) -> Seq<char> {
    s.map_values(|c: char| lower_char(c))
}

pub fn to_lower_char(c: char) -> (r: char)
    ensures
        r == lower_char(c),
{
    let u = c as u32;
    if 0x41 <= u && u <= 0x5a {
        ((u + 0x20) as u8) as char
    } else {
        c
    }
}

pub fn to_lower_chars(v: &Vec<char>) -> (r: Vec<char>)
    ensures
        r@ == lower_chars(v@),
{
    let mut r: Vec<char> = Vec::new();
    let mut i: usize = 0;
    while i < v.len()
        invariant
            i <= v.len(),
            r@ == lower_chars(v@.subrange(0, i as int)),
        decreases v.len() - i,
    {
        r.push(to_lower_char(v[i]));
        assert(r@ =~= lower_chars(v@.subrange(0, i + 1))) by {
            assert(v@.subrange(0, i + 1).drop_last() =~= v@.subrange(0, i as int));
        }
        i += 1;
    }
    assert(v@.subrange(0, v@.len() as int) =~= v@);
    r
}

/// The two sequences are equal up to ASCII case.
pub fn chars_ieq_str(v: &Vec<char>, s: &str) -> (r: bool)
    ensures
        r == (lower_chars(v@) == lower_chars(s@)),
{
    let n = s.unicode_len();
    if v.len() != n {
        assert(lower_chars(v@) != lower_chars(s@)) by {
            if lower_chars(v@) == lower_chars(s@) {
                assert(lower_chars(v@).len() == lower_chars(s@).len());
            }
        }
        return false;
    }
    let mut i: usize = 0;
    while i < n
        invariant
            i <= n,
            n == s@.len(),
            v@.len() == n,
            forall|k: int| 0 <= k < i ==> lower_char(v@[k]) == lower_char(s@[k]),
        decreases n - i,
    {
        if to_lower_char(v[i]) != to_lower_char(s.get_char(i)) {
            assert(lower_chars(v@) != lower_chars(s@)) by {
                if lower_chars(v@) == lower_chars(s@) {
                    assert(lower_chars(v@)[i as int] == lower_chars(s@)[i as int]);
                }
            }
            return false;
        }
        i += 1;
    }
    assert(lower_chars(v@) =~= lower_chars(s@));
    true
}

/// ASCII whitespace, the only whitespace the wire formats produce.
pub open spec fn is_space_char(c: char) -> bool {
    c == ' ' || c == '\t' || c == '\n' || c == '\r'
}

pub fn space_char(c: char) -> (r: bool)
    ensures
        r == is_space_char(c),
{
    c == ' ' || c == '\t' || c == '\n' || c == '\r'
}

pub open spec fn is_digit_char(c: char) -> bool {
    0x30 <= c as u32 && c as u32 <= 0x39
}

pub open spec fn digit_val(c: char) -> int {
    c as u32 - 0x30
}

pub fn digit_char(c: char) -> (r: bool)
    ensures
        r == is_digit_char(c),
{
    let u = c as u32;
    0x30 <= u && u <= 0x39
}

pub open spec fn is_ascii_lower_char(c: char) -> bool {
    0x61 <= c as u32 && c as u32 <= 0x7a
}

pub fn ascii_lower_char(c: char) -> (r: bool)
    ensures
        r == is_ascii_lower_char(c),
{
    let u = c as u32;
    0x61 <= u && u <= 0x7a
}

/// Numeric value of a digit string, most significant digit first.
pub open spec fn digits_val(s: Seq<char>) -> int
    decreases s.len(),
{
    if s.len() == 0 {
        0
    } else {
        digits_val(s.drop_last()) * 10 + digit_val(s.last())
    }
}

pub proof fn lemma_digits_val_nonneg(s: Seq<char>)
    requires
        forall|i: int| 0 <= i < s.len() ==> is_digit_char(#[trigger] s[i]),
    ensures
        digits_val(s) >= 0,
    decreases s.len(),
{
    if s.len() > 0 {
        lemma_digits_val_nonneg(s.drop_last());
    }
}

/// Exec search for `find_sub`'s inner match test.
fn match_at_exec(h: &Vec<char>, p: &Vec<char>, i: usize) -> (r: bool)
    requires
        i + p@.len() <= h@.len(),
    ensures
        r == match_at(h@, p@, i as int),
{
    let n = h.len();
    let m = p.len();
    let mut j: usize = 0;
    while j < m
        invariant
            j <= m,
            m == p@.len(),
            n == h@.len(),
            i + m <= n,
            forall|k: int| 0 <= k < j ==> h@[i + k] == p@[k],
        decreases m - j,
    {
        if h[i + j] != p[j] {
            assert(!match_at(h@, p@, i as int)) by {
                if h@.subrange(i as int, i + p@.len()) == p@ {
                    assert(h@.subrange(i as int, i + p@.len())[j as int] == p@[j as int]);
                }
            }
            return false;
        }
        j += 1;
    }
    assert(h@.subrange(i as int, i + p@.len()) =~= p@);
    true
}

/// First occurrence of `p` in `h` at or after `from`.
pub fn find_sub(h: &Vec<char>, p: &Vec<char>, from: usize) -> (r: Option<usize>)
    ensures
        r matches Some(i) ==> first_match_from(h@, p@, from as int) == Some(i as int),
        r is None ==> first_match_from(h@, p@, from as int) is None,
{
    let n = h.len();
    let m = p.len();
    if m > n || from > n - m {
        assert(first_match_from(h@, p@, from as int) is None);
        return None;
    }
    if m == 0 {
        assert(h@.subrange(from as int, from as int) =~= p@);
        assert(first_match_from(h@, p@, from as int) == Some(from as int));
        return Some(from);
    }
    let mut i: usize = from;
    while i <= n - m
        invariant
            1 <= m <= n,
            n == h@.len(),
            m == p@.len(),
            from <= i,
            i <= n - m + 1,
            first_match_from(h@, p@, from as int) == first_match_from(h@, p@, i as int),
        decreases n - m + 1 - i,
    {
        if match_at_exec(h, p, i) {
            assert(first_match_from(h@, p@, i as int) == Some(i as int));
            return Some(i);
        }
        assert(first_match_from(h@, p@, i as int) == first_match_from(h@, p@, i + 1));
        i += 1;
    }
    assert(first_match_from(h@, p@, i as int) is None);
    None
}

/// First occurrence of the character `c` in `h` at or after `from`.
pub fn find_char(h: &Vec<char>, c: char, from: usize) -> (r: Option<usize>)
    ensures
        r matches Some(i) ==> first_char_from(h@, c, from as int) == Some(i as int),
        r is None ==> first_char_from(h@, c, from as int) is None,
{
    let n = h.len();
    let mut i: usize = from;
    if from > n {
        assert(first_char_from(h@, c, from as int) is None);
        return None;
    }
    while i < n
        invariant
            from <= i,
            i <= n,
            n == h@.len(),
            first_char_from(h@, c, from as int) == first_char_from(h@, c, i as int),
        decreases n - i,
    {
        if h[i] == c {
            assert(first_char_from(h@, c, i as int) == Some(i as int));
            return Some(i);
        }
        assert(first_char_from(h@, c, i as int) == first_char_from(h@, c, i + 1));
        i += 1;
    }
    assert(first_char_from(h@, c, i as int) is None);
    None
}

/// The sub-vector `v[from..to]`.
pub fn sub_chars(v: &Vec<char>, from: usize, to: usize) -> (r: Vec<char>)
    requires
        from <= to <= v@.len(),
    ensures
        r@ == v@.subrange(from as int, to as int),
{
    let mut r: Vec<char> = Vec::new();
    let mut i: usize = from;
    while i < to
        invariant
            from <= i <= to <= v@.len(),
            r@ == v@.subrange(from as int, i as int),
        decreases to - i,
    {
        r.push(v[i]);
        assert(r@ =~= v@.subrange(from as int, i + 1));
        i += 1;
    }
    r
}

/// The input with leading and trailing ASCII whitespace removed.
pub open spec fn trim_spec(s: Seq<char>) -> Seq<char>
    decreases s.len(),
{
    if s.len() == 0 {
        s
    } else if is_space_char(s[0]) {
        trim_spec(s.drop_first())
    } else if is_space_char(s.last()) {
        trim_spec(s.drop_last())
    } else {
        s
    }
}

proof fn lemma_trim_bounds(s: Seq<char>, lo: int, hi: int)
    requires
        0 <= lo <= hi <= s.len(),
        forall|k: int| 0 <= k < lo ==> is_space_char(#[trigger] s[k]),
        forall|k: int| hi <= k < s.len() ==> is_space_char(#[trigger] s[k]),
        lo < hi ==> !is_space_char(s[lo]) && !is_space_char(s[hi - 1]),
    ensures
        trim_spec(s) == s.subrange(lo, hi),
    decreases s.len(),
{
    if s.len() == 0 {
        assert(s.subrange(lo, hi) =~= s);
    } else if is_space_char(s[0]) {
        let t = s.drop_first();
        if lo == hi {
            lemma_trim_bounds(t, 0, 0);
            assert(s.subrange(lo, hi) =~= t.subrange(0, 0));
        } else {
            assert(lo >= 1);
            assert(forall|k: int| 0 <= k < lo - 1 ==> is_space_char(#[trigger] t[k]));
            assert(forall|k: int| hi - 1 <= k < t.len() ==> is_space_char(#[trigger] t[k]));
            lemma_trim_bounds(t, lo - 1, hi - 1);
            assert(s.subrange(lo, hi) =~= t.subrange(lo - 1, hi - 1));
        }
    } else if is_space_char(s.last()) {
        let t = s.drop_last();
        if lo == hi {
            assert(is_space_char(s[0]));
            assert(false);
        } else {
            assert(hi - 1 < s.len() - 1 || !is_space_char(s[hi - 1]));
            assert(hi <= s.len() - 1);
            assert(forall|k: int| 0 <= k < lo ==> is_space_char(#[trigger] t[k]));
            assert(forall|k: int| hi <= k < t.len() ==> is_space_char(#[trigger] t[k]));
            lemma_trim_bounds(t, lo, hi);
            assert(s.subrange(lo, hi) =~= t.subrange(lo, hi));
        }
    } else {
        assert(lo == 0);
        assert(hi == s.len());
        assert(s.subrange(lo, hi) =~= s);
    }
}

/// The input with leading and trailing ASCII whitespace removed.
pub fn trim_chars(v: &Vec<char>) -> (r: Vec<char>)
    ensures
        r@ == trim_spec(v@),
{
    let n = v.len();
    let mut lo: usize = 0;
    while lo < n && space_char(v[lo])
        invariant
            lo <= n,
            n == v@.len(),
            forall|k: int| 0 <= k < lo ==> is_space_char(#[trigger] v@[k]),
        decreases n - lo,
    {
        lo += 1;
    }
    let mut hi: usize = n;
    while hi > lo && space_char(v[hi - 1])
        invariant
            lo <= hi <= n,
            n == v@.len(),
            forall|k: int| 0 <= k < lo ==> is_space_char(#[trigger] v@[k]),
            forall|k: int| hi <= k < n ==> is_space_char(#[trigger] v@[k]),
        decreases hi,
    {
        hi -= 1;
    }
    proof {
        lemma_trim_bounds(v@, lo as int, hi as int);
    }
    sub_chars(v, lo, hi)
}

/// First index at or after `from` holding a non-whitespace character.
pub open spec fn skip_spaces_spec(s: Seq<char>, from: int) -> int
    decreases s.len() - from,
{
    if from < 0 || from >= s.len() {
        s.len() as int
    } else if is_space_char(s[from]) {
        skip_spaces_spec(s, from + 1)
    } else {
        from
    }
}

/// First index at or after `from` holding a non-digit character.
pub open spec fn digits_end_spec(s: Seq<char>, from: int) -> int
    decreases s.len() - from,
{
    if from < 0 || from >= s.len() {
        s.len() as int
    } else if is_digit_char(s[from]) {
        digits_end_spec(s, from + 1)
    } else {
        from
    }
}

/// The number parsed from `s` after `from` the way the protocol clients do:
/// skip ASCII whitespace, take the run of ASCII digits, and accept it only
/// if it is non-empty and fits in `usize`.
pub open spec fn number_after_spec(s: Seq<char>, from: int) -> Option<usize> {
    let b = skip_spaces_spec(s, from);
    let e = digits_end_spec(s, b);
    if b == e {
        None
    } else if digits_val(s.subrange(b, e)) <= usize::MAX {
        Some(digits_val(s.subrange(b, e)) as usize)
    } else {
        None
    }
}

/// Parse the whitespace-then-digits run beginning at `from`.
pub fn parse_number_after(v: &Vec<char>, from: usize) -> (r: Option<usize>)
    requires
        from <= v@.len(),
    ensures
        r == number_after_spec(v@, from as int),
{
    let n = v.len();
    let mut b: usize = from;
    while b < n && space_char(v[b])
        invariant
            from <= b <= n,
            n == v@.len(),
            skip_spaces_spec(v@, from as int) == skip_spaces_spec(v@, b as int),
        decreases n - b,
    {
        assert(skip_spaces_spec(v@, b as int) == skip_spaces_spec(v@, b + 1));
        b += 1;
    }
    assert(skip_spaces_spec(v@, from as int) == b);
    let ghost e_spec = digits_end_spec(v@, b as int);
    let mut e: usize = b;
    let mut acc: usize = 0;
    let mut overflow = false;
    while e < n && digit_char(v[e])
        invariant
            b <= e <= n,
            n == v@.len(),
            digits_end_spec(v@, b as int) == digits_end_spec(v@, e as int),
            forall|k: int| b <= k < e ==> is_digit_char(#[trigger] v@[k]),
            !overflow ==> acc == digits_val(v@.subrange(b as int, e as int)),
            overflow ==> digits_val(v@.subrange(b as int, e as int)) > usize::MAX,
        decreases n - e,
    {
        assert(digits_end_spec(v@, e as int) == digits_end_spec(v@, e + 1));
        let d = (v[e] as u32 - 0x30) as usize;
        proof {
            let pre = v@.subrange(b as int, e as int);
            let cur = v@.subrange(b as int, e + 1);
            assert(cur.drop_last() =~= pre);
            assert(digits_val(cur) == digits_val(pre) * 10 + digit_val(v@[e as int]));
        }
        if !overflow {
            if acc > (usize::MAX - d) / 10 {
                proof {
                    let pre = v@.subrange(b as int, e as int);
                    assert(pre.len() > 0 || acc == 0);
                    assert(digits_val(pre) * 10 + digit_val(v@[e as int]) > usize::MAX);
                }
                overflow = true;
            } else {
                acc = acc * 10 + d;
            }
        } else {
            proof {
                let pre = v@.subrange(b as int, e as int);
                lemma_digits_val_nonneg(pre);
                assert(digits_val(pre) * 10 + digit_val(v@[e as int]) > usize::MAX);
            }
        }
        e += 1;
    }
    assert(digits_end_spec(v@, b as int) == e);
    if e == b {
        None
    } else if overflow {
        None
    } else {
        Some(acc)
    }
}

/// A numeric field the way the protocol clients read one: the first
/// occurrence of `key`, the first colon after it, then the digits after the
/// colon.
pub open spec fn number_field_spec(j: Seq<char>, key: Seq<char>) -> Option<usize> {
    match first_match_from(j, key, 0) {
        None => None,
        Some(kp) => match first_char_from(j, ':', kp + key.len()) {
            None => None,
            Some(cp) => number_after_spec(j, cp + 1),
        },
    }
}

/// Extract the numeric field introduced by `key`.
pub fn extract_number_field(v: &Vec<char>, key: &Vec<char>) -> (r: Option<usize>)
    ensures
        r == number_field_spec(v@, key@),
{
    let n = v.len();
    match find_sub(v, key, 0) {
        None => None,
        Some(kp) => {
            proof {
                lemma_first_match_some(v@, key@, 0, kp as int);
            }
            match find_char(v, ':', kp + key.len()) {
                None => None,
                Some(cp) => {
                    proof {
                        lemma_first_char_some(v@, ':', kp + key@.len(), cp as int);
                    }
                    parse_number_after(v, cp + 1)
                },
            }
        },
    }
}

} // verus!
