//! Character classification and sequence helpers shared by the text
//! processing modules: whitespace tests, blank tests, trimming, and the
//! conversions between `&str`/`String` and `Vec<char>` that the verified
//! algorithms work on.

use vstd::prelude::*;

verus! {

/// The Unicode `White_Space` code points, the set that `char::is_whitespace`
/// accepts.
pub open spec fn is_space_char(c: char) -> bool {
    ||| c == '\u{0009}'
    ||| c == '\u{000A}'
    ||| c == '\u{000B}'
    ||| c == '\u{000C}'
    ||| c == '\u{000D}'
    ||| c == '\u{0020}'
    ||| c == '\u{0085}'
    ||| c == '\u{00A0}'
    ||| c == '\u{1680}'
    ||| ('\u{2000}' <= c && c <= '\u{200A}')
    ||| c == '\u{2028}'
    ||| c == '\u{2029}'
    ||| c == '\u{202F}'
    ||| c == '\u{205F}'
    ||| c == '\u{3000}'
}

/// Whitespace test over the fixed Unicode `White_Space` set.
pub fn is_space(c: char) -> (r: bool)
    ensures
        r == is_space_char(c),
{
    let u = c as u32;
    (0x09 <= u && u <= 0x0D) || u == 0x20 || u == 0x85 || u == 0xA0 || u == 0x1680 || (0x2000 <= u
        && u <= 0x200A) || u == 0x2028 || u == 0x2029 || u == 0x202F || u == 0x205F || u == 0x3000
}

/// A sequence is blank when every character in it is whitespace; the empty
/// sequence is blank.
pub open spec fn is_blank(s: Seq<char>) -> bool {
    forall|i: int| 0 <= i < s.len() ==> is_space_char(#[trigger] s[i])
}

/// Index of the first non-whitespace character, or the length when blank.
pub open spec fn first_non_space(s: Seq<char>) -> int
    decreases s.len(),
{
    if s.len() == 0 {
        0
    } else if !is_space_char(s[0]) {
        0
    } else {
        1 + first_non_space(s.drop_first())
    }
}

/// One past the index of the last non-whitespace character, or 0 when blank.
pub open spec fn last_non_space_end(s: Seq<char>) -> int
    decreases s.len(),
{
    if s.len() == 0 {
        0
    } else if !is_space_char(s.last()) {
        s.len() as int
    } else {
        last_non_space_end(s.drop_last())
    }
}

/// The sequence with leading and trailing whitespace removed, as `str::trim`
/// leaves it.
pub open spec fn trim_spec(s: Seq<char>) -> Seq<char> {
    if is_blank(s) {
        Seq::<char>::empty()
    } else {
        s.subrange(first_non_space(s), last_non_space_end(s))
    }
}

/// The sequence with trailing whitespace removed, as `str::trim_end` leaves
/// it.
pub open spec fn trim_end_spec(s: Seq<char>) -> Seq<char> {
    s.subrange(0, last_non_space_end(s))
}

pub proof fn lemma_first_non_space_bounds(s: Seq<char>)
    ensures
        0 <= first_non_space(s) <= s.len(),
        forall|i: int| 0 <= i < first_non_space(s) ==> is_space_char(#[trigger] s[i]),
        first_non_space(s) < s.len() ==> !is_space_char(s[first_non_space(s)]),
    decreases s.len(),
{
    if s.len() > 0 && is_space_char(s[0]) {
        lemma_first_non_space_bounds(s.drop_first());
        assert forall|i: int| 0 <= i < first_non_space(s) implies is_space_char(
            #[trigger] s[i],
        ) by {
            if i > 0 {
                assert(s.drop_first()[i - 1] == s[i]);
            }
        }
    }
}

pub proof fn lemma_last_non_space_end_bounds(s: Seq<char>)
    ensures
        0 <= last_non_space_end(s) <= s.len(),
        forall|i: int|
            last_non_space_end(s) <= i < s.len() ==> is_space_char(#[trigger] s[i]),
        last_non_space_end(s) > 0 ==> !is_space_char(s[last_non_space_end(s) - 1]),
    decreases s.len(),
{
    if s.len() > 0 && is_space_char(s.last()) {
        lemma_last_non_space_end_bounds(s.drop_last());
        assert forall|i: int| last_non_space_end(s) <= i < s.len() implies is_space_char(
            #[trigger] s[i],
        ) by {
            if i < s.len() - 1 {
                assert(s.drop_last()[i] == s[i]);
            }
        }
    }
}

pub proof fn lemma_blank_ends(s: Seq<char>)
    ensures
        is_blank(s) ==> first_non_space(s) == s.len() && last_non_space_end(s) == 0,
        !is_blank(s) ==> first_non_space(s) < last_non_space_end(s),
    decreases s.len(),
{
    lemma_first_non_space_bounds(s);
    lemma_last_non_space_end_bounds(s);
    if is_blank(s) {
        if s.len() > 0 {
            lemma_blank_ends(s.drop_first());
            lemma_blank_ends(s.drop_last());
        }
    } else {
        let f = first_non_space(s);
        let e = last_non_space_end(s);
        if e <= f {
            if f < s.len() {
                assert(is_space_char(s[f]));
            }
            assert(false);
        }
    }
}

/// After trimming, a non-empty sequence neither starts nor ends with
/// whitespace.
pub proof fn lemma_trim_spec_ends(s: Seq<char>)
    ensures
        trim_spec(s).len() > 0 ==> !is_space_char(trim_spec(s)[0]),
        trim_spec(s).len() > 0 ==> !is_space_char(trim_spec(s).last()),
{
    lemma_first_non_space_bounds(s);
    lemma_last_non_space_end_bounds(s);
    lemma_blank_ends(s);
}

/// Trimming a sequence that neither starts nor ends with whitespace leaves
/// it unchanged.
pub proof fn lemma_trim_spec_identity(s: Seq<char>)
    requires
        s.len() > 0 ==> !is_space_char(s[0]) && !is_space_char(s.last()),
    ensures
        trim_spec(s) == s,
{
    if s.len() == 0 {
        assert(trim_spec(s) =~= s);
    } else {
        assert(!is_blank(s));
        assert(first_non_space(s) == 0);
        assert(last_non_space_end(s) == s.len());
        assert(trim_spec(s) =~= s);
    }
}

/// Trimming a sequence with no leading whitespace only trims its end.
pub proof fn lemma_trim_spec_no_leading(s: Seq<char>)
    requires
        s.len() > 0,
        !is_space_char(s[0]),
    ensures
        trim_spec(s) == trim_end_spec(s),
{
    assert(!is_blank(s));
    assert(first_non_space(s) == 0);
    lemma_last_non_space_end_bounds(s);
    assert(trim_spec(s) =~= trim_end_spec(s));
}

/// The characters of `s`, in order.
pub fn str_chars(s: &str) -> (r: Vec<char>)
    ensures
        r@ == s@,
{
    let n = s.unicode_len();
    let mut r: Vec<char> = Vec::new();
    let mut i: usize = 0;
    while i < n
        invariant
            n == s@.len(),
            i <= n,
            r@ == s@.subrange(0, i as int),
        decreases n - i,
    {
        r.push(s.get_char(i));
        i = i + 1;
        proof {
            assert(r@ =~= s@.subrange(0, i as int));
        }
    }
    proof {
        assert(r@ =~= s@);
    }
    r
}

/// Builds the `String` whose characters are exactly `v`.
///
/// Relies on `String: FromIterator<char>`: collecting an iterator of
/// characters yields the string of those characters in order.
#[verifier::external_body]
pub fn chars_to_string(v: &Vec<char>) -> (r: String)
    ensures
        r@ == v@,
{
    v.iter().collect()
}

/// Whether every character of `v` is whitespace.
pub fn is_blank_chars(v: &Vec<char>) -> (r: bool)
    ensures
        r == is_blank(v@),
{
    let n = v.len();
    let mut i: usize = 0;
    while i < n
        invariant
            n == v@.len(),
            i <= n,
            forall|k: int| 0 <= k < i ==> is_space_char(#[trigger] v@[k]),
        decreases n - i,
    {
        if !is_space(v[i]) {
            return false;
        }
        i = i + 1;
    }
    true
}

/// Whether the string is empty or entirely whitespace.
pub fn str_is_blank(s: &str) -> (r: bool)
    ensures
        r == is_blank(s@),
{
    let v = str_chars(s);
    is_blank_chars(&v)
}

/// `v` with trailing whitespace removed.
pub fn trim_end_chars(v: &Vec<char>) -> (r: Vec<char>)
    ensures
        r@ == trim_end_spec(v@),
{
    let n = v.len();
    let mut end: usize = n;
    while end > 0 && is_space(v[end - 1])
        invariant
            n == v@.len(),
            end <= n,
            forall|k: int| end <= k < n ==> is_space_char(#[trigger] v@[k]),
        decreases end,
    {
        end = end - 1;
    }
    let mut r: Vec<char> = Vec::new();
    let mut i: usize = 0;
    while i < end
        invariant
            n == v@.len(),
            i <= end <= n,
            r@ == v@.subrange(0, i as int),
        decreases end - i,
    {
        r.push(v[i]);
        i = i + 1;
        proof {
            assert(r@ =~= v@.subrange(0, i as int));
        }
    }
    proof {
        lemma_last_non_space_end_bounds(v@);
        assert(last_non_space_end(v@) == end) by {
            let e = last_non_space_end(v@);
            if e < end {
                assert(is_space_char(v@[end - 1]));
            }
            if e > end {
                assert(is_space_char(v@[e - 1]));
            }
        }
    }
    r
}

/// `v` with leading and trailing whitespace removed.
pub fn trim_chars(v: &Vec<char>) -> (r: Vec<char>)
    ensures
        r@ == trim_spec(v@),
{
    let n = v.len();
    let mut start: usize = 0;
    while start < n && is_space(v[start])
        invariant
            n == v@.len(),
            start <= n,
            forall|k: int| 0 <= k < start ==> is_space_char(#[trigger] v@[k]),
        decreases n - start,
    {
        start = start + 1;
    }
    if start == n {
        proof {
            assert(is_blank(v@));
        }
        return Vec::new();
    }
    let mut end: usize = n;
    while end > start && is_space(v[end - 1])
        invariant
            n == v@.len(),
            start < n,
            !is_space_char(v@[start as int]),
            start <= end <= n,
            forall|k: int| end <= k < n ==> is_space_char(#[trigger] v@[k]),
        decreases end,
    {
        end = end - 1;
    }
    let mut r: Vec<char> = Vec::new();
    let mut i: usize = start;
    while i < end
        invariant
            n == v@.len(),
            start <= i <= end <= n,
            r@ == v@.subrange(start as int, i as int),
        decreases end - i,
    {
        r.push(v[i]);
        i = i + 1;
        proof {
            assert(r@ =~= v@.subrange(start as int, i as int));
        }
    }
    proof {
        lemma_first_non_space_bounds(v@);
        lemma_last_non_space_end_bounds(v@);
        assert(!is_blank(v@));
        assert(first_non_space(v@) == start) by {
            let f = first_non_space(v@);
            if f < start {
                assert(is_space_char(v@[f]));
            }
            if f > start {
                assert(is_space_char(v@[start as int]));
            }
        }
        assert(last_non_space_end(v@) == end) by {
            let e = last_non_space_end(v@);
            if e < end {
                assert(is_space_char(v@[end - 1]));
            }
            if e > end {
                assert(is_space_char(v@[e - 1]));
            }
        }
        assert(r@ =~= trim_spec(v@));
    }
    r
}

} // verus!
