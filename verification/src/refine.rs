//! Refinement policy: which transcripts are sent to the language model,
//! how the instruction payload is built, and how the model's output is
//! post-processed so that no terminal punctuation or sentence-final soft
//! particle is fabricated that the raw transcript did not carry.

use vstd::prelude::*;
use vstd::string::StringExecFns;

use crate::chars::chars_to_string;
use crate::chars::first_non_space;
use crate::chars::is_blank;
use crate::chars::is_space;
use crate::chars::is_space_char;
use crate::chars::last_non_space_end;
use crate::chars::lemma_last_non_space_end_bounds;
use crate::chars::str_chars;
use crate::chars::trim_chars;
use crate::chars::trim_end_chars;
use crate::chars::trim_end_spec;
use crate::chars::trim_spec;

verus! {

/// Minimum count of ASCII letters before a transcript can count as mostly
/// English.
pub const ENGLISH_SKIP_MIN_LETTERS: usize = 16;

/// The terminal punctuation set: a sentence ends with one of these.
pub open spec fn is_terminal_punct_char(c: char) -> bool {
    c == '。' || c == '！' || c == '？' || c == '.' || c == '!' || c == '?' || c == '…'
}

/// Terminal punctuation test.
pub fn is_terminal_punct(c: char) -> (r: bool)
    ensures
        r == is_terminal_punct_char(c),
{
    c == '。' || c == '！' || c == '？' || c == '.' || c == '!' || c == '?' || c == '…'
}

/// The two sentence-final soft particles that refinement must never add.
pub open spec fn is_particle_char(c: char) -> bool {
    c == '呀' || c == '呢'
}

/// Soft-particle test.
pub fn is_particle(c: char) -> (r: bool)
    ensures
        r == is_particle_char(c),
{
    c == '呀' || c == '呢'
}

/// Whether the text, ignoring trailing whitespace, ends with terminal
/// punctuation.
pub open spec fn has_terminal_punct(s: Seq<char>) -> bool {
    let t = trim_end_spec(s);
    t.len() > 0 && is_terminal_punct_char(t.last())
}

/// Whether the text, ignoring trailing whitespace, ends with terminal
/// punctuation.
pub fn has_terminal_punctuation(text: &str) -> (r: bool)
    ensures
        r == has_terminal_punct(text@),
{
    let v = str_chars(text);
    let t = trim_end_chars(&v);
    if t.len() == 0 {
        false
    } else {
        is_terminal_punct(t[t.len() - 1])
    }
}

/// The first `i` characters of `s` with whitespace runs collapsed: each
/// whitespace character becomes a single space, and a whitespace character
/// directly after another contributes nothing.
pub open spec fn collapsed(s: Seq<char>, i: int) -> Seq<char>
    decreases i,
{
    if i <= 0 {
        Seq::<char>::empty()
    } else {
        let prev = collapsed(s, i - 1);
        if is_space_char(s[i - 1]) {
            if i - 1 > 0 && is_space_char(s[i - 2]) {
                prev
            } else {
                prev.push(' ')
            }
        } else {
            prev.push(s[i - 1])
        }
    }
}

/// The transcript as handed to the refinement policy: trimmed, with every
/// whitespace run collapsed to one plain space.
pub open spec fn normalize_spec(s: Seq<char>) -> Seq<char> {
    let t = trim_spec(s);
    trim_spec(collapsed(t, t.len() as int))
}

/// Collapses consecutive whitespace (spaces, tabs, newlines) to single
/// spaces and trims both ends.
pub fn normalize_transcript(text: &str) -> (r: String)
    ensures
        r@ == normalize_spec(text@),
{
    let v = str_chars(text);
    let t = trim_chars(&v);
    let n = t.len();
    let mut out: Vec<char> = Vec::new();
    let mut prev_space = false;
    let mut i: usize = 0;
    while i < n
        invariant
            n == t@.len(),
            i <= n,
            out@ == collapsed(t@, i as int),
            prev_space == (i > 0 && is_space_char(t@[i as int - 1])),
        decreases n - i,
    {
        let ch = t[i];
        if is_space(ch) {
            if !prev_space {
                out.push(' ');
            }
            prev_space = true;
        } else {
            out.push(ch);
            prev_space = false;
        }
        i = i + 1;
    }
    let trimmed = trim_chars(&out);
    chars_to_string(&trimmed)
}

/// Count of ASCII letters in the first `i` characters.
pub open spec fn count_ascii_letters(s: Seq<char>, i: int) -> int
    decreases i,
{
    if i <= 0 {
        0
    } else {
        count_ascii_letters(s, i - 1) + if ('a' <= s[i - 1] && s[i - 1] <= 'z') || ('A' <= s[i - 1]
            && s[i - 1] <= 'Z') {
            1int
        } else {
            0int
        }
    }
}

/// Count of CJK unified ideographs in the first `i` characters.
pub open spec fn count_cjk_ideographs(s: Seq<char>, i: int) -> int
    decreases i,
{
    if i <= 0 {
        0
    } else {
        count_cjk_ideographs(s, i - 1) + if '\u{4E00}' <= s[i - 1] && s[i - 1] <= '\u{9FFF}' {
            1int
        } else {
            0int
        }
    }
}

/// Refinement is skipped for blank text and for text judged mostly English:
/// at least 16 ASCII letters and an English-to-(English+CJK) ratio of at
/// least nine tenths. When no letter of either kind occurs the text is sent
/// to refinement.
pub open spec fn should_skip_refine(s: Seq<char>) -> bool {
    if is_blank(s) {
        true
    } else {
        let e = count_ascii_letters(s, s.len() as int);
        let c = count_cjk_ideographs(s, s.len() as int);
        if e + c == 0 {
            false
        } else {
            e >= ENGLISH_SKIP_MIN_LETTERS && 10 * e >= 9 * (e + c)
        }
    }
}

/// Decides whether the language-model rewrite is skipped for this raw text.
pub fn should_skip_llm_refine(raw_text: &str) -> (r: bool)
    ensures
        r == should_skip_refine(raw_text@),
{
    let v = str_chars(raw_text);
    let n = v.len();
    let mut english_letters: usize = 0;
    let mut cjk_chars: usize = 0;
    let mut all_space = true;
    let mut i: usize = 0;
    while i < n
        invariant
            n == v@.len(),
            i <= n,
            english_letters == count_ascii_letters(v@, i as int),
            cjk_chars == count_cjk_ideographs(v@, i as int),
            english_letters + cjk_chars <= i,
            all_space == is_blank(v@.take(i as int)),
        decreases n - i,
    {
        let ch = v[i];
        proof {
            assert(ch == v@[i as int]);
            assert(count_ascii_letters(v@, i as int + 1) == count_ascii_letters(v@, i as int) + if (
            'a' <= v@[i as int] && v@[i as int] <= 'z') || ('A' <= v@[i as int] && v@[i as int]
                <= 'Z') {
                1int
            } else {
                0int
            });
            assert(count_cjk_ideographs(v@, i as int + 1) == count_cjk_ideographs(v@, i as int)
                + if '\u{4E00}' <= v@[i as int] && v@[i as int] <= '\u{9FFF}' {
                1int
            } else {
                0int
            });
        }
        if ('a' <= ch && ch <= 'z') || ('A' <= ch && ch <= 'Z') {
            english_letters = english_letters + 1;
        } else if '\u{4E00}' <= ch && ch <= '\u{9FFF}' {
            cjk_chars = cjk_chars + 1;
        }
        if !is_space(ch) {
            all_space = false;
        }
        proof {
            if !is_blank(v@.take(i as int)) || !is_space_char(v@[i as int]) {
                assert(!is_blank(v@.take(i as int + 1))) by {
                    if is_blank(v@.take(i as int)) {
                        assert(v@.take(i as int + 1)[i as int] == v@[i as int]);
                    } else {
                        let k = choose|k: int|
                            0 <= k < i as int && !is_space_char(#[trigger] v@.take(i as int)[k]);
                        assert(v@.take(i as int + 1)[k] == v@.take(i as int)[k]);
                    }
                }
            } else {
                assert forall|k: int| 0 <= k < i as int + 1 implies is_space_char(
                    #[trigger] v@.take(i as int + 1)[k],
                ) by {
                    if k < i as int {
                        assert(v@.take(i as int)[k] == v@[k]);
                    }
                }
            }
        }
        i = i + 1;
    }
    proof {
        assert(v@.take(n as int) =~= v@);
    }
    if all_space {
        return true;
    }
    if english_letters + cjk_chars == 0 {
        return false;
    }
    english_letters >= ENGLISH_SKIP_MIN_LETTERS && (10 * (english_letters as u128) >= 9 * (
    english_letters as u128 + cjk_chars as u128))
}

/// Length of the core of `s`: the longest prefix whose last character is
/// neither whitespace nor terminal punctuation. The rest of `s` is its
/// trailing punctuation (with interspersed whitespace).
pub open spec fn core_len(s: Seq<char>) -> int
    decreases s.len(),
{
    if s.len() == 0 {
        0
    } else if is_space_char(s.last()) || is_terminal_punct_char(s.last()) {
        core_len(s.drop_last())
    } else {
        s.len() as int
    }
}

/// The core of `s`: `s` without its trailing punctuation and whitespace.
pub open spec fn core_of(s: Seq<char>) -> Seq<char> {
    s.take(core_len(s))
}

/// The trailing punctuation of `s`: what follows the core.
pub open spec fn punct_tail_of(s: Seq<char>) -> Seq<char> {
    s.skip(core_len(s))
}

/// The core ends at a character that is neither whitespace nor terminal
/// punctuation, and only such characters follow it.
pub proof fn lemma_core_len_bounds(s: Seq<char>)
    ensures
        0 <= core_len(s) <= s.len(),
        forall|i: int|
            core_len(s) <= i < s.len() ==> is_space_char(#[trigger] s[i]) || is_terminal_punct_char(
                s[i],
            ),
        core_len(s) > 0 ==> !is_space_char(s[core_len(s) - 1]) && !is_terminal_punct_char(
            s[core_len(s) - 1],
        ),
    decreases s.len(),
{
    if s.len() > 0 && (is_space_char(s.last()) || is_terminal_punct_char(s.last())) {
        lemma_core_len_bounds(s.drop_last());
        assert forall|i: int| core_len(s) <= i < s.len() implies is_space_char(#[trigger] s[i])
            || is_terminal_punct_char(s[i]) by {
            if i < s.len() - 1 {
                assert(s.drop_last()[i] == s[i]);
            }
        }
    }
}

/// Strips terminal periods that the model added: while the text ends with
/// an ideographic or ASCII full stop, drop it and any whitespace bared by
/// dropping it.
pub open spec fn strip_added_periods(s: Seq<char>) -> Seq<char>
    decreases s.len(),
    via strip_added_periods_decreases
{
    if s.len() > 0 && (s.last() == '。' || s.last() == '.') {
        strip_added_periods(trim_end_spec(s.drop_last()))
    } else {
        s
    }
}

#[via_fn]
proof fn strip_added_periods_decreases(s: Seq<char>) {
    if s.len() > 0 {
        lemma_last_non_space_end_bounds(s.drop_last());
    }
}

/// Whether the core of the trimmed raw text ends with a soft particle.
pub open spec fn raw_core_has_particle(raw: Seq<char>) -> bool {
    let rc = core_of(trim_spec(raw));
    rc.len() > 0 && is_particle_char(rc.last())
}

/// The model answer trimmed, with the terminal periods the model added
/// stripped when the raw text carried no terminal punctuation.
pub open spec fn refined_after_period_fix(raw: Seq<char>, refined: Seq<char>) -> Seq<char> {
    if !has_terminal_punct(raw) {
        strip_added_periods(trim_spec(refined))
    } else {
        trim_spec(refined)
    }
}

/// The anti-overcorrection pass over a model answer `refined` for source
/// text `raw`: trim the answer; if `raw` carries no terminal punctuation,
/// strip the terminal periods the model added; if the core of `raw` does
/// not end in a soft particle but the answer's core does, drop exactly
/// that one particle and re-attach the trailing punctuation. The output is
/// trimmed of surrounding whitespace.
pub open spec fn post_process(raw: Seq<char>, refined: Seq<char>) -> Seq<char> {
    let out1 = refined_after_period_fix(raw, refined);
    if raw_core_has_particle(raw) {
        out1
    } else {
        let t = trim_spec(out1);
        let core = core_of(t);
        let punct = punct_tail_of(t);
        if core.len() > 0 && is_particle_char(core.last()) {
            trim_spec(trim_end_spec(core.drop_last()) + punct)
        } else {
            out1
        }
    }
}

/// Keeps the user's ending style: removes terminal periods and the one soft
/// particle that the model added beyond what the raw text carried. The
/// result carries no surrounding whitespace.
pub fn trim_added_terminal_period(raw_text: &str, refined_text: &str) -> (r: String)
    ensures
        r@ == post_process(raw_text@, refined_text@),
{
    let refined = str_chars(refined_text);
    let mut out = trim_chars(&refined);
    if !has_terminal_punctuation(raw_text) {
        loop
            invariant
                strip_added_periods(out@) == strip_added_periods(trim_spec(refined@)),
            ensures
                out@ == strip_added_periods(trim_spec(refined@)),
            decreases out@.len(),
        {
            let n = out.len();
            if n == 0 {
                break ;
            }
            let last = out[n - 1];
            if last == '。' || last == '.' {
                proof {
                    assert(out@.subrange(0, n as int - 1) =~= out@.drop_last());
                }
                out.truncate(n - 1);
                proof {
                    lemma_last_non_space_end_bounds(out@);
                }
                out = trim_end_chars(&out);
            } else {
                break ;
            }
        }
    }
    let raw = str_chars(raw_text);
    let rt = trim_chars(&raw);
    let rk = core_scan(&rt);
    proof {
        lemma_core_len_bounds(rt@);
    }
    let raw_has_particle = rk > 0 && is_particle(rt[rk - 1]);
    proof {
        assert(core_of(rt@).len() == core_len(rt@));
        if rk > 0 {
            assert(core_of(rt@).last() == rt@[rk as int - 1]);
        }
    }
    if !raw_has_particle {
        let t = trim_chars(&out);
        let k = core_scan(&t);
        proof {
            lemma_core_len_bounds(t@);
        }
        if k > 0 && is_particle(t[k - 1]) {
            proof {
                assert(core_of(t@).len() == k as int);
                assert(core_of(t@).last() == t@[k as int - 1]);
            }
            let mut core: Vec<char> = Vec::new();
            let mut i: usize = 0;
            while i < k - 1
                invariant
                    k as int - 1 <= t@.len(),
                    i <= k as int - 1,
                    core@ == t@.subrange(0, i as int),
                decreases k - 1 - i,
            {
                core.push(t[i]);
                i = i + 1;
                proof {
                    assert(core@ =~= t@.subrange(0, i as int));
                }
            }
            proof {
                assert(core@ =~= core_of(t@).drop_last());
            }
            let mut result = trim_end_chars(&core);
            let mut j: usize = k;
            let tn = t.len();
            proof {
                assert(result@ =~= trim_end_spec(core_of(t@).drop_last()) + t@.subrange(
                    k as int,
                    k as int,
                ));
            }
            while j < tn
                invariant
                    k as int <= j as int <= tn as int,
                    tn == t@.len(),
                    result@ == trim_end_spec(core_of(t@).drop_last()) + t@.subrange(
                        k as int,
                        j as int,
                    ),
                decreases tn - j,
            {
                result.push(t[j]);
                j = j + 1;
                proof {
                    assert(result@ =~= trim_end_spec(core_of(t@).drop_last()) + t@.subrange(
                        k as int,
                        j as int,
                    ));
                }
            }
            proof {
                assert(t@.subrange(k as int, tn as int) =~= punct_tail_of(t@));
                assert(result@ =~= trim_end_spec(core_of(t@).drop_last()) + punct_tail_of(t@));
            }
            let trimmed = trim_chars(&result);
            return chars_to_string(&trimmed);
        }
    }
    chars_to_string(&out)
}

/// The core length of `t`: scans trailing whitespace and terminal
/// punctuation from the right.
fn core_scan(t: &Vec<char>) -> (k: usize)
    ensures
        k as int == core_len(t@),
{
    let mut k = t.len();
    while k > 0 && (is_space(t[k - 1]) || is_terminal_punct(t[k - 1]))
        invariant
            k <= t@.len(),
            forall|i: int|
                k <= i < t@.len() ==> is_space_char(#[trigger] t@[i]) || is_terminal_punct_char(
                    t@[i],
                ),
        decreases k,
    {
        k = k - 1;
    }
    proof {
        lemma_core_len_bounds(t@);
        let c = core_len(t@);
        if c < k as int {
            assert(is_space_char(t@[k as int - 1]) || is_terminal_punct_char(t@[k as int - 1]));
        }
        if c > k as int {
            assert(is_space_char(t@[c - 1]) || is_terminal_punct_char(t@[c - 1]));
        }
    }
    k
}

/// Period stripping never leaves a terminal period.
pub proof fn lemma_strip_no_period(s: Seq<char>)
    ensures
        ({
            let r = strip_added_periods(s);
            !(r.len() > 0 && (r.last() == '。' || r.last() == '.'))
        }),
    decreases s.len(),
{
    if s.len() > 0 && (s.last() == '。' || s.last() == '.') {
        lemma_last_non_space_end_bounds(s.drop_last());
        lemma_strip_no_period(trim_end_spec(s.drop_last()));
    }
}

/// Period stripping only removes characters from the end: the result is a
/// prefix of the input.
pub proof fn lemma_strip_prefix(s: Seq<char>)
    ensures
        strip_added_periods(s).len() <= s.len(),
        strip_added_periods(s) == s.take(strip_added_periods(s).len() as int),
    decreases s.len(),
{
    if s.len() > 0 && (s.last() == '。' || s.last() == '.') {
        let t = trim_end_spec(s.drop_last());
        lemma_last_non_space_end_bounds(s.drop_last());
        lemma_strip_prefix(t);
        assert(t =~= s.take(t.len() as int));
        assert(strip_added_periods(s) =~= s.take(strip_added_periods(s).len() as int));
    } else {
        assert(s =~= s.take(s.len() as int));
    }
}

/// Period stripping never leaves trailing whitespace when the input had
/// none.
pub proof fn lemma_strip_no_trailing_space(s: Seq<char>)
    requires
        s.len() > 0 ==> !is_space_char(s.last()),
    ensures
        ({
            let r = strip_added_periods(s);
            r.len() > 0 ==> !is_space_char(r.last())
        }),
    decreases s.len(),
{
    if s.len() > 0 && (s.last() == '。' || s.last() == '.') {
        let t = trim_end_spec(s.drop_last());
        lemma_last_non_space_end_bounds(s.drop_last());
        lemma_strip_no_trailing_space(t);
    }
}

/// Appending only whitespace and terminal punctuation does not change the
/// core.
pub proof fn lemma_core_len_append_tail(a: Seq<char>, b: Seq<char>)
    requires
        forall|i: int|
            0 <= i < b.len() ==> is_space_char(#[trigger] b[i]) || is_terminal_punct_char(b[i]),
    ensures
        core_len(a + b) == core_len(a),
    decreases b.len(),
{
    if b.len() == 0 {
        assert(a + b =~= a);
    } else {
        assert((a + b).drop_last() =~= a + b.drop_last());
        assert((a + b).last() == b.last());
        lemma_core_len_append_tail(a, b.drop_last());
    }
}

/// Trimming trailing whitespace does not change the core.
pub proof fn lemma_core_len_trim_end(s: Seq<char>)
    ensures
        core_len(trim_end_spec(s)) == core_len(s),
    decreases s.len(),
{
    if s.len() > 0 && is_space_char(s.last()) {
        lemma_last_non_space_end_bounds(s.drop_last());
        assert(trim_end_spec(s) =~= trim_end_spec(s.drop_last()));
        lemma_core_len_trim_end(s.drop_last());
    } else {
        lemma_last_non_space_end_bounds(s);
        assert(trim_end_spec(s) =~= s);
    }
}

/// After the anti-overcorrection pass, the intermediate text has no
/// surrounding whitespace: trimming it again changes nothing.
pub proof fn lemma_period_fix_trimmed(raw: Seq<char>, refined: Seq<char>)
    ensures
        trim_spec(refined_after_period_fix(raw, refined)) == refined_after_period_fix(
            raw,
            refined,
        ),
        ({
            let out1 = refined_after_period_fix(raw, refined);
            out1.len() > 0 ==> !is_space_char(out1[0]) && !is_space_char(out1.last())
        }),
{
    let out0 = trim_spec(refined);
    let out1 = refined_after_period_fix(raw, refined);
    crate::chars::lemma_trim_spec_ends(refined);
    if !has_terminal_punct(raw) {
        lemma_strip_prefix(out0);
        lemma_strip_no_trailing_space(out0);
        if out1.len() > 0 {
            assert(out1[0] == out0[0]);
        }
    }
    crate::chars::lemma_trim_spec_identity(out1);
}

/// A removed sentence-final particle can bare a period that the model
/// answer carried just before it; on such answers the no-added-period rule
/// does not hold and they are left out of its statement.
pub open spec fn period_bared_by_particle_removal(raw: Seq<char>, refined: Seq<char>) -> bool {
    let t = trim_spec(refined_after_period_fix(raw, refined));
    let core = core_of(t);
    let stripped = trim_end_spec(core.drop_last());
    &&& !raw_core_has_particle(raw)
    &&& core.len() > 0 && is_particle_char(core.last())
    &&& punct_tail_of(t).len() == 0
    &&& stripped.len() > 0 && (stripped.last() == '。' || stripped.last() == '.')
}

/// A removed sentence-final particle can bare a second particle directly
/// before it in the model answer; on such answers the no-added-particle
/// rule does not hold and they are left out of its statement.
pub open spec fn particle_bared_by_particle_removal(raw: Seq<char>, refined: Seq<char>) -> bool {
    let t = trim_spec(refined_after_period_fix(raw, refined));
    let core = core_of(t);
    let inner = core_of(core.drop_last());
    &&& !raw_core_has_particle(raw)
    &&& core.len() > 0 && is_particle_char(core.last())
    &&& inner.len() > 0 && is_particle_char(inner.last())
}

/// When the raw text does not end in terminal punctuation, the
/// post-processed output never ends in an ideographic or ASCII full stop,
/// whatever the model answered — except when removing a particle bares a
/// period the answer already carried before it.
pub proof fn lemma_no_added_terminal_period(raw: Seq<char>, refined: Seq<char>)
    requires
        !has_terminal_punct(raw),
        !period_bared_by_particle_removal(raw, refined),
    ensures
        ({
            let out = post_process(raw, refined);
            !(out.len() > 0 && (out.last() == '。' || out.last() == '.'))
        }),
{
    let out0 = trim_spec(refined);
    let out1 = refined_after_period_fix(raw, refined);
    let out = post_process(raw, refined);
    lemma_strip_no_period(out0);
    lemma_period_fix_trimmed(raw, refined);
    if !raw_core_has_particle(raw) {
        let t = trim_spec(out1);
        let core = core_of(t);
        let punct = punct_tail_of(t);
        if core.len() > 0 && is_particle_char(core.last()) {
            lemma_core_len_bounds(t);
            let c2 = trim_end_spec(core.drop_last());
            let x = c2 + punct;
            assert(out == trim_spec(x));
            lemma_last_non_space_end_bounds(core.drop_last());
            if punct.len() > 0 {
                // The last character survives the final trim: it is the
                // answer's own last character, which is no whitespace and
                // no period.
                assert(x.last() == punct.last());
                assert(punct.last() == t.last());
                assert(!is_blank(x)) by {
                    assert(!is_space_char(x[x.len() - 1]));
                }
                crate::chars::lemma_first_non_space_bounds(x);
                crate::chars::lemma_blank_ends(x);
                assert(last_non_space_end(x) == x.len());
                assert(out.len() > 0);
                assert(out.last() == x.last());
            } else {
                // The punctuation tail is empty, so the output is the
                // trimmed bared core; the excluded case is exactly where
                // it ends in a period.
                assert(x =~= c2);
                if c2.len() > 0 {
                    assert(c2[0] == core.drop_last()[0]);
                    assert(c2[0] == t[0]);
                    crate::chars::lemma_trim_spec_identity(c2);
                    assert(out == c2);
                } else {
                    assert(is_blank(x));
                    assert(out =~= Seq::<char>::empty());
                }
            }
        }
    }
}

/// When the core of the raw text does not end in a soft particle, the core
/// of the post-processed output never ends in one, whatever the model
/// answered — except when removing a particle bares a second one the
/// answer already carried before it.
pub proof fn lemma_no_added_particle(raw: Seq<char>, refined: Seq<char>)
    requires
        !raw_core_has_particle(raw),
        !particle_bared_by_particle_removal(raw, refined),
    ensures
        ({
            let oc = core_of(post_process(raw, refined));
            !(oc.len() > 0 && is_particle_char(oc.last()))
        }),
{
    let out1 = refined_after_period_fix(raw, refined);
    let out = post_process(raw, refined);
    lemma_period_fix_trimmed(raw, refined);
    let t = trim_spec(out1);
    let core = core_of(t);
    let punct = punct_tail_of(t);
    lemma_core_len_bounds(t);
    if core.len() > 0 && is_particle_char(core.last()) {
        let c2 = trim_end_spec(core.drop_last());
        let x = c2 + punct;
        assert(out == trim_spec(x));
        assert forall|i: int| 0 <= i < punct.len() implies is_space_char(#[trigger] punct[i])
            || is_terminal_punct_char(punct[i]) by {
            assert(punct[i] == t[core_len(t) + i]);
        }
        lemma_core_len_append_tail(c2, punct);
        lemma_core_len_trim_end(core.drop_last());
        lemma_core_len_bounds(core.drop_last());
        lemma_core_len_bounds(c2);
        lemma_last_non_space_end_bounds(core.drop_last());
        if c2.len() > 0 {
            // The final trim only removes trailing whitespace here, which
            // the core computation strips anyway.
            assert(c2[0] == core.drop_last()[0]);
            assert(c2[0] == t[0]);
            assert(x[0] == c2[0]);
            crate::chars::lemma_trim_spec_no_leading(x);
            assert(out == trim_end_spec(x));
            lemma_core_len_trim_end(x);
            lemma_core_len_bounds(x);
            lemma_last_non_space_end_bounds(x);
            assert(core_of(out) =~= core_of(core.drop_last()));
        } else {
            // The bared core is empty: the output consists of trailing
            // punctuation and whitespace alone, so its core is empty.
            assert(x =~= punct);
            crate::chars::lemma_first_non_space_bounds(x);
            crate::chars::lemma_last_non_space_end_bounds(x);
            lemma_core_len_bounds(out);
            if core_len(out) > 0 {
                if is_blank(x) {
                    assert(out =~= Seq::<char>::empty());
                } else {
                    assert(out[core_len(out) - 1] == x[first_non_space(x) + core_len(out) - 1]);
                }
                assert(false);
            }
            assert(core_of(out) =~= Seq::<char>::empty());
        }
    } else {
        assert(out == t);
        assert(core_of(out) == core);
    }
}

/// The letter counts lie between zero and the number of characters
/// counted.
pub proof fn lemma_count_bounds(s: Seq<char>, i: int)
    requires
        0 <= i <= s.len(),
    ensures
        0 <= count_ascii_letters(s, i) <= i,
        0 <= count_cjk_ideographs(s, i) <= i,
    decreases i,
{
    if i > 0 {
        lemma_count_bounds(s, i - 1);
    }
}

/// Blank text contains no letters of either kind.
pub proof fn lemma_blank_counts(s: Seq<char>, i: int)
    requires
        is_blank(s),
        0 <= i <= s.len(),
    ensures
        count_ascii_letters(s, i) == 0,
        count_cjk_ideographs(s, i) == 0,
    decreases i,
{
    if i > 0 {
        lemma_blank_counts(s, i - 1);
        assert(is_space_char(s[i - 1]));
    }
}

/// English-ratio gate: text with at least 16 ASCII letters and at least
/// nine English letters for every CJK ideograph is always skipped by the
/// refinement policy.
pub proof fn lemma_english_ratio_skip(s: Seq<char>)
    requires
        count_ascii_letters(s, s.len() as int) >= ENGLISH_SKIP_MIN_LETTERS,
        10 * count_ascii_letters(s, s.len() as int) >= 9 * (count_ascii_letters(s, s.len() as int)
            + count_cjk_ideographs(s, s.len() as int)),
    ensures
        should_skip_refine(s),
{
    lemma_count_bounds(s, s.len() as int);
    if is_blank(s) {
        lemma_blank_counts(s, s.len() as int);
    }
}

/// The fixed instruction payload placed before the raw transcript. Its
/// rules are binding: preserve meaning and facts, strip disfluencies, never
/// invent sentence-final particles or terminal punctuation, keep proper
/// nouns, numbers, code and URLs verbatim, keep English word forms, make
/// only minimal certain corrections, keep the speaker's register, allow
/// light punctuation smoothing, emit empty output for empty input, and
/// answer with the final text only.
pub open spec fn refine_prompt_template() -> Seq<char> {
    "你是输入法润色器。将 ASR 文本整理为可直接发送的自然表达。\n规则：\n1) 保留原意与事实，不新增信息；\n2) 删除重复、卡顿与明显口吃；语气词与语气助词仅在原文已有且承载语义时保留，不得自行新增句末“呀/呢”；\n3) 专名、数字、代码、URL 原样保留；\n4) 若原文含英文/中英混合，尽量保留英文词形、大小写与常见短语，不强制翻译为中文；\n5) 若存在明显 ASR 误识（同音误字、语境不通），可基于上下文做最小必要纠正；若不确定，保留原词，不要臆造；\n6) 优先贴近用户原始说话方式：保留原句式、措辞与语气强弱，不要强行“职业化”“官方化”或套用固定人设口吻；\n7) 若原文本无技术词，不要硬加；若原文有技术词，按原习惯保留，不做生硬替换；\n8) 可做轻微顺句与标点修复，但总体风格应平实克制，像“用户本人说的话”；\n9) 若原文句末无“呀/呢”，输出句末也不要新增“呀/呢”；\n10) 若内容确为空，输出空字符串；\n11) 只输出最终文本，不解释、不提问。\n\n"@
}

/// Wraps the raw transcript in the fixed instruction payload.
pub fn build_refine_prompt(raw_text: &str) -> (r: String)
    ensures
        r@ == refine_prompt_template() + raw_text@,
{
    let mut s =
        "你是输入法润色器。将 ASR 文本整理为可直接发送的自然表达。\n规则：\n1) 保留原意与事实，不新增信息；\n2) 删除重复、卡顿与明显口吃；语气词与语气助词仅在原文已有且承载语义时保留，不得自行新增句末“呀/呢”；\n3) 专名、数字、代码、URL 原样保留；\n4) 若原文含英文/中英混合，尽量保留英文词形、大小写与常见短语，不强制翻译为中文；\n5) 若存在明显 ASR 误识（同音误字、语境不通），可基于上下文做最小必要纠正；若不确定，保留原词，不要臆造；\n6) 优先贴近用户原始说话方式：保留原句式、措辞与语气强弱，不要强行“职业化”“官方化”或套用固定人设口吻；\n7) 若原文本无技术词，不要硬加；若原文有技术词，按原习惯保留，不做生硬替换；\n8) 可做轻微顺句与标点修复，但总体风格应平实克制，像“用户本人说的话”；\n9) 若原文句末无“呀/呢”，输出句末也不要新增“呀/呢”；\n10) 若内容确为空，输出空字符串；\n11) 只输出最终文本，不解释、不提问。\n\n".to_owned();
    s.append(raw_text);
    s
}

} // verus!
