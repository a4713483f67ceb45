//! Pure helpers behind the presentation layer: the preview-text wrapping
//! of the status overlay, line estimation, middle and tail truncation,
//! tray labels, and the command an orb click sends to the orchestrator.
//! Rendering itself is an outside concern; everything here is text in,
//! text out.

use vstd::prelude::*;
use vstd::string::StringExecFns;

use crate::chars::chars_to_string;
use crate::chars::is_blank;
use crate::chars::is_blank_chars;
use crate::chars::str_chars;

verus! {

/// Most lines a preview may span.
pub const OVERLAY_PREVIEW_MAX_LINES: usize = 6;

/// Width of one preview line, in hundredths of a CJK cell.
pub const PREVIEW_LINE_CAP_UNITS: u64 = 2400;

/// A command sent from the floating orb to the orchestrator.
#[derive(Clone, Copy, Debug)]
pub enum OrbCommand {
    /// Show or hide the history window.
    ToggleHistory,
}

/// Characters rendered at full cell width: the CJK blocks the preview can
/// meet — unified ideographs and extension A, CJK symbols, hiragana,
/// katakana, and hangul syllables.
pub open spec fn is_cjk(c: char) -> bool {
    ||| ('\u{4E00}' <= c && c <= '\u{9FFF}')
    ||| ('\u{3400}' <= c && c <= '\u{4DBF}')
    ||| ('\u{3000}' <= c && c <= '\u{303F}')
    ||| ('\u{3040}' <= c && c <= '\u{309F}')
    ||| ('\u{30A0}' <= c && c <= '\u{30FF}')
    ||| ('\u{AC00}' <= c && c <= '\u{D7AF}')
}

/// Whether `ch` is rendered at full cell width.
pub fn is_cjk_char(ch: char) -> (r: bool)
    ensures
        r == is_cjk(ch),
{
    ('\u{4E00}' <= ch && ch <= '\u{9FFF}') || ('\u{3400}' <= ch && ch <= '\u{4DBF}') || (
    '\u{3000}' <= ch && ch <= '\u{303F}') || ('\u{3040}' <= ch && ch <= '\u{309F}') || (
    '\u{30A0}' <= ch && ch <= '\u{30FF}') || ('\u{AC00}' <= ch && ch <= '\u{D7AF}')
}

/// ASCII letters and digits.
pub open spec fn is_ascii_alnum(c: char) -> bool {
    ('a' <= c && c <= 'z') || ('A' <= c && c <= 'Z') || ('0' <= c && c <= '9')
}

/// ASCII punctuation.
pub open spec fn is_ascii_punct(c: char) -> bool {
    ('!' <= c && c <= '/') || (':' <= c && c <= '@') || ('[' <= c && c <= '`') || ('{' <= c && c
        <= '~')
}

/// Display width of one preview character, in hundredths of a CJK cell:
/// narrow for ASCII letters and digits, narrower for ASCII punctuation,
/// a full cell for CJK, and a middling width for everything else.
pub open spec fn preview_unit(c: char) -> int {
    if is_ascii_alnum(c) {
        58
    } else if is_ascii_punct(c) {
        42
    } else if is_cjk(c) {
        100
    } else {
        72
    }
}

/// Display width of one preview character, in hundredths of a CJK cell.
pub fn preview_char_unit(ch: char) -> (r: u64)
    ensures
        r as int == preview_unit(ch),
        r <= 100,
{
    if ('a' <= ch && ch <= 'z') || ('A' <= ch && ch <= 'Z') || ('0' <= ch && ch <= '9') {
        58
    } else if ('!' <= ch && ch <= '/') || (':' <= ch && ch <= '@') || ('[' <= ch && ch <= '`') || (
    '{' <= ch && ch <= '~') {
        42
    } else if is_cjk_char(ch) {
        100
    } else {
        72
    }
}

/// `s` with every carriage return removed.
pub open spec fn remove_cr(s: Seq<char>) -> Seq<char>
    decreases s.len(),
{
    if s.len() == 0 {
        Seq::<char>::empty()
    } else {
        let p = remove_cr(s.drop_last());
        if s.last() == '\r' {
            p
        } else {
            p.push(s.last())
        }
    }
}

/// The running state of the greedy line breaker: finished lines, the line
/// being filled and its width, whether output was cut short, and whether
/// the walk has stopped.
pub struct WrapState {
    pub lines: Seq<Seq<char>>,
    pub current: Seq<char>,
    pub width: int,
    pub truncated: bool,
    pub stopped: bool,
}

/// The state before any character is seen.
pub open spec fn wrap_init() -> WrapState {
    WrapState {
        lines: Seq::<Seq<char>>::empty(),
        current: Seq::<char>::empty(),
        width: 0,
        truncated: false,
        stopped: false,
    }
}

/// One character of the greedy line breaker: tabs count as spaces, a
/// newline closes the line, a character that would overflow the cap opens
/// a new line holding it, and reaching the line limit stops the walk and
/// marks the output truncated.
pub open spec fn wrap_step(st: WrapState, ch0: char) -> WrapState {
    if st.stopped {
        st
    } else {
        let ch = if ch0 == '\t' {
            ' '
        } else {
            ch0
        };
        if ch == '\n' {
            let lines = st.lines.push(st.current);
            if lines.len() >= OVERLAY_PREVIEW_MAX_LINES {
                WrapState {
                    lines,
                    current: Seq::<char>::empty(),
                    width: 0,
                    truncated: true,
                    stopped: true,
                }
            } else {
                WrapState {
                    lines,
                    current: Seq::<char>::empty(),
                    width: 0,
                    truncated: st.truncated,
                    stopped: false,
                }
            }
        } else {
            let unit = preview_unit(ch);
            if st.width + unit > PREVIEW_LINE_CAP_UNITS {
                let lines = st.lines.push(st.current);
                if lines.len() >= OVERLAY_PREVIEW_MAX_LINES {
                    WrapState {
                        lines,
                        current: Seq::<char>::empty(),
                        width: 0,
                        truncated: true,
                        stopped: true,
                    }
                } else {
                    WrapState {
                        lines,
                        current: seq![ch],
                        width: unit,
                        truncated: st.truncated,
                        stopped: false,
                    }
                }
            } else {
                WrapState {
                    lines: st.lines,
                    current: st.current.push(ch),
                    width: st.width + unit,
                    truncated: st.truncated,
                    stopped: false,
                }
            }
        }
    }
}

/// The breaker's state after the first `i` characters.
pub open spec fn wrap_run(s: Seq<char>, i: int) -> WrapState
    decreases i,
{
    if i <= 0 {
        wrap_init()
    } else {
        wrap_step(wrap_run(s, i - 1), s[i - 1])
    }
}

/// Once the walk stops, later characters change nothing.
proof fn lemma_wrap_run_absorbs(s: Seq<char>, i: int, j: int)
    requires
        0 <= i <= j <= s.len(),
        wrap_run(s, i).stopped,
    ensures
        wrap_run(s, j) == wrap_run(s, i),
    decreases j - i,
{
    if j > i {
        lemma_wrap_run_absorbs(s, i, j - 1);
    }
}

/// The line with an ellipsis appended, unless it already ends in one.
pub open spec fn with_ellipsis(l: Seq<char>) -> Seq<char> {
    if l.len() > 0 && l.last() == '…' {
        l
    } else {
        l.push('…')
    }
}

/// The lines joined with newlines.
pub open spec fn join_lines(lines: Seq<Seq<char>>) -> Seq<char>
    decreases lines.len(),
{
    if lines.len() == 0 {
        Seq::<char>::empty()
    } else if lines.len() == 1 {
        lines[0]
    } else {
        join_lines(lines.drop_last()) + seq!['\n'] + lines.last()
    }
}

/// The preview text for `raw`: carriage returns removed, blank input
/// mapped to nothing, lines broken greedily at the width cap, at most six
/// lines kept, and an ellipsis marking output that was cut short.
pub open spec fn wrap_preview_spec(raw: Seq<char>) -> Seq<char> {
    let text = remove_cr(raw);
    if is_blank(text) {
        Seq::<char>::empty()
    } else {
        let st = wrap_run(text, text.len() as int);
        let lines0 = if st.current.len() > 0 && st.lines.len() < OVERLAY_PREVIEW_MAX_LINES {
            st.lines.push(st.current)
        } else {
            st.lines
        };
        let truncated = st.truncated || (st.current.len() > 0 && st.lines.len()
            >= OVERLAY_PREVIEW_MAX_LINES);
        let lines1 = if lines0.len() == 0 {
            seq![Seq::<char>::empty()]
        } else {
            lines0
        };
        let lines2 = if truncated {
            lines1.update(lines1.len() - 1, with_ellipsis(lines1.last()))
        } else {
            lines1
        };
        join_lines(lines2)
    }
}

/// Breaks `raw` into at most six preview lines at the fixed width cap,
/// marking cut-short output with an ellipsis.
pub fn wrap_preview_text(raw: &str) -> (r: String)
    ensures
        r@ == wrap_preview_spec(raw@),
{
    let v = str_chars(raw);
    let vn = v.len();
    let mut text: Vec<char> = Vec::new();
    let mut ci: usize = 0;
    while ci < vn
        invariant
            vn == v@.len(),
            ci <= vn,
            text@ == remove_cr(v@.take(ci as int)),
        decreases vn - ci,
    {
        let ch = v[ci];
        proof {
            assert(v@.take(ci as int + 1).drop_last() =~= v@.take(ci as int));
            assert(v@.take(ci as int + 1).last() == v@[ci as int]);
        }
        if ch != '\r' {
            text.push(ch);
        }
        ci = ci + 1;
    }
    proof {
        assert(v@.take(vn as int) =~= v@);
    }
    if is_blank_chars(&text) {
        return String::new();
    }
    let n = text.len();
    let mut lines: Vec<Vec<char>> = Vec::new();
    let mut current: Vec<char> = Vec::new();
    let mut width: u64 = 0;
    let mut truncated = false;
    let mut i: usize = 0;
    proof {
        assert(lines.deep_view() =~~= Seq::<Seq<char>>::empty());
        assert(current@ =~= Seq::<char>::empty());
    }
    while i < n
        invariant_except_break
            wrap_run(text@, i as int) == (WrapState {
                lines: lines.deep_view(),
                current: current@,
                width: width as int,
                truncated,
                stopped: false,
            }),
            width <= PREVIEW_LINE_CAP_UNITS,
        invariant
            n == text@.len(),
            i <= n,
        ensures
            ({
                let st = wrap_run(text@, n as int);
                lines.deep_view() == st.lines && current@ == st.current && truncated
                    == st.truncated
            }),
        decreases n - i,
    {
        let ch0 = text[i];
        let ch = if ch0 == '\t' {
            ' '
        } else {
            ch0
        };
        let ghost pre_lines = lines.deep_view();
        let ghost pre_current = current@;
        if ch == '\n' {
            lines.push(current);
            current = Vec::new();
            width = 0;
            proof {
                assert(lines.deep_view() =~~= pre_lines.push(pre_current));
            }
            if lines.len() >= OVERLAY_PREVIEW_MAX_LINES {
                truncated = true;
                i = i + 1;
                proof {
                    assert(wrap_run(text@, i as int).stopped);
                    lemma_wrap_run_absorbs(text@, i as int, n as int);
                }
                break ;
            }
        } else {
            let unit = preview_char_unit(ch);
            if width + unit > PREVIEW_LINE_CAP_UNITS {
                lines.push(current);
                current = Vec::new();
                width = 0;
                proof {
                    assert(lines.deep_view() =~~= pre_lines.push(pre_current));
                }
                if lines.len() >= OVERLAY_PREVIEW_MAX_LINES {
                    truncated = true;
                    i = i + 1;
                    proof {
                        assert(wrap_run(text@, i as int).stopped);
                        lemma_wrap_run_absorbs(text@, i as int, n as int);
                    }
                    break ;
                }
                current.push(ch);
                width = unit;
                proof {
                    assert(current@ =~= seq![ch]);
                }
            } else {
                current.push(ch);
                width = width + unit;
            }
        }
        i = i + 1;
    }
    if current.len() > 0 && lines.len() < OVERLAY_PREVIEW_MAX_LINES {
        let ghost pre_lines = lines.deep_view();
        let ghost pre_current = current@;
        lines.push(current);
        proof {
            assert(lines.deep_view() =~~= pre_lines.push(pre_current));
        }
    } else if current.len() > 0 {
        truncated = true;
    }
    if lines.len() == 0 {
        let ghost pre_lines = lines.deep_view();
        lines.push(Vec::new());
        proof {
            assert(lines.deep_view() =~~= pre_lines.push(Seq::<char>::empty()));
        }
    }
    if truncated {
        let ghost pre_lines = lines.deep_view();
        if let Some(mut last) = lines.pop() {
            let needs = last.len() == 0 || last[last.len() - 1] != '…';
            if needs {
                last.push('…');
            }
            let ghost new_last = last@;
            lines.push(last);
            proof {
                assert(new_last =~= with_ellipsis(pre_lines.last()));
                assert(lines.deep_view() =~~= pre_lines.update(
                    pre_lines.len() - 1,
                    with_ellipsis(pre_lines.last()),
                ));
            }
        }
    }
    let ln = lines.len();
    let mut out: Vec<char> = Vec::new();
    let mut li: usize = 0;
    while li < ln
        invariant
            ln == lines.deep_view().len(),
            li <= ln,
            out@ == join_lines(lines.deep_view().take(li as int)),
        decreases ln - li,
    {
        if li > 0 {
            out.push('\n');
        }
        let line = &lines[li];
        let m = line.len();
        let mut k: usize = 0;
        let ghost pre_out = out@;
        while k < m
            invariant
                m == line@.len(),
                k <= m,
                out@ == pre_out + line@.take(k as int),
            decreases m - k,
        {
            out.push(line[k]);
            k = k + 1;
            proof {
                assert(out@ =~= pre_out + line@.take(k as int));
            }
        }
        li = li + 1;
        proof {
            let lv = lines.deep_view();
            assert(line@ == lv[li as int - 1]);
            assert(line@.take(m as int) =~= line@);
            if li as int == 1 {
                assert(lv.take(1)[0] == lv[0]);
                assert(out@ =~= join_lines(lv.take(1)));
            } else {
                assert(lv.take(li as int).drop_last() =~= lv.take(li as int - 1));
                assert(lv.take(li as int).last() == lv[li as int - 1]);
                assert(out@ =~= join_lines(lv.take(li as int - 1)) + seq!['\n'] + lv[li as int
                    - 1]);
            }
        }
    }
    proof {
        assert(lines.deep_view().take(ln as int) =~= lines.deep_view());
    }
    chars_to_string(&out)
}

/// Count of `c` among the first `i` characters of `s`.
pub open spec fn count_char(s: Seq<char>, c: char, i: int) -> int
    decreases i,
{
    if i <= 0 {
        0
    } else {
        count_char(s, c, i - 1) + if s[i - 1] == c {
            1int
        } else {
            0int
        }
    }
}

/// How many lines the text spans, as `str::lines` counts them: one plus
/// the newlines before the last character, and none for empty text.
pub open spec fn line_count(s: Seq<char>) -> int {
    if s.len() == 0 {
        0
    } else {
        1 + count_char(s, '\n', s.len() - 1)
    }
}

/// The preview height estimate: the line count clamped between one and
/// the line limit.
pub open spec fn estimate_lines_spec(s: Seq<char>) -> int {
    let c = line_count(s);
    if c < 1 {
        1
    } else if c > OVERLAY_PREVIEW_MAX_LINES {
        OVERLAY_PREVIEW_MAX_LINES as int
    } else {
        c
    }
}

/// Estimates how many preview lines the text spans, clamped between one
/// and the line limit.
pub fn estimate_preview_lines(text: &str) -> (r: usize)
    ensures
        r as int == estimate_lines_spec(text@),
        1 <= r <= OVERLAY_PREVIEW_MAX_LINES,
{
    let v = str_chars(text);
    let n = v.len();
    if n == 0 {
        return 1;
    }
    let mut cnt: usize = 0;
    let mut i: usize = 0;
    while i < n - 1
        invariant
            n == v@.len(),
            n >= 1,
            i <= n - 1,
            cnt == count_char(v@, '\n', i as int),
            cnt <= i,
        decreases n - 1 - i,
    {
        if v[i] == '\n' {
            cnt = cnt + 1;
        }
        i = i + 1;
    }
    let total = cnt + 1;
    if total > OVERLAY_PREVIEW_MAX_LINES {
        OVERLAY_PREVIEW_MAX_LINES
    } else {
        total
    }
}

/// `s` cut to at most `max_chars` characters, the overflow folded into a
/// final ellipsis.
pub open spec fn truncate_spec(s: Seq<char>, max_chars: int) -> Seq<char> {
    if s.len() <= max_chars {
        s
    } else {
        s.take(max_chars - 1).push('…')
    }
}

/// Cuts `text` to at most `max_chars` characters, ending in an ellipsis
/// when anything was cut. Text that is short enough is returned unchanged,
/// whatever the bound; only a cut needs room for the ellipsis.
pub fn truncate(text: &str, max_chars: usize) -> (r: String)
    requires
        text@.len() <= max_chars || max_chars >= 1,
    ensures
        r@ == truncate_spec(text@, max_chars as int),
{
    let v = str_chars(text);
    if v.len() <= max_chars {
        return text.to_owned();
    }
    let mut out: Vec<char> = Vec::new();
    let mut i: usize = 0;
    while i < max_chars - 1
        invariant
            max_chars - 1 < v@.len(),
            i <= max_chars - 1,
            out@ == v@.take(i as int),
        decreases max_chars - 1 - i,
    {
        out.push(v[i]);
        i = i + 1;
        proof {
            assert(out@ =~= v@.take(i as int));
        }
    }
    out.push('…');
    chars_to_string(&out)
}

/// `s` cut to at most `max_chars` characters by removing the middle and
/// marking the cut with an ellipsis; below eight characters the tail is
/// cut instead.
pub open spec fn truncate_middle_spec(s: Seq<char>, max_chars: int) -> Seq<char> {
    if s.len() <= max_chars {
        s
    } else if max_chars < 8 {
        s.take(max_chars)
    } else {
        let head = (max_chars - 1) / 2;
        let tail = max_chars - 1 - head;
        s.take(head).push('…') + s.skip(s.len() - tail)
    }
}

/// Cuts `text` to at most `max_chars` characters by removing the middle,
/// marking the cut with an ellipsis.
pub fn truncate_middle(text: &str, max_chars: usize) -> (r: String)
    ensures
        r@ == truncate_middle_spec(text@, max_chars as int),
{
    let v = str_chars(text);
    let n = v.len();
    if n <= max_chars {
        return text.to_owned();
    }
    let mut out: Vec<char> = Vec::new();
    if max_chars < 8 {
        let mut i: usize = 0;
        while i < max_chars
            invariant
                max_chars < v@.len(),
                i <= max_chars,
                out@ == v@.take(i as int),
            decreases max_chars - i,
        {
            out.push(v[i]);
            i = i + 1;
            proof {
                assert(out@ =~= v@.take(i as int));
            }
        }
        return chars_to_string(&out);
    }
    let head = (max_chars - 1) / 2;
    let tail = max_chars - 1 - head;
    let mut i: usize = 0;
    while i < head
        invariant
            head < v@.len(),
            i <= head,
            out@ == v@.take(i as int),
        decreases head - i,
    {
        out.push(v[i]);
        i = i + 1;
        proof {
            assert(out@ =~= v@.take(i as int));
        }
    }
    out.push('…');
    let mut j: usize = n - tail;
    proof {
        assert(out@ =~= v@.take(head as int).push('…') + v@.skip(n as int - tail as int).take(0));
    }
    while j < n
        invariant
            head < n == v@.len(),
            tail <= n,
            n - tail <= j <= n,
            out@ == v@.take(head as int).push('…') + v@.skip(n as int - tail as int).take(
                j as int - (n as int - tail as int),
            ),
        decreases n - j,
    {
        out.push(v[j]);
        j = j + 1;
        proof {
            assert(v@.skip(n as int - tail as int)[j as int - 1 - (n as int - tail as int)] == v@[j
                as int - 1]);
            assert(out@ =~= v@.take(head as int).push('…') + v@.skip(n as int - tail as int).take(
                j as int - (n as int - tail as int),
            ));
        }
    }
    proof {
        assert(v@.skip(n as int - tail as int).take(tail as int) =~= v@.skip(
            n as int - tail as int,
        ));
    }
    chars_to_string(&out)
}

/// The states the tray button can show.
#[derive(Clone, Copy, Debug, PartialEq, Eq, Structural)]
pub enum TrayState {
    /// Ready for a capture gesture.
    Idle,
    /// Capture in progress.
    Recording,
    /// Transcription or refinement in progress.
    Processing,
    /// Text delivered to the input focus.
    Injected,
    /// The session failed.
    Error,
}

impl TrayState {
    /// The tray button title for this state.
    pub fn title(self) -> (r: &'static str)
        ensures
            self is Idle ==> r@ == "就绪"@,
            self is Recording ==> r@ == "录音中"@,
            self is Processing ==> r@ == "识别中"@,
            self is Injected ==> r@ == "已发送"@,
            self is Error ==> r@ == "失败"@,
    {
        match self {
            TrayState::Idle => "就绪",
            TrayState::Recording => "录音中",
            TrayState::Processing => "识别中",
            TrayState::Injected => "已发送",
            TrayState::Error => "失败",
        }
    }

    /// The system symbol drawn beside the title.
    pub fn symbol_name(self) -> (r: &'static str)
        ensures
            self is Idle ==> r@ == "circle"@,
            self is Recording ==> r@ == "mic.fill"@,
            self is Processing ==> r@ == "hourglass"@,
            self is Injected ==> r@ == "checkmark.circle.fill"@,
            self is Error ==> r@ == "exclamationmark.triangle.fill"@,
    {
        match self {
            TrayState::Idle => "circle",
            TrayState::Recording => "mic.fill",
            TrayState::Processing => "hourglass",
            TrayState::Injected => "checkmark.circle.fill",
            TrayState::Error => "exclamationmark.triangle.fill",
        }
    }
}

/// One line of the tray monitor menu: the label, a separator, and the
/// value cut to 64 characters around the middle.
pub fn monitor_item_title(label: &str, value: &str) -> (r: String)
    ensures
        r@ == label@ + ": "@ + truncate_middle_spec(value@, 64),
{
    let mut s = label.to_owned();
    s.append(": ");
    let t = truncate_middle(value, 64);
    s.append(t.as_str());
    s
}

} // verus!
