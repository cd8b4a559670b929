//! The modal text-editing engine: a cursor-based buffer with word motions,
//! line operations and an operator-plus-motion grammar. The buffer is a
//! sequence of codepoints and the cursor an index into it, so the cursor is
//! on a codepoint boundary in `[0, len]` by construction; the contracts keep
//! it there.

use vstd::prelude::*;

use crate::app::{same_data, App, AppAction, AppState, Effect, InputMode};
use crate::text::{check_ctrl, check_ws, char_display_width, is_ctrl, is_ws, splice, width_of};

verus! {

/// An armed operator awaiting its motion.
#[derive(Debug, Clone, Copy, PartialEq, Eq, Structural)]
pub enum VimOperator {
    Delete,
}

/// A cursor motion.
#[derive(Debug, Clone, Copy, PartialEq, Eq, Structural)]
pub enum VimMotion {
    WordForward,
    WordBackward,
    Line,
    CharRight,
    CharLeft,
    StartOfLine,
    EndOfLine,
}

/// Normal-mode bookkeeping: the armed operator and when it was armed,
/// in milliseconds of the caller's clock.
#[derive(Debug, Clone)]
pub struct VimState {
    pub operator: Option<VimOperator>,
    pub pending_keys: String,
    pub last_action_time: u64,
}

impl Default for VimState {
    /// No operator armed.
    fn default() -> (r: Self)
        ensures
            r.operator is None,
            r.pending_keys@.len() == 0,
            r.last_action_time == 0,
    {
        VimState { operator: None, pending_keys: String::new(), last_action_time: 0 }
    }
}

/// The first position at or after `p` that is not on whitespace (or the end
/// of the buffer).
pub open spec fn skip_ws_fwd(s: Seq<char>, p: int) -> int
    recommends
        0 <= p <= s.len(),
    decreases s.len() - p,
{
    if p >= s.len() {
        s.len() as int
    } else if is_ws(s[p]) {
        skip_ws_fwd(s, p + 1)
    } else {
        p
    }
}

/// The first position at or after `p` that is on whitespace (or the end of
/// the buffer).
pub open spec fn skip_word_fwd(s: Seq<char>, p: int) -> int
    recommends
        0 <= p <= s.len(),
    decreases s.len() - p,
{
    if p >= s.len() {
        s.len() as int
    } else if !is_ws(s[p]) {
        skip_word_fwd(s, p + 1)
    } else {
        p
    }
}

/// The last position at or before `p` not preceded by whitespace.
pub open spec fn skip_ws_back(s: Seq<char>, p: int) -> int
    recommends
        0 <= p <= s.len(),
    decreases p,
{
    if p <= 0 {
        0
    } else if is_ws(s[p - 1]) {
        skip_ws_back(s, p - 1)
    } else {
        p
    }
}

/// The last position at or before `p` not preceded by a word character.
pub open spec fn skip_word_back(s: Seq<char>, p: int) -> int
    recommends
        0 <= p <= s.len(),
    decreases p,
{
    if p <= 0 {
        0
    } else if !is_ws(s[p - 1]) {
        skip_word_back(s, p - 1)
    } else {
        p
    }
}

/// Where the word-forward motion lands: from whitespace, the start of the
/// next word; from inside a word, past that word and the following
/// whitespace.
pub open spec fn word_forward(s: Seq<char>, p: int) -> int
    recommends
        0 <= p <= s.len(),
{
    if p >= s.len() {
        s.len() as int
    } else if is_ws(s[p]) {
        skip_ws_fwd(s, p)
    } else {
        skip_ws_fwd(s, skip_word_fwd(s, p))
    }
}

/// Where the word-backward motion lands: the start of the current word from
/// its middle, else the start of the previous word.
pub open spec fn word_backward(s: Seq<char>, p: int) -> int
    recommends
        0 <= p <= s.len(),
{
    if p <= 0 {
        0
    } else if is_ws(s[p - 1]) {
        skip_word_back(s, skip_ws_back(s, p))
    } else if p == 1 || is_ws(s[p - 2]) {
        skip_word_back(s, skip_ws_back(s, p - 1))
    } else {
        skip_word_back(s, p)
    }
}

/// The start of the line holding position `p`: just after the previous
/// newline, or the start of the buffer.
pub open spec fn line_start(s: Seq<char>, p: int) -> int
    recommends
        0 <= p <= s.len(),
    decreases p,
{
    if p <= 0 {
        0
    } else if s[p - 1] == '\n' {
        p
    } else {
        line_start(s, p - 1)
    }
}

/// The end of the line holding position `p`: the next newline at or after
/// `p`, or the end of the buffer.
pub open spec fn line_end(s: Seq<char>, p: int) -> int
    recommends
        0 <= p <= s.len(),
    decreases s.len() - p,
{
    if p >= s.len() {
        s.len() as int
    } else if s[p] == '\n' {
        p
    } else {
        line_end(s, p + 1)
    }
}

/// The display width of a run of characters, as the sum of the widths of
/// its characters.
pub open spec fn width_sum(line: Seq<char>) -> nat
    decreases line.len(),
{
    if line.len() == 0 {
        0
    } else {
        width_sum(line.drop_last()) + width_of(line.last())
    }
}

/// How many leading characters of `line` fit within `col` display columns.
pub open spec fn col_fit(line: Seq<char>, col: nat) -> nat
    decreases line.len(),
{
    if line.len() == 0 {
        0
    } else if width_of(line.first()) > col {
        0
    } else {
        1 + col_fit(line.drop_first(), (col - width_of(line.first())) as nat)
    }
}

/// A clamped cursor: on a character of the buffer whenever the buffer is
/// non-empty.
pub open spec fn spec_clamp(s: Seq<char>, p: int) -> int {
    if s.len() == 0 {
        0
    } else if p >= s.len() {
        s.len() - 1
    } else {
        p
    }
}

/// `skip_ws_fwd` stays within `[p, len]`.
pub proof fn lemma_skip_ws_fwd_bounds(s: Seq<char>, p: int)
    requires
        0 <= p <= s.len(),
    ensures
        p <= skip_ws_fwd(s, p) <= s.len(),
    decreases s.len() - p,
{
    if p < s.len() && is_ws(s[p]) {
        lemma_skip_ws_fwd_bounds(s, p + 1);
    }
}

/// `skip_word_fwd` stays within `[p, len]`.
pub proof fn lemma_skip_word_fwd_bounds(s: Seq<char>, p: int)
    requires
        0 <= p <= s.len(),
    ensures
        p <= skip_word_fwd(s, p) <= s.len(),
    decreases s.len() - p,
{
    if p < s.len() && !is_ws(s[p]) {
        lemma_skip_word_fwd_bounds(s, p + 1);
    }
}

/// `skip_ws_back` stays within `[0, p]`.
pub proof fn lemma_skip_ws_back_bounds(s: Seq<char>, p: int)
    requires
        0 <= p <= s.len(),
    ensures
        0 <= skip_ws_back(s, p) <= p,
    decreases p,
{
    if p > 0 && is_ws(s[p - 1]) {
        lemma_skip_ws_back_bounds(s, p - 1);
    }
}

/// `skip_word_back` stays within `[0, p]`.
pub proof fn lemma_skip_word_back_bounds(s: Seq<char>, p: int)
    requires
        0 <= p <= s.len(),
    ensures
        0 <= skip_word_back(s, p) <= p,
    decreases p,
{
    if p > 0 && !is_ws(s[p - 1]) {
        lemma_skip_word_back_bounds(s, p - 1);
    }
}

/// The word-forward motion never moves left and stays in the buffer.
pub proof fn lemma_word_forward_bounds(s: Seq<char>, p: int)
    requires
        0 <= p <= s.len(),
    ensures
        p <= word_forward(s, p) <= s.len(),
{
    if p < s.len() {
        if is_ws(s[p]) {
            lemma_skip_ws_fwd_bounds(s, p);
        } else {
            lemma_skip_word_fwd_bounds(s, p);
            lemma_skip_ws_fwd_bounds(s, skip_word_fwd(s, p));
        }
    }
}

/// The word-backward motion never moves right and stays in the buffer.
pub proof fn lemma_word_backward_bounds(s: Seq<char>, p: int)
    requires
        0 <= p <= s.len(),
    ensures
        0 <= word_backward(s, p) <= p,
{
    if p > 0 {
        if is_ws(s[p - 1]) {
            lemma_skip_ws_back_bounds(s, p);
            lemma_skip_word_back_bounds(s, skip_ws_back(s, p));
        } else if p == 1 || is_ws(s[p - 2]) {
            lemma_skip_ws_back_bounds(s, p - 1);
            lemma_skip_word_back_bounds(s, skip_ws_back(s, p - 1));
        } else {
            lemma_skip_word_back_bounds(s, p);
        }
    }
}

/// `line_start` lands at or before `p`, just after a newline or at 0.
pub proof fn lemma_line_start_bounds(s: Seq<char>, p: int)
    requires
        0 <= p <= s.len(),
    ensures
        0 <= line_start(s, p) <= p,
    decreases p,
{
    if p > 0 && s[p - 1] != '\n' {
        lemma_line_start_bounds(s, p - 1);
    }
}

/// `line_end` lands at or after `p`, on a newline or at the end.
pub proof fn lemma_line_end_bounds(s: Seq<char>, p: int)
    requires
        0 <= p <= s.len(),
    ensures
        p <= line_end(s, p) <= s.len(),
    decreases s.len() - p,
{
    if p < s.len() && s[p] != '\n' {
        lemma_line_end_bounds(s, p + 1);
    }
}

/// First non-whitespace position at or after `from`.
pub fn seek_ws_fwd(v: &Vec<char>, from: usize) -> (r: usize)
    requires
        from <= v@.len(),
    ensures
        r == skip_ws_fwd(v@, from as int),
        from <= r <= v@.len(),
{
    let n: usize = v.len();
    let mut pos: usize = from;
    while pos < n && check_ws(v[pos])
        invariant
            from <= pos <= n == v@.len(),
            skip_ws_fwd(v@, from as int) == skip_ws_fwd(v@, pos as int),
        decreases n - pos,
    {
        pos = pos + 1;
    }
    pos
}

/// First whitespace position at or after `from`.
pub fn seek_word_fwd(v: &Vec<char>, from: usize) -> (r: usize)
    requires
        from <= v@.len(),
    ensures
        r == skip_word_fwd(v@, from as int),
        from <= r <= v@.len(),
{
    let n: usize = v.len();
    let mut pos: usize = from;
    while pos < n && !check_ws(v[pos])
        invariant
            from <= pos <= n == v@.len(),
            skip_word_fwd(v@, from as int) == skip_word_fwd(v@, pos as int),
        decreases n - pos,
    {
        pos = pos + 1;
    }
    pos
}

/// Step back over whitespace from `from`.
pub fn seek_ws_back(v: &Vec<char>, from: usize) -> (r: usize)
    requires
        from <= v@.len(),
    ensures
        r == skip_ws_back(v@, from as int),
        r <= from,
{
    let mut pos: usize = from;
    while pos > 0 && check_ws(v[pos - 1])
        invariant
            pos <= from <= v@.len(),
            skip_ws_back(v@, from as int) == skip_ws_back(v@, pos as int),
        decreases pos,
    {
        pos = pos - 1;
    }
    pos
}

/// Step back over word characters from `from`.
pub fn seek_word_back(v: &Vec<char>, from: usize) -> (r: usize)
    requires
        from <= v@.len(),
    ensures
        r == skip_word_back(v@, from as int),
        r <= from,
{
    let mut pos: usize = from;
    while pos > 0 && !check_ws(v[pos - 1])
        invariant
            pos <= from <= v@.len(),
            skip_word_back(v@, from as int) == skip_word_back(v@, pos as int),
        decreases pos,
    {
        pos = pos - 1;
    }
    pos
}

/// The start of the line holding `from`.
pub fn find_line_start(v: &Vec<char>, from: usize) -> (r: usize)
    requires
        from <= v@.len(),
    ensures
        r == line_start(v@, from as int),
        r <= from,
{
    let mut pos: usize = from;
    while pos > 0 && v[pos - 1] != '\n'
        invariant
            pos <= from <= v@.len(),
            line_start(v@, from as int) == line_start(v@, pos as int),
        decreases pos,
    {
        pos = pos - 1;
    }
    pos
}

/// The end of the line holding `from`.
pub fn find_line_end(v: &Vec<char>, from: usize) -> (r: usize)
    requires
        from <= v@.len(),
    ensures
        r == line_end(v@, from as int),
        from <= r <= v@.len(),
{
    let n: usize = v.len();
    let mut pos: usize = from;
    while pos < n && v[pos] != '\n'
        invariant
            from <= pos <= n == v@.len(),
            line_end(v@, from as int) == line_end(v@, pos as int),
        decreases n - pos,
    {
        pos = pos + 1;
    }
    pos
}

/// Where the word-forward motion lands.
pub fn word_fwd(v: &Vec<char>, pos: usize) -> (r: usize)
    requires
        pos <= v@.len(),
    ensures
        r == word_forward(v@, pos as int),
        pos <= r <= v@.len(),
{
    let n: usize = v.len();
    if pos >= n {
        return pos;
    }
    if check_ws(v[pos]) {
        seek_ws_fwd(v, pos)
    } else {
        let word_end = seek_word_fwd(v, pos);
        seek_ws_fwd(v, word_end)
    }
}

/// Where the word-backward motion lands.
pub fn word_back(v: &Vec<char>, pos: usize) -> (r: usize)
    requires
        pos <= v@.len(),
    ensures
        r == word_backward(v@, pos as int),
        r <= pos,
{
    if pos == 0 {
        return 0;
    }
    if check_ws(v[pos - 1]) {
        let q = seek_ws_back(v, pos);
        seek_word_back(v, q)
    } else if pos == 1 || check_ws(v[pos - 2]) {
        let q = seek_ws_back(v, pos - 1);
        seek_word_back(v, q)
    } else {
        seek_word_back(v, pos)
    }
}

/// Where a motion started at `pos` ends.
pub fn motion_end(v: &Vec<char>, pos: usize, motion: VimMotion) -> (r: usize)
    requires
        pos <= v@.len(),
    ensures
        r <= v@.len(),
        motion is WordForward ==> r == word_forward(v@, pos as int),
        motion is WordBackward ==> r == word_backward(v@, pos as int),
        motion is Line ==> r == v@.len(),
        motion is CharRight ==> r == if pos < v@.len() {
            pos + 1
        } else {
            pos as int
        },
        motion is CharLeft ==> r == if pos > 0 {
            pos - 1
        } else {
            0
        },
        motion is StartOfLine ==> r == 0,
        motion is EndOfLine ==> r == v@.len(),
{
    match motion {
        VimMotion::WordForward => word_fwd(v, pos),
        VimMotion::WordBackward => word_back(v, pos),
        VimMotion::Line => v.len(),
        VimMotion::CharRight => if pos < v.len() {
            pos + 1
        } else {
            pos
        },
        VimMotion::CharLeft => if pos > 0 {
            pos - 1
        } else {
            0
        },
        VimMotion::StartOfLine => 0,
        VimMotion::EndOfLine => v.len(),
    }
}

/// Every character skipped by `skip_ws_fwd` is whitespace, and it stops at
/// the end or on a non-whitespace character.
proof fn lemma_skip_ws_fwd_range(s: Seq<char>, p: int)
    requires
        0 <= p <= s.len(),
    ensures
        p <= skip_ws_fwd(s, p) <= s.len(),
        forall|i: int| p <= i < skip_ws_fwd(s, p) ==> is_ws(#[trigger] s[i]),
        skip_ws_fwd(s, p) < s.len() ==> !is_ws(s[skip_ws_fwd(s, p)]),
    decreases s.len() - p,
{
    if p < s.len() && is_ws(s[p]) {
        lemma_skip_ws_fwd_range(s, p + 1);
    }
}

/// Every character skipped by `skip_word_fwd` is a word character, and it
/// stops at the end or on whitespace.
proof fn lemma_skip_word_fwd_range(s: Seq<char>, p: int)
    requires
        0 <= p <= s.len(),
    ensures
        p <= skip_word_fwd(s, p) <= s.len(),
        forall|i: int| p <= i < skip_word_fwd(s, p) ==> !is_ws(#[trigger] s[i]),
        skip_word_fwd(s, p) < s.len() ==> is_ws(s[skip_word_fwd(s, p)]),
    decreases s.len() - p,
{
    if p < s.len() && !is_ws(s[p]) {
        lemma_skip_word_fwd_range(s, p + 1);
    }
}

/// Stepping back over whitespace ignores whitespace already known to sit
/// just before the start: the walk continues from `q`.
proof fn lemma_skip_ws_back_through(s: Seq<char>, q: int, p: int)
    requires
        0 <= q <= p <= s.len(),
        forall|i: int| q <= i < p ==> is_ws(#[trigger] s[i]),
    ensures
        skip_ws_back(s, p) == skip_ws_back(s, q),
    decreases p - q,
{
    if q < p {
        lemma_skip_ws_back_through(s, q, p - 1);
    }
}

/// Stepping back over a word ignores word characters already known to sit
/// just before the start: the walk continues from `q`.
proof fn lemma_skip_word_back_through(s: Seq<char>, q: int, p: int)
    requires
        0 <= q <= p <= s.len(),
        forall|i: int| q <= i < p ==> !is_ws(#[trigger] s[i]),
    ensures
        skip_word_back(s, p) == skip_word_back(s, q),
    decreases p - q,
{
    if q < p {
        lemma_skip_word_back_through(s, q, p - 1);
    }
}

/// Word-forward then word-backward never lands right of where it started:
/// the motion pair returns the cursor to a position at or before the
/// original one.
pub proof fn lemma_word_round_trip(s: Seq<char>, p: int)
    requires
        0 <= p <= s.len(),
    ensures
        word_backward(s, word_forward(s, p)) <= p,
{
    if p >= s.len() {
        lemma_word_backward_bounds(s, p);
    } else if is_ws(s[p]) {
        let q = skip_ws_fwd(s, p);
        lemma_skip_ws_fwd_range(s, p);
        if q == 0 {
        } else {
            assert(is_ws(s[q - 1]));
            lemma_skip_ws_back_through(s, p, q);
            lemma_skip_ws_back_bounds(s, p);
            lemma_skip_word_back_bounds(s, skip_ws_back(s, q));
        }
    } else {
        let q1 = skip_word_fwd(s, p);
        let q = skip_ws_fwd(s, q1);
        lemma_skip_word_fwd_range(s, p);
        lemma_skip_ws_fwd_range(s, q1);
        assert(q1 >= p + 1);
        if q > q1 {
            assert(is_ws(s[q - 1]));
            lemma_skip_ws_back_through(s, q1, q);
            assert(!is_ws(s[q1 - 1]));
            assert(skip_ws_back(s, q1) == q1);
            lemma_skip_word_back_through(s, p, q1);
            lemma_skip_word_back_bounds(s, p);
        } else {
            assert(q == q1);
            assert(q1 == s.len());
            assert(!is_ws(s[q - 1]));
            if q == 1 {
                lemma_skip_ws_back_bounds(s, 0);
                lemma_skip_word_back_bounds(s, skip_ws_back(s, 0));
            } else if is_ws(s[q - 2]) {
                assert(!(p <= q - 2 < q1));
                assert(q - 1 == p);
                lemma_skip_ws_back_bounds(s, p);
                lemma_skip_word_back_bounds(s, skip_ws_back(s, p));
            } else {
                lemma_skip_word_back_through(s, p, q);
                lemma_skip_word_back_bounds(s, p);
            }
        }
    }
}

/// A clamped cursor position.
pub fn clamp_pos(v: &Vec<char>, pos: usize) -> (r: usize)
    ensures
        r == spec_clamp(v@, pos as int),
        r <= v@.len(),
{
    let n: usize = v.len();
    if n == 0 {
        0
    } else if pos >= n {
        n - 1
    } else {
        pos
    }
}

/// The display width of the span `[from, to)` of the buffer.
pub fn width_of_span(v: &Vec<char>, from: usize, to: usize) -> (r: u128)
    requires
        from <= to <= v@.len(),
    ensures
        r == width_sum(v@.subrange(from as int, to as int)),
{
    let mut acc: u128 = 0;
    let mut i: usize = from;
    while i < to
        invariant
            from <= i <= to <= v@.len(),
            acc == width_sum(v@.subrange(from as int, i as int)),
            acc <= 3 * (i - from),
        decreases to - i,
    {
        let w = char_display_width(v[i]);
        proof {
            assert(v@.subrange(from as int, i + 1).drop_last() =~= v@.subrange(
                from as int,
                i as int,
            ));
            assert(v@.subrange(from as int, i + 1).last() == v@[i as int]);
        }
        acc = acc + w as u128;
        i = i + 1;
    }
    acc
}

/// How many leading characters of the span `[from, to)` fit in `col`
/// display columns.
pub fn col_fit_span(v: &Vec<char>, from: usize, to: usize, col: u128) -> (r: usize)
    requires
        from <= to <= v@.len(),
    ensures
        r == col_fit(v@.subrange(from as int, to as int), col as nat),
        r <= to - from,
{
    let mut i: usize = from;
    let mut rem: u128 = col;
    while i < to
        invariant
            from <= i <= to <= v@.len(),
            col_fit(v@.subrange(from as int, to as int), col as nat) == (i - from) + col_fit(
                v@.subrange(i as int, to as int),
                rem as nat,
            ),
        decreases to - i,
    {
        let w = char_display_width(v[i]);
        proof {
            assert(v@.subrange(i as int, to as int).first() == v@[i as int]);
            assert(v@.subrange(i as int, to as int).drop_first() =~= v@.subrange(
                i + 1,
                to as int,
            ));
        }
        if (w as u128) > rem {
            return i - from;
        }
        rem = rem - w as u128;
        i = i + 1;
    }
    proof {
        assert(v@.subrange(to as int, to as int).len() == 0);
    }
    to - from
}

/// Where moving down one visual line lands, keeping the display column:
/// the closest column of the next line, clamped onto the buffer.
pub open spec fn spec_cursor_down(s: Seq<char>, p: int) -> int
    recommends
        0 <= p <= s.len(),
{
    let ls = line_start(s, p);
    let col = width_sum(s.subrange(ls, p));
    let le = line_end(s, p);
    if le >= s.len() {
        p
    } else {
        let nls = le + 1;
        if nls < s.len() {
            let nle = line_end(s, nls);
            let line = s.subrange(nls, nle);
            let t0 = col_fit(line, col);
            let t = if t0 == line.len() && t0 > 0 {
                t0 - 1
            } else {
                t0 as int
            };
            spec_clamp(s, nls + t)
        } else {
            p
        }
    }
}

/// Where moving up one visual line lands, keeping the display column; the
/// position is unchanged when there is no previous line.
pub open spec fn spec_cursor_up(s: Seq<char>, p: int) -> int
    recommends
        0 <= p <= s.len(),
{
    let ls = line_start(s, p);
    let col = width_sum(s.subrange(ls, p));
    if ls == 0 {
        p
    } else {
        let pls = line_start(s, ls - 1);
        let ple = ls - 1;
        let line = s.subrange(pls, ple);
        let t0 = col_fit(line, col);
        let t = if t0 == line.len() && t0 > 0 {
            t0 - 1
        } else {
            t0 as int
        };
        spec_clamp(s, pls + t)
    }
}

/// Move down one visual line, keeping the display column.
pub fn cursor_down(v: &Vec<char>, pos: usize) -> (r: usize)
    requires
        pos <= v@.len(),
    ensures
        r == spec_cursor_down(v@, pos as int),
        r <= v@.len(),
{
    let ls = find_line_start(v, pos);
    let col = width_of_span(v, ls, pos);
    let le = find_line_end(v, pos);
    if le >= v.len() {
        return pos;
    }
    let nls = le + 1;
    if nls >= v.len() {
        return pos;
    }
    let nle = find_line_end(v, nls);
    proof {
        lemma_line_end_bounds(v@, nls as int);
    }
    let t0 = col_fit_span(v, nls, nle, col);
    let t = if t0 == nle - nls && t0 > 0 {
        t0 - 1
    } else {
        t0
    };
    clamp_pos(v, nls + t)
}

/// Move up one visual line, keeping the display column.
pub fn cursor_up(v: &Vec<char>, pos: usize) -> (r: usize)
    requires
        pos <= v@.len(),
    ensures
        r == spec_cursor_up(v@, pos as int),
        r <= v@.len(),
{
    let ls = find_line_start(v, pos);
    let col = width_of_span(v, ls, pos);
    if ls == 0 {
        return pos;
    }
    let pls = find_line_start(v, ls - 1);
    let ple = ls - 1;
    let t0 = col_fit_span(v, pls, ple, col);
    let t = if t0 == ple - pls && t0 > 0 {
        t0 - 1
    } else {
        t0
    };
    clamp_pos(v, pls + t)
}

/// What deleting the whole current line leaves: the line and its trailing
/// newline go; with no trailing newline the line and its leading newline
/// go; a buffer of one line is emptied. The new cursor stands at the start
/// of the line that takes the deleted line's place, clamped onto the
/// buffer.
pub open spec fn spec_delete_line(s: Seq<char>, p: int) -> (Seq<char>, int)
    recommends
        0 <= p <= s.len(),
{
    let ls = line_start(s, p);
    let le = line_end(s, p);
    if le < s.len() {
        let out = s.take(ls) + s.skip(le + 1);
        (out, spec_clamp(out, ls))
    } else if ls > 0 {
        let out = s.take(ls - 1);
        (out, spec_clamp(out, line_start(out, ls - 1)))
    } else {
        (Seq::<char>::empty(), 0)
    }
}

/// Delete the whole line under the cursor.
pub fn delete_line(input: &mut Vec<char>, cursor: &mut usize)
    requires
        *old(cursor) <= old(input)@.len(),
    ensures
        final(input)@ == spec_delete_line(old(input)@, *old(cursor) as int).0,
        *final(cursor) == spec_delete_line(old(input)@, *old(cursor) as int).1,
        *final(cursor) <= final(input)@.len(),
{
    let empty: Vec<char> = Vec::new();
    let ls = find_line_start(input, *cursor);
    let le = find_line_end(input, *cursor);
    if le < input.len() {
        let next = splice(input, ls, le + 1, &empty);
        *input = next;
        *cursor = clamp_pos(input, ls);
    } else if ls > 0 {
        let n = input.len();
        let next = splice(input, ls - 1, n, &empty);
        proof {
            assert(old(input)@.take(ls - 1) + empty@ + old(input)@.skip(n as int) =~= old(
                input,
            )@.take(ls - 1));
        }
        *input = next;
        let home = find_line_start(input, ls - 1);
        *cursor = clamp_pos(input, home);
    } else {
        *input = Vec::new();
        *cursor = 0;
        proof {
            assert(final(input)@ =~= Seq::<char>::empty());
        }
    }
}

/// Apply an armed operator over the motion range `[start, end)`
/// (order-normalized). Delete removes the range and leaves the cursor at
/// its lower end; an empty range changes nothing.
pub fn execute_operator(
    input: &mut Vec<char>,
    cursor: &mut usize,
    op: VimOperator,
    start: usize,
    end: usize,
) -> (r: bool)
    requires
        start <= old(input)@.len(),
        end <= old(input)@.len(),
    ensures
        ({
            let low = if start < end { start as int } else { end as int };
            let high = if start < end { end as int } else { start as int };
            if op is Delete && low < high {
                final(input)@ == old(input)@.take(low) + old(input)@.skip(high) && *final(cursor)
                    == low
            } else {
                *final(input) == *old(input) && *final(cursor) == *old(cursor)
            }
        }),
        r == (op is Delete && start != end),
        final(input)@.len() <= old(input)@.len(),
{
    let (low, high) = if start < end {
        (start, end)
    } else {
        (end, start)
    };
    match op {
        VimOperator::Delete => {
            if high > low {
                let empty: Vec<char> = Vec::new();
                let next = splice(input, low, high, &empty);
                *input = next;
                *cursor = low;
                return true;
            }
            false
        },
    }
}

/// Clamp the session's cursor onto the buffer: on a character whenever
/// the buffer is non-empty.
pub fn clamp_cursor(app: &mut App)
    ensures
        *final(app) == (App { cursor_position: final(app).cursor_position, ..*old(app) }),
        final(app).cursor_position == spec_clamp(old(app).input@, old(app).cursor_position as int),
        final(app).cursor_position <= final(app).input@.len(),
{
    app.cursor_position = clamp_pos(&app.input, app.cursor_position);
}

/// Whether an armed operator has expired: unresolved for a second or
/// more by the caller's clock.
pub open spec fn timed_out(vs: VimState, now: u64) -> bool {
    vs.operator is Some && now > vs.last_action_time && now - vs.last_action_time >= 1000
}

/// The operator still armed once the timeout is applied.
pub open spec fn eff_operator(a: App, now: u64) -> Option<VimOperator> {
    match a.vim_state {
        Option::Some(vs) => if timed_out(vs, now) {
            Option::None
        } else {
            vs.operator
        },
        Option::None => Option::None,
    }
}

/// Whether the bookkeeping holds an operator that has already expired.
pub open spec fn stale_operator(a: App, now: u64) -> bool {
    match a.vim_state {
        Option::Some(vs) => timed_out(vs, now),
        Option::None => false,
    }
}

/// In chat scrollback (a scrolled-back selection), the editing keys are
/// reserved for scrollback navigation.
pub open spec fn chat_locked(a: App) -> bool {
    a.state is Chatting && a.selection_index > 0
}

/// The fields a modal keystroke never touches.
pub open spec fn vim_frame(a: App, b: App) -> bool {
    &&& b.state == a.state
    &&& same_data(a, b)
    &&& b.emoji_filter == a.emoji_filter
    &&& b.emoji_filter_start == a.emoji_filter_start
    &&& b.tick_count == a.tick_count
}

/// The buffer and cursor, unmoved.
pub open spec fn buf_same(a: App, b: App) -> bool {
    b.input == a.input && b.cursor_position == a.cursor_position
}

/// The operator the keystroke leaves armed.
pub open spec fn op_after(b: App) -> Option<VimOperator> {
    match b.vim_state {
        Option::Some(vs) => vs.operator,
        Option::None => Option::None,
    }
}

/// What a keystroke does while an operator is armed and live: the
/// operator's own motions (`w`, `b`, `d`) resolve it, and any other key
/// silently cancels it, mutating nothing else; in chat scrollback the
/// motions are reserved and the operator stays armed.
pub open spec fn vim_armed_ok(o: App, f: App, c: char, now: u64, effects: Seq<Effect>) -> bool {
    let s = o.input@;
    let cur = o.cursor_position as int;
    let op = eff_operator(o, now);
    let armed = op is Some;
    let locked = chat_locked(o);
    let motion_key = (c == 'w' || c == 'b' || c == 'd');
    let sel_after_edit: int = if o.in_filter_screen() {
        0
    } else {
        o.selection_index as int
    };

    &&& (armed && !motion_key ==> buf_same(o, f) && f.mode == o.mode && f.selection_index
        == o.selection_index && op_after(f) is None && effects.len() == 0)
    &&& (armed && motion_key && locked ==> buf_same(o, f) && f.mode == o.mode
        && f.selection_index == o.selection_index && f.vim_state == o.vim_state && effects.len()
        == 0)
    &&& (armed && c == 'w' && !locked ==> f.mode == o.mode && op_after(f) is None
        && effects.len() == 0 && ({
        let end = word_forward(s, cur);
        if end > cur {
            f.input@ == s.take(cur) + s.skip(end) && f.cursor_position == cur
                && f.selection_index == sel_after_edit
        } else {
            buf_same(o, f) && f.selection_index == o.selection_index
        }
    }))
    &&& (armed && c == 'b' && !locked ==> f.mode == o.mode && op_after(f) is None
        && effects.len() == 0 && ({
        let home = word_backward(s, cur);
        if home < cur {
            f.input@ == s.take(home) + s.skip(cur) && f.cursor_position == home
                && f.selection_index == sel_after_edit
        } else {
            buf_same(o, f) && f.selection_index == o.selection_index
        }
    }))
    &&& (armed && c == 'd' && !locked ==> f.mode == o.mode && op_after(f) is None
        && effects.len() == 0 && f.input@ == spec_delete_line(s, cur).0 && f.cursor_position
        == spec_delete_line(s, cur).1 && f.selection_index == sel_after_edit)
}

/// With no operator armed, the Insert-mode entries: `i` at the cursor,
/// `a` after it, `I`/`A` at the line's ends; in chat scrollback they are
/// inert.
pub open spec fn vim_insert_keys_ok(o: App, f: App, c: char, now: u64, effects: Seq<Effect>) -> bool {
    let s = o.input@;
    let cur = o.cursor_position as int;
    let len = s.len() as int;
    let armed = eff_operator(o, now) is Some;
    let locked = chat_locked(o);
    let mode_keys = (c == 'i' || c == 'I' || c == 'a' || c == 'A' || c == 'o' || c == 'O');

    &&& (!armed && mode_keys && locked ==> buf_same(o, f) && f.mode == o.mode
        && f.selection_index == o.selection_index)
    &&& (!armed && c == 'i' && !locked ==> f.mode is Insert && buf_same(o, f)
        && f.selection_index == o.selection_index)
    &&& (!armed && c == 'I' && !locked ==> f.mode is Insert && f.input == o.input
        && f.cursor_position == line_start(s, cur) && f.selection_index == o.selection_index)
    &&& (!armed && c == 'a' && !locked ==> f.mode is Insert && f.input == o.input
        && f.cursor_position == (if cur < len {
        cur + 1
    } else {
        cur
    }) && f.selection_index == o.selection_index)
    &&& (!armed && c == 'A' && !locked ==> f.mode is Insert && f.input == o.input
        && f.cursor_position == line_end(s, cur) && f.selection_index == o.selection_index)
}

/// With no operator armed, the open-line keys: `O`/`o` open a fresh line
/// above/below and enter Insert mode.
pub open spec fn vim_open_keys_ok(o: App, f: App, c: char, now: u64, effects: Seq<Effect>) -> bool {
    let s = o.input@;
    let cur = o.cursor_position as int;
    let len = s.len() as int;
    let armed = eff_operator(o, now) is Some;
    let locked = chat_locked(o);
    let sel_after_edit: int = if o.in_filter_screen() {
        0
    } else {
        o.selection_index as int
    };

    &&& (!armed && c == 'O' && !locked ==> f.mode is Insert && f.input@ == s.take(
        line_start(s, cur),
    ) + seq!['\n'] + s.skip(line_start(s, cur)) && f.cursor_position == line_start(s, cur)
        && f.selection_index == sel_after_edit)
    &&& (!armed && c == 'o' && !locked ==> f.mode is Insert && f.selection_index
        == sel_after_edit && ({
        let le = line_end(s, cur);
        if le < len && le + 1 < len {
            f.input@ == s.take(le + 1) + seq!['\n'] + s.skip(le + 1) && f.cursor_position == le
                + 1
        } else {
            f.input@ == s.push('\n') && f.cursor_position == len + 1
        }
    }))
}

/// `h`/`l` step one codepoint, refusing to cross onto a control
/// character going left (tab excepted) or onto a newline going right.
pub open spec fn vim_step_keys_ok(o: App, f: App, c: char, now: u64, effects: Seq<Effect>) -> bool {
    let s = o.input@;
    let cur = o.cursor_position as int;
    let len = s.len() as int;
    let armed = eff_operator(o, now) is Some;

    &&& (!armed && c == 'h' ==> f.input == o.input && f.mode == o.mode && f.selection_index
        == o.selection_index && f.cursor_position == (if cur > 0 && (!is_ctrl(s[cur - 1]) || s[cur
        - 1] == '\t') {
        cur - 1
    } else {
        cur
    }))
    &&& (!armed && c == 'l' ==> f.input == o.input && f.mode == o.mode && f.selection_index
        == o.selection_index && f.cursor_position == (if cur < len && s[cur] != '\n' && cur + 1
        < len && s[cur + 1] != '\n' {
        cur + 1
    } else {
        cur
    }))
}

/// With no operator armed, `j`/`k` move by visual line keeping the
/// display column, walk the chat scrollback when it is open, and ask for
/// list navigation off the chat screen; no other key produces effects.
pub open spec fn vim_scroll_keys_ok(o: App, f: App, c: char, now: u64, effects: Seq<Effect>) -> bool {
    let s = o.input@;
    let cur = o.cursor_position as int;
    let armed = eff_operator(o, now) is Some;

    &&& (!armed && c == 'j' ==> f.mode == o.mode && (match o.state {
        AppState::Chatting(_) => effects.len() == 0 && (if o.selection_index > 0 {
            buf_same(o, f) && f.selection_index == o.selection_index - 1
        } else {
            f.input == o.input && f.cursor_position == spec_cursor_down(s, cur)
                && f.selection_index == 0
        }),
        _ => buf_same(o, f) && f.selection_index == o.selection_index && effects == seq![
            Effect::Enqueue(AppAction::SelectNext),
        ],
    }))
    &&& (!armed && c == 'k' ==> f.mode == o.mode && (match o.state {
        AppState::Chatting(_) => effects.len() == 0 && (if o.selection_index > 0 {
            buf_same(o, f) && f.selection_index == (if o.selection_index < o.messages@.len() {
                o.selection_index + 1
            } else {
                o.selection_index as int
            })
        } else {
            f.input == o.input && (if line_start(s, cur) > 0 {
                f.cursor_position == spec_cursor_up(s, cur) && f.selection_index == 0
            } else if o.messages@.len() > 0 {
                f.cursor_position == cur && f.selection_index == 1
            } else {
                f.cursor_position == cur && f.selection_index == 0
            })
        }),
        _ => buf_same(o, f) && f.selection_index == o.selection_index && effects == seq![
            Effect::Enqueue(AppAction::SelectPrevious),
        ],
    }))
    &&& (!armed && !(c == 'j' || c == 'k') ==> effects.len() == 0)
}

/// With no operator armed, `w`/`b` jump by words; in chat scrollback the
/// editing keys are inert.
pub open spec fn vim_word_keys_ok(o: App, f: App, c: char, now: u64, effects: Seq<Effect>) -> bool {
    let s = o.input@;
    let cur = o.cursor_position as int;
    let armed = eff_operator(o, now) is Some;
    let locked = chat_locked(o);

    &&& (!armed && c == 'w' && !locked ==> f.mode == o.mode && f.input == o.input
        && f.cursor_position == spec_clamp(s, word_forward(s, cur)) && f.selection_index
        == o.selection_index)
    &&& (!armed && c == 'b' && !locked ==> f.mode == o.mode && f.input == o.input
        && f.cursor_position == word_backward(s, cur) && f.selection_index == o.selection_index)
    &&& (!armed && (c == 'w' || c == 'b' || c == 'x') && locked ==> buf_same(o, f) && f.mode
        == o.mode && f.selection_index == o.selection_index)
}

/// With no operator armed, `x` deletes the codepoint under the cursor
/// and `d` arms Delete, recording the clock; any other key changes
/// nothing, and no key but an arming `d` touches the bookkeeping, beyond
/// sweeping an expired operator.
pub open spec fn vim_edit_keys_ok(o: App, f: App, c: char, now: u64, effects: Seq<Effect>) -> bool {
    let s = o.input@;
    let cur = o.cursor_position as int;
    let len = s.len() as int;
    let armed = eff_operator(o, now) is Some;
    let locked = chat_locked(o);
    let mode_keys = (c == 'i' || c == 'I' || c == 'a' || c == 'A' || c == 'o' || c == 'O');
    let sel_after_edit: int = if o.in_filter_screen() {
        0
    } else {
        o.selection_index as int
    };

    &&& (!armed && c == 'x' && !locked ==> f.mode == o.mode && (if cur < len {
        f.input@ == s.take(cur) + s.skip(cur + 1) && f.cursor_position == spec_clamp(
            f.input@,
            cur,
        ) && f.selection_index == sel_after_edit
    } else {
        buf_same(o, f) && f.selection_index == o.selection_index
    }))
    &&& (!armed && c == 'd' && !locked ==> buf_same(o, f) && f.mode == o.mode
        && f.selection_index == o.selection_index && op_after(f) == Option::Some(
        VimOperator::Delete,
    ) && (match f.vim_state {
        Option::Some(vs) => vs.last_action_time == now,
        Option::None => false,
    }))
    &&& (!armed && c == 'd' && locked ==> buf_same(o, f) && f.mode == o.mode
        && f.selection_index == o.selection_index && op_after(f) is None && (!stale_operator(
        o,
        now,
    ) ==> f.vim_state == o.vim_state))
    &&& (!armed && !(mode_keys || c == 'h' || c == 'l' || c == 'j' || c == 'k' || c == 'w' || c
        == 'b' || c == 'd' || c == 'x') ==> buf_same(o, f) && f.mode == o.mode
        && f.selection_index == o.selection_index)
    &&& (!armed && c != 'd' ==> op_after(f) is None && (!stale_operator(o, now)
        ==> f.vim_state == o.vim_state))
}

/// What one Normal-mode keystroke does, stated over the state before
/// (`o`) and after (`f`). An operator armed for a second or more is
/// dropped before the key is read; a live armed operator consumes the
/// keystroke.
pub open spec fn vim_step_ok(o: App, f: App, c: char, now: u64, effects: Seq<Effect>) -> bool {
    &&& vim_armed_ok(o, f, c, now, effects)
    &&& vim_insert_keys_ok(o, f, c, now, effects)
    &&& vim_open_keys_ok(o, f, c, now, effects)
    &&& vim_step_keys_ok(o, f, c, now, effects)
    &&& vim_scroll_keys_ok(o, f, c, now, effects)
    &&& vim_word_keys_ok(o, f, c, now, effects)
    &&& vim_edit_keys_ok(o, f, c, now, effects)
}

/// The keystroke's work, one group of `vim_step_ok`'s clauses per proof
/// obligation.
#[verifier::rlimit(100)]
fn vim_key_step(app: &mut App, c: char, now_ms: u64) -> (r: Vec<Effect>)
    requires
        old(app).wf(),
        !(old(app).state is EmojiSelection),
    ensures
        final(app).wf(),
        vim_frame(*old(app), *final(app)),
        !(final(app).state is EmojiSelection),
        vim_armed_ok(*old(app), *final(app), c, now_ms, r@),
        vim_insert_keys_ok(*old(app), *final(app), c, now_ms, r@),
        vim_open_keys_ok(*old(app), *final(app), c, now_ms, r@),
        vim_step_keys_ok(*old(app), *final(app), c, now_ms, r@),
        vim_scroll_keys_ok(*old(app), *final(app), c, now_ms, r@),
        vim_word_keys_ok(*old(app), *final(app), c, now_ms, r@),
        vim_edit_keys_ok(*old(app), *final(app), c, now_ms, r@),
{
    let ghost o = *old(app);
    let locked = match &app.state {
        AppState::Chatting(_) => app.selection_index > 0,
        _ => false,
    };

    // Drop an operator that has been armed for a second or more.
    match &mut app.vim_state {
        Option::Some(vs) => {
            if vs.operator.is_some() && now_ms > vs.last_action_time && now_ms
                - vs.last_action_time >= 1000 {
                vs.operator = None;
                vs.pending_keys = String::new();
            }
        },
        Option::None => {},
    }
    let cur_op: Option<VimOperator> = match &app.vim_state {
        Option::Some(vs) => vs.operator,
        Option::None => None,
    };
    proof {
        assert(cur_op == eff_operator(o, now_ms));
    }

    let mut effects: Vec<Effect> = Vec::new();

    if let Some(op) = cur_op {
        // A live armed operator consumes the keystroke: its motions
        // resolve it, anything else cancels it and mutates nothing.
        match c {
            'w' => {
                if !locked {
                    let cur = app.cursor_position;
                    let end = word_fwd(&app.input, cur);
                    let deleted = execute_operator(
                        &mut app.input,
                        &mut app.cursor_position,
                        op,
                        cur,
                        end,
                    );
                    clear_operator(app);
                    if deleted && in_filter(app) {
                        app.selection_index = 0;
                    }
                }
            },
            'b' => {
                if !locked {
                    let cur = app.cursor_position;
                    let home = word_back(&app.input, cur);
                    let deleted = execute_operator(
                        &mut app.input,
                        &mut app.cursor_position,
                        op,
                        cur,
                        home,
                    );
                    clear_operator(app);
                    if deleted && in_filter(app) {
                        app.selection_index = 0;
                    }
                }
            },
            'd' => {
                if !locked {
                    delete_line(&mut app.input, &mut app.cursor_position);
                    clear_operator(app);
                    if in_filter(app) {
                        app.selection_index = 0;
                    }
                }
            },
            _ => {
                match &mut app.vim_state {
                    Option::Some(vs) => {
                        vs.operator = None;
                        vs.pending_keys = String::new();
                    },
                    Option::None => {},
                }
            },
        }
    return effects;
    }

    match c {
        'i' => {
            if !locked {
                app.mode = InputMode::Insert;
            }
        },
        'I' => {
            if !locked {
                app.cursor_position = find_line_start(&app.input, app.cursor_position);
                app.mode = InputMode::Insert;
            }
        },
        'a' => {
            if !locked {
                if app.cursor_position < app.input.len() {
                    app.cursor_position = app.cursor_position + 1;
                }
                app.mode = InputMode::Insert;
            }
        },
        'A' => {
            if !locked {
                app.cursor_position = find_line_end(&app.input, app.cursor_position);
                app.mode = InputMode::Insert;
            }
        },
        'O' => {
            if !locked {
                let ls = find_line_start(&app.input, app.cursor_position);
                let nl: Vec<char> = vec!['\n'];
                let next = splice(&app.input, ls, ls, &nl);
                app.input = next;
                app.cursor_position = ls;
                app.mode = InputMode::Insert;
                if in_filter(app) {
                    app.selection_index = 0;
                }
                proof {
                    let ls_g = line_start(o.input@, o.cursor_position as int);
                    assert(app.mode is Insert);
                    assert(app.cursor_position == ls_g);
                    assert(app.input@ == o.input@.take(ls_g) + seq!['\n'] + o.input@.skip(ls_g));
                    assert(!(eff_operator(o, now_ms) is Some));
                    assert(!chat_locked(o));
                    assert(app.selection_index == (if o.in_filter_screen() {
                        0
                    } else {
                        o.selection_index as int
                    }));
                    assert(vim_open_keys_ok(o, *app, c, now_ms, effects@));
                }
            }
        },
        'o' => {
            if !locked {
                let le = find_line_end(&app.input, app.cursor_position);
                let n = app.input.len();
                let nls = if le < n {
                    le + 1
                } else {
                    n
                };
                if nls < n {
                    let nl: Vec<char> = vec!['\n'];
                    let next = splice(&app.input, nls, nls, &nl);
                    app.input = next;
                    app.cursor_position = nls;
                } else {
                    app.input.push('\n');
                    let grown = app.input.len();
                    app.cursor_position = grown;
                    proof {
                        assert(app.input@ =~= o.input@.push('\n'));
                    }
                }
                app.mode = InputMode::Insert;
                if in_filter(app) {
                    app.selection_index = 0;
                }
                proof {
                    let le_g = line_end(o.input@, o.cursor_position as int);
                    if le_g < o.input@.len() && le_g + 1 < o.input@.len() {
                        assert(app.input@ == o.input@.take(le_g + 1) + seq!['\n'] + o.input@.skip(
                            le_g + 1,
                        ));
                        assert(app.cursor_position == le_g + 1);
                    } else {
                        assert(app.input@ == o.input@.push('\n'));
                        assert(app.cursor_position == o.input@.len() + 1);
                    }
                    assert(vim_open_keys_ok(o, *app, c, now_ms, effects@));
                }
            }
        },
        'j' => {
            let chatting = match &app.state {
                AppState::Chatting(_) => true,
                _ => false,
            };
            if chatting {
                if app.selection_index > 0 {
                    app.selection_index = app.selection_index - 1;
                } else {
                    app.cursor_position = cursor_down(&app.input, app.cursor_position);
                }
            } else {
                effects.push(Effect::Enqueue(AppAction::SelectNext));
            }
        },
        'k' => {
            let chatting = match &app.state {
                AppState::Chatting(_) => true,
                _ => false,
            };
            if chatting {
                if app.selection_index > 0 {
                    if app.selection_index < app.messages.len() {
                        app.selection_index = app.selection_index + 1;
                    }
                } else {
                    let ls = find_line_start(&app.input, app.cursor_position);
                    if ls > 0 {
                        app.cursor_position = cursor_up(&app.input, app.cursor_position);
                        app.selection_index = 0;
                    } else if app.messages.len() > 0 {
                        app.selection_index = 1;
                    }
                }
            } else {
                effects.push(Effect::Enqueue(AppAction::SelectPrevious));
            }
        },
        'h' => {
            let cur = app.cursor_position;
            if cur > 0 {
                let prev = app.input[cur - 1];
                if !check_ctrl(prev) || prev == '\t' {
                    app.cursor_position = cur - 1;
                }
            }
        },
        'l' => {
            let cur = app.cursor_position;
            let n = app.input.len();
            if cur < n && app.input[cur] != '\n' {
                let np = cur + 1;
                if np < n && app.input[np] != '\n' {
                    app.cursor_position = np;
                }
            }
        },
        'w' => {
            if !locked {
                let end = word_fwd(&app.input, app.cursor_position);
                app.cursor_position = clamp_pos(&app.input, end);
            }
        },
        'b' => {
            if !locked {
                let home = word_back(&app.input, app.cursor_position);
                app.cursor_position = home;
            }
        },
        'd' => {
            if !locked {
                match &mut app.vim_state {
                    Option::Some(vs) => {
                        vs.operator = Some(VimOperator::Delete);
                        vs.last_action_time = now_ms;
                    },
                    Option::None => {
                        app.vim_state = Some(
                            VimState {
                                operator: Some(VimOperator::Delete),
                                pending_keys: String::new(),
                                last_action_time: now_ms,
                            },
                        );
                    },
                }
            }
        },
        'x' => {
            if !locked {
                let cur = app.cursor_position;
                if cur < app.input.len() {
                    let empty: Vec<char> = Vec::new();
                    let next = splice(&app.input, cur, cur + 1, &empty);
                    app.input = next;
                    app.cursor_position = clamp_pos(&app.input, cur);
                    if in_filter(app) {
                        app.selection_index = 0;
                    }
                }
            }
        },
        _ => {},
    }
    effects
}

/// One Normal-mode keystroke of the modal editor, `now_ms` being the
/// caller's clock in milliseconds: exactly the step `vim_step_ok`
/// describes.
pub fn handle_vim_keys(app: &mut App, c: char, now_ms: u64) -> (r: Vec<Effect>)
    requires
        old(app).wf(),
        !(old(app).state is EmojiSelection),
    ensures
        final(app).wf(),
        vim_frame(*old(app), *final(app)),
        !(final(app).state is EmojiSelection),
        vim_step_ok(*old(app), *final(app), c, now_ms, r@),
{
    vim_key_step(app, c, now_ms)
}

/// Whether the active screen filters a list by the input buffer.
fn in_filter(app: &App) -> (r: bool)
    ensures
        r == app.in_filter_screen(),
{
    match &app.state {
        AppState::SelectingGuild | AppState::SelectingDM | AppState::SelectingChannel(_) => true,
        _ => false,
    }
}

/// Drop the armed operator.
fn clear_operator(app: &mut App)
    ensures
        *final(app) == (App { vim_state: final(app).vim_state, ..*old(app) }),
        op_after(*final(app)) is None,
        final(app).vim_state is Some <==> old(app).vim_state is Some,
{
    match &mut app.vim_state {
        Option::Some(vs) => {
            vs.operator = None;
        },
        Option::None => {},
    }
}

} // verus!
