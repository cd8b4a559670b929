//! Character classification and text helpers shared by the editing engines
//! and the list filters. Positions into text are counted in codepoints, so
//! every position in `[0, len]` is a codepoint boundary by construction.

use vstd::prelude::*;

verus! {

/// A whitespace character: the codepoints with the White_Space property,
/// which is what the word motions break on.
pub open spec fn is_ws(c: char) -> bool {
    ||| ('\u{0009}' <= c && c <= '\u{000d}')
    ||| c == ' '
    ||| c == '\u{0085}'
    ||| c == '\u{00a0}'
    ||| c == '\u{1680}'
    ||| ('\u{2000}' <= c && c <= '\u{200a}')
    ||| c == '\u{2028}'
    ||| c == '\u{2029}'
    ||| c == '\u{202f}'
    ||| c == '\u{205f}'
    ||| c == '\u{3000}'
}

/// Runtime test matching `is_ws`.
pub fn check_ws(c: char) -> (r: bool)
    ensures
        r == is_ws(c),
{
    ('\u{0009}' <= c && c <= '\u{000d}') || c == ' ' || c == '\u{0085}' || c == '\u{00a0}' || c
        == '\u{1680}' || ('\u{2000}' <= c && c <= '\u{200a}') || c == '\u{2028}' || c
        == '\u{2029}' || c == '\u{202f}' || c == '\u{205f}' || c == '\u{3000}'
}

/// A control character (the C0 and C1 ranges): the cursor refuses to step
/// left onto one of these (tab excepted).
pub open spec fn is_ctrl(c: char) -> bool {
    (c as u32) < 32 || (127 <= (c as u32) && (c as u32) <= 159)
}

/// Runtime test matching `is_ctrl`.
pub fn check_ctrl(c: char) -> (r: bool)
    ensures
        r == is_ctrl(c),
{
    (c as u32) < 32 || (127 <= (c as u32) && (c as u32) <= 159)
}

/// An ASCII decimal digit.
pub open spec fn is_digit(c: char) -> bool {
    '0' <= c && c <= '9'
}

/// The numeric value of a decimal digit.
pub open spec fn digit_of(c: char) -> nat {
    (c as u32 - 48) as nat
}

/// A non-empty run of decimal digits.
pub open spec fn is_dec_str(s: Seq<char>) -> bool {
    s.len() > 0 && forall|i: int| 0 <= i < s.len() ==> is_digit(#[trigger] s[i])
}

/// The value of a digit string, most significant digit first.
pub open spec fn dec_val(s: Seq<char>) -> nat
    decreases s.len(),
{
    if s.len() == 0 {
        0
    } else {
        dec_val(s.drop_last()) * 10 + digit_of(s.last())
    }
}

/// Identifiers on the wire are numeric strings; comparisons parse them as
/// unsigned 64-bit integers and fall back to 0 when the text is not a
/// number that fits.
pub open spec fn parsed_id(s: Seq<char>) -> nat {
    if is_dec_str(s) && dec_val(s) <= u64::MAX {
        dec_val(s)
    } else {
        0
    }
}

/// Appending digits never lowers the value of a digit string.
proof fn lemma_dec_val_grows(s: Seq<char>, i: int, j: int)
    requires
        0 <= i <= j <= s.len(),
    ensures
        dec_val(s.take(i)) <= dec_val(s.take(j)),
    decreases j - i,
{
    if i < j {
        lemma_dec_val_grows(s, i, j - 1);
        assert(s.take(j).drop_last() =~= s.take(j - 1));
    }
}

/// Parse a numeric identifier, yielding 0 when the text is empty, holds a
/// non-digit, or overflows 64 bits.
pub fn parse_id(s: &str) -> (r: u64)
    ensures
        r == parsed_id(s@),
{
    let n: usize = s.unicode_len();
    if n == 0 {
        return 0;
    }
    let mut acc: u128 = 0;
    let mut i: usize = 0;
    while i < n
        invariant
            0 < n == s@.len(),
            0 <= i <= n,
            forall|k: int| 0 <= k < i ==> is_digit(#[trigger] s@[k]),
            acc == dec_val(s@.take(i as int)),
            acc <= u64::MAX,
        decreases n - i,
    {
        let c = s.get_char(i);
        if !('0' <= c && c <= '9') {
            return 0;
        }
        let d: u128 = (c as u32 - 48) as u128;
        let next: u128 = acc * 10 + d;
        proof {
            assert(s@.take(i + 1).drop_last() =~= s@.take(i as int));
            assert(s@.take(i + 1).last() == s@[i as int]);
        }
        if next > u64::MAX as u128 {
            proof {
                lemma_dec_val_grows(s@, i + 1, s@.len() as int);
                assert(s@.take(s@.len() as int) =~= s@);
            }
            return 0;
        }
        acc = next;
        i = i + 1;
    }
    proof {
        assert(s@.take(n as int) =~= s@);
    }
    acc as u64
}

/// `p` is an initial segment of `s`.
pub open spec fn is_prefix_of(p: Seq<char>, s: Seq<char>) -> bool {
    p.len() <= s.len() && s.subrange(0, p.len() as int) == p
}

/// `n` occurs somewhere inside `h`.
pub open spec fn has_substring(h: Seq<char>, n: Seq<char>) -> bool {
    exists|i: int| 0 <= i <= h.len() - n.len() && #[trigger] h.subrange(i, i + n.len() as int) == n
}

/// Whether the needle occurs at offset `at` of the haystack.
fn matches_at(h: &str, n: &str, at: usize) -> (r: bool)
    requires
        at + n@.len() <= h@.len(),
    ensures
        r == (h@.subrange(at as int, at + n@.len() as int) == n@),
{
    let h_len: usize = h.unicode_len();
    let n_len: usize = n.unicode_len();
    let mut j: usize = 0;
    while j < n_len
        invariant
            h_len == h@.len(),
            n_len == n@.len(),
            at + n_len <= h@.len(),
            0 <= j <= n_len,
            forall|k: int| 0 <= k < j ==> h@[at + k] == n@[k],
        decreases n_len - j,
    {
        if h.get_char(at + j) != n.get_char(j) {
            proof {
                let sub = h@.subrange(at as int, at + n@.len() as int);
                assert(sub[j as int] == h@[at + j]);
            }
            return false;
        }
        j = j + 1;
    }
    proof {
        assert(h@.subrange(at as int, at + n@.len() as int) =~= n@);
    }
    true
}

/// Substring search, naive but exact: true iff `n` occurs in `h`.
pub fn contains_str(h: &str, n: &str) -> (r: bool)
    ensures
        r == has_substring(h@, n@),
{
    let h_len: usize = h.unicode_len();
    let n_len: usize = n.unicode_len();
    if n_len > h_len {
        return false;
    }
    if n_len == 0 {
        proof {
            assert(h@.subrange(0, 0 + n@.len() as int) =~= n@);
        }
        return true;
    }
    let mut i: usize = 0;
    let last: usize = h_len - n_len;
    while i <= last
        invariant
            h_len == h@.len(),
            n_len == n@.len(),
            0 < n_len <= h_len,
            last == h_len - n_len,
            0 <= i <= last + 1,
            forall|k: int|
                0 <= k < i ==> #[trigger] h@.subrange(k, k + n@.len() as int) != n@,
        decreases last + 1 - i,
    {
        if matches_at(h, n, i) {
            return true;
        }
        i = i + 1;
    }
    false
}

/// True iff the characters of `p` are an initial segment of `s`.
pub fn str_starts_with_chars(s: &str, p: &Vec<char>) -> (r: bool)
    ensures
        r == is_prefix_of(p@, s@),
{
    let p_len: usize = p.len();
    if p_len > s.unicode_len() {
        return false;
    }
    let mut j: usize = 0;
    while j < p_len
        invariant
            p_len == p@.len() <= s@.len(),
            0 <= j <= p_len,
            forall|k: int| 0 <= k < j ==> s@[k] == p@[k],
        decreases p_len - j,
    {
        if s.get_char(j) != p[j] {
            proof {
                let sub = s@.subrange(0, p@.len() as int);
                assert(sub[j as int] == s@[j as int]);
            }
            return false;
        }
        j = j + 1;
    }
    proof {
        assert(s@.subrange(0, p@.len() as int) =~= p@);
    }
    true
}

/// The characters of a string slice, one per codepoint.
pub fn chars_of_str(s: &str) -> (r: Vec<char>)
    ensures
        r@ == s@,
{
    let n: usize = s.unicode_len();
    let mut r: Vec<char> = Vec::new();
    let mut i: usize = 0;
    while i < n
        invariant
            n == s@.len(),
            0 <= i <= n,
            r@ == s@.take(i as int),
        decreases n - i,
    {
        r.push(s.get_char(i));
        proof {
            assert(s@.take(i + 1) =~= s@.take(i as int).push(s@[i as int]));
        }
        i = i + 1;
    }
    proof {
        assert(s@.take(n as int) =~= s@);
    }
    r
}

/// Append the characters of a string slice to a character buffer.
pub fn push_str_chars(v: &mut Vec<char>, s: &str)
    ensures
        final(v)@ == old(v)@ + s@,
{
    let n: usize = s.unicode_len();
    let mut i: usize = 0;
    while i < n
        invariant
            n == s@.len(),
            0 <= i <= n,
            v@ == old(v)@ + s@.take(i as int),
        decreases n - i,
    {
        v.push(s.get_char(i));
        proof {
            assert((old(v)@ + s@.take(i as int)).push(s@[i as int]) =~= old(v)@ + s@.take(i + 1));
        }
        i = i + 1;
    }
    proof {
        assert(old(v)@ + s@.take(n as int) =~= old(v)@ + s@);
    }
}

/// Relies on `String::push`: appends one character to the string.
#[verifier::external_body]
pub fn push_char(s: &mut String, c: char)
    ensures
        final(s)@ == old(s)@.push(c),
{
    s.push(c);
}

/// A `String` holding exactly the given characters.
pub fn string_of_chars(v: &Vec<char>) -> (r: String)
    ensures
        r@ == v@,
{
    let mut r = String::new();
    let mut i: usize = 0;
    let n: usize = v.len();
    while i < n
        invariant
            n == v@.len(),
            0 <= i <= n,
            r@ == v@.take(i as int),
        decreases n - i,
    {
        push_char(&mut r, v[i]);
        proof {
            assert(v@.take(i + 1) =~= v@.take(i as int).push(v@[i as int]));
        }
        i = i + 1;
    }
    proof {
        assert(v@.take(n as int) =~= v@);
    }
    r
}

/// What `str::to_lowercase` returns: a function of the characters alone.
pub uninterp spec fn lower_of(s: Seq<char>) -> Seq<char>;

/// Relies on `str::to_lowercase`: the result depends on the characters
/// alone, and the lowercase of the empty string is empty.
#[verifier::external_body]
pub fn lowercase(s: &str) -> (r: String)
    ensures
        r@ == lower_of(s@),
        s@.len() == 0 ==> r@.len() == 0,
{
    s.to_lowercase()
}

/// What `unicode_width::UnicodeWidthChar::width` reports for a character,
/// with control characters (`None`) counted as zero columns.
pub uninterp spec fn width_of(c: char) -> nat;

/// Relies on `unicode_width::UnicodeWidthChar::width`: the display width of
/// a character is a function of the character alone, is at most 3 columns,
/// and printable ASCII is exactly one column wide. `None` (a control
/// character) is counted as zero columns.
#[verifier::external_body]
pub fn char_display_width(c: char) -> (r: usize)
    ensures
        r == width_of(c),
        r <= 3,
        ' ' <= c && c <= '~' ==> r == 1,
{
    unicode_width::UnicodeWidthChar::width(c).unwrap_or(0)
}

/// Replace the span `[from, to)` of `v` by `repl`.
pub fn splice(v: &Vec<char>, from: usize, to: usize, repl: &Vec<char>) -> (r: Vec<char>)
    requires
        from <= to <= v@.len(),
    ensures
        r@ == v@.take(from as int) + repl@ + v@.skip(to as int),
{
    let mut r: Vec<char> = Vec::new();
    let mut i: usize = 0;
    while i < from
        invariant
            from <= to <= v@.len(),
            0 <= i <= from,
            r@ == v@.take(i as int),
        decreases from - i,
    {
        r.push(v[i]);
        proof {
            assert(v@.take(i + 1) =~= v@.take(i as int).push(v@[i as int]));
        }
        i = i + 1;
    }
    let mut j: usize = 0;
    let m: usize = repl.len();
    while j < m
        invariant
            from <= to <= v@.len(),
            m == repl@.len(),
            0 <= j <= m,
            r@ == v@.take(from as int) + repl@.take(j as int),
        decreases m - j,
    {
        r.push(repl[j]);
        proof {
            assert(repl@.take(j + 1) =~= repl@.take(j as int).push(repl@[j as int]));
            assert((v@.take(from as int) + repl@.take(j as int)).push(repl@[j as int]) =~= v@.take(
                from as int,
            ) + repl@.take(j + 1));
        }
        j = j + 1;
    }
    let mut k: usize = to;
    let n: usize = v.len();
    while k < n
        invariant
            from <= to <= n == v@.len(),
            m == repl@.len(),
            to <= k <= n,
            r@ == v@.take(from as int) + repl@ + v@.subrange(to as int, k as int),
        decreases n - k,
    {
        r.push(v[k]);
        proof {
            assert(v@.subrange(to as int, k + 1) =~= v@.subrange(to as int, k as int).push(
                v@[k as int],
            ));
            assert((v@.take(from as int) + repl@ + v@.subrange(to as int, k as int)).push(
                v@[k as int],
            ) =~= v@.take(from as int) + repl@ + v@.subrange(to as int, k + 1));
        }
        k = k + 1;
    }
    proof {
        assert(repl@.take(m as int) =~= repl@);
        assert(v@.subrange(to as int, n as int) =~= v@.skip(to as int));
    }
    r
}

} // verus!
