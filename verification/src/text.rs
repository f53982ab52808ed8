//! Character-level text primitives shared by the parsers.
//!
//! Every parser in the crate works on the characters of its input (a
//! `Vec<char>` whose view is the `Seq<char>` of the string) and on index
//! ranges into it. The spec functions here say what the usual string
//! operations mean on a `Seq<char>`; the executable functions compute them on
//! ranges and are proved against those definitions.
use vstd::prelude::*;

verus! {

/// `char::is_whitespace`: the Unicode `White_Space` property.
pub open spec fn is_ws(c: char) -> bool {
    ||| ('\t' <= c && c <= '\r')
    ||| c == ' '
    ||| c == '\u{85}'
    ||| c == '\u{a0}'
    ||| c == '\u{1680}'
    ||| ('\u{2000}' <= c && c <= '\u{200a}')
    ||| c == '\u{2028}'
    ||| c == '\u{2029}'
    ||| c == '\u{202f}'
    ||| c == '\u{205f}'
    ||| c == '\u{3000}'
}

pub fn is_ws_char(c: char) -> (b: bool)
    ensures
        b == is_ws(c),
{
    (c >= '\t' && c <= '\r') || c == ' ' || c == '\u{85}' || c == '\u{a0}' || c == '\u{1680}'
        || (c >= '\u{2000}' && c <= '\u{200a}') || c == '\u{2028}' || c == '\u{2029}'
        || c == '\u{202f}' || c == '\u{205f}' || c == '\u{3000}'
}

/// `str::trim_start`.
pub open spec fn trim_start(s: Seq<char>) -> Seq<char>
    decreases s.len(),
{
    if s.len() > 0 && is_ws(s[0]) {
        trim_start(s.drop_first())
    } else {
        s
    }
}

/// `str::trim_end`.
pub open spec fn trim_end(s: Seq<char>) -> Seq<char>
    decreases s.len(),
{
    if s.len() > 0 && is_ws(s.last()) {
        trim_end(s.drop_last())
    } else {
        s
    }
}

/// `str::trim`.
pub open spec fn trim(s: Seq<char>) -> Seq<char> {
    trim_end(trim_start(s))
}

/// Index of the first `'\n'` in `s`, or `s.len()` when there is none.
pub open spec fn nl_index(s: Seq<char>) -> nat
    decreases s.len(),
{
    if s.len() == 0 {
        0
    } else if s[0] == '\n' {
        0
    } else {
        1 + nl_index(s.drop_first())
    }
}

/// A line as `str::lines` yields it: one trailing `'\r'` is dropped.
pub open spec fn strip_cr(l: Seq<char>) -> Seq<char> {
    if l.len() > 0 && l.last() == '\r' {
        l.drop_last()
    } else {
        l
    }
}

/// `str::lines`: split at `'\n'`, drop a `'\r'` that precedes a `'\n'`, and
/// yield no empty last line after a final line ending.
pub open spec fn lines(s: Seq<char>) -> Seq<Seq<char>>
    decreases s.len(),
{
    if s.len() == 0 {
        Seq::empty()
    } else {
        let i = nl_index(s);
        if i >= s.len() {
            seq![s]
        } else {
            seq![strip_cr(s.take(i as int))] + lines(s.skip(i as int + 1))
        }
    }
}

/// Index of the first whitespace character of `s`, or `s.len()`.
pub open spec fn ws_index(s: Seq<char>) -> nat
    decreases s.len(),
{
    if s.len() == 0 {
        0
    } else if is_ws(s[0]) {
        0
    } else {
        1 + ws_index(s.drop_first())
    }
}

pub proof fn lemma_ws_index_bound(s: Seq<char>)
    ensures
        ws_index(s) <= s.len(),
        s.len() > 0 && !is_ws(s[0]) ==> ws_index(s) >= 1,
    decreases s.len(),
{
    if s.len() > 0 && !is_ws(s[0]) {
        lemma_ws_index_bound(s.drop_first());
    }
}

pub proof fn lemma_nl_index_bound(s: Seq<char>)
    ensures
        nl_index(s) <= s.len(),
    decreases s.len(),
{
    if s.len() > 0 && s[0] != '\n' {
        lemma_nl_index_bound(s.drop_first());
    }
}

/// `str::split_whitespace`: the maximal runs of non-whitespace characters.
pub open spec fn words(s: Seq<char>) -> Seq<Seq<char>>
    decreases s.len(),
{
    if s.len() == 0 {
        Seq::empty()
    } else if is_ws(s[0]) {
        words(s.drop_first())
    } else {
        let k = ws_index(s);
        proof {
            lemma_ws_index_bound(s);
        }
        seq![s.take(k as int)] + words(s.skip(k as int))
    }
}

pub open spec fn is_digit(c: char) -> bool {
    '0' <= c && c <= '9'
}

pub open spec fn digit_value(c: char) -> nat {
    (c as nat - '0' as nat) as nat
}

pub open spec fn all_digits(s: Seq<char>) -> bool {
    forall|i: int| 0 <= i < s.len() ==> is_digit(#[trigger] s[i])
}

/// The number that a string of decimal digits denotes.
pub open spec fn dec_value(s: Seq<char>) -> nat
    decreases s.len(),
{
    if s.len() == 0 {
        0
    } else {
        dec_value(s.drop_last()) * 10 + digit_value(s.last())
    }
}

/// The digits that `FromStr` for an unsigned integer reads: one optional
/// leading `'+'` is skipped.
pub open spec fn unsigned_digits(s: Seq<char>) -> Seq<char> {
    if s.len() > 0 && s[0] == '+' {
        s.drop_first()
    } else {
        s
    }
}

/// `FromStr` for an unsigned integer type whose largest value is `max`:
/// an optional `'+'`, then one or more decimal digits, and a value that fits.
pub open spec fn parse_unsigned(s: Seq<char>, max: nat) -> Option<nat> {
    let d = unsigned_digits(s);
    if d.len() > 0 && all_digits(d) && dec_value(d) <= max {
        Some(dec_value(d))
    } else {
        None
    }
}

/// `str::parse::<u64>().ok()`.
pub open spec fn parse_u64_spec(s: Seq<char>) -> Option<u64> {
    match parse_unsigned(s, u64::MAX as nat) {
        Some(n) => Some(n as u64),
        None => None,
    }
}

/// `str::parse::<u32>().ok()`.
pub open spec fn parse_u32_spec(s: Seq<char>) -> Option<u32> {
    match parse_unsigned(s, u32::MAX as nat) {
        Some(n) => Some(n as u32),
        None => None,
    }
}

/// Index of the first occurrence of `c` in `s`, if any.
pub open spec fn find_first(s: Seq<char>, c: char) -> Option<nat>
    decreases s.len(),
{
    if s.len() == 0 {
        None
    } else if s[0] == c {
        Some(0)
    } else {
        match find_first(s.drop_first(), c) {
            Some(i) => Some(i + 1),
            None => None,
        }
    }
}

/// `str::split_once(c)`.
pub open spec fn split_once(s: Seq<char>, c: char) -> Option<(Seq<char>, Seq<char>)> {
    match find_first(s, c) {
        Some(i) => Some((s.take(i as int), s.skip(i as int + 1))),
        None => None,
    }
}

/// `str::starts_with`.
pub open spec fn has_prefix(s: Seq<char>, p: Seq<char>) -> bool {
    p.len() <= s.len() && s.take(p.len() as int) == p
}

/// The text after the last `c` of `s`, or all of `s`: `s.rsplit(c).next()`.
pub open spec fn after_last(s: Seq<char>, c: char) -> Seq<char>
    decreases s.len(),
{
    if s.len() == 0 {
        s
    } else if s.last() == c {
        Seq::empty()
    } else {
        after_last(s.drop_last(), c).push(s.last())
    }
}

/// The decimal form of `n` as `ToString` writes it.
pub open spec fn dec_string(n: nat) -> Seq<char>
    decreases n,
{
    if n < 10 {
        seq![digit_char(n)]
    } else {
        dec_string(n / 10).push(digit_char(n % 10))
    }
}

pub open spec fn digit_char(d: nat) -> char {
    if d == 0 {
        '0'
    } else if d == 1 {
        '1'
    } else if d == 2 {
        '2'
    } else if d == 3 {
        '3'
    } else if d == 4 {
        '4'
    } else if d == 5 {
        '5'
    } else if d == 6 {
        '6'
    } else if d == 7 {
        '7'
    } else if d == 8 {
        '8'
    } else {
        '9'
    }
}

/// Append one character to a string.
///
/// Trusted: calls `String::push`, whose documentation says it appends the
/// given char to the end of the string.
#[verifier::external_body]
pub(crate) fn string_push(s: &mut String, c: char)
    ensures
        final(s)@ == old(s)@.push(c),
{
    s.push(c);
}

/// The characters of a string slice, in order.
pub fn str_chars(s: &str) -> (v: Vec<char>)
    ensures
        v@ == s@,
{
    let mut v: Vec<char> = Vec::new();
    for c in it: s.chars()
        invariant
            it.seq() == s@,
            v@ == s@.take(it.index()),
    {
        v.push(c);
    }
    proof {
        assert(s@.take(s@.len() as int) =~= s@);
    }
    v
}

/// Append the characters `v[lo..hi]` to `out`.
pub fn push_range(out: &mut String, v: &Vec<char>, lo: usize, hi: usize)
    requires
        lo <= hi <= v.len(),
    ensures
        final(out)@ == old(out)@ + v@.subrange(lo as int, hi as int),
{
    let mut i = lo;
    while i < hi
        invariant
            lo <= i <= hi <= v.len(),
            out@ == old(out)@ + v@.subrange(lo as int, i as int),
        decreases hi - i,
    {
        string_push(out, v[i]);
        proof {
            assert(v@.subrange(lo as int, i + 1) =~= v@.subrange(lo as int, i as int).push(v@[i as int]));
        }
        i += 1;
    }
}

/// Append the characters of `s` to `out`.
pub fn push_str(out: &mut String, s: &str)
    ensures
        final(out)@ == old(out)@ + s@,
{
    let v = str_chars(s);
    push_range(out, &v, 0, v.len());
    proof {
        assert(v@.subrange(0, v@.len() as int) =~= v@);
    }
}

/// A new string holding `v[lo..hi]`.
pub fn string_from_range(v: &Vec<char>, lo: usize, hi: usize) -> (s: String)
    requires
        lo <= hi <= v.len(),
    ensures
        s@ == v@.subrange(lo as int, hi as int),
{
    let mut s = String::new();
    push_range(&mut s, v, lo, hi);
    proof {
        assert(Seq::<char>::empty() + v@.subrange(lo as int, hi as int) =~= v@.subrange(lo as int, hi as int));
    }
    s
}

/// A copy of a string slice as an owned `String`.
pub fn string_of(s: &str) -> (r: String)
    ensures
        r@ == s@,
{
    let mut r = String::new();
    push_str(&mut r, s);
    proof {
        assert(Seq::<char>::empty() + s@ =~= s@);
    }
    r
}

/// Whether `v[lo..hi]` equals `w`.
pub fn range_eq(v: &Vec<char>, lo: usize, hi: usize, w: &Vec<char>) -> (b: bool)
    requires
        lo <= hi <= v.len(),
    ensures
        b == (v@.subrange(lo as int, hi as int) == w@),
{
    if hi - lo != w.len() {
        return false;
    }
    let mut i: usize = 0;
    while i < w.len()
        invariant
            lo <= hi <= v.len(),
            hi - lo == w.len(),
            0 <= i <= w.len(),
            forall|j: int| 0 <= j < i ==> v@[lo + j] == w@[j],
        decreases w.len() - i,
    {
        if v[lo + i] != w[i] {
            proof {
                assert(v@.subrange(lo as int, hi as int)[i as int] != w@[i as int]);
            }
            return false;
        }
        i += 1;
    }
    proof {
        assert(v@.subrange(lo as int, hi as int) =~= w@);
    }
    true
}

/// Whether `v[lo..hi]` equals the characters of `lit`.
pub fn range_eq_str(v: &Vec<char>, lo: usize, hi: usize, lit: &str) -> (b: bool)
    requires
        lo <= hi <= v.len(),
    ensures
        b == (v@.subrange(lo as int, hi as int) == lit@),
{
    let w = str_chars(lit);
    range_eq(v, lo, hi, &w)
}

/// Whether two string slices hold the same characters.
pub fn str_eq(a: &str, b: &str) -> (r: bool)
    ensures
        r == (a@ == b@),
{
    let va = str_chars(a);
    let r = range_eq_str(&va, 0, va.len(), b);
    proof {
        assert(va@.subrange(0, va@.len() as int) =~= va@);
    }
    r
}

/// Whether `v[lo..hi]` starts with the characters of `p`.
pub fn range_has_prefix(v: &Vec<char>, lo: usize, hi: usize, p: &Vec<char>) -> (b: bool)
    requires
        lo <= hi <= v.len(),
    ensures
        b == has_prefix(v@.subrange(lo as int, hi as int), p@),
{
    if p.len() > hi - lo {
        return false;
    }
    let r = range_eq(v, lo, lo + p.len(), p);
    proof {
        assert(v@.subrange(lo as int, hi as int).take(p@.len() as int) =~= v@.subrange(
            lo as int,
            lo + p@.len(),
        ));
    }
    r
}

/// The trimmed part of `v[lo..hi]`, as a range.
pub fn trim_range(v: &Vec<char>, lo: usize, hi: usize) -> (r: (usize, usize))
    requires
        lo <= hi <= v.len(),
    ensures
        lo <= r.0 <= r.1 <= hi,
        v@.subrange(r.0 as int, r.1 as int) == trim(v@.subrange(lo as int, hi as int)),
{
    let mut a = lo;
    while a < hi && is_ws_char(v[a])
        invariant
            lo <= a <= hi <= v.len(),
            trim_start(v@.subrange(lo as int, hi as int)) == trim_start(
                v@.subrange(a as int, hi as int),
            ),
        decreases hi - a,
    {
        proof {
            assert(v@.subrange(a as int, hi as int).drop_first() =~= v@.subrange(
                a + 1,
                hi as int,
            ));
        }
        a += 1;
    }
    let mut b = hi;
    while b > a && is_ws_char(v[b - 1])
        invariant
            lo <= a <= b <= hi <= v.len(),
            trim_start(v@.subrange(lo as int, hi as int)) == v@.subrange(a as int, hi as int),
            trim_end(v@.subrange(a as int, hi as int)) == trim_end(
                v@.subrange(a as int, b as int),
            ),
        decreases b - a,
    {
        proof {
            assert(v@.subrange(a as int, b as int).drop_last() =~= v@.subrange(
                a as int,
                b - 1,
            ));
        }
        b -= 1;
    }
    (a, b)
}

/// The end of the line that starts at `pos`: the first `'\n'` at or after
/// `pos`, or `end`.
fn line_end(v: &Vec<char>, pos: usize, end: usize) -> (j: usize)
    requires
        pos <= end <= v.len(),
    ensures
        pos <= j <= end,
        j == pos + nl_index(v@.subrange(pos as int, end as int)),
{
    let mut j = pos;
    while j < end && v[j] != '\n'
        invariant
            pos <= j <= end <= v.len(),
            nl_index(v@.subrange(pos as int, end as int)) == (j - pos) + nl_index(
                v@.subrange(j as int, end as int),
            ),
        decreases end - j,
    {
        proof {
            assert(v@.subrange(j as int, end as int).drop_first() =~= v@.subrange(
                j + 1,
                end as int,
            ));
        }
        j += 1;
    }
    j
}

/// The first line of `v[pos..end]` as `(start, stop, next)`: the line is
/// `v[start..stop]` and the lines after it start at `next`.
pub fn next_line(v: &Vec<char>, pos: usize, end: usize) -> (r: (usize, usize, usize))
    requires
        pos < end <= v.len(),
    ensures
        pos <= r.0 <= r.1 <= end,
        pos < r.2 <= end,
        lines(v@.subrange(pos as int, end as int)) == seq![v@.subrange(r.0 as int, r.1 as int)]
            + lines(v@.subrange(r.2 as int, end as int)),
{
    let ghost s = v@.subrange(pos as int, end as int);
    let j = line_end(v, pos, end);
    if j == end {
        proof {
            assert(lines(v@.subrange(end as int, end as int)) =~= Seq::<Seq<char>>::empty());
            assert(seq![s] + Seq::<Seq<char>>::empty() =~= seq![s]);
        }
        (pos, end, end)
    } else {
        let hi = if j > pos && v[j - 1] == '\r' {
            j - 1
        } else {
            j
        };
        proof {
            assert(s.take(j - pos) =~= v@.subrange(pos as int, j as int));
            assert(s.skip(j - pos + 1) =~= v@.subrange(j + 1, end as int));
            if j > pos && v@[j - 1] == '\r' {
                assert(v@.subrange(pos as int, j as int).drop_last() =~= v@.subrange(
                    pos as int,
                    j - 1,
                ));
            }
        }
        (pos, hi, j + 1)
    }
}

/// The first word of `v[pos..end]`, as `Some((start, stop))`, with the
/// words after it starting at `stop`; `None` when only whitespace is left.
pub fn next_word(v: &Vec<char>, pos: usize, end: usize) -> (r: Option<(usize, usize)>)
    requires
        pos <= end <= v.len(),
    ensures
        match r {
            None => words(v@.subrange(pos as int, end as int)) == Seq::<Seq<char>>::empty(),
            Some((a, b)) => pos <= a < b <= end && words(v@.subrange(pos as int, end as int))
                == seq![v@.subrange(a as int, b as int)] + words(
                v@.subrange(b as int, end as int),
            ),
        },
{
    let mut a = pos;
    while a < end && is_ws_char(v[a])
        invariant
            pos <= a <= end <= v.len(),
            words(v@.subrange(pos as int, end as int)) == words(v@.subrange(a as int, end as int)),
        decreases end - a,
    {
        proof {
            assert(v@.subrange(a as int, end as int).drop_first() =~= v@.subrange(
                a + 1,
                end as int,
            ));
        }
        a += 1;
    }
    if a == end {
        return None;
    }
    let mut b = a;
    while b < end && !is_ws_char(v[b])
        invariant
            a <= b <= end <= v.len(),
            a < end,
            ws_index(v@.subrange(a as int, end as int)) == (b - a) + ws_index(
                v@.subrange(b as int, end as int),
            ),
        decreases end - b,
    {
        proof {
            assert(v@.subrange(b as int, end as int).drop_first() =~= v@.subrange(
                b + 1,
                end as int,
            ));
        }
        b += 1;
    }
    proof {
        let s = v@.subrange(a as int, end as int);
        assert(ws_index(v@.subrange(b as int, end as int)) == 0);
        assert(s.take(b - a) =~= v@.subrange(a as int, b as int));
        assert(s.skip(b - a) =~= v@.subrange(b as int, end as int));
    }
    Some((a, b))
}


/// The ranges of the lines of `v`, in order.
pub fn line_ranges(v: &Vec<char>) -> (r: Vec<(usize, usize)>)
    ensures
        r@.len() == lines(v@).len(),
        forall|i: int| #![trigger r@[i]]
            0 <= i < r@.len() ==> r@[i].0 <= r@[i].1 <= v.len() && v@.subrange(
                r@[i].0 as int,
                r@[i].1 as int,
            ) == lines(v@)[i],
{
    let mut r: Vec<(usize, usize)> = Vec::new();
    let mut pos: usize = 0;
    let ghost done: Seq<Seq<char>> = Seq::empty();
    proof {
        assert(v@.subrange(0, v@.len() as int) =~= v@);
        assert(done + lines(v@.subrange(0, v@.len() as int)) =~= lines(v@));
    }
    while pos < v.len()
        invariant
            pos <= v.len(),
            lines(v@) == done + lines(v@.subrange(pos as int, v@.len() as int)),
            r@.len() == done.len(),
            forall|i: int| #![trigger r@[i]]
                0 <= i < r@.len() ==> r@[i].0 <= r@[i].1 <= v.len() && v@.subrange(
                    r@[i].0 as int,
                    r@[i].1 as int,
                ) == done[i],
        decreases v.len() - pos,
    {
        let (a, b, next) = next_line(v, pos, v.len());
        let ghost old_r = r@;
        r.push((a, b));
        proof {
            let l = v@.subrange(a as int, b as int);
            assert(done.push(l) + lines(v@.subrange(next as int, v@.len() as int)) =~= done + (seq![l]
                + lines(v@.subrange(next as int, v@.len() as int))));
            done = done.push(l);
            assert(forall|i: int| #![trigger r@[i]] 0 <= i < r@.len() - 1 ==> r@[i] == old_r[i]);
        }
        pos = next;
    }
    proof {
        assert(lines(v@.subrange(pos as int, v@.len() as int)) =~= Seq::<Seq<char>>::empty());
        assert(done + Seq::<Seq<char>>::empty() =~= done);
        assert(lines(v@) == done);
    }
    r
}

/// The ranges of the words of `v[lo..hi]`, in order.
pub fn word_ranges(v: &Vec<char>, lo: usize, hi: usize) -> (r: Vec<(usize, usize)>)
    requires
        lo <= hi <= v.len(),
    ensures
        r@.len() == words(v@.subrange(lo as int, hi as int)).len(),
        forall|i: int| #![trigger r@[i]]
            0 <= i < r@.len() ==> lo <= r@[i].0 <= r@[i].1 <= hi && v@.subrange(
                r@[i].0 as int,
                r@[i].1 as int,
            ) == words(v@.subrange(lo as int, hi as int))[i],
{
    let mut r: Vec<(usize, usize)> = Vec::new();
    let mut pos: usize = lo;
    let ghost done: Seq<Seq<char>> = Seq::empty();
    let ghost all = words(v@.subrange(lo as int, hi as int));
    proof {
        assert(done + all =~= all);
    }
    loop
        invariant
            lo <= pos <= hi <= v.len(),
            all == words(v@.subrange(lo as int, hi as int)),
            all == done + words(v@.subrange(pos as int, hi as int)),
            r@.len() == done.len(),
            forall|i: int| #![trigger r@[i]]
                0 <= i < r@.len() ==> lo <= r@[i].0 <= r@[i].1 <= hi && v@.subrange(
                    r@[i].0 as int,
                    r@[i].1 as int,
                ) == done[i],
        ensures
            all == done,
            r@.len() == done.len(),
            forall|i: int| #![trigger r@[i]]
                0 <= i < r@.len() ==> lo <= r@[i].0 <= r@[i].1 <= hi && v@.subrange(
                    r@[i].0 as int,
                    r@[i].1 as int,
                ) == done[i],
        decreases hi - pos,
    {
        match next_word(v, pos, hi) {
            None => {
                proof {
                    assert(done + Seq::<Seq<char>>::empty() =~= done);
                }
                break;
            },
            Some((a, b)) => {
                let ghost old_r = r@;
                r.push((a, b));
                proof {
                    let w = v@.subrange(a as int, b as int);
                    assert(done.push(w) + words(v@.subrange(b as int, hi as int)) =~= done + (seq![w]
                        + words(v@.subrange(b as int, hi as int))));
                    done = done.push(w);
                    assert(forall|i: int| #![trigger r@[i]] 0 <= i < r@.len() - 1 ==> r@[i] == old_r[i]);
                }
                pos = b;
            },
        }
    }
    r
}

/// `v[lo..hi]` parsed as a `u64`, as `str::parse::<u64>().ok()` would.
pub fn parse_u64_range(v: &Vec<char>, lo: usize, hi: usize) -> (r: Option<u64>)
    requires
        lo <= hi <= v.len(),
    ensures
        r == parse_u64_spec(v@.subrange(lo as int, hi as int)),
{
    parse_unsigned_range(v, lo, hi, u64::MAX)
}

/// `v[lo..hi]` parsed as a `u32`, as `str::parse::<u32>().ok()` would.
pub fn parse_u32_range(v: &Vec<char>, lo: usize, hi: usize) -> (r: Option<u32>)
    requires
        lo <= hi <= v.len(),
    ensures
        r == parse_u32_spec(v@.subrange(lo as int, hi as int)),
{
    match parse_unsigned_range(v, lo, hi, u32::MAX as u64) {
        Some(n) => Some(n as u32),
        None => None,
    }
}

/// The index of the first `c` in `v[lo..hi]`, if any.
pub fn find_char(v: &Vec<char>, lo: usize, hi: usize, c: char) -> (r: Option<usize>)
    requires
        lo <= hi <= v.len(),
    ensures
        match find_first(v@.subrange(lo as int, hi as int), c) {
            Some(i) => r == Some((lo + i) as usize),
            None => r is None,
        },
        r matches Some(j) ==> lo <= j < hi && v@[j as int] == c,
{
    let mut j = lo;
    while j < hi
        invariant
            lo <= j <= hi <= v.len(),
            find_first(v@.subrange(lo as int, hi as int), c) == (match find_first(
                v@.subrange(j as int, hi as int),
                c,
            ) {
                Some(i) => Some((i + (j - lo)) as nat),
                None => None,
            }),
        decreases hi - j,
    {
        if v[j] == c {
            proof {
                lemma_find_first(v@.subrange(lo as int, hi as int), c);
            }
            return Some(j);
        }
        proof {
            assert(v@.subrange(j as int, hi as int).drop_first() =~= v@.subrange(j + 1, hi as int));
        }
        j += 1;
    }
    None
}

pub proof fn lemma_find_first(s: Seq<char>, c: char)
    ensures
        find_first(s, c) matches Some(i) ==> i < s.len() && s[i as int] == c,
    decreases s.len(),
{
    if s.len() > 0 && s[0] != c {
        lemma_find_first(s.drop_first(), c);
    }
}

proof fn lemma_dec_value_step(s: Seq<char>, k: int)
    requires
        0 <= k < s.len(),
    ensures
        dec_value(s.take(k + 1)) == dec_value(s.take(k)) * 10 + digit_value(s[k]),
{
    assert(s.take(k + 1).drop_last() =~= s.take(k));
}

proof fn lemma_dec_value_grows(s: Seq<char>, k: int)
    requires
        0 <= k <= s.len(),
        all_digits(s),
    ensures
        dec_value(s.take(k)) <= dec_value(s),
    decreases s.len() - k,
{
    if k < s.len() {
        lemma_dec_value_step(s, k);
        lemma_dec_value_grows(s, k + 1);
    } else {
        assert(s.take(k) =~= s);
    }
}

/// `v[lo..hi]` parsed as an unsigned decimal number no larger than `max`.
pub fn parse_unsigned_range(v: &Vec<char>, lo: usize, hi: usize, max: u64) -> (r: Option<u64>)
    requires
        lo <= hi <= v.len(),
    ensures
        r == (match parse_unsigned(v@.subrange(lo as int, hi as int), max as nat) {
            Some(n) => Some(n as u64),
            None => None::<u64>,
        }),
{
    let ghost s = v@.subrange(lo as int, hi as int);
    let start = if lo < hi && v[lo] == '+' {
        lo + 1
    } else {
        lo
    };
    let ghost d = v@.subrange(start as int, hi as int);
    proof {
        assert(unsigned_digits(s) =~= d);
    }
    if start == hi {
        return None;
    }
    let mut i = start;
    let mut val: u64 = 0;
    while i < hi
        invariant
            lo <= start <= i <= hi <= v.len(),
            start < hi,
            d == v@.subrange(start as int, hi as int),
            s == v@.subrange(lo as int, hi as int),
            unsigned_digits(s) == d,
            forall|j: int| start <= j < i ==> is_digit(#[trigger] v@[j]),
            val == dec_value(d.take(i - start)),
            val <= max,
        decreases hi - i,
    {
        let c = v[i];
        if !(c >= '0' && c <= '9') {
            proof {
                assert(d[i - start] == v@[i as int]);
                assert(!is_digit(d[i - start]));
            }
            return None;
        }
        let dig = (c as u32 - '0' as u32) as u64;
        proof {
            lemma_dec_value_step(d, i - start);
            assert(d[i - start] == c);
        }
        if dig > max || val > (max - dig) / 10 {
            proof {
                if dig <= max {
                    assert(val * 10 + dig > max) by (nonlinear_arith)
                        requires
                            val > (max - dig) / 10,
                            dig <= max,
                    ;
                }
                if all_digits(d) {
                    lemma_dec_value_grows(d, i - start + 1);
                }
            }
            return None;
        }
        proof {
            assert(val * 10 + dig <= max) by (nonlinear_arith)
                requires
                    val <= (max - dig) / 10,
                    dig <= 9,
            ;
        }
        val = val * 10 + dig;
        i += 1;
    }
    proof {
        assert(d.take(hi - start) =~= d);
        assert(all_digits(d));
    }
    Some(val)
}


/// The code of `char::to_ascii_lowercase(c)`.
pub open spec fn ascii_fold(c: char) -> u32 {
    if 'A' <= c && c <= 'Z' {
        (c as u32 + 32) as u32
    } else {
        c as u32
    }
}

/// `str::eq_ignore_ascii_case`.
pub open spec fn eq_ignore_ascii_case_spec(a: Seq<char>, b: Seq<char>) -> bool {
    a.len() == b.len() && forall|i: int| 0 <= i < a.len() ==> ascii_fold(#[trigger] a[i]) == ascii_fold(b[i])
}

fn fold_char(c: char) -> (r: u32)
    ensures
        r == ascii_fold(c),
{
    if c >= 'A' && c <= 'Z' {
        (c as u32) + 32
    } else {
        c as u32
    }
}

/// Whether `a` and `b` are equal when ASCII letters are compared without case.
pub fn eq_ignore_ascii_case(a: &str, b: &str) -> (r: bool)
    ensures
        r == eq_ignore_ascii_case_spec(a@, b@),
{
    let va = str_chars(a);
    let vb = str_chars(b);
    if va.len() != vb.len() {
        return false;
    }
    let mut i: usize = 0;
    while i < va.len()
        invariant
            i <= va.len() == vb.len(),
            va@ == a@,
            vb@ == b@,
            forall|j: int| 0 <= j < i ==> ascii_fold(#[trigger] va@[j]) == ascii_fold(vb@[j]),
        decreases va.len() - i,
    {
        if fold_char(va[i]) != fold_char(vb[i]) {
            return false;
        }
        i = i + 1;
    }
    true
}

/// `s.parse::<u64>().ok()`.
pub fn parse_u64_str(s: &str) -> (r: Option<u64>)
    ensures
        r == parse_u64_spec(s@),
{
    let v = str_chars(s);
    let r = parse_u64_range(&v, 0, v.len());
    proof {
        assert(v@.subrange(0, v@.len() as int) =~= v@);
    }
    r
}


/// The text after the last `c` of `s` (all of `s` when it has none).
pub fn string_after_last(s: &str, c: char) -> (r: String)
    ensures
        r@ == after_last(s@, c),
{
    let v = str_chars(s);
    let mut i = v.len();
    proof {
        assert(v@.subrange(i as int, v@.len() as int) =~= Seq::<char>::empty());
        assert(v@.take(i as int) =~= v@);
        assert(after_last(v@, c) + Seq::<char>::empty() =~= after_last(v@, c));
    }
    while i > 0 && v[i - 1] != c
        invariant
            i <= v.len(),
            v@ == s@,
            after_last(v@, c) == after_last(v@.take(i as int), c) + v@.subrange(i as int, v@.len() as int),
        decreases i,
    {
        proof {
            let t = v@.take(i as int);
            assert(t.drop_last() =~= v@.take(i - 1));
            assert(t.last() == v@[i - 1]);
            assert(v@.subrange(i - 1, v@.len() as int) =~= seq![v@[i - 1]] + v@.subrange(i as int, v@.len() as int));
            assert(after_last(t, c) == after_last(t.drop_last(), c).push(t.last()));
            assert(after_last(t.drop_last(), c).push(t.last()) + v@.subrange(i as int, v@.len() as int)
                =~= after_last(t.drop_last(), c) + v@.subrange(i - 1, v@.len() as int));
        }
        i = i - 1;
    }
    proof {
        if i > 0 {
            let t = v@.take(i as int);
            assert(t.last() == c);
            assert(after_last(t, c) =~= Seq::<char>::empty());
        } else {
            assert(v@.take(0) =~= Seq::<char>::empty());
        }
        assert(Seq::<char>::empty() + v@.subrange(i as int, v@.len() as int) =~= v@.subrange(i as int, v@.len() as int));
    }
    string_from_range(&v, i, v.len())
}

/// `s` with every `from` replaced by `to`.
pub open spec fn replace_char(s: Seq<char>, from: char, to: char) -> Seq<char> {
    s.map_values(|x: char| if x == from { to } else { x })
}

/// A copy of `s` with every `from` replaced by `to`.
pub fn string_replace_char(s: &str, from: char, to: char) -> (r: String)
    ensures
        r@ == replace_char(s@, from, to),
{
    let v = str_chars(s);
    let mut r = String::new();
    let mut i: usize = 0;
    while i < v.len()
        invariant
            i <= v.len(),
            v@ == s@,
            r@ == replace_char(v@.take(i as int), from, to),
        decreases v.len() - i,
    {
        let x = if v[i] == from {
            to
        } else {
            v[i]
        };
        string_push(&mut r, x);
        proof {
            assert(replace_char(v@.take(i + 1), from, to) =~= replace_char(v@.take(i as int), from, to).push(x));
        }
        i = i + 1;
    }
    proof {
        assert(v@.take(i as int) =~= v@);
    }
    r
}


/// Whether `p` occurs in `s`.
pub open spec fn contains_seq(s: Seq<char>, p: Seq<char>) -> bool {
    exists|i: int| 0 <= i && i + p.len() <= s.len() && #[trigger] s.subrange(i, i + p.len()) == p
}

/// `str::contains` with a string pattern.
pub fn str_contains(s: &str, p: &str) -> (r: bool)
    ensures
        r == contains_seq(s@, p@),
{
    let v = str_chars(s);
    let w = str_chars(p);
    if w.len() > v.len() {
        return false;
    }
    if w.len() == 0 {
        assert(s@.subrange(0, 0 + p@.len() as int) =~= p@);
        return true;
    }
    let mut i: usize = 0;
    let last = v.len() - w.len();
    while i <= last
        invariant
            0 < w.len() <= v.len(),
            last == v.len() - w.len(),
            v@ == s@,
            w@ == p@,
            i <= last + 1,
            forall|j: int| 0 <= j < i ==> #[trigger] v@.subrange(j, j + w@.len()) != w@,
        decreases last + 1 - i,
    {
        if range_eq(&v, i, i + w.len(), &w) {
            return true;
        }
        i = i + 1;
    }
    false
}

/// `str::parse::<i32>().ok()`: an optional sign, then one or more decimal
/// digits, and a value that fits.
pub open spec fn parse_i32_spec(s: Seq<char>) -> Option<i32> {
    if s.len() > 0 && s[0] == '-' {
        let d = s.drop_first();
        if d.len() > 0 && all_digits(d) && dec_value(d) <= 0x8000_0000 {
            Some((0 - dec_value(d)) as i32)
        } else {
            None
        }
    } else {
        match parse_unsigned(s, 0x7fff_ffff) {
            Some(n) => Some(n as i32),
            None => None,
        }
    }
}

/// `s.parse::<i32>().ok()`.
pub fn parse_i32_str(s: &str) -> (r: Option<i32>)
    ensures
        r == parse_i32_spec(s@),
{
    let v = str_chars(s);
    if v.len() > 0 && v[0] == '-' {
        proof {
            assert(v@.subrange(1, v@.len() as int) =~= v@.drop_first());
            if v@.drop_first().len() > 0 && all_digits(v@.drop_first()) {
                assert(unsigned_digits(v@.drop_first()) == v@.drop_first());
            }
        }
        if v.len() > 1 && v[1] == '+' {
            proof {
                assert(!all_digits(v@.drop_first())) by {
                    assert(!is_digit(v@.drop_first()[0]));
                }
            }
            return None;
        }
        match parse_unsigned_range(&v, 1, v.len(), 0x8000_0000) {
            Some(n) => {
                let m: i64 = 0 - (n as i64);
                Some(m as i32)
            },
            None => None,
        }
    } else {
        let r = parse_unsigned_range(&v, 0, v.len(), 0x7fff_ffff);
        proof {
            assert(v@.subrange(0, v@.len() as int) =~= v@);
        }
        match r {
            Some(n) => Some(n as i32),
            None => None,
        }
    }
}

/// The order of `String`: lexicographic by character (code point), a
/// proper prefix first.
pub open spec fn str_less(a: Seq<char>, b: Seq<char>) -> bool
    decreases a.len(),
{
    if a.len() == 0 {
        b.len() > 0
    } else if b.len() == 0 {
        false
    } else if a[0] == b[0] {
        str_less(a.drop_first(), b.drop_first())
    } else {
        (a[0] as int) < (b[0] as int)
    }
}

/// No string is less than itself.
pub proof fn lemma_str_less_irreflexive(a: Seq<char>)
    ensures
        !str_less(a, a),
    decreases a.len(),
{
    if a.len() > 0 {
        lemma_str_less_irreflexive(a.drop_first());
    }
}

/// The order is transitive.
pub proof fn lemma_str_less_transitive(a: Seq<char>, b: Seq<char>, c: Seq<char>)
    requires
        str_less(a, b),
        str_less(b, c),
    ensures
        str_less(a, c),
    decreases a.len(),
{
    if a.len() > 0 && b.len() > 0 && c.len() > 0 && a[0] == b[0] && b[0] == c[0] {
        lemma_str_less_transitive(a.drop_first(), b.drop_first(), c.drop_first());
    }
}

/// Of two different strings, one is less than the other.
pub proof fn lemma_str_less_total(a: Seq<char>, b: Seq<char>)
    ensures
        a == b || str_less(a, b) || str_less(b, a),
    decreases a.len(),
{
    if a.len() > 0 && b.len() > 0 && a[0] == b[0] {
        lemma_str_less_total(a.drop_first(), b.drop_first());
        if a.drop_first() == b.drop_first() {
            assert(a =~= seq![a[0]] + a.drop_first());
            assert(b =~= seq![b[0]] + b.drop_first());
        }
    } else if a.len() > 0 && b.len() > 0 {
        assert((a[0] as int) != (b[0] as int));
    } else if a.len() == 0 && b.len() == 0 {
        assert(a =~= b);
    }
}

/// Whether `a` comes before `b` in the order of `String`.
pub fn str_less_than(a: &str, b: &str) -> (r: bool)
    ensures
        r == str_less(a@, b@),
{
    let va = str_chars(a);
    let vb = str_chars(b);
    let mut i: usize = 0;
    proof {
        assert(va@.skip(0) =~= va@);
        assert(vb@.skip(0) =~= vb@);
    }
    while i < va.len() && i < vb.len()
        invariant
            i <= va@.len(),
            i <= vb@.len(),
            va@ == a@,
            vb@ == b@,
            str_less(a@, b@) == str_less(va@.skip(i as int), vb@.skip(i as int)),
        decreases va.len() - i,
    {
        if va[i] != vb[i] {
            return va[i] < vb[i];
        }
        proof {
            assert(va@.skip(i as int).drop_first() =~= va@.skip(i + 1));
            assert(vb@.skip(i as int).drop_first() =~= vb@.skip(i + 1));
        }
        i = i + 1;
    }
    i == va.len() && i < vb.len()
}


/// The text after the last `c` of `pre`, `c` and a `t` free of `c` is `t`.
pub proof fn lemma_after_last_of_suffix(pre: Seq<char>, c: char, t: Seq<char>)
    requires
        !t.contains(c),
    ensures
        after_last(pre + seq![c] + t, c) == t,
    decreases t.len(),
{
    let s = pre + seq![c] + t;
    if t.len() == 0 {
        assert(s.last() == c);
    } else {
        assert(s.drop_last() =~= pre + seq![c] + t.drop_last());
        assert(s.last() == t.last());
        assert(t.last() != c) by {
            assert(t[t.len() - 1] == t.last());
        }
        assert(!t.drop_last().contains(c)) by {
            if t.drop_last().contains(c) {
                let i = choose|i: int| 0 <= i < t.drop_last().len() && t.drop_last()[i] == c;
                assert(t[i] == c);
            }
        }
        lemma_after_last_of_suffix(pre, c, t.drop_last());
        assert(t.drop_last().push(t.last()) =~= t);
    }
}

} // verus!
