//! Text handling on `Seq<char>`: whitespace trimming, splitting at a
//! separator, line splitting, unsigned decimal numbers, and the few `String`
//! builders the rest of the crate uses.
use vstd::prelude::*;

verus! {

// ---------------------------------------------------------------------------
// Specifications
// ---------------------------------------------------------------------------

/// Unicode `White_Space`, the property that `char::is_whitespace` tests.
pub open spec fn is_space(c: char) -> bool {
    let n = c as u32;
    ||| 0x09 <= n <= 0x0d
    ||| n == 0x20
    ||| n == 0x85
    ||| n == 0xa0
    ||| n == 0x1680
    ||| 0x2000 <= n <= 0x200a
    ||| n == 0x2028
    ||| n == 0x2029
    ||| n == 0x202f
    ||| n == 0x205f
    ||| n == 0x3000
}

/// `s` without its leading whitespace.
pub open spec fn trim_start(s: Seq<char>) -> Seq<char>
    decreases s.len(),
{
    if s.len() > 0 && is_space(s[0]) {
        trim_start(s.drop_first())
    } else {
        s
    }
}

/// `s` without its trailing whitespace.
pub open spec fn trim_end(s: Seq<char>) -> Seq<char>
    decreases s.len(),
{
    if s.len() > 0 && is_space(s.last()) {
        trim_end(s.drop_last())
    } else {
        s
    }
}

/// `s` without leading and trailing whitespace (`str::trim`).
pub open spec fn trim(s: Seq<char>) -> Seq<char> {
    trim_end(trim_start(s))
}

/// The pieces of `s` between occurrences of `sep`, in order (`str::split`
/// with a one-character pattern). There is always at least one piece.
pub open spec fn split(s: Seq<char>, sep: char) -> Seq<Seq<char>>
    decreases s.len(),
{
    if s.len() == 0 {
        seq![Seq::<char>::empty()]
    } else {
        let pieces = split(s.drop_last(), sep);
        if s.last() == sep {
            pieces.push(Seq::<char>::empty())
        } else {
            pieces.update(pieces.len() - 1, pieces.last().push(s.last()))
        }
    }
}

/// A line with the carriage return of a `\r\n` line ending removed.
pub open spec fn strip_cr(l: Seq<char>) -> Seq<char> {
    if l.len() > 0 && l.last() == '\r' {
        l.drop_last()
    } else {
        l
    }
}

/// The lines of `s` (`str::lines`): the pieces between line feeds, each
/// without the carriage return of a `\r\n` ending; a line feed at the very
/// end does not start another line.
pub open spec fn lines(s: Seq<char>) -> Seq<Seq<char>> {
    let p = split(s, '\n');
    let n = if p.last().len() == 0 { p.len() - 1 } else { p.len() as int };
    Seq::new(n as nat, |j: int| if j < p.len() - 1 { strip_cr(p[j]) } else { p[j] })
}

/// The views of a list of strings.
pub open spec fn string_views(v: Seq<String>) -> Seq<Seq<char>> {
    v.map_values(|s: String| s@)
}

/// Whether `s` contains `pat` as a contiguous part.
pub open spec fn contains(s: Seq<char>, pat: Seq<char>) -> bool {
    exists|i: int| 0 <= i <= s.len() - pat.len() && #[trigger] s.subrange(i, i + pat.len()) == pat
}

/// Whether `s` begins with `pat`.
pub open spec fn starts_with(s: Seq<char>, pat: Seq<char>) -> bool {
    pat.len() <= s.len() && s.subrange(0, pat.len() as int) == pat
}

/// Whether `c` is one of the ASCII digits `0` to `9`.
pub open spec fn is_digit(c: char) -> bool {
    '0' <= c <= '9'
}

/// The number that the decimal digits `s` spell.
pub open spec fn digits_value(s: Seq<char>) -> int
    decreases s.len(),
{
    if s.len() == 0 {
        0
    } else {
        digits_value(s.drop_last()) * 10 + (s.last() as int - '0' as int)
    }
}

/// Whether every character of `s` is a decimal digit.
pub open spec fn all_digits(s: Seq<char>) -> bool {
    forall|i: int| 0 <= i < s.len() ==> is_digit(#[trigger] s[i])
}

/// What `u64::from_str` gives: an optional `+`, then at least one decimal
/// digit and nothing else, with a value that fits in 64 bits.
pub open spec fn parse_u64(s: Seq<char>) -> Option<u64> {
    let d = if s.len() > 0 && s[0] == '+' { s.drop_first() } else { s };
    if d.len() > 0 && all_digits(d) && digits_value(d) <= u64::MAX {
        Some(digits_value(d) as u64)
    } else {
        None
    }
}

/// The digit character for `d < 10`.
pub open spec fn digit_char(d: int) -> char {
    (d + '0' as int) as char
}

/// The decimal notation of `n`, without leading zeros (`{}` on an integer).
pub open spec fn decimal(n: nat) -> Seq<char>
    decreases n,
{
    if n < 10 {
        seq![digit_char(n as int)]
    } else {
        decimal(n / 10).push(digit_char((n % 10) as int))
    }
}

/// The decimal notation of `n`, padded with zeros to two characters (`{:02}`).
pub open spec fn decimal2(n: nat) -> Seq<char> {
    if n < 10 {
        seq!['0'] + decimal(n)
    } else {
        decimal(n)
    }
}

/// `m:ss`, the minutes and the zero-padded seconds of `secs` seconds
/// (`format!("{}:{:02}", secs / 60, secs % 60)`).
pub open spec fn clock(secs: nat) -> Seq<char> {
    decimal(secs / 60) + seq![':'] + decimal2(secs % 60)
}

// ---------------------------------------------------------------------------
// Lemmas
// ---------------------------------------------------------------------------

proof fn lemma_trim_start(s: Seq<char>, k: int)
    requires
        0 <= k <= s.len(),
        forall|i: int| 0 <= i < k ==> is_space(#[trigger] s[i]),
        k == s.len() || !is_space(s[k]),
    ensures
        trim_start(s) == s.subrange(k, s.len() as int),
    decreases k,
{
    if k == 0 {
        assert(s.subrange(0, s.len() as int) =~= s);
    } else {
        let t = s.drop_first();
        assert forall|i: int| 0 <= i < k - 1 implies is_space(#[trigger] t[i]) by {
            assert(is_space(s[i + 1]));
        }
        lemma_trim_start(t, k - 1);
        assert(t.subrange(k - 1, t.len() as int) =~= s.subrange(k, s.len() as int));
    }
}

proof fn lemma_trim_end(s: Seq<char>, k: int)
    requires
        0 <= k <= s.len(),
        forall|i: int| k <= i < s.len() ==> is_space(#[trigger] s[i]),
        k == 0 || !is_space(s[k - 1]),
    ensures
        trim_end(s) == s.subrange(0, k),
    decreases s.len() - k,
{
    if k == s.len() {
        assert(s.subrange(0, k) =~= s);
    } else {
        let t = s.drop_last();
        assert(is_space(s[s.len() - 1]));
        assert forall|i: int| k <= i < t.len() implies is_space(#[trigger] t[i]) by {
            assert(is_space(s[i]));
        }
        lemma_trim_end(t, k);
        assert(t.subrange(0, k) =~= s.subrange(0, k));
    }
}

proof fn lemma_digits_prefix(d: Seq<char>, k: int)
    requires
        0 <= k <= d.len(),
        all_digits(d),
    ensures
        0 <= digits_value(d.take(k)) <= digits_value(d),
    decreases d.len(),
{
    if k == d.len() {
        assert(d.take(k) =~= d);
        lemma_digits_nonneg(d);
    } else {
        let t = d.drop_last();
        assert(all_digits(t)) by {
            assert forall|i: int| 0 <= i < t.len() implies is_digit(#[trigger] t[i]) by {
                assert(is_digit(d[i]));
            }
        }
        lemma_digits_prefix(t, k);
        assert(t.take(k) =~= d.take(k));
        assert(is_digit(d[d.len() - 1]));
    }
}

proof fn lemma_digits_nonneg(d: Seq<char>)
    requires
        all_digits(d),
    ensures
        digits_value(d) >= 0,
    decreases d.len(),
{
    if d.len() > 0 {
        let t = d.drop_last();
        assert forall|i: int| 0 <= i < t.len() implies is_digit(#[trigger] t[i]) by {
            assert(is_digit(d[i]));
        }
        lemma_digits_nonneg(t);
        assert(is_digit(d[d.len() - 1]));
    }
}

proof fn lemma_digit_char(d: int)
    requires
        0 <= d < 10,
    ensures
        digit_char(d) as int == d + '0' as int,
        is_digit(digit_char(d)),
{
}

/// The decimal notation of `n` is made of digits and spells `n`.
pub proof fn lemma_decimal_value(n: nat)
    ensures
        decimal(n).len() > 0,
        all_digits(decimal(n)),
        digits_value(decimal(n)) == n,
    decreases n,
{
    if n < 10 {
        lemma_digit_char(n as int);
        assert(decimal(n).drop_last() =~= Seq::<char>::empty());
        assert(digits_value(Seq::<char>::empty()) == 0);
        assert(digits_value(decimal(n)) == digits_value(decimal(n).drop_last()) * 10 + (decimal(n).last() as int - '0' as int));
    } else {
        lemma_digit_char((n % 10) as int);
        lemma_decimal_value(n / 10);
        assert(n == (n / 10) * 10 + n % 10);
        let s = decimal(n);
        assert(s.drop_last() =~= decimal(n / 10));
        assert(s.last() == digit_char((n % 10) as int));
        assert(digits_value(s) == digits_value(s.drop_last()) * 10 + (s.last() as int - '0' as int));
        assert forall|i: int| 0 <= i < s.len() implies is_digit(#[trigger] s[i]) by {
            if i < s.len() - 1 {
                assert(s[i] == decimal(n / 10)[i]);
            }
        }
    }
}

// ---------------------------------------------------------------------------
// Executable helpers
// ---------------------------------------------------------------------------

/// Appends one character to a string (`String::push`).
#[verifier::external_body]
pub(crate) fn push_char(s: &mut String, c: char)
    ensures
        final(s)@ == old(s)@.push(c),
{
    s.push(c);
}

/// The characters of `s`, in order.
pub fn chars_of(s: &str) -> (r: Vec<char>)
    ensures
        r@ == s@,
{
    let mut r: Vec<char> = Vec::new();
    for c in it: s.chars()
        invariant
            r@ == it.seq().take(it.index() as int),
            it.seq() == s@,
    {
        r.push(c);
    }
    r
}

/// A string made of `v[lo..hi]`.
pub(crate) fn string_of(v: &Vec<char>, lo: usize, hi: usize) -> (r: String)
    requires
        lo <= hi <= v.len(),
    ensures
        r@ == v@.subrange(lo as int, hi as int),
{
    let mut r = String::new();
    let mut i = lo;
    while i < hi
        invariant
            lo <= i <= hi <= v.len(),
            r@ == v@.subrange(lo as int, i as int),
        decreases hi - i,
    {
        push_char(&mut r, v[i]);
        assert(v@.subrange(lo as int, i + 1) =~= v@.subrange(lo as int, i as int).push(v@[i as int]));
        i = i + 1;
    }
    r
}

/// Whether `c` is whitespace (`char::is_whitespace`).
pub fn is_space_char(c: char) -> (r: bool)
    ensures
        r == is_space(c),
{
    let n = c as u32;
    (0x09 <= n && n <= 0x0d) || n == 0x20 || n == 0x85 || n == 0xa0 || n == 0x1680 || (0x2000
        <= n && n <= 0x200a) || n == 0x2028 || n == 0x2029 || n == 0x202f || n == 0x205f || n
        == 0x3000
}

/// The bounds of `v[lo..hi]` without its leading and trailing whitespace.
pub(crate) fn trim_bounds(v: &Vec<char>, lo: usize, hi: usize) -> (r: (usize, usize))
    requires
        lo <= hi <= v.len(),
    ensures
        lo <= r.0 <= r.1 <= hi,
        trim(v@.subrange(lo as int, hi as int)) == v@.subrange(r.0 as int, r.1 as int),
{
    let ghost s = v@.subrange(lo as int, hi as int);
    let mut a = lo;
    while a < hi && is_space_char(v[a])
        invariant
            lo <= a <= hi <= v.len(),
            s == v@.subrange(lo as int, hi as int),
            forall|i: int| lo <= i < a ==> is_space(#[trigger] v@[i]),
        decreases hi - a,
    {
        a = a + 1;
    }
    proof {
        assert forall|i: int| 0 <= i < a - lo implies is_space(#[trigger] s[i]) by {
            assert(s[i] == v@[lo + i]);
        }
        lemma_trim_start(s, a - lo);
        assert(s.subrange(a - lo, s.len() as int) =~= v@.subrange(a as int, hi as int));
    }
    let ghost t = v@.subrange(a as int, hi as int);
    let mut b = hi;
    while b > a && is_space_char(v[b - 1])
        invariant
            lo <= a <= b <= hi <= v.len(),
            t == v@.subrange(a as int, hi as int),
            forall|i: int| b <= i < hi ==> is_space(#[trigger] v@[i]),
        decreases b - a,
    {
        b = b - 1;
    }
    proof {
        assert forall|i: int| b - a <= i < t.len() implies is_space(#[trigger] t[i]) by {
            assert(t[i] == v@[a + i]);
        }
        if b > a {
            assert(t[b - a - 1] == v@[b - 1]);
        }
        lemma_trim_end(t, b - a);
        assert(t.subrange(0, b - a) =~= v@.subrange(a as int, b as int));
    }
    (a, b)
}

/// The pieces of `v` that the index pairs of `p` bound.
pub open spec fn pieces_of(v: Seq<char>, p: Seq<(usize, usize)>) -> Seq<Seq<char>> {
    Seq::new(p.len(), |j: int| v.subrange(p[j].0 as int, p[j].1 as int))
}

/// Every pair of `p` bounds a part of `v[lo..hi]`.
pub open spec fn pieces_within(p: Seq<(usize, usize)>, lo: int, hi: int) -> bool {
    forall|j: int| 0 <= j < p.len() ==> lo <= (#[trigger] p[j]).0 <= p[j].1 <= hi
}

/// The bounds of the pieces of `v[lo..hi]` between occurrences of `sep`.
pub(crate) fn split_bounds(v: &Vec<char>, lo: usize, hi: usize, sep: char) -> (r: Vec<(usize, usize)>)
    requires
        lo <= hi <= v.len(),
    ensures
        pieces_within(r@, lo as int, hi as int),
        pieces_of(v@, r@) == split(v@.subrange(lo as int, hi as int), sep),
{
    let mut p: Vec<(usize, usize)> = Vec::new();
    p.push((lo, lo));
    assert(v@.subrange(lo as int, lo as int) =~= Seq::<char>::empty());
    assert(pieces_of(v@, p@) =~= split(v@.subrange(lo as int, lo as int), sep));
    let mut i = lo;
    while i < hi
        invariant
            lo <= i <= hi <= v.len(),
            p.len() >= 1,
            p@.last().1 == i,
            pieces_within(p@, lo as int, i as int),
            pieces_of(v@, p@) == split(v@.subrange(lo as int, i as int), sep),
        decreases hi - i,
    {
        let c = v[i];
        let ghost old_p = p@;
        let ghost prefix = v@.subrange(lo as int, i + 1);
        assert(prefix.drop_last() =~= v@.subrange(lo as int, i as int));
        assert(prefix.last() == c);
        if c == sep {
            p.push((i + 1, i + 1));
            assert(pieces_of(v@, p@) =~= pieces_of(v@, old_p).push(Seq::<char>::empty())) by {
                assert(v@.subrange(i + 1, i + 1) =~= Seq::<char>::empty());
            }
        } else {
            let k = p.len() - 1;
            let start = p[k].0;
            p.set(k, (start, i + 1));
            assert(pieces_of(v@, p@) =~= pieces_of(v@, old_p).update(
                k as int,
                pieces_of(v@, old_p).last().push(c),
            )) by {
                assert(v@.subrange(start as int, i + 1) =~= v@.subrange(start as int, i as int).push(c));
            }
        }
        i = i + 1;
    }
    p
}

/// The bounds of the lines of `v`.
pub(crate) fn line_bounds(v: &Vec<char>) -> (r: Vec<(usize, usize)>)
    ensures
        pieces_within(r@, 0, v.len() as int),
        pieces_of(v@, r@) == lines(v@),
{
    let p = split_bounds(v, 0, v.len(), '\n');
    assert(v@.subrange(0, v.len() as int) =~= v@);
    let ghost pieces = split(v@, '\n');
    proof {
        lemma_split_nonempty(v@, '\n');
    }
    let k = p.len() - 1;
    let n = if p[k].0 == p[k].1 { k } else { p.len() };
    let mut r: Vec<(usize, usize)> = Vec::new();
    let mut j: usize = 0;
    while j < n
        invariant
            0 <= j <= n <= p.len(),
            k == p.len() - 1,
            pieces_within(p@, 0, v.len() as int),
            pieces_of(v@, p@) == pieces,
            pieces_within(r@, 0, v.len() as int),
            r.len() == j,
            forall|i: int| 0 <= i < j ==> #[trigger] pieces_of(v@, r@)[i] == (if i < pieces.len() - 1 { strip_cr(pieces[i]) } else { pieces[i] }),
        decreases n - j,
    {
        let (a, b) = p[j];
        let ghost old_r = r@;
        assert(pieces[j as int] == v@.subrange(a as int, b as int));
        assert(pieces.len() == p.len());
        if j < k && b > a && v[b - 1] == '\r' {
            r.push((a, b - 1));
            assert(v@.subrange(a as int, b - 1) =~= v@.subrange(a as int, b as int).drop_last());
        } else {
            r.push((a, b));
        }
        assert forall|i: int| 0 <= i < j + 1 implies #[trigger] pieces_of(v@, r@)[i] == (if i < pieces.len() - 1 { strip_cr(pieces[i]) } else { pieces[i] }) by {
            if i < j {
                assert(pieces_of(v@, r@)[i] == v@.subrange(r@[i].0 as int, r@[i].1 as int));
                assert(r@[i] == old_r[i]);
                assert(pieces_of(v@, old_r)[i] == v@.subrange(old_r[i].0 as int, old_r[i].1 as int));
            } else {
                assert(pieces_of(v@, r@)[i] == v@.subrange(r@[i].0 as int, r@[i].1 as int));
                if b > a {
                    assert(pieces[j as int].last() == v@[b - 1]);
                }
            }
        }
        j = j + 1;
    }
    assert(pieces_of(v@, r@) =~= lines(v@));
    r
}

proof fn lemma_split_nonempty(s: Seq<char>, sep: char)
    ensures
        split(s, sep).len() >= 1,
    decreases s.len(),
{
    if s.len() > 0 {
        lemma_split_nonempty(s.drop_last(), sep);
    }
}

/// What `u64::from_str` gives on `v[lo..hi]`.
pub(crate) fn parse_u64_in(v: &Vec<char>, lo: usize, hi: usize) -> (r: Option<u64>)
    requires
        lo <= hi <= v.len(),
    ensures
        r == parse_u64(v@.subrange(lo as int, hi as int)),
{
    let ghost s = v@.subrange(lo as int, hi as int);
    let mut i = lo;
    if i < hi && v[i] == '+' {
        i = i + 1;
    }
    let ghost d = v@.subrange(i as int, hi as int);
    assert(d =~= (if s.len() > 0 && s[0] == '+' { s.drop_first() } else { s }));
    if i == hi {
        return None;
    }
    let start = i;
    let mut value: u64 = 0;
    assert(v@.subrange(start as int, start as int) =~= Seq::<char>::empty());
    while i < hi
        invariant
            lo <= start <= i <= hi <= v.len(),
            s == v@.subrange(lo as int, hi as int),
            d == v@.subrange(start as int, hi as int),
            d.len() > 0,
            d == (if s.len() > 0 && s[0] == '+' { s.drop_first() } else { s }),
            all_digits(v@.subrange(start as int, i as int)),
            value == digits_value(v@.subrange(start as int, i as int)),
        decreases hi - i,
    {
        let c = v[i];
        let ghost next = v@.subrange(start as int, i + 1);
        assert(next.drop_last() =~= v@.subrange(start as int, i as int));
        assert(next.last() == c);
        if !('0' <= c && c <= '9') {
            assert(d[i - start] == c);
            assert(!is_digit(d[i - start]));
            assert(!all_digits(d));
            return None;
        }
        let digit = (c as u32 - '0' as u32) as u64;
        assert(all_digits(next)) by {
            assert forall|j: int| 0 <= j < next.len() implies is_digit(#[trigger] next[j]) by {
                if j < next.len() - 1 {
                    assert(next[j] == v@.subrange(start as int, i as int)[j]);
                }
            }
        }
        if value > (u64::MAX - digit) / 10 {
            proof {
                assert(digits_value(next) == value * 10 + digit);
                assert(value * 10 + digit > u64::MAX);
                if all_digits(d) {
                    assert(d.take(i + 1 - start) =~= next);
                    lemma_digits_prefix(d, i + 1 - start);
                }
            }
            return None;
        }
        value = value * 10 + digit;
        i = i + 1;
    }
    assert(v@.subrange(start as int, i as int) =~= d);
    Some(value)
}

/// Appends the decimal notation of `n` to `out`.
pub(crate) fn push_decimal(out: &mut String, n: u64)
    ensures
        final(out)@ == old(out)@ + decimal(n as nat),
    decreases n,
{
    if n >= 10 {
        push_decimal(out, n / 10);
    }
    let c = (48u8 + (n % 10) as u8) as char;
    assert(c == digit_char((n % 10) as int));
    push_char(out, c);
    assert(decimal(n as nat) == (if n < 10 { seq![digit_char(n as int)] } else { decimal((n / 10) as nat).push(digit_char((n % 10) as int)) }));
}

/// Whether `s[i..i + p.len()]` is `p`.
fn matches_at(s: &Vec<char>, p: &Vec<char>, i: usize) -> (r: bool)
    requires
        i + p.len() <= s.len(),
    ensures
        r == (s@.subrange(i as int, i + p.len()) == p@),
{
    let mut j: usize = 0;
    while j < p.len()
        invariant
            i + p.len() <= s.len(),
            j <= p.len(),
            forall|k: int| 0 <= k < j ==> s@[i + k] == p@[k],
        decreases p.len() - j,
    {
        if s[i + j] != p[j] {
            assert(s@.subrange(i as int, i + p.len())[j as int] != p@[j as int]);
            return false;
        }
        j = j + 1;
    }
    assert(s@.subrange(i as int, i + p.len()) =~= p@);
    true
}

/// Whether `s` contains `pat` (`str::contains`).
pub fn contains_str(s: &str, pat: &str) -> (r: bool)
    ensures
        r == contains(s@, pat@),
{
    let sv = chars_of(s);
    let pv = chars_of(pat);
    if pv.len() > sv.len() {
        return false;
    }
    let last = sv.len() - pv.len();
    let mut i: usize = 0;
    loop
        invariant
            i <= last,
            last == sv.len() - pv.len(),
            pv.len() <= sv.len(),
            sv@ == s@,
            pv@ == pat@,
            forall|k: int| 0 <= k < i ==> #[trigger] sv@.subrange(k, k + pv.len()) != pv@,
        decreases last + 1 - i,
    {
        if matches_at(&sv, &pv, i) {
            return true;
        }
        if i == last {
            return false;
        }
        i = i + 1;
    }
}

/// Whether `s` begins with `pat` (`str::starts_with`).
pub fn starts_with_str(s: &str, pat: &str) -> (r: bool)
    ensures
        r == starts_with(s@, pat@),
{
    let sv = chars_of(s);
    let pv = chars_of(pat);
    if pv.len() > sv.len() {
        return false;
    }
    matches_at(&sv, &pv, 0)
}

/// Whether `a` and `b` are the same text.
pub fn str_eq(a: &str, b: &str) -> (r: bool)
    ensures
        r == (a@ == b@),
{
    let av = chars_of(a);
    let bv = chars_of(b);
    if av.len() != bv.len() {
        return false;
    }
    let r = matches_at(&av, &bv, 0);
    assert(av@.subrange(0, bv.len() as int) =~= av@);
    r
}

/// `c` with an ASCII capital letter made small (`char::to_ascii_lowercase`).
pub open spec fn ascii_lower(c: char) -> char {
    if 'A' <= c <= 'Z' {
        ((c as int) + 32) as char
    } else {
        c
    }
}

/// `s` with its ASCII capital letters made small (`str::to_ascii_lowercase`).
pub open spec fn ascii_lowercase(s: Seq<char>) -> Seq<char> {
    s.map_values(|c: char| ascii_lower(c))
}

/// Whether `s`, with its ASCII capitals made small, reads `lower`.
pub fn lowercase_eq(s: &str, lower: &str) -> (r: bool)
    ensures
        r == (ascii_lowercase(s@) == lower@),
{
    let sv = chars_of(s);
    let lv = chars_of(lower);
    if sv.len() != lv.len() {
        assert(ascii_lowercase(s@).len() == s@.len());
        return false;
    }
    let mut i: usize = 0;
    while i < sv.len()
        invariant
            sv@ == s@,
            lv@ == lower@,
            sv.len() == lv.len(),
            i <= sv.len(),
            forall|k: int| 0 <= k < i ==> ascii_lower(#[trigger] sv@[k]) == lv@[k],
        decreases sv.len() - i,
    {
        let c = sv[i];
        let low = if 'A' <= c && c <= 'Z' { ((c as u32) + 32) as u8 as char } else { c };
        assert(low == ascii_lower(c));
        if low != lv[i] {
            assert(ascii_lowercase(s@)[i as int] != lower@[i as int]);
            return false;
        }
        i = i + 1;
    }
    assert(ascii_lowercase(s@) =~= lower@);
    true
}

} // verus!
