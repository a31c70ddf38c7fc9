//! Small verified helpers on text.

use vstd::prelude::*;
use vstd::string::StringSliceAdditionalSpecFns;

verus! {

broadcast use vstd::utf8::encode_utf8_decode_utf8;

/// Compare two strings for equality of their characters.
pub fn str_equal(a: &str, b: &str) -> (r: bool)
    ensures
        r == (a@ == b@),
{
    let x = a.as_bytes();
    let y = b.as_bytes();
    if x.len() != y.len() {
        return false;
    }
    let mut i: usize = 0;
    while i < x.len()
        invariant
            x@ == a.spec_bytes(),
            y@ == b.spec_bytes(),
            x@.len() == y@.len(),
            0 <= i <= x@.len(),
            forall|j: int| 0 <= j < i ==> x@[j] == y@[j],
        decreases x@.len() - i,
    {
        if x[i] != y[i] {
            assert(x@ != y@);
            return false;
        }
        i = i + 1;
    }
    assert(x@ =~= y@);
    assert(decode_utf8_of(a) == a@);
    assert(decode_utf8_of(b) == b@);
    true
}

spec fn decode_utf8_of(s: &str) -> Seq<char> {
    vstd::utf8::decode_utf8(vstd::utf8::encode_utf8(s@))
}

/// The characters of a string, in order.
pub fn chars_of(s: &str) -> (r: Vec<char>)
    ensures
        r@ == s@,
{
    let mut out: Vec<char> = Vec::new();
    for c in it: s.chars()
        invariant
            out@ == it.seq().take(it.index() as int),
    {
        out.push(c);
    }
    out
}

/// Unicode `White_Space` characters (what `char::is_whitespace` accepts).
pub open spec fn spec_is_whitespace(c: char) -> bool {
    let u = c as u32;
    ||| 0x09 <= u <= 0x0d
    ||| u == 0x20
    ||| u == 0x85
    ||| u == 0xa0
    ||| u == 0x1680
    ||| 0x2000 <= u <= 0x200a
    ||| u == 0x2028
    ||| u == 0x2029
    ||| u == 0x202f
    ||| u == 0x205f
    ||| u == 0x3000
}

/// Whether `c` is a Unicode `White_Space` character.
pub fn is_whitespace(c: char) -> (r: bool)
    ensures
        r == spec_is_whitespace(c),
{
    let u = c as u32;
    (0x09 <= u && u <= 0x0d) || u == 0x20 || u == 0x85 || u == 0xa0 || u == 0x1680 || (0x2000 <= u
        && u <= 0x200a) || u == 0x2028 || u == 0x2029 || u == 0x202f || u == 0x205f || u == 0x3000
}

/// `s` without its leading whitespace.
pub open spec fn trim_start(s: Seq<char>) -> Seq<char>
    decreases s.len(),
{
    if s.len() > 0 && spec_is_whitespace(s[0]) {
        trim_start(s.drop_first())
    } else {
        s
    }
}

/// `s` without its trailing whitespace.
pub open spec fn trim_end(s: Seq<char>) -> Seq<char>
    decreases s.len(),
{
    if s.len() > 0 && spec_is_whitespace(s.last()) {
        trim_end(s.drop_last())
    } else {
        s
    }
}

/// `s` without leading and trailing whitespace.
pub open spec fn trim(s: Seq<char>) -> Seq<char> {
    trim_end(trim_start(s))
}

proof fn lemma_trim_start_skip(s: Seq<char>, i: int)
    requires
        0 <= i <= s.len(),
        forall|j: int| 0 <= j < i ==> spec_is_whitespace(#[trigger] s[j]),
    ensures
        trim_start(s) == trim_start(s.skip(i)),
    decreases i,
{
    if i > 0 {
        assert(spec_is_whitespace(s[0]));
        assert forall|j: int| 0 <= j < i - 1 implies spec_is_whitespace(#[trigger] s.drop_first()[j]) by {
            assert(s.drop_first()[j] == s[j + 1]);
        }
        lemma_trim_start_skip(s.drop_first(), i - 1);
        assert(s.drop_first().skip(i - 1) =~= s.skip(i));
        assert(trim_start(s) == trim_start(s.drop_first()));
    } else {
        assert(s.skip(0) =~= s);
    }
}

proof fn lemma_trim_end_take(s: Seq<char>, i: int)
    requires
        0 <= i <= s.len(),
        forall|j: int| i <= j < s.len() ==> spec_is_whitespace(#[trigger] s[j]),
    ensures
        trim_end(s) == trim_end(s.take(i)),
    decreases s.len() - i,
{
    if i < s.len() {
        assert(spec_is_whitespace(s[s.len() - 1]));
        assert forall|j: int| i <= j < s.drop_last().len() implies spec_is_whitespace(#[trigger] s.drop_last()[j]) by {
            assert(s.drop_last()[j] == s[j]);
        }
        lemma_trim_end_take(s.drop_last(), i);
        assert(s.drop_last().take(i) =~= s.take(i));
        assert(trim_end(s) == trim_end(s.drop_last()));
    } else {
        assert(s.take(i) =~= s);
    }
}

/// The characters of `s` between `start` and `end` with surrounding whitespace removed.
pub fn trim_range(s: &Vec<char>, start: usize, end: usize) -> (r: (usize, usize))
    requires
        start <= end <= s@.len(),
    ensures
        start <= r.0 <= r.1 <= end,
        s@.subrange(r.0 as int, r.1 as int) == trim(s@.subrange(start as int, end as int)),
{
    let ghost piece = s@.subrange(start as int, end as int);
    let mut a = start;
    while a < end && is_whitespace(s[a])
        invariant
            start <= a <= end <= s@.len(),
            piece == s@.subrange(start as int, end as int),
            forall|j: int| start <= j < a ==> spec_is_whitespace(#[trigger] s@[j]),
        decreases end - a,
    {
        a = a + 1;
    }
    proof {
        assert forall|j: int| 0 <= j < a - start implies spec_is_whitespace(#[trigger] piece[j]) by {
            assert(piece[j] == s@[start + j]);
        }
        lemma_trim_start_skip(piece, a - start);
        assert(piece.skip(a - start) =~= s@.subrange(a as int, end as int));
    }
    let mut b = end;
    while b > a && is_whitespace(s[b - 1])
        invariant
            start <= a <= b <= end <= s@.len(),
            forall|j: int| b <= j < end ==> spec_is_whitespace(#[trigger] s@[j]),
        decreases b - a,
    {
        b = b - 1;
    }
    proof {
        let mid = s@.subrange(a as int, end as int);
        assert forall|j: int| b - a <= j < mid.len() implies spec_is_whitespace(#[trigger] mid[j]) by {
            assert(mid[j] == s@[a + j]);
        }
        lemma_trim_end_take(mid, b - a);
        assert(mid.take(b - a) =~= s@.subrange(a as int, b as int));
        let t = s@.subrange(a as int, b as int);
        if t.len() > 0 {
            assert(t[0] == s@[a as int]);
            assert(!spec_is_whitespace(t[0]));
        }
        assert(trim_start(t) == t);
        if t.len() > 0 {
            assert(t.last() == s@[b - 1]);
        }
        assert(trim_end(t) == t);
    }
    (a, b)
}

/// The value of an ASCII decimal digit.
pub open spec fn digit_value(c: char) -> nat {
    ((c as u32) - ('0' as u32)) as nat
}

/// `c` is an ASCII decimal digit.
pub open spec fn is_digit(c: char) -> bool {
    '0' <= c <= '9'
}

/// The number written by a string of decimal digits.
pub open spec fn decimal_value(d: Seq<char>) -> nat
    decreases d.len(),
{
    if d.len() == 0 {
        0
    } else {
        decimal_value(d.drop_last()) * 10 + digit_value(d.last())
    }
}

/// The digits part of an unsigned integer literal: an optional leading `+` is dropped.
pub open spec fn unsigned_digits(s: Seq<char>) -> Seq<char> {
    if s.len() > 0 && s[0] == '+' {
        s.drop_first()
    } else {
        s
    }
}

/// How an unsigned integer of at most `max` is read from text: an optional
/// `+`, then at least one ASCII digit and nothing else, with a value no
/// greater than `max`.
pub open spec fn parse_unsigned(s: Seq<char>, max: nat) -> Option<nat> {
    let d = unsigned_digits(s);
    if d.len() > 0 && (forall|i: int| 0 <= i < d.len() ==> is_digit(#[trigger] d[i])) && decimal_value(d)
        <= max {
        Some(decimal_value(d))
    } else {
        None
    }
}

proof fn lemma_decimal_monotone(d: Seq<char>, i: int)
    requires
        0 <= i <= d.len(),
        forall|j: int| 0 <= j < d.len() ==> is_digit(#[trigger] d[j]),
    ensures
        decimal_value(d.take(i)) <= decimal_value(d),
    decreases d.len() - i,
{
    if i < d.len() {
        assert(d.drop_last().take(i) =~= d.take(i));
        assert forall|j: int| 0 <= j < d.drop_last().len() implies is_digit(#[trigger] d.drop_last()[j]) by {
            assert(d.drop_last()[j] == d[j]);
        }
        lemma_decimal_monotone(d.drop_last(), i);
    } else {
        assert(d.take(i) =~= d);
    }
}

/// Read an unsigned integer of at most `max` from `s[start..end]`.
pub fn parse_unsigned_range(s: &Vec<char>, start: usize, end: usize, max: u64) -> (r: Option<u64>)
    requires
        start <= end <= s@.len(),
    ensures
        r == (match parse_unsigned(s@.subrange(start as int, end as int), max as nat) {
            Some(v) => Some(v as u64),
            None => None::<u64>,
        }),
{
    let ghost text = s@.subrange(start as int, end as int);
    let mut first = start;
    if start < end && s[start] == '+' {
        first = start + 1;
    }
    let ghost d = s@.subrange(first as int, end as int);
    proof {
        assert(unsigned_digits(text) =~= d);
    }
    if first == end {
        return None;
    }
    let mut value: u64 = 0;
    let mut i = first;
    while i < end
        invariant
            start <= first <= i <= end <= s@.len(),
            first < end,
            text == s@.subrange(start as int, end as int),
            unsigned_digits(text) == d,
            d == s@.subrange(first as int, end as int),
            forall|j: int| first <= j < i ==> is_digit(#[trigger] s@[j]),
            value as nat == decimal_value(s@.subrange(first as int, i as int)),
            value <= max,
        decreases end - i,
    {
        let c = s[i];
        if !('0' <= c && c <= '9') {
            proof {
                assert(d[i - first] == c);
                assert(!is_digit(d[i - first]));
            }
            return None;
        }
        let digit = ((c as u32) - ('0' as u32)) as u64;
        proof {
            let prefix = s@.subrange(first as int, i + 1);
            assert(prefix.drop_last() =~= s@.subrange(first as int, i as int));
            assert(prefix.last() == c);
        }
        let next: u128 = (value as u128) * 10 + (digit as u128);
        if next > max as u128 {
            proof {
                let prefix = s@.subrange(first as int, i + 1);
                assert(decimal_value(prefix) == value * 10 + digit);
                if forall|j: int| 0 <= j < d.len() ==> is_digit(#[trigger] d[j]) {
                    lemma_decimal_monotone(d, i + 1 - first);
                    assert(d.take(i + 1 - first) =~= prefix);
                }
            }
            return None;
        }
        value = next as u64;
        i = i + 1;
    }
    proof {
        assert(s@.subrange(first as int, end as int) == d);
        assert forall|j: int| 0 <= j < d.len() implies is_digit(#[trigger] d[j]) by {
            assert(d[j] == s@[first + j]);
        }
    }
    Some(value)
}

/// The ASCII digit for a value below ten.
pub open spec fn digit_char(d: nat) -> char {
    (('0' as u32) + d) as char
}

/// The decimal representation of `n`, without leading zeros.
pub open spec fn decimal_chars(n: nat) -> Seq<char>
    decreases n,
{
    if n < 10 {
        seq![digit_char(n)]
    } else {
        decimal_chars(n / 10).push(digit_char(n % 10))
    }
}

fn digit_str(d: usize) -> (r: &'static str)
    requires
        d < 10,
    ensures
        r@ == seq![digit_char(d as nat)],
{
    proof {
        reveal_strlit("0");
        reveal_strlit("1");
        reveal_strlit("2");
        reveal_strlit("3");
        reveal_strlit("4");
        reveal_strlit("5");
        reveal_strlit("6");
        reveal_strlit("7");
        reveal_strlit("8");
        reveal_strlit("9");
    }
    match d {
        0 => "0",
        1 => "1",
        2 => "2",
        3 => "3",
        4 => "4",
        5 => "5",
        6 => "6",
        7 => "7",
        8 => "8",
        9 => "9",
        _ => "9",
    }
}

/// Append the decimal representation of `n` to `out`.
pub fn push_decimal(out: &mut String, n: usize)
    ensures
        final(out)@ == old(out)@ + decimal_chars(n as nat),
    decreases n,
{
    if n < 10 {
        out.append(digit_str(n));
    } else {
        push_decimal(out, n / 10);
        out.append(digit_str(n % 10));
        proof {
            assert(old(out)@ + decimal_chars((n / 10) as nat) + seq![digit_char((n % 10) as nat)] =~= old(out)@
                + decimal_chars(n as nat));
        }
    }
}

/// The pieces of `s` between occurrences of `sep`, in order, as `str::split`
/// yields them: an empty text is one empty piece.
pub open spec fn split_on(s: Seq<char>, sep: char) -> Seq<Seq<char>>
    decreases s.len(),
{
    if s.len() == 0 {
        seq![Seq::<char>::empty()]
    } else {
        let prev = split_on(s.drop_last(), sep);
        if s.last() == sep {
            prev.push(Seq::<char>::empty())
        } else {
            prev.update(prev.len() - 1, prev.last().push(s.last()))
        }
    }
}

/// There is always at least one piece.
pub proof fn lemma_split_on_nonempty(s: Seq<char>, sep: char)
    ensures
        split_on(s, sep).len() >= 1,
    decreases s.len(),
{
    if s.len() > 0 {
        lemma_split_on_nonempty(s.drop_last(), sep);
    }
}

/// The pieces joined back together with `sep` between neighbours.
pub open spec fn join_with(pieces: Seq<Seq<char>>, sep: char) -> Seq<char>
    decreases pieces.len(),
{
    if pieces.len() == 0 {
        Seq::empty()
    } else if pieces.len() == 1 {
        pieces[0]
    } else {
        join_with(pieces.drop_last(), sep).push(sep) + pieces.last()
    }
}

proof fn lemma_join_extend_last(pieces: Seq<Seq<char>>, sep: char, c: char)
    requires
        pieces.len() >= 1,
    ensures
        join_with(pieces.update(pieces.len() - 1, pieces.last().push(c)), sep) == join_with(pieces, sep).push(c),
{
    let q = pieces.update(pieces.len() - 1, pieces.last().push(c));
    if pieces.len() > 1 {
        assert(q.drop_last() =~= pieces.drop_last());
        assert((join_with(pieces.drop_last(), sep).push(sep) + pieces.last()).push(c) =~= join_with(
            pieces.drop_last(),
            sep,
        ).push(sep) + pieces.last().push(c));
    }
}

/// Splitting a text at `sep` and joining the pieces with `sep` gives the
/// text back, and no piece holds `sep`.
pub proof fn lemma_split_on_rejoins(s: Seq<char>, sep: char)
    ensures
        join_with(split_on(s, sep), sep) == s,
        forall|i: int, j: int|
            0 <= i < split_on(s, sep).len() && 0 <= j < split_on(s, sep)[i].len() ==> #[trigger] split_on(
                s,
                sep,
            )[i][j] != sep,
    decreases s.len(),
{
    if s.len() == 0 {
        assert(split_on(s, sep) =~= seq![Seq::<char>::empty()]);
        assert(s =~= Seq::<char>::empty());
    } else {
        let init = s.drop_last();
        lemma_split_on_rejoins(init, sep);
        lemma_split_on_nonempty(init, sep);
        let prev = split_on(init, sep);
        if s.last() == sep {
            let p = prev.push(Seq::<char>::empty());
            assert(p.drop_last() =~= prev);
            assert(init.push(sep) + Seq::<char>::empty() =~= s);
            assert forall|i: int, j: int| 0 <= i < p.len() && 0 <= j < p[i].len() implies #[trigger] p[i][j]
                != sep by {
                assert(i < prev.len());
                assert(p[i] == prev[i]);
            }
        } else {
            lemma_join_extend_last(prev, sep, s.last());
            assert(init.push(s.last()) =~= s);
            let p = prev.update(prev.len() - 1, prev.last().push(s.last()));
            assert forall|i: int, j: int| 0 <= i < p.len() && 0 <= j < p[i].len() implies #[trigger] p[i][j]
                != sep by {
                if i < prev.len() - 1 {
                    assert(p[i] == prev[i]);
                } else if j < prev.last().len() {
                    assert(p[i][j] == prev[prev.len() - 1][j]);
                } else {
                    assert(p[i][j] == s.last());
                }
            }
        }
    }
}

} // verus!
