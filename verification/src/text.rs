//! Character-level helpers on strings: decimal numbers, whitespace trimming,
//! ASCII case folding and the IPv4 dotted-quad syntax.

use vstd::prelude::*;

verus! {

// ---------------------------------------------------------------------------
// Appending
// ---------------------------------------------------------------------------

/// `String::push`: appends one character.
#[verifier::external_body]
pub(crate) fn push_char(s: &mut String, c: char)
    ensures
        final(s)@ == old(s)@.push(c),
{
    s.push(c);
}

/// Appends the characters of `t`.
pub(crate) fn push_str(s: &mut String, t: &str)
    ensures
        final(s)@ == old(s)@ + t@,
{
    s.append(t);
}

/// A fresh string holding the characters of `t`.
pub(crate) fn string_of(t: &str) -> (r: String)
    ensures
        r@ == t@,
{
    String::from_str(t)
}

// ---------------------------------------------------------------------------
// Decimal numbers
// ---------------------------------------------------------------------------

/// The ASCII character of a decimal digit.
pub open spec fn digit_char(d: nat) -> char
    recommends
        d < 10,
{
    if d == 0 {
        '0'
    } else if d == 1 {
        '1'
    } else if d == 2 {
        '2'
    } else if d == 3 {
        '3'
    } else if d == 4 {
        '4'
    } else if d == 5 {
        '5'
    } else if d == 6 {
        '6'
    } else if d == 7 {
        '7'
    } else if d == 8 {
        '8'
    } else {
        '9'
    }
}

/// The decimal representation of `n`, without sign or leading zeros
/// (what `Display` prints for an unsigned integer).
pub open spec fn decimal(n: nat) -> Seq<char>
    decreases n,
{
    if n < 10 {
        seq![digit_char(n)]
    } else {
        decimal(n / 10).push(digit_char(n % 10))
    }
}

fn digit_char_exec(d: u64) -> (c: char)
    requires
        d < 10,
    ensures
        c == digit_char(d as nat),
{
    if d == 0 {
        '0'
    } else if d == 1 {
        '1'
    } else if d == 2 {
        '2'
    } else if d == 3 {
        '3'
    } else if d == 4 {
        '4'
    } else if d == 5 {
        '5'
    } else if d == 6 {
        '6'
    } else if d == 7 {
        '7'
    } else if d == 8 {
        '8'
    } else {
        '9'
    }
}

/// Appends the decimal representation of `n`.
pub fn push_decimal(s: &mut String, n: u64)
    ensures
        final(s)@ == old(s)@ + decimal(n as nat),
    decreases n,
{
    if n >= 10 {
        push_decimal(s, n / 10);
    }
    let c = digit_char_exec(n % 10);
    push_char(s, c);
    proof {
        if n >= 10 {
            assert(decimal(n as nat) == decimal((n / 10) as nat).push(digit_char((n % 10) as nat)));
        } else {
            assert(decimal(n as nat) == seq![digit_char(n as nat)]);
        }
    }
}

/// The decimal representation of `n` as a new string.
pub fn decimal_string(n: u64) -> (r: String)
    ensures
        r@ == decimal(n as nat),
{
    let mut s = String::new();
    push_decimal(&mut s, n);
    assert(s@ =~= decimal(n as nat));
    s
}

pub open spec fn is_ascii_digit(c: char) -> bool {
    '0' <= c && c <= '9'
}

pub open spec fn digit_value(c: char) -> nat {
    (c as int - '0' as int) as nat
}

/// The number that a run of ASCII digits spells in base ten.
pub open spec fn digits_value(s: Seq<char>) -> nat
    decreases s.len(),
{
    if s.len() == 0 {
        0
    } else {
        digits_value(s.drop_last()) * 10 + digit_value(s.last())
    }
}

pub open spec fn all_digits(s: Seq<char>) -> bool {
    forall|i: int| 0 <= i < s.len() ==> is_ascii_digit(#[trigger] s[i])
}

/// What `str::parse::<u64>` accepts: an optional `+`, then one or more ASCII
/// digits whose value fits in a `u64`.
pub open spec fn parse_u64(s: Seq<char>) -> Option<u64> {
    let body = if s.len() > 0 && s[0] == '+' {
        s.drop_first()
    } else {
        s
    };
    if body.len() == 0 || !all_digits(body) || digits_value(body) > u64::MAX {
        None
    } else {
        Some(digits_value(body) as u64)
    }
}

proof fn lemma_digits_value_prefix_le(s: Seq<char>, i: int)
    requires
        0 <= i <= s.len(),
    ensures
        digits_value(s.take(i)) <= digits_value(s),
    decreases s.len() - i,
{
    if i < s.len() {
        lemma_digits_value_prefix_le(s, i + 1);
        let t = s.take(i + 1);
        assert(t.drop_last() =~= s.take(i));
    } else {
        assert(s.take(i) =~= s);
    }
}

/// Parses an unsigned decimal number the way `str::parse::<u64>` does.
pub fn parse_u64_exec(s: &str) -> (r: Option<u64>)
    ensures
        r == parse_u64(s@),
{
    let n = s.unicode_len();
    let mut start: usize = 0;
    if n > 0 && s.get_char(0) == '+' {
        start = 1;
    }
    let ghost body = if s@.len() > 0 && s@[0] == '+' {
        s@.drop_first()
    } else {
        s@
    };
    assert(body =~= s@.subrange(start as int, n as int));
    assert(parse_u64(s@) == (if body.len() == 0 || !all_digits(body) || digits_value(body) > u64::MAX {
        None
    } else {
        Some(digits_value(body) as u64)
    }));
    if start >= n {
        return None;
    }
    let mut acc: u64 = 0;
    let mut i: usize = start;
    while i < n
        invariant
            start <= i <= n,
            n == s@.len(),
            body =~= s@.subrange(start as int, n as int),
            parse_u64(s@) == (if body.len() == 0 || !all_digits(body) || digits_value(body)
                > u64::MAX {
                None
            } else {
                Some(digits_value(body) as u64)
            }),
            acc as nat == digits_value(body.take(i - start)),
            all_digits(body.take(i - start)),
        decreases n - i,
    {
        let c = s.get_char(i);
        let ghost k = i - start;
        assert(body[k] == c);
        if !('0' <= c && c <= '9') {
            assert(!is_ascii_digit(body[k]));
            assert(!all_digits(body));
            assert(parse_u64(s@) is None);
            return None;
        }
        let d: u64 = (c as u32 - '0' as u32) as u64;
        assert(body.take(k + 1).drop_last() =~= body.take(k));
        assert(digits_value(body.take(k + 1)) == digits_value(body.take(k)) * 10 + digit_value(c));
        if acc > (u64::MAX - d) / 10 {
            proof {
                lemma_digits_value_prefix_le(body, k + 1);
            }
            assert(digits_value(body.take(k + 1)) > u64::MAX) by (nonlinear_arith)
                requires
                    acc > (u64::MAX - d) / 10,
                    d < 10,
                    digits_value(body.take(k + 1)) == acc * 10 + d,
            ;
            assert(digits_value(body) > u64::MAX);
            assert(parse_u64(s@) is None);
            return None;
        }
        assert(acc * 10 + d <= u64::MAX) by (nonlinear_arith)
            requires
                acc <= (u64::MAX - d) / 10,
                d < 10,
        ;
        acc = acc * 10 + d;
        i = i + 1;
        assert forall|j: int| 0 <= j < (i - start) implies is_ascii_digit(
            #[trigger] body.take(i - start)[j],
        ) by {
            if j < k {
                assert(body.take(i - start)[j] == body.take(k)[j]);
            }
        }
    }
    assert(body.take(n - start) =~= body);
    Some(acc)
}

// ---------------------------------------------------------------------------
// Whitespace
// ---------------------------------------------------------------------------

/// `char::is_whitespace`: the characters with the Unicode `White_Space` property.
pub open spec fn is_whitespace(c: char) -> bool {
    ||| ('\u{9}' <= c && c <= '\u{d}')
    ||| c == ' '
    ||| c == '\u{85}'
    ||| c == '\u{a0}'
    ||| c == '\u{1680}'
    ||| ('\u{2000}' <= c && c <= '\u{200a}')
    ||| c == '\u{2028}'
    ||| c == '\u{2029}'
    ||| c == '\u{202f}'
    ||| c == '\u{205f}'
    ||| c == '\u{3000}'
}

fn is_whitespace_exec(c: char) -> (b: bool)
    ensures
        b == is_whitespace(c),
{
    ('\u{9}' <= c && c <= '\u{d}') || c == ' ' || c == '\u{85}' || c == '\u{a0}' || c
        == '\u{1680}' || ('\u{2000}' <= c && c <= '\u{200a}') || c == '\u{2028}' || c
        == '\u{2029}' || c == '\u{202f}' || c == '\u{205f}' || c == '\u{3000}'
}

/// The sequence without its leading whitespace.
pub open spec fn trim_start(s: Seq<char>) -> Seq<char>
    decreases s.len(),
{
    if s.len() > 0 && is_whitespace(s[0]) {
        trim_start(s.drop_first())
    } else {
        s
    }
}

/// The sequence without its trailing whitespace.
pub open spec fn trim_end(s: Seq<char>) -> Seq<char>
    decreases s.len(),
{
    if s.len() > 0 && is_whitespace(s.last()) {
        trim_end(s.drop_last())
    } else {
        s
    }
}

/// `str::trim`: the sequence without leading and trailing whitespace.
pub open spec fn trim(s: Seq<char>) -> Seq<char> {
    trim_end(trim_start(s))
}

/// `str::trim`.
pub fn trim_str(s: &str) -> (r: &str)
    ensures
        r@ == trim(s@),
{
    let n = s.unicode_len();
    let mut i: usize = 0;
    assert(s@.subrange(0, n as int) =~= s@);
    while i < n && is_whitespace_exec(s.get_char(i))
        invariant
            i <= n,
            n == s@.len(),
            trim_start(s@) == trim_start(s@.subrange(i as int, n as int)),
        decreases n - i,
    {
        let ghost rest = s@.subrange(i as int, n as int);
        assert(rest.drop_first() =~= s@.subrange(i + 1, n as int));
        i = i + 1;
    }
    let ghost front = s@.subrange(i as int, n as int);
    assert(trim_start(front) == front);
    let mut j: usize = n;
    while j > i && is_whitespace_exec(s.get_char(j - 1))
        invariant
            i <= j <= n,
            n == s@.len(),
            trim_end(front) == trim_end(s@.subrange(i as int, j as int)),
        decreases j,
    {
        let ghost rest = s@.subrange(i as int, j as int);
        assert(rest.drop_last() =~= s@.subrange(i as int, j - 1));
        j = j - 1;
    }
    let ghost back = s@.subrange(i as int, j as int);
    assert(trim_end(back) == back);
    s.substring_char(i, j)
}

// ---------------------------------------------------------------------------
// ASCII case
// ---------------------------------------------------------------------------

pub open spec fn ascii_lower(c: char) -> char {
    if 'A' <= c && c <= 'Z' {
        ((c as int) + 32) as char
    } else {
        c
    }
}

/// `str::eq_ignore_ascii_case`: equal lengths, and equal characters once
/// ASCII upper-case letters are folded to lower case.
pub open spec fn eq_ignore_ascii_case(a: Seq<char>, b: Seq<char>) -> bool {
    &&& a.len() == b.len()
    &&& forall|i: int| 0 <= i < a.len() ==> ascii_lower(#[trigger] a[i]) == ascii_lower(b[i])
}

fn ascii_lower_exec(c: char) -> (r: char)
    ensures
        r == ascii_lower(c),
{
    if 'A' <= c && c <= 'Z' {
        let b: u8 = (c as u32 + 32) as u8;
        b as char
    } else {
        c
    }
}

/// `str::eq_ignore_ascii_case`.
pub fn eq_ignore_ascii_case_exec(a: &str, b: &str) -> (r: bool)
    ensures
        r == eq_ignore_ascii_case(a@, b@),
{
    let n = a.unicode_len();
    let m = b.unicode_len();
    if n != m {
        return false;
    }
    let mut i: usize = 0;
    while i < n
        invariant
            i <= n,
            n == a@.len(),
            n == b@.len(),
            forall|k: int| 0 <= k < i ==> ascii_lower(#[trigger] a@[k]) == ascii_lower(b@[k]),
        decreases n - i,
    {
        if ascii_lower_exec(a.get_char(i)) != ascii_lower_exec(b.get_char(i)) {
            return false;
        }
        i = i + 1;
    }
    true
}

/// Whether two strings hold the same characters.
pub fn str_eq(a: &str, b: &str) -> (r: bool)
    ensures
        r == (a@ == b@),
{
    let n = a.unicode_len();
    let m = b.unicode_len();
    if n != m {
        return false;
    }
    let mut i: usize = 0;
    while i < n
        invariant
            i <= n,
            n == a@.len(),
            n == b@.len(),
            forall|k: int| 0 <= k < i ==> a@[k] == b@[k],
        decreases n - i,
    {
        if a.get_char(i) != b.get_char(i) {
            return false;
        }
        i = i + 1;
    }
    assert(a@ =~= b@);
    true
}

// ---------------------------------------------------------------------------
// IPv4 dotted quads
// ---------------------------------------------------------------------------

/// The pieces of `s` between the dots, from left to right (always at least one).
pub open spec fn split_dots(s: Seq<char>) -> Seq<Seq<char>>
    decreases s.len(),
{
    if s.len() == 0 {
        seq![Seq::<char>::empty()]
    } else {
        let prev = split_dots(s.drop_last());
        if s.last() == '.' {
            prev.push(Seq::<char>::empty())
        } else {
            prev.update(prev.len() - 1, prev.last().push(s.last()))
        }
    }
}

/// One field of an IPv4 address as `Ipv4Addr::from_str` reads it: ASCII
/// digits, no leading zero, at most 255.
pub open spec fn is_octet(g: Seq<char>) -> bool {
    &&& g.len() > 0
    &&& all_digits(g)
    &&& (g.len() == 1 || g[0] != '0')
    &&& digits_value(g) <= 255
}

/// What `Ipv4Addr::from_str` accepts: four octets separated by dots.
pub open spec fn is_ipv4(s: Seq<char>) -> bool {
    let gs = split_dots(s);
    &&& gs.len() == 4
    &&& forall|i: int| 0 <= i < 4 ==> is_octet(#[trigger] gs[i])
}

/// The four numbers of an IPv4 address that `is_ipv4` accepts.
pub open spec fn ipv4_octets(s: Seq<char>) -> (u8, u8, u8, u8) {
    let gs = split_dots(s);
    (
        digits_value(gs[0]) as u8,
        digits_value(gs[1]) as u8,
        digits_value(gs[2]) as u8,
        digits_value(gs[3]) as u8,
    )
}

/// How `Ipv4Addr` displays itself: the four numbers in decimal, joined by dots.
pub open spec fn ipv4_display(o: (u8, u8, u8, u8)) -> Seq<char> {
    decimal(o.0 as nat) + seq!['.'] + decimal(o.1 as nat) + seq!['.'] + decimal(o.2 as nat)
        + seq!['.'] + decimal(o.3 as nat)
}

proof fn lemma_split_dots_nonempty(s: Seq<char>)
    ensures
        split_dots(s).len() >= 1,
    decreases s.len(),
{
    if s.len() > 0 {
        lemma_split_dots_nonempty(s.drop_last());
    }
}

/// The value of a field read so far, capped at 256.
fn octet_value(s: &str, from: usize, to: usize) -> (r: Option<u8>)
    requires
        from <= to <= s@.len(),
    ensures
        r is Some <==> is_octet(s@.subrange(from as int, to as int)),
        r matches Some(v) ==> v as nat == digits_value(s@.subrange(from as int, to as int)),
{
    let ghost g = s@.subrange(from as int, to as int);
    if from == to {
        return None;
    }
    let first = s.get_char(from);
    assert(g[0] == first);
    if first == '0' && to - from > 1 {
        return None;
    }
    let mut acc: u32 = 0;
    let mut i: usize = from;
    while i < to
        invariant
            from <= i <= to,
            to <= s@.len(),
            g == s@.subrange(from as int, to as int),
            all_digits(g.take(i - from)),
            acc as nat == (if digits_value(g.take(i - from)) > 255 {
                256
            } else {
                digits_value(g.take(i - from))
            }),
        decreases to - i,
    {
        let c = s.get_char(i);
        let ghost k = i - from;
        assert(g[k] == c);
        if !('0' <= c && c <= '9') {
            assert(!is_ascii_digit(g[k]));
            return None;
        }
        let d: u32 = c as u32 - '0' as u32;
        assert(g.take(k + 1).drop_last() =~= g.take(k));
        assert(digits_value(g.take(k + 1)) == digits_value(g.take(k)) * 10 + digit_value(c));
        if acc >= 256 {
            acc = 256;
        } else {
            acc = acc * 10 + d;
            if acc > 256 {
                acc = 256;
            }
        }
        i = i + 1;
        assert forall|j: int| 0 <= j < (i - from) implies is_ascii_digit(
            #[trigger] g.take(i - from)[j],
        ) by {
            if j < k {
                assert(g.take(i - from)[j] == g.take(k)[j]);
            }
        }
    }
    assert(g.take(to - from) =~= g);
    if acc > 255 {
        None
    } else {
        Some(acc as u8)
    }
}

/// Parses an IPv4 address the way `Ipv4Addr::from_str` does.
pub fn parse_ipv4(s: &str) -> (r: Option<(u8, u8, u8, u8)>)
    ensures
        r is Some <==> is_ipv4(s@),
        r matches Some(o) ==> o == ipv4_octets(s@),
{
    let n = s.unicode_len();
    let mut values: Vec<u8> = Vec::new();
    let mut ok = true;
    let mut gstart: usize = 0;
    let ghost mut done: Seq<Seq<char>> = Seq::empty();
    let mut i: usize = 0;
    assert(s@.take(0) =~= Seq::<char>::empty());
    assert(split_dots(s@.take(0)) =~= done + seq![s@.subrange(0, 0)]);
    while i < n
        invariant
            gstart <= i <= n,
            n == s@.len(),
            split_dots(s@.take(i as int)) =~= done + seq![s@.subrange(gstart as int, i as int)],
            ok <==> (forall|k: int| 0 <= k < done.len() ==> is_octet(#[trigger] done[k])),
            ok ==> values@.len() == done.len(),
            ok ==> forall|k: int|
                0 <= k < done.len() ==> values@[k] as nat == digits_value(#[trigger] done[k]),
        decreases n - i,
    {
        let c = s.get_char(i);
        let ghost cur = s@.subrange(gstart as int, i as int);
        let ghost prev = split_dots(s@.take(i as int));
        assert(s@.take(i + 1).drop_last() =~= s@.take(i as int));
        assert(s@.take(i + 1).last() == c);
        if c == '.' {
            let v = octet_value(s, gstart, i);
            let ghost old_done = done;
            let ghost old_ok = ok;
            proof {
                assert(split_dots(s@.take(i + 1)) == prev.push(Seq::<char>::empty()));
                done = done.push(cur);
                assert(done.drop_last() =~= old_done);
                assert(forall|k: int| 0 <= k < old_done.len() ==> done[k] == old_done[k]);
            }
            match v {
                Some(x) => {
                    if ok {
                        values.push(x);
                    }
                },
                None => {
                    ok = false;
                },
            }
            gstart = i + 1;
            proof {
                assert(s@.subrange(gstart as int, i + 1) =~= Seq::<char>::empty());
                assert(ok == (old_ok && is_octet(cur)));
                if ok {
                    assert forall|k: int| 0 <= k < done.len() implies is_octet(#[trigger] done[k])
                        && values@[k] as nat == digits_value(done[k]) by {
                        if k < old_done.len() {
                            assert(done[k] == old_done[k]);
                        }
                    }
                } else {
                    if !is_octet(cur) {
                        assert(!is_octet(done[done.len() - 1]));
                    } else {
                        let k0 = choose|k: int|
                            0 <= k < old_done.len() && !is_octet(#[trigger] old_done[k]);
                        assert(done[k0] == old_done[k0]);
                    }
                }
            }
        } else {
            proof {
                assert(prev.len() == done.len() + 1);
                assert(split_dots(s@.take(i + 1)) == prev.update(
                    prev.len() - 1,
                    prev.last().push(c),
                ));
                assert(cur.push(c) =~= s@.subrange(gstart as int, i + 1));
            }
        }
        i = i + 1;
    }
    assert(s@.take(n as int) =~= s@);
    let ghost gs = split_dots(s@);
    if !ok || values.len() != 3 {
        proof {
            if ok {
                assert(gs.len() != 4);
            } else {
                let k0 = choose|k: int| 0 <= k < done.len() && !is_octet(#[trigger] done[k]);
                assert(gs[k0] == done[k0]);
            }
        }
        return None;
    }
    let last = octet_value(s, gstart, n);
    match last {
        None => {
            assert(gs[3] == s@.subrange(gstart as int, n as int));
            None
        },
        Some(x) => {
            assert(gs[3] == s@.subrange(gstart as int, n as int));
            assert(gs[0] == done[0]);
            assert(gs[1] == done[1]);
            assert(gs[2] == done[2]);
            assert forall|k: int| 0 <= k < 4 implies is_octet(#[trigger] gs[k]) by {
                if k < 3 {
                    assert(gs[k] == done[k]);
                }
            }
            Some((values[0], values[1], values[2], x))
        },
    }
}

/// The text of an IPv4 address, as `Ipv4Addr`'s `Display` writes it.
pub fn ipv4_string(o: (u8, u8, u8, u8)) -> (r: String)
    ensures
        r@ == ipv4_display(o),
{
    let mut s = String::new();
    push_decimal(&mut s, o.0 as u64);
    push_char(&mut s, '.');
    push_decimal(&mut s, o.1 as u64);
    push_char(&mut s, '.');
    push_decimal(&mut s, o.2 as u64);
    push_char(&mut s, '.');
    push_decimal(&mut s, o.3 as u64);
    assert(s@ =~= ipv4_display(o));
    s
}

/// Joins pieces with dots: the inverse of `split_dots`.
pub open spec fn join_dots(gs: Seq<Seq<char>>) -> Seq<char>
    decreases gs.len(),
{
    if gs.len() == 0 {
        Seq::empty()
    } else if gs.len() == 1 {
        gs[0]
    } else {
        join_dots(gs.drop_last()) + seq!['.'] + gs.last()
    }
}

/// Splitting at the dots and joining again gives back the text.
pub proof fn lemma_join_split_dots(s: Seq<char>)
    ensures
        join_dots(split_dots(s)) == s,
    decreases s.len(),
{
    if s.len() == 0 {
        assert(join_dots(split_dots(s)) =~= s);
    } else {
        let t = s.drop_last();
        let c = s.last();
        let prev = split_dots(t);
        assert(s =~= t.push(c));
        lemma_split_dots_nonempty(t);
        lemma_join_split_dots(t);
        if c == '.' {
            let gs = prev.push(Seq::<char>::empty());
            assert(gs.drop_last() =~= prev);
            assert(join_dots(gs) =~= s);
        } else {
            let last = prev.len() - 1;
            let gs = prev.update(last, prev.last().push(c));
            if prev.len() == 1 {
                assert(join_dots(prev) == prev[0]);
                assert(gs.len() == 1);
                assert(join_dots(gs) == gs[0]);
                assert(gs[0] =~= t.push(c));
                assert(join_dots(gs) =~= s);
            } else {
                assert(gs.drop_last() =~= prev.drop_last());
                assert(join_dots(gs) =~= join_dots(prev.drop_last()) + seq!['.'] + prev.last().push(
                    c,
                ));
                assert(join_dots(gs) =~= s);
            }
        }
    }
}

/// A run of digits without a leading zero (or a single zero).
pub open spec fn is_canonical_digits(g: Seq<char>) -> bool {
    &&& g.len() > 0
    &&& all_digits(g)
    &&& (g.len() == 1 || g[0] != '0')
}

proof fn lemma_digit_char_of_digit(c: char)
    requires
        is_ascii_digit(c),
    ensures
        digit_value(c) < 10,
        digit_char(digit_value(c)) == c,
{
}

proof fn lemma_canonical_value_positive(g: Seq<char>)
    requires
        g.len() > 0,
        all_digits(g),
        g[0] != '0',
    ensures
        digits_value(g) >= 1,
    decreases g.len(),
{
    if g.len() > 1 {
        let h = g.drop_last();
        assert(h[0] == g[0]);
        assert(all_digits(h)) by {
            assert forall|i: int| 0 <= i < h.len() implies is_ascii_digit(#[trigger] h[i]) by {
                assert(h[i] == g[i]);
            }
        }
        lemma_canonical_value_positive(h);
    } else {
        assert(g.drop_last() =~= Seq::<char>::empty());
        assert(is_ascii_digit(g[0]));
    }
}

/// A canonical run of digits is the decimal text of its own value.
pub proof fn lemma_decimal_of_canonical(g: Seq<char>)
    requires
        is_canonical_digits(g),
    ensures
        decimal(digits_value(g)) == g,
    decreases g.len(),
{
    let c = g.last();
    assert(is_ascii_digit(g[g.len() - 1]));
    lemma_digit_char_of_digit(c);
    let h = g.drop_last();
    if g.len() == 1 {
        assert(h =~= Seq::<char>::empty());
        assert(digits_value(g) == digit_value(c));
        assert(decimal(digits_value(g)) =~= g);
    } else {
        assert(h[0] == g[0]);
        assert(all_digits(h)) by {
            assert forall|i: int| 0 <= i < h.len() implies is_ascii_digit(#[trigger] h[i]) by {
                assert(h[i] == g[i]);
            }
        }
        lemma_canonical_value_positive(h);
        lemma_decimal_of_canonical(h);
        let v = digits_value(g);
        let w = digits_value(h);
        let d = digit_value(c);
        assert(v == w * 10 + d);
        assert(v / 10 == w && v % 10 == d) by (nonlinear_arith)
            requires
                v == w * 10 + d,
                d < 10,
        ;
        assert(decimal(v) == decimal(w).push(digit_char(d)));
        assert(decimal(v) =~= g);
    }
}

/// `Ipv4Addr::from_str` refuses leading zeros, so the text of a parsed
/// address is the text it was parsed from.
pub proof fn lemma_ipv4_display_is_input(s: Seq<char>)
    requires
        is_ipv4(s),
    ensures
        ipv4_display(ipv4_octets(s)) == s,
{
    let gs = split_dots(s);
    lemma_join_split_dots(s);
    assert(is_octet(gs[0]) && is_octet(gs[1]) && is_octet(gs[2]) && is_octet(gs[3]));
    lemma_decimal_of_canonical(gs[0]);
    lemma_decimal_of_canonical(gs[1]);
    lemma_decimal_of_canonical(gs[2]);
    lemma_decimal_of_canonical(gs[3]);
    assert(gs.drop_last().drop_last().drop_last() =~= seq![gs[0]]);
    assert(gs.drop_last().drop_last() =~= seq![gs[0], gs[1]]);
    assert(gs.drop_last() =~= seq![gs[0], gs[1], gs[2]]);
    assert(join_dots(seq![gs[0]]) == gs[0]);
    assert(join_dots(seq![gs[0], gs[1]]) =~= gs[0] + seq!['.'] + gs[1]);
    assert(join_dots(seq![gs[0], gs[1], gs[2]]) =~= gs[0] + seq!['.'] + gs[1] + seq!['.']
        + gs[2]);
    assert(join_dots(gs) =~= gs[0] + seq!['.'] + gs[1] + seq!['.'] + gs[2] + seq!['.'] + gs[3]);
    assert(ipv4_display(ipv4_octets(s)) =~= s);
}

proof fn lemma_digit_of_value(d: nat)
    requires
        d < 10,
    ensures
        is_ascii_digit(digit_char(d)),
        digit_value(digit_char(d)) == d,
{
}

/// The decimal text of a number is all digits, has no sign, and spells it.
pub proof fn lemma_decimal_digits(n: nat)
    ensures
        decimal(n).len() > 0,
        all_digits(decimal(n)),
        digits_value(decimal(n)) == n,
        decimal(n)[0] != '+',
    decreases n,
{
    if n < 10 {
        lemma_digit_of_value(n);
        assert(decimal(n) =~= seq![digit_char(n)]);
        assert(decimal(n).drop_last() =~= Seq::<char>::empty());
        assert(digits_value(decimal(n)) == digits_value(Seq::<char>::empty()) * 10 + digit_value(
            digit_char(n),
        ));
    } else {
        lemma_digit_of_value(n % 10);
        lemma_decimal_digits(n / 10);
        let d = decimal(n / 10);
        let e = d.push(digit_char(n % 10));
        assert(decimal(n) == e);
        assert(e.drop_last() =~= d);
        assert forall|i: int| 0 <= i < e.len() implies is_ascii_digit(#[trigger] e[i]) by {
            if i < d.len() {
                assert(e[i] == d[i]);
            }
        }
        assert(e[0] == d[0]);
        assert(digits_value(e) == digits_value(d) * 10 + digit_value(digit_char(n % 10)));
        assert(n == (n / 10) * 10 + n % 10);
    }
}

/// `str::parse::<u64>` reads back what `Display` wrote.
pub proof fn lemma_parse_decimal(n: u64)
    ensures
        parse_u64(decimal(n as nat)) == Some(n),
{
    lemma_decimal_digits(n as nat);
}

} // verus!
