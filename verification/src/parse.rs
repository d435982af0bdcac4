//! Verified text-to-number parsing: colon- and comma-separated fields,
//! signed integers, and decimal fractions read into scaled integers.

use vstd::prelude::*;

verus! {

/// The input was not a well-formed coordinate string.
#[derive(Clone, Copy, PartialEq, Eq, Structural, Debug)]
pub struct FormatError;

/// Reads a `&str` out into a vector of its characters.
pub fn to_char_vec(s: &str) -> (v: Vec<char>)
    ensures
        v@ == s@,
{
    let n: usize = s.unicode_len();
    let mut v: Vec<char> = Vec::new();
    let mut i: usize = 0;
    while i < n
        invariant
            i <= n,
            n == s@.len(),
            v@ == s@.take(i as int),
        decreases n - i,
    {
        let c: char = s.get_char(i);
        v.push(c);
        i = i + 1;
        proof {
            assert(v@ =~= s@.take(i as int));
        }
    }
    proof {
        assert(v@ =~= s@);
    }
    v
}

/// A decimal digit.
pub open spec fn is_digit(c: char) -> bool {
    '0' <= c && c <= '9'
}

/// The numeric value of a decimal digit.
pub open spec fn digit_val(c: char) -> int {
    c as int - '0' as int
}

/// Every character of the sequence is a decimal digit.
pub open spec fn all_digits(s: Seq<char>) -> bool {
    forall|i: int| 0 <= i < s.len() ==> is_digit(#[trigger] s[i])
}

/// The value of a digit sequence read in base ten.
pub open spec fn parse_uint(s: Seq<char>) -> int
    decreases s.len(),
{
    if s.len() == 0 {
        0
    } else {
        parse_uint(s.drop_last()) * 10 + digit_val(s.last())
    }
}

pub proof fn lemma_parse_uint_nonneg(s: Seq<char>)
    requires
        all_digits(s),
    ensures
        parse_uint(s) >= 0,
    decreases s.len(),
{
    if s.len() > 0 {
        assert(all_digits(s.drop_last()));
        lemma_parse_uint_nonneg(s.drop_last());
    }
}

/// Splits a character sequence at every occurrence of the separator; a
/// sequence with no separator is one field, and `n` separators bound
/// `n + 1` fields, empty fields included.
pub open spec fn split_on(s: Seq<char>, sep: char) -> Seq<Seq<char>>
    decreases s.len(),
{
    if s.len() == 0 {
        seq![Seq::<char>::empty()]
    } else if s[0] == sep {
        seq![Seq::<char>::empty()] + split_on(s.skip(1), sep)
    } else {
        prepend_first(seq![s[0]], split_on(s.skip(1), sep))
    }
}

/// Glues a prefix onto the first field of a split.
pub open spec fn prepend_first(p: Seq<char>, fs: Seq<Seq<char>>) -> Seq<Seq<char>> {
    fs.update(0, p + fs[0])
}

pub proof fn lemma_split_on_len(s: Seq<char>, sep: char)
    ensures
        split_on(s, sep).len() >= 1,
    decreases s.len(),
{
    if s.len() > 0 {
        lemma_split_on_len(s.skip(1), sep);
    }
}

/// Splits the character vector on the separator.
pub fn split_chars(v: &Vec<char>, sep: char) -> (fs: Vec<Vec<char>>)
    ensures
        fs@.map_values(|f: Vec<char>| f@) == split_on(v@, sep),
{
    let n: usize = v.len();
    let mut out: Vec<Vec<char>> = Vec::new();
    let mut field: Vec<char> = Vec::new();
    let mut i: usize = 0;
    proof {
        lemma_split_on_len(v@, sep);
        assert(v@.skip(0) =~= v@);
        assert(out@.map_values(|f: Vec<char>| f@) + prepend_first(field@, split_on(v@, sep))
            =~~= split_on(v@, sep));
    }
    while i < n
        invariant
            i <= n,
            n == v@.len(),
            split_on(v@, sep) == out@.map_values(|f: Vec<char>| f@) + prepend_first(
                field@,
                split_on(v@.skip(i as int), sep),
            ),
        decreases n - i,
    {
        proof {
            lemma_split_on_len(v@.skip(i as int + 1), sep);
            assert(v@.skip(i as int).skip(1) =~= v@.skip(i as int + 1));
        }
        let c: char = v[i];
        if c == sep {
            proof {
                assert(split_on(v@.skip(i as int), sep) =~= seq![Seq::<char>::empty()] + split_on(
                    v@.skip(i as int + 1),
                    sep,
                ));
                assert(prepend_first(field@, split_on(v@.skip(i as int), sep)) =~= seq![field@]
                    + split_on(v@.skip(i as int + 1), sep));
            }
            let ghost out0 = out@;
            let ghost f0 = field@;
            let done: Vec<char> = field;
            field = Vec::new();
            out.push(done);
            proof {
                assert(out@.map_values(|f: Vec<char>| f@) =~= out0.map_values(
                    |f: Vec<char>| f@,
                ).push(f0));
                assert(out@.map_values(|f: Vec<char>| f@) + prepend_first(
                    field@,
                    split_on(v@.skip(i as int + 1), sep),
                ) =~= split_on(v@, sep));
            }
        } else {
            proof {
                let rest = split_on(v@.skip(i as int + 1), sep);
                assert(split_on(v@.skip(i as int), sep) == prepend_first(seq![v@[i as int]], rest));
                assert(prepend_first(field@, prepend_first(seq![v@[i as int]], rest)) =~~= prepend_first(
                    field@.push(v@[i as int]),
                    rest,
                ));
            }
            field.push(c);
        }
        i = i + 1;
    }
    proof {
        assert(v@.skip(n as int) =~= Seq::<char>::empty());
        assert(prepend_first(field@, split_on(v@.skip(n as int), sep)) =~= seq![field@]);
    }
    let ghost out0 = out@;
    let ghost f0 = field@;
    out.push(field);
    proof {
        assert(out@.map_values(|f: Vec<char>| f@) =~= out0.map_values(|f: Vec<char>| f@).push(f0));
        assert(out@.map_values(|f: Vec<char>| f@) =~= split_on(v@, sep));
    }
    out
}

/// Reads a run of digits, reporting values above `cap` as `cap + 1`;
/// `None` exactly when a non-digit stands in the range.
pub fn parse_digits_capped(v: &Vec<char>, start: usize, end: usize, cap: i64) -> (r: Option<i64>)
    requires
        start <= end <= v@.len(),
        0 <= cap <= 4_000_000_000,
    ensures
        match r {
            None => !all_digits(v@.subrange(start as int, end as int)),
            Some(x) => {
                let sub = v@.subrange(start as int, end as int);
                all_digits(sub) && if parse_uint(sub) <= cap {
                    x == parse_uint(sub)
                } else {
                    x == cap + 1
                }
            },
        },
{
    let mut acc: i64 = 0;
    let mut i: usize = start;
    while i < end
        invariant
            start <= i <= end <= v@.len(),
            0 <= cap <= 4_000_000_000,
            all_digits(v@.subrange(start as int, i as int)),
            0 <= acc <= cap + 1,
            parse_uint(v@.subrange(start as int, i as int)) <= cap ==> acc == parse_uint(
                v@.subrange(start as int, i as int),
            ),
            parse_uint(v@.subrange(start as int, i as int)) > cap ==> acc == cap + 1,
        decreases end - i,
    {
        let c: char = v[i];
        if !('0' <= c && c <= '9') {
            proof {
                assert(!is_digit(v@.subrange(start as int, end as int)[i - start]));
            }
            return None;
        }
        let d: i64 = (c as u32 as i64) - ('0' as u32 as i64);
        proof {
            let pre = v@.subrange(start as int, i as int);
            let post = v@.subrange(start as int, i as int + 1);
            assert(post.drop_last() =~= pre);
            assert(post.last() == v@[i as int]);
            lemma_parse_uint_nonneg(pre);
        }
        acc = acc * 10 + d;
        if acc > cap {
            acc = cap + 1;
        }
        i = i + 1;
    }
    proof {
        assert(v@.subrange(start as int, end as int) =~= v@.subrange(start as int, i as int));
    }
    Some(acc)
}

/// The sign carried by an optional leading `+` or `-`.
pub open spec fn field_sign(s: Seq<char>) -> int {
    if s.len() > 0 && s[0] == '-' {
        -1
    } else {
        1
    }
}

/// The field with an optional leading sign removed.
pub open spec fn field_body(s: Seq<char>) -> Seq<char> {
    if s.len() > 0 && (s[0] == '-' || s[0] == '+') {
        s.skip(1)
    } else {
        s
    }
}

/// What an integer field denotes: a signed run of digits whose value fits
/// the range of a 32-bit integer, and nothing else.
pub open spec fn int_field_value(s: Seq<char>) -> Option<int> {
    let b = field_body(s);
    if b.len() > 0 && all_digits(b) {
        let v = field_sign(s) * parse_uint(b);
        if -2147483648 <= v <= 2147483647 {
            Some(v)
        } else {
            None
        }
    } else {
        None
    }
}

/// Parses an integer field.
pub fn parse_int_field(f: &Vec<char>) -> (r: Option<i64>)
    ensures
        match r {
            None => int_field_value(f@).is_none(),
            Some(x) => int_field_value(f@) == Some(x as int),
        },
{
    let n: usize = f.len();
    let mut start: usize = 0;
    let mut neg: bool = false;
    if n > 0 && (f[0] == '-' || f[0] == '+') {
        start = 1;
        neg = f[0] == '-';
    }
    proof {
        assert(field_body(f@) =~= f@.subrange(start as int, n as int));
    }
    if start == n {
        return None;
    }
    let mag: Option<i64> = parse_digits_capped(f, start, n, 2_147_483_648);
    match mag {
        None => None,
        Some(m) => {
            proof {
                lemma_parse_uint_nonneg(field_body(f@));
            }
            if neg {
                if m <= 2_147_483_648 {
                    Some(-m)
                } else {
                    None
                }
            } else {
                if m <= 2_147_483_647 {
                    Some(m)
                } else {
                    None
                }
            }
        },
    }
}

/// Ten to the `k`.
pub open spec fn pow10(k: nat) -> int
    decreases k,
{
    if k == 0 {
        1
    } else {
        10 * pow10((k - 1) as nat)
    }
}

/// Ten to the `k`, executable for the scales in use.
pub fn pow10_exec(k: usize) -> (r: i64)
    requires
        k <= 9,
    ensures
        r == pow10(k as nat),
        r >= 1,
{
    let mut r: i64 = 1;
    let mut i: usize = 0;
    while i < k
        invariant
            i <= k <= 9,
            r == pow10(i as nat),
            1 <= r <= 1_000_000_000,
        decreases k - i,
    {
        proof {
            lemma_pow10_bound((i + 1) as nat);
        }
        r = r * 10;
        i = i + 1;
    }
    r
}

/// The fractional digits of a field, read to `k` places; digits past the
/// `k`-th place are truncated away.
pub open spec fn frac_value(b: Seq<char>, k: nat) -> int {
    let j = if b.len() <= k {
        b.len()
    } else {
        k
    };
    parse_uint(b.take(j as int)) * pow10((k - j) as nat)
}

/// What a decimal field denotes, scaled by ten to the `k`: a signed run of
/// digits with at most one point, at least one digit in all, an integer
/// part no greater than a 32-bit integer holds, and nothing else — in
/// particular no exponent or non-finite spellings, which a fixed-point
/// value cannot carry.
pub open spec fn dec_field_value(s: Seq<char>, k: nat) -> Option<int> {
    let b = field_body(s);
    let fs = split_on(b, '.');
    if fs.len() == 1 && fs[0].len() > 0 && all_digits(fs[0]) && parse_uint(fs[0]) <= 2147483647 {
        Some(field_sign(s) * (parse_uint(fs[0]) * pow10(k)))
    } else if fs.len() == 2 && fs[0].len() + fs[1].len() > 0 && all_digits(fs[0]) && all_digits(
        fs[1],
    ) && parse_uint(fs[0]) <= 2147483647 {
        Some(field_sign(s) * (parse_uint(fs[0]) * pow10(k) + frac_value(fs[1], k)))
    } else {
        None
    }
}

/// Parses a decimal field into an integer scaled by ten to the `k`.
pub fn parse_dec_field(f: &Vec<char>, k: usize) -> (r: Option<i64>)
    requires
        1 <= k <= 6,
    ensures
        match r {
            None => dec_field_value(f@, k as nat).is_none(),
            Some(x) => dec_field_value(f@, k as nat) == Some(x as int) && -2147483648 * pow10(
                k as nat,
            ) < x < 2147483648 * pow10(k as nat),
        },
{
    let n: usize = f.len();
    let mut start: usize = 0;
    let mut neg: bool = false;
    if n > 0 && (f[0] == '-' || f[0] == '+') {
        start = 1;
        neg = f[0] == '-';
    }
    proof {
        assert(field_body(f@) =~= f@.subrange(start as int, n as int));
    }
    let body: Vec<char> = {
        let mut body: Vec<char> = Vec::new();
        let mut i: usize = start;
        while i < n
            invariant
                start <= i <= n,
                n == f@.len(),
                body@ == f@.subrange(start as int, i as int),
            decreases n - i,
        {
            body.push(f[i]);
            i = i + 1;
            proof {
                assert(body@ =~= f@.subrange(start as int, i as int));
            }
        }
        body
    };
    proof {
        assert(body@ =~= field_body(f@));
    }
    let parts: Vec<Vec<char>> = split_chars(&body, '.');
    proof {
        lemma_split_on_len(body@, '.');
    }
    if parts.len() == 1 {
        let p0: &Vec<char> = &parts[0];
        proof {
            assert(p0@ == split_on(body@, '.')[0]);
        }
        if p0.len() == 0 {
            return None;
        }
        match parse_digits_capped(p0, 0, p0.len(), 2_147_483_647) {
            None => {
                proof {
                    assert(p0@.subrange(0, p0@.len() as int) =~= p0@);
                }
                None
            },
            Some(m) => {
                proof {
                    assert(p0@.subrange(0, p0@.len() as int) =~= p0@);
                    lemma_parse_uint_nonneg(p0@);
                }
                if m > 2_147_483_647 {
                    return None;
                }
                let scale: i64 = pow10_exec(k);
                proof {
                    lemma_pow10_small(k as nat);
                    assert(0 <= m * scale && m * scale < 2_147_483_648 * scale <= 2_147_483_648
                        * 1_000_000) by (nonlinear_arith)
                        requires
                            0 <= m <= 2_147_483_647,
                            1 <= scale <= 1_000_000,
                    ;
                }
                let mag: i64 = m * scale;
                if neg {
                    Some(-mag)
                } else {
                    Some(mag)
                }
            },
        }
    } else if parts.len() == 2 {
        let p0: &Vec<char> = &parts[0];
        let p1: &Vec<char> = &parts[1];
        proof {
            assert(p0@ == split_on(body@, '.')[0]);
            assert(p1@ == split_on(body@, '.')[1]);
        }
        if p0.len() == 0 && p1.len() == 0 {
            return None;
        }
        let int_part: Option<i64> = parse_digits_capped(p0, 0, p0.len(), 2_147_483_647);
        proof {
            assert(p0@.subrange(0, p0@.len() as int) =~= p0@);
        }
        match int_part {
            None => None,
            Some(m) => {
                proof {
                    lemma_parse_uint_nonneg(p0@);
                }
                if m > 2_147_483_647 {
                    return None;
                }
                let j: usize = if p1.len() <= k {
                    p1.len()
                } else {
                    k
                };
                let frac_digits: Option<i64> = parse_digits_capped(p1, 0, j, 2_147_483_647);
                // the digits past the k-th place must still be digits
                let tail_ok: Option<i64> = parse_digits_capped(p1, j, p1.len(), 2_147_483_647);
                match (frac_digits, tail_ok) {
                    (Some(fd), Some(_)) => {
                        proof {
                            assert(p1@.subrange(0, j as int) =~= p1@.take(j as int));
                            lemma_all_digits_join(p1@, j as int);
                            lemma_parse_uint_nonneg(p1@.take(j as int));
                            lemma_parse_uint_take_bound(p1@.take(j as int));
                            lemma_pow10_small(k as nat);
                            lemma_pow10_small((k - j) as nat);
                            lemma_pow10_small(j as nat);
                        }
                        let rescale: i64 = pow10_exec(k - j);
                        let scale: i64 = pow10_exec(k);
                        proof {
                            assert(0 <= fd * rescale <= 1_000_000 * 1_000_000) by (nonlinear_arith)
                                requires
                                    0 <= fd <= 1_000_000,
                                    1 <= rescale <= 1_000_000,
                            ;
                            assert(0 <= m * scale <= 2_147_483_647 * 1_000_000) by (
                            nonlinear_arith)
                                requires
                                    0 <= m <= 2_147_483_647,
                                    1 <= scale <= 1_000_000,
                            ;
                        }
                        let frac: i64 = fd * rescale;
                        proof {
                            lemma_frac_bound(p1@, k as nat, j as nat);
                            assert(0 <= m * scale + frac && m * scale + frac < 2_147_483_648
                                * scale <= 2_147_483_648 * 1_000_000) by (nonlinear_arith)
                                requires
                                    0 <= m <= 2_147_483_647,
                                    1 <= scale <= 1_000_000,
                                    0 <= frac < scale,
                            ;
                        }
                        let mag: i64 = m * scale + frac;
                        if neg {
                            Some(-mag)
                        } else {
                            Some(mag)
                        }
                    },
                    _ => {
                        proof {
                            if !all_digits(p1@) {
                            } else {
                                assert(all_digits(p1@.subrange(0, j as int)));
                                assert(all_digits(p1@.subrange(j as int, p1@.len() as int)));
                            }
                        }
                        None
                    },
                }
            },
        }
    } else {
        None
    }
}

/// Splitting a digit run keeps both halves digit runs, and joining digit
/// halves yields a digit run.
pub proof fn lemma_all_digits_join(s: Seq<char>, j: int)
    requires
        0 <= j <= s.len(),
        all_digits(s.subrange(0, j)),
        all_digits(s.subrange(j, s.len() as int)),
    ensures
        all_digits(s),
{
    assert forall|i: int| 0 <= i < s.len() implies is_digit(#[trigger] s[i]) by {
        if i < j {
            assert(s.subrange(0, j)[i] == s[i]);
        } else {
            assert(s.subrange(j, s.len() as int)[i - j] == s[i]);
        }
    }
}

/// A run of at most nine digits stays below ten to the nine.
pub proof fn lemma_parse_uint_take_bound(s: Seq<char>)
    requires
        all_digits(s),
        s.len() <= 9,
    ensures
        parse_uint(s) < pow10(s.len()),
    decreases s.len(),
{
    if s.len() == 0 {
    } else {
        assert(all_digits(s.drop_last()));
        lemma_parse_uint_take_bound(s.drop_last());
        assert(digit_val(s.last()) <= 9);
    }
}

pub proof fn lemma_pow10_pos(k: nat)
    ensures
        pow10(k) >= 1,
    decreases k,
{
    if k > 0 {
        lemma_pow10_pos((k - 1) as nat);
    }
}

pub proof fn lemma_pow10_le(a: nat, b: nat)
    requires
        a <= b,
    ensures
        pow10(a) <= pow10(b),
    decreases b,
{
    if a < b {
        lemma_pow10_le(a, (b - 1) as nat);
        lemma_pow10_pos((b - 1) as nat);
    }
}

pub proof fn lemma_pow10_bound(k: nat)
    requires
        k <= 9,
    ensures
        1 <= pow10(k) <= 1_000_000_000,
{
    lemma_pow10_pos(k);
    lemma_pow10_le(k, 9);
    assert(pow10(9) == 1_000_000_000) by {
        reveal_with_fuel(pow10, 11);
    }
}

pub proof fn lemma_pow10_small(k: nat)
    requires
        k <= 6,
    ensures
        1 <= pow10(k) <= 1_000_000,
{
    lemma_pow10_pos(k);
    lemma_pow10_le(k, 6);
    assert(pow10(6) == 1_000_000) by {
        reveal_with_fuel(pow10, 8);
    }
}

/// The truncated fraction is below the scale.
pub proof fn lemma_frac_bound(b: Seq<char>, k: nat, j: nat)
    requires
        all_digits(b),
        k <= 6,
        j == if b.len() <= k {
            b.len()
        } else {
            k
        },
    ensures
        0 <= frac_value(b, k) < pow10(k),
{
    let t = b.take(j as int);
    assert(all_digits(t));
    lemma_parse_uint_nonneg(t);
    lemma_parse_uint_take_bound(t);
    lemma_pow10_bound((k - j) as nat);
    lemma_pow10_bound(k);
    lemma_pow10_bound(j);
    assert(pow10(j) * pow10((k - j) as nat) == pow10(k)) by {
        lemma_pow10_add(j, (k - j) as nat);
    }
    assert(parse_uint(t) * pow10((k - j) as nat) < pow10(j) * pow10((k - j) as nat)) by (
    nonlinear_arith)
        requires
            parse_uint(t) < pow10(j),
            pow10((k - j) as nat) >= 1,
    ;
    assert(parse_uint(t) * pow10((k - j) as nat) >= 0) by (nonlinear_arith)
        requires
            parse_uint(t) >= 0,
            pow10((k - j) as nat) >= 1,
    ;
}

pub proof fn lemma_pow10_add(a: nat, b: nat)
    ensures
        pow10(a) * pow10(b) == pow10(a + b),
    decreases a,
{
    if a == 0 {
        assert(pow10(0) == 1);
    } else {
        lemma_pow10_add((a - 1) as nat, b);
        assert(pow10(a) * pow10(b) == 10 * pow10((a - 1) as nat) * pow10(b));
        assert(10 * pow10((a - 1) as nat) * pow10(b) == 10 * (pow10((a - 1) as nat) * pow10(b)))
            by (nonlinear_arith);
        assert(pow10(a + b) == 10 * pow10((a + b - 1) as nat));
    }
}

} // verus!
