//! Verified number-to-text formatting for labels and coordinate displays.

use vstd::prelude::*;

verus! {

/// The character for one decimal digit.
pub open spec fn digit_char(d: int) -> char {
    if d == 0 {
        '0'
    } else if d == 1 {
        '1'
    } else if d == 2 {
        '2'
    } else if d == 3 {
        '3'
    } else if d == 4 {
        '4'
    } else if d == 5 {
        '5'
    } else if d == 6 {
        '6'
    } else if d == 7 {
        '7'
    } else if d == 8 {
        '8'
    } else {
        '9'
    }
}

/// The decimal digits of a nonnegative number, most significant first.
pub open spec fn dec_digits(n: int) -> Seq<char>
    decreases n,
{
    if n < 10 {
        seq![digit_char(n)]
    } else {
        dec_digits(n / 10).push(digit_char(n % 10))
    }
}

/// The decimal rendering of a signed number.
pub open spec fn dec_signed(v: int) -> Seq<char> {
    if v < 0 {
        seq!['-'] + dec_digits(-v)
    } else {
        dec_digits(v)
    }
}

/// A one-character string for one decimal digit.
fn digit_str(d: u64) -> (r: &'static str)
    requires
        d <= 9,
    ensures
        r@ == seq![digit_char(d as int)],
{
    proof {
        reveal_strlit("0");
        reveal_strlit("1");
        reveal_strlit("2");
        reveal_strlit("3");
        reveal_strlit("4");
        reveal_strlit("5");
        reveal_strlit("6");
        reveal_strlit("7");
        reveal_strlit("8");
        reveal_strlit("9");
    }
    let r: &'static str = match d {
        0 => "0",
        1 => "1",
        2 => "2",
        3 => "3",
        4 => "4",
        5 => "5",
        6 => "6",
        7 => "7",
        8 => "8",
        _ => "9",
    };
    proof {
        assert(r@ =~= seq![digit_char(d as int)]);
    }
    r
}

/// Renders a nonnegative number in decimal.
pub fn u64_to_string(n: u64) -> (s: String)
    ensures
        s@ == dec_digits(n as int),
    decreases n,
{
    if n < 10 {
        String::from_str(digit_str(n))
    } else {
        let mut s: String = u64_to_string(n / 10);
        s.append(digit_str(n % 10));
        proof {
            assert(s@ =~= dec_digits(n as int));
        }
        s
    }
}

/// Renders a signed number in decimal.
pub fn i64_to_string(v: i64) -> (s: String)
    ensures
        s@ == dec_signed(v as int),
{
    if v < 0 {
        let m: u64 = ((-(v + 1)) as u64) + 1;
        proof {
            reveal_strlit("-");
        }
        let mut s: String = String::from_str("-");
        let digits: String = u64_to_string(m);
        s.append(digits.as_str());
        proof {
            assert(s@ =~= dec_signed(v as int));
        }
        s
    } else {
        u64_to_string(v as u64)
    }
}

/// The rendering of a value carried in hundredths, always with two places
/// after the point, the way a grid ring's angle is written on its label.
pub open spec fn centi_digits(c: int) -> Seq<char>
    recommends
        c >= 0,
{
    dec_digits(c / 100) + seq!['.', digit_char((c / 10) % 10), digit_char(c % 10)]
}

/// Renders a nonnegative value carried in hundredths with two places after
/// the point.
pub fn format_centi(c: i64) -> (s: String)
    requires
        c >= 0,
    ensures
        s@ == centi_digits(c as int),
{
    proof {
        reveal_strlit(".");
    }
    let mut s: String = u64_to_string((c as u64) / 100);
    s.append(".");
    s.append(digit_str(((c as u64) / 10) % 10));
    s.append(digit_str((c as u64) % 10));
    proof {
        assert(s@ =~= centi_digits(c as int));
    }
    s
}

/// The rendering of a value carried in thousandths: the whole part, then,
/// when the thousandths are not all zero, a point and one to three places
/// with trailing zeros dropped.
pub open spec fn milli_digits(m: int) -> Seq<char> {
    let sign: Seq<char> = if m < 0 {
        seq!['-']
    } else {
        Seq::<char>::empty()
    };
    let a = if m < 0 {
        -m
    } else {
        m
    };
    let ip = a / 1000;
    let fr = a % 1000;
    if fr == 0 {
        sign + dec_digits(ip)
    } else if fr % 100 == 0 {
        sign + dec_digits(ip) + seq!['.', digit_char(fr / 100)]
    } else if fr % 10 == 0 {
        sign + dec_digits(ip) + seq!['.', digit_char(fr / 100), digit_char((fr / 10) % 10)]
    } else {
        sign + dec_digits(ip) + seq![
            '.',
            digit_char(fr / 100),
            digit_char((fr / 10) % 10),
            digit_char(fr % 10),
        ]
    }
}

/// Renders a value carried in thousandths, trailing zeros dropped, the way
/// a seconds count is written.
pub fn format_milli(m: i64) -> (s: String)
    ensures
        s@ == milli_digits(m as int),
{
    proof {
        reveal_strlit("-");
        reveal_strlit(".");
    }
    let a: u64 = if m < 0 {
        ((-(m + 1)) as u64) + 1
    } else {
        m as u64
    };
    let mut s: String = if m < 0 {
        String::from_str("-")
    } else {
        String::new()
    };
    let ip: u64 = a / 1000;
    let fr: u64 = a % 1000;
    let digits: String = u64_to_string(ip);
    s.append(digits.as_str());
    if fr != 0 {
        s.append(".");
        s.append(digit_str(fr / 100));
        if fr % 100 != 0 {
            s.append(digit_str((fr / 10) % 10));
            if fr % 10 != 0 {
                s.append(digit_str(fr % 10));
            }
        }
    }
    proof {
        assert(s@ =~= milli_digits(m as int));
    }
    s
}

} // verus!
