//! Decimal text rendering: natural numbers and tenths-scaled values with
//! exactly one digit after the decimal point.

use vstd::prelude::*;

verus! {

/// The character for one decimal digit.
pub open spec fn digit_char(d: int) -> char {
    if d == 0 {
        '0'
    } else if d == 1 {
        '1'
    } else if d == 2 {
        '2'
    } else if d == 3 {
        '3'
    } else if d == 4 {
        '4'
    } else if d == 5 {
        '5'
    } else if d == 6 {
        '6'
    } else if d == 7 {
        '7'
    } else if d == 8 {
        '8'
    } else {
        '9'
    }
}

/// Decimal text of a natural number, most significant digit first, with
/// no leading zero except for the number zero itself.
pub open spec fn nat_text(n: nat) -> Seq<char>
    decreases n,
{
    if n < 10 {
        seq![digit_char(n as int)]
    } else {
        nat_text(n / 10) + seq![digit_char((n % 10) as int)]
    }
}

/// Text of a tenths-scaled value with exactly one decimal place: the
/// value `t` stands for the number `t / 10`, so `-10` renders as `-1.0`
/// and `1000` renders as `100.0`.
pub open spec fn tenths_text(t: int) -> Seq<char> {
    let m = if t < 0 {
        -t
    } else {
        t
    };
    (if t < 0 {
        seq!['-']
    } else {
        Seq::<char>::empty()
    }) + nat_text((m / 10) as nat) + seq!['.'] + seq![digit_char(m % 10)]
}

/// Relies on `String::push` of std: appends one character at the end of
/// the string; vstd specifies `+= &str` but not `push`.
#[verifier::external_body]
pub(crate) fn push_char(s: &mut String, c: char)
    ensures
        final(s)@ == old(s)@.push(c),
{
    s.push(c);
}

/// The character for one decimal digit, executable form.
fn digit_to_char(d: u64) -> (c: char)
    requires
        d < 10,
    ensures
        c == digit_char(d as int),
{
    if d == 0 {
        '0'
    } else if d == 1 {
        '1'
    } else if d == 2 {
        '2'
    } else if d == 3 {
        '3'
    } else if d == 4 {
        '4'
    } else if d == 5 {
        '5'
    } else if d == 6 {
        '6'
    } else if d == 7 {
        '7'
    } else if d == 8 {
        '8'
    } else {
        '9'
    }
}

/// Renders a natural number in decimal.
pub fn u64_text(n: u64) -> (r: String)
    ensures
        r@ == nat_text(n as nat),
    decreases n,
{
    if n < 10 {
        let mut s = String::new();
        push_char(&mut s, digit_to_char(n));
        proof {
            assert(s@ =~= nat_text(n as nat));
        }
        s
    } else {
        let mut s = u64_text(n / 10);
        push_char(&mut s, digit_to_char(n % 10));
        proof {
            assert(s@ =~= nat_text(n as nat));
        }
        s
    }
}

/// Renders a tenths-scaled value with one decimal place.
pub fn tenths_to_text(t: i64) -> (r: String)
    ensures
        r@ == tenths_text(t as int),
{
    let mut s = String::new();
    if t < 0 {
        s.append("-");
    }
    let mag: u64 = if t < 0 {
        (-(t as i128)) as u64
    } else {
        t as u64
    };
    let whole = u64_text(mag / 10);
    s.append(whole.as_str());
    push_char(&mut s, '.');
    push_char(&mut s, digit_to_char(mag % 10));
    proof {
        reveal_strlit("-");
        assert(s@ =~= tenths_text(t as int));
    }
    s
}

} // verus!
