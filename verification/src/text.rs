//! Decimal rendering of identifiers.
//!
//! Replies to the messaging API and rows handed to the web templates carry
//! numeric identifiers as strings; `i64_to_string` renders them and is
//! specified against the mathematical digit sequence `dec_i64`.

use vstd::prelude::*;

verus! {

/// The decimal digit character for `d` (`0 <= d <= 9`).
pub open spec fn dec_digit(d: int) -> char {
    if d == 0 {
        '0'
    } else if d == 1 {
        '1'
    } else if d == 2 {
        '2'
    } else if d == 3 {
        '3'
    } else if d == 4 {
        '4'
    } else if d == 5 {
        '5'
    } else if d == 6 {
        '6'
    } else if d == 7 {
        '7'
    } else if d == 8 {
        '8'
    } else {
        '9'
    }
}

/// The decimal digits of `n`, most significant first, no leading zeros
/// (`0` is rendered as the single digit `0`).
pub open spec fn dec_nat(n: nat) -> Seq<char>
    decreases n,
{
    if n < 10 {
        seq![dec_digit(n as int)]
    } else {
        dec_nat(n / 10).push(dec_digit((n % 10) as int))
    }
}

/// The decimal rendering of a signed number: a minus sign for negative
/// values, followed by the digits of the magnitude.
pub open spec fn dec_i64(n: int) -> Seq<char> {
    if n < 0 {
        seq!['-'] + dec_nat((-n) as nat)
    } else {
        dec_nat(n as nat)
    }
}

/// Relies on `String::push`: appends the given `char` to the end of the
/// string, and nothing else.
#[verifier::external_body]
fn push_char(s: &mut String, c: char)
    ensures
        final(s)@ == old(s)@ + seq![c],
{
    s.push(c);
}

fn digit_char(d: u64) -> (c: char)
    requires
        d < 10,
    ensures
        c == dec_digit(d as int),
{
    match d {
        0 => '0',
        1 => '1',
        2 => '2',
        3 => '3',
        4 => '4',
        5 => '5',
        6 => '6',
        7 => '7',
        8 => '8',
        _ => '9',
    }
}

/// Renders `n` in decimal, as the standard formatter would.
pub fn i64_to_string(n: i64) -> (s: String)
    ensures
        s@ == dec_i64(n as int),
{
    let neg = n < 0;
    let mut mag: u64 = if n == i64::MIN {
        9223372036854775808u64
    } else if n < 0 {
        (-n) as u64
    } else {
        n as u64
    };
    let ghost orig: nat = mag as nat;
    assert(neg ==> orig == -(n as int));
    assert(!neg ==> orig == n as int);

    let mut rev: Vec<char> = Vec::new();
    #[verifier::loop_isolation(true)]
    loop
        invariant_except_break
            dec_nat(orig) == dec_nat(mag as nat) + rev@.reverse(),
        ensures
            dec_nat(orig) == rev@.reverse(),
        decreases mag,
    {
        let d = mag % 10;
        let ghost prev_mag: nat = mag as nat;
        let ghost prev_rev: Seq<char> = rev@;
        rev.push(digit_char(d));
        mag = mag / 10;
        proof {
            assert(rev@.reverse() =~= seq![dec_digit(d as int)] + prev_rev.reverse());
        }
        if mag == 0 {
            proof {
                assert(prev_mag < 10);
                assert(dec_nat(prev_mag) == seq![dec_digit(d as int)]);
                assert(dec_nat(orig) =~= rev@.reverse());
            }
            break;
        }
        proof {
            assert(prev_mag >= 10);
            assert(dec_nat(prev_mag) == dec_nat(prev_mag / 10).push(
                dec_digit((prev_mag % 10) as int),
            ));
            assert(dec_nat(mag as nat) + rev@.reverse() =~= dec_nat(prev_mag) + prev_rev.reverse());
        }
    }

    let mut s = String::new();
    if neg {
        push_char(&mut s, '-');
    }
    assert(s@ + rev@.reverse() == dec_i64(n as int));
    while rev.len() > 0
        invariant
            s@ + rev@.reverse() == dec_i64(n as int),
        decreases rev.len(),
    {
        let ghost prev_rev: Seq<char> = rev@;
        let c = match rev.pop() {
            Some(c) => c,
            None => '0',
        };
        push_char(&mut s, c);
        proof {
            assert(prev_rev.reverse() =~= seq![c] + rev@.reverse());
        }
    }
    assert(s@ =~= dec_i64(n as int));
    s
}

} // verus!
