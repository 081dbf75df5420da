//! Small verified string utilities: character access, concatenation, and
//! decimal rendering of integers, used by the JSON codec and the request
//! builders.

use vstd::prelude::*;
use vstd::string::StrSliceExecFns;
use vstd::string::StringExecFns;

verus! {

/// Relies on `String::push`: appends one character at the end of the string.
#[verifier::external_body]
pub fn push_char(s: &mut String, c: char)
    ensures
        final(s)@ == old(s)@ + seq![c],
{
    s.push(c);
}

/// The characters of a string, as a vector.
pub fn str_chars(s: &str) -> (r: Vec<char>)
    ensures
        r@ == s@,
{
    let n = s.unicode_len();
    let mut r: Vec<char> = Vec::new();
    let mut i: usize = 0;
    while i < n
        invariant
            i <= n,
            n == s@.len(),
            r@ == s@.subrange(0, i as int),
        decreases n - i,
    {
        r.push(s.get_char(i));
        i = i + 1;
        proof {
            assert(r@ =~= s@.subrange(0, i as int));
        }
    }
    proof {
        assert(r@ =~= s@);
    }
    r
}

/// A string holding the given characters.
pub fn chars_to_string(v: &Vec<char>) -> (r: String)
    ensures
        r@ == v@,
{
    let mut r = String::new();
    let mut i: usize = 0;
    while i < v.len()
        invariant
            i <= v.len(),
            r@ == v@.subrange(0, i as int),
        decreases v.len() - i,
    {
        push_char(&mut r, v[i]);
        i = i + 1;
        proof {
            assert(r@ =~= v@.subrange(0, i as int));
        }
    }
    proof {
        assert(r@ =~= v@);
    }
    r
}

/// The concatenation of two string slices.
pub fn str_concat(a: &str, b: &str) -> (r: String)
    ensures
        r@ == a@ + b@,
{
    let mut r = a.to_owned();
    r.append(b);
    r
}

/// The decimal digit character for a value below ten.
pub open spec fn spec_digit_char(d: int) -> char {
    if d == 0 {
        '0'
    } else if d == 1 {
        '1'
    } else if d == 2 {
        '2'
    } else if d == 3 {
        '3'
    } else if d == 4 {
        '4'
    } else if d == 5 {
        '5'
    } else if d == 6 {
        '6'
    } else if d == 7 {
        '7'
    } else if d == 8 {
        '8'
    } else {
        '9'
    }
}

/// The decimal rendering of a natural number, most significant digit first.
pub open spec fn spec_u64_chars(n: int) -> Seq<char>
    decreases n,
{
    if n < 10 {
        seq![spec_digit_char(n)]
    } else {
        spec_u64_chars(n / 10).push(spec_digit_char(n % 10))
    }
}

/// The decimal rendering of an integer: a minus sign for negative values,
/// then the digits of the magnitude.
pub open spec fn spec_i64_chars(n: int) -> Seq<char> {
    if n < 0 {
        seq!['-'] + spec_u64_chars(-n)
    } else {
        spec_u64_chars(n)
    }
}

fn digit_char(d: u64) -> (c: char)
    requires
        d < 10,
    ensures
        c == spec_digit_char(d as int),
{
    if d == 0 {
        '0'
    } else if d == 1 {
        '1'
    } else if d == 2 {
        '2'
    } else if d == 3 {
        '3'
    } else if d == 4 {
        '4'
    } else if d == 5 {
        '5'
    } else if d == 6 {
        '6'
    } else if d == 7 {
        '7'
    } else if d == 8 {
        '8'
    } else {
        '9'
    }
}

/// Appends the decimal rendering of `n` to `out`.
pub fn push_u64_chars(out: &mut String, n: u64)
    ensures
        final(out)@ == old(out)@ + spec_u64_chars(n as int),
    decreases n,
{
    if n < 10 {
        push_char(out, digit_char(n));
    } else {
        proof {
            assert(n / 10 < n && n / 10 >= 1) by (nonlinear_arith)
                requires
                    n >= 10,
            ;
        }
        push_u64_chars(out, n / 10);
        push_char(out, digit_char(n % 10));
        proof {
            assert(out@ =~= old(out)@ + spec_u64_chars(n as int));
        }
    }
}

/// Appends the decimal rendering of a signed value to `out`.
pub fn push_i64_chars(out: &mut String, n: i64)
    ensures
        final(out)@ == old(out)@ + spec_i64_chars(n as int),
{
    if n < 0 {
        push_char(out, '-');
        let m: u64 = ((-(n + 1)) as u64) + 1;
        proof {
            assert(m as int == -(n as int));
        }
        push_u64_chars(out, m);
        proof {
            assert(out@ =~= old(out)@ + spec_i64_chars(n as int));
        }
    } else {
        push_u64_chars(out, n as u64);
    }
}

/// The decimal rendering of an unsigned value, as a string.
pub fn u64_string(n: u64) -> (r: String)
    ensures
        r@ == spec_u64_chars(n as int),
{
    let mut r = String::new();
    push_u64_chars(&mut r, n);
    r
}

/// The decimal rendering of a signed value, as a string.
pub fn i64_string(n: i64) -> (r: String)
    ensures
        r@ == spec_i64_chars(n as int),
{
    let mut r = String::new();
    push_i64_chars(&mut r, n);
    r
}

/// The decimal rendering of an unsigned 32-bit value, as a string.
pub fn u32_string(n: u32) -> (r: String)
    ensures
        r@ == spec_u64_chars(n as int),
{
    u64_string(n as u64)
}

} // verus!
