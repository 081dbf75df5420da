//! A JSON text parser, verified against a definitional specification.
//!
//! The parser accepts the JSON the platform's API serves: objects, arrays,
//! strings with the standard escapes (`\u` code points included), numbers,
//! booleans and `null`. An integer that fits the 64-bit ranges becomes an
//! integer value; any other well-formed number — fractional, exponential,
//! or beyond those ranges, as query results over decimal columns hold — is
//! carried verbatim as its lexeme. The specification functions mirror the
//! executable code exactly, so the contract `r == spec_parse_json(s@)` pins
//! the parser's behaviour on every input.

use crate::json::{JVal, JsonValue, jview, lemma_jview_arr, lemma_jview_obj, spec_elems,
    spec_fields};
use crate::strutil::str_chars;
use vstd::prelude::*;

verus! {

/// The whitespace characters JSON allows between tokens.
pub open spec fn is_ws(c: char) -> bool {
    c == ' ' || c == '\t' || c == '\n' || c == '\r'
}

pub open spec fn is_digit(c: char) -> bool {
    '0' as u32 <= c as u32 <= '9' as u32
}

pub open spec fn digit_of(c: char) -> int {
    c as u32 - '0' as u32
}

/// The first index at or after `i` holding a non-whitespace character.
pub open spec fn sp_skip_ws(s: Seq<char>, i: int) -> int
    decreases s.len() - i,
    when 0 <= i <= s.len()
{
    if i < s.len() && is_ws(s[i]) {
        sp_skip_ws(s, i + 1)
    } else {
        i
    }
}

/// The first index at or after `i` holding a non-digit character.
pub open spec fn sp_digits_end(s: Seq<char>, i: int) -> int
    decreases s.len() - i,
    when 0 <= i <= s.len()
{
    if i < s.len() && is_digit(s[i]) {
        sp_digits_end(s, i + 1)
    } else {
        i
    }
}

/// The value of the digit run `s[i .. end]` on top of `acc`, or `None` if it
/// would not fit in a `u64`.
pub open spec fn sp_num_val(s: Seq<char>, i: int, end: int, acc: int) -> Option<int>
    decreases end - i,
    when i <= end <= s.len()
{
    if i >= end {
        Some(acc)
    } else {
        let n = acc * 10 + digit_of(s[i]);
        if n > u64::MAX {
            None
        } else {
            sp_num_val(s, i + 1, end, n)
        }
    }
}

/// The unescaped replacement of an escape character, if the escape is known.
pub open spec fn sp_unescape(c: char) -> Option<char> {
    if c == '"' {
        Some('"')
    } else if c == '\\' {
        Some('\\')
    } else if c == '/' {
        Some('/')
    } else if c == 'n' {
        Some('\n')
    } else if c == 'r' {
        Some('\r')
    } else if c == 't' {
        Some('\t')
    } else {
        None
    }
}

/// The remainder of a string literal, starting inside the quotes at `i`:
/// the accumulated content and the index just after the closing quote.
pub open spec fn sp_string_body(s: Seq<char>, i: int, acc: Seq<char>) -> Option<
    (Seq<char>, int),
>
    decreases s.len() - i,
    when 0 <= i <= s.len()
{
    if i >= s.len() {
        None
    } else if s[i] == '"' {
        Some((acc, i + 1))
    } else if s[i] == '\\' {
        if i + 1 >= s.len() {
            None
        } else if s[i + 1] == 'u' {
            if !is_hex4(s, i + 2) {
                None
            } else {
                let n = sp_hex4(s, i + 2);
                if 0xD800 <= n < 0xDC00 {
                    // A high surrogate: a low-surrogate escape must follow,
                    // and the pair names one character beyond the basic
                    // plane.
                    if i + 8 < s.len() && s[i + 6] == '\\' && s[i + 7] == 'u' && is_hex4(
                        s,
                        i + 8,
                    ) {
                        let m = sp_hex4(s, i + 8);
                        if 0xDC00 <= m < 0xE000 {
                            sp_string_body(
                                s,
                                i + 12,
                                acc.push(
                                    spec_char_of(0x10000 + (n - 0xD800) * 0x400 + (m - 0xDC00)),
                                ),
                            )
                        } else {
                            None
                        }
                    } else {
                        None
                    }
                } else if 0xDC00 <= n < 0xE000 {
                    None
                } else {
                    sp_string_body(s, i + 6, acc.push(spec_char_of(n)))
                }
            }
        } else {
            match sp_unescape(s[i + 1]) {
                Some(c) => sp_string_body(s, i + 2, acc.push(c)),
                None => None,
            }
        }
    } else if (s[i] as u32) < 32 {
        None
    } else {
        sp_string_body(s, i + 1, acc.push(s[i]))
    }
}

/// Whether the keyword `w` stands at `i`.
pub open spec fn sp_has_keyword(s: Seq<char>, i: int, w: Seq<char>) -> bool {
    i + w.len() <= s.len() && s.subrange(i, i + w.len() as int) == w
}

/// Whether a character is a hexadecimal digit.
pub open spec fn is_hex_digit(c: char) -> bool {
    ('0' as u32 <= c as u32 <= '9' as u32) || ('a' as u32 <= c as u32 <= 'f' as u32) || (
    'A' as u32 <= c as u32 <= 'F' as u32)
}

/// The value of a hexadecimal digit.
pub open spec fn hex_val(c: char) -> int {
    if '0' as u32 <= c as u32 <= '9' as u32 {
        c as u32 - '0' as u32
    } else if 'a' as u32 <= c as u32 <= 'f' as u32 {
        c as u32 - 'a' as u32 + 10
    } else {
        c as u32 - 'A' as u32 + 10
    }
}

/// Whether four hexadecimal digits stand at `i`.
pub open spec fn is_hex4(s: Seq<char>, i: int) -> bool {
    i + 4 <= s.len() && is_hex_digit(s[i]) && is_hex_digit(s[i + 1]) && is_hex_digit(
        s[i + 2],
    ) && is_hex_digit(s[i + 3])
}

/// The value of the four hexadecimal digits at `i`.
pub open spec fn sp_hex4(s: Seq<char>, i: int) -> int {
    hex_val(s[i]) * 4096 + hex_val(s[i + 1]) * 256 + hex_val(s[i + 2]) * 16 + hex_val(
        s[i + 3],
    )
}

/// The character with the given scalar value.
pub open spec fn spec_char_of(n: int) -> char {
    n as char
}

/// The end of a fraction part at `i`: past its digits when a dot stands at
/// `i`, `i` itself when none does, and nothing when the dot has no digits.
pub open spec fn sp_frac_end(s: Seq<char>, i: int) -> Option<int> {
    if 0 <= i < s.len() && s[i] == '.' {
        let e = sp_digits_end(s, i + 1);
        if e == i + 1 {
            None
        } else {
            Some(e)
        }
    } else {
        Some(i)
    }
}

/// The end of an exponent part at `i`: past its sign and digits when an
/// exponent marker stands at `i`, `i` itself when none does, and nothing
/// when the marker has no digits.
pub open spec fn sp_exp_end(s: Seq<char>, i: int) -> Option<int> {
    if 0 <= i < s.len() && (s[i] == 'e' || s[i] == 'E') {
        let p = if i + 1 < s.len() && (s[i + 1] == '+' || s[i + 1] == '-') {
            i + 2
        } else {
            i + 1
        };
        let e = sp_digits_end(s, p);
        if e == p {
            None
        } else {
            Some(e)
        }
    } else {
        Some(i)
    }
}

/// A number starting at `i` (a minus sign, or a digit, stands at `i`): the
/// parsed value and the index after it. An integer that fits the 64-bit
/// ranges becomes `Num`; any other well-formed number is carried verbatim
/// as its lexeme.
pub open spec fn sp_number(s: Seq<char>, i: int) -> Option<(JVal, int)> {
    let d0 = if i < s.len() && s[i] == '-' {
        i + 1
    } else {
        i
    };
    if !(0 <= i && d0 <= s.len()) {
        None
    } else {
        let ie = sp_digits_end(s, d0);
        if ie == d0 {
            None
        } else if s[d0] == '0' && ie > d0 + 1 {
            None
        } else {
            match sp_frac_end(s, ie) {
                None => None,
                Some(fe) => match sp_exp_end(s, fe) {
                    None => None,
                    Some(end) => if end != ie {
                        Some((JVal::NumText(s.subrange(i, end)), end))
                    } else {
                        match sp_num_val(s, d0, ie, 0) {
                            Some(v) => if i < d0 {
                                if v <= 0x8000_0000_0000_0000 {
                                    Some((JVal::Num(-v), ie))
                                } else {
                                    Some((JVal::NumText(s.subrange(i, ie)), ie))
                                }
                            } else {
                                Some((JVal::Num(v), ie))
                            },
                            None => Some((JVal::NumText(s.subrange(i, ie)), ie)),
                        }
                    },
                },
            }
        }
    }
}

/// A JSON value starting at or after `i` (leading whitespace is skipped):
/// the value and the index just after it. `fuel` bounds the recursion; the
/// top-level entry gives enough for any input.
pub open spec fn sp_value(s: Seq<char>, i: int, fuel: nat) -> Option<(JVal, int)>
    decreases fuel,
    when 0 <= i <= s.len()
{
    if fuel == 0 {
        None
    } else {
        let j = sp_skip_ws(s, i);
        if j >= s.len() {
            None
        } else if s[j] == 'n' {
            if sp_has_keyword(s, j, seq!['n', 'u', 'l', 'l']) {
                Some((JVal::Null, j + 4))
            } else {
                None
            }
        } else if s[j] == 't' {
            if sp_has_keyword(s, j, seq!['t', 'r', 'u', 'e']) {
                Some((JVal::Bool(true), j + 4))
            } else {
                None
            }
        } else if s[j] == 'f' {
            if sp_has_keyword(s, j, seq!['f', 'a', 'l', 's', 'e']) {
                Some((JVal::Bool(false), j + 5))
            } else {
                None
            }
        } else if s[j] == '"' {
            match sp_string_body(s, j + 1, Seq::empty()) {
                Some((t, k)) => Some((JVal::Str(t), k)),
                None => None,
            }
        } else if s[j] == '-' || is_digit(s[j]) {
            sp_number(s, j)
        } else if s[j] == '[' {
            sp_elements(s, j + 1, (fuel - 1) as nat, Seq::empty())
        } else if s[j] == '{' {
            sp_members(s, j + 1, (fuel - 1) as nat, Seq::empty())
        } else {
            None
        }
    }
}

/// The elements of an array, starting just after `[` or after a comma.
pub open spec fn sp_elements(s: Seq<char>, i: int, fuel: nat, acc: Seq<JVal>) -> Option<
    (JVal, int),
>
    decreases fuel,
    when 0 <= i <= s.len()
{
    if fuel == 0 {
        None
    } else {
        let j = sp_skip_ws(s, i);
        if acc.len() == 0 && j < s.len() && s[j] == ']' {
            Some((JVal::Arr(acc), j + 1))
        } else {
            match sp_value(s, j, (fuel - 1) as nat) {
                None => None,
                Some((v, k)) => {
                    if !(k <= s.len()) {
                        None
                    } else {
                        let m = sp_skip_ws(s, k);
                        if m < s.len() && s[m] == ',' {
                            sp_elements(s, m + 1, (fuel - 1) as nat, acc.push(v))
                        } else if m < s.len() && s[m] == ']' {
                            Some((JVal::Arr(acc.push(v)), m + 1))
                        } else {
                            None
                        }
                    }
                },
            }
        }
    }
}

/// The members of an object, starting just after `{` or after a comma.
pub open spec fn sp_members(
    s: Seq<char>,
    i: int,
    fuel: nat,
    acc: Seq<(Seq<char>, JVal)>,
) -> Option<(JVal, int)>
    decreases fuel,
    when 0 <= i <= s.len()
{
    if fuel == 0 {
        None
    } else {
        let j = sp_skip_ws(s, i);
        if acc.len() == 0 && j < s.len() && s[j] == '}' {
            Some((JVal::Obj(acc), j + 1))
        } else if j < s.len() && s[j] == '"' {
            match sp_string_body(s, j + 1, Seq::empty()) {
                None => None,
                Some((key, k)) => {
                    if !(k <= s.len()) {
                        None
                    } else {
                        let c = sp_skip_ws(s, k);
                        if c < s.len() && s[c] == ':' {
                            match sp_value(s, c + 1, (fuel - 1) as nat) {
                                None => None,
                                Some((v, k2)) => {
                                    if !(k2 <= s.len()) {
                                        None
                                    } else {
                                        let m = sp_skip_ws(s, k2);
                                        if m < s.len() && s[m] == ',' {
                                            sp_members(
                                                s,
                                                m + 1,
                                                (fuel - 1) as nat,
                                                acc.push((key, v)),
                                            )
                                        } else if m < s.len() && s[m] == '}' {
                                            Some((JVal::Obj(acc.push((key, v))), m + 1))
                                        } else {
                                            None
                                        }
                                    }
                                },
                            }
                        } else {
                            None
                        }
                    }
                },
            }
        } else {
            None
        }
    }
}

/// The bound above which a document is not parsed. It lies far beyond any
/// string a machine can hold, and keeps the recursion budget within `u64`.
pub open spec fn spec_parse_limit() -> int {
    0x1000_0000_0000_0000
}

/// The model of the parser: the document's value when the text is a single
/// well-formed JSON value, with nothing but whitespace around it.
pub open spec fn spec_parse_json(s: Seq<char>) -> Option<JVal> {
    if s.len() >= spec_parse_limit() {
        None
    } else {
        match sp_value(s, 0, (2 * s.len() + 2) as nat) {
            None => None,
            Some((v, i)) => if 0 <= i <= s.len() && sp_skip_ws(s, i) == s.len() {
                Some(v)
            } else {
                None
            },
        }
    }
}

// ---------------------------------------------------------------------------
// Executable parser. Each function mirrors its specification exactly.
// ---------------------------------------------------------------------------
proof fn lemma_skip_ws_bounds(s: Seq<char>, i: int)
    requires
        0 <= i <= s.len(),
    ensures
        i <= sp_skip_ws(s, i) <= s.len(),
    decreases s.len() - i,
{
    if i < s.len() && is_ws(s[i]) {
        lemma_skip_ws_bounds(s, i + 1);
    }
}

fn p_skip_ws(s: &Vec<char>, i: usize) -> (j: usize)
    requires
        i <= s@.len(),
    ensures
        j == sp_skip_ws(s@, i as int),
        i <= j <= s@.len(),
{
    let mut j = i;
    while j < s.len() && (s[j] == ' ' || s[j] == '\t' || s[j] == '\n' || s[j] == '\r')
        invariant
            i <= j <= s@.len(),
            sp_skip_ws(s@, i as int) == sp_skip_ws(s@, j as int),
        decreases s@.len() - j,
    {
        j = j + 1;
    }
    j
}

fn p_digits_end(s: &Vec<char>, i: usize) -> (j: usize)
    requires
        i <= s@.len(),
    ensures
        j == sp_digits_end(s@, i as int),
        i <= j <= s@.len(),
{
    let mut j = i;
    while j < s.len() && (s[j] as u32) >= ('0' as u32) && (s[j] as u32) <= ('9' as u32)
        invariant
            i <= j <= s@.len(),
            sp_digits_end(s@, i as int) == sp_digits_end(s@, j as int),
        decreases s@.len() - j,
    {
        j = j + 1;
    }
    j
}

proof fn lemma_digits_end_digits(s: Seq<char>, i: int)
    requires
        0 <= i <= s.len(),
    ensures
        i <= sp_digits_end(s, i) <= s.len(),
        forall|k: int| i <= k < sp_digits_end(s, i) ==> is_digit(s[k]),
    decreases s.len() - i,
{
    if i < s.len() && is_digit(s[i]) {
        lemma_digits_end_digits(s, i + 1);
    }
}

fn p_num_val(s: &Vec<char>, i: usize, end: usize) -> (r: Option<u64>)
    requires
        i <= end <= s@.len(),
        forall|k: int| i <= k < end ==> is_digit(s@[k]),
    ensures
        match r {
            Some(v) => sp_num_val(s@, i as int, end as int, 0) == Some(v as int),
            None => sp_num_val(s@, i as int, end as int, 0) is None,
        },
{
    let mut acc: u64 = 0;
    let mut j = i;
    while j < end
        invariant
            i <= j <= end <= s@.len(),
            forall|k: int| i <= k < end ==> is_digit(s@[k]),
            sp_num_val(s@, i as int, end as int, 0) == sp_num_val(
                s@,
                j as int,
                end as int,
                acc as int,
            ),
        decreases end - j,
    {
        let dv: u64 = ((s[j] as u32) - ('0' as u32)) as u64;
        if acc > (u64::MAX - dv) / 10 {
            proof {
                assert(acc as int * 10 + dv as int > u64::MAX) by (nonlinear_arith)
                    requires
                        acc as int > ((u64::MAX - dv) as int) / 10,
                        0 <= dv <= 9,
                        0 <= acc <= u64::MAX,
                ;
            }
            return None;
        }
        proof {
            assert(acc as int * 10 + dv as int <= u64::MAX) by (nonlinear_arith)
                requires
                    acc as int <= ((u64::MAX - dv) as int) / 10,
                    0 <= dv <= 9,
                    0 <= acc,
            ;
        }
        acc = acc * 10 + dv;
        j = j + 1;
    }
    Some(acc)
}

fn p_string_body(s: &Vec<char>, i: usize) -> (r: Option<(Vec<char>, usize)>)
    requires
        i <= s@.len(),
    ensures
        match r {
            Some((t, j)) => sp_string_body(s@, i as int, Seq::empty()) == Some((t@, j as int))
                && i <= j <= s@.len(),
            None => sp_string_body(s@, i as int, Seq::empty()) is None,
        },
{
    let mut out: Vec<char> = Vec::new();
    let mut j = i;
    loop
        invariant
            i <= j <= s@.len(),
            sp_string_body(s@, i as int, Seq::empty()) == sp_string_body(s@, j as int, out@),
        decreases s@.len() - j,
    {
        if j >= s.len() {
            return None;
        }
        let c = s[j];
        if c == '"' {
            return Some((out, j + 1));
        } else if c == '\\' {
            if j + 1 >= s.len() {
                return None;
            }
            let e = s[j + 1];
            if e == 'u' {
                if s.len() - j < 6 {
                    proof {
                        assert(!is_hex4(s@, j as int + 2));
                    }
                    return None;
                }
                let h = match p_hex4(s, j + 2) {
                    Some(h) => h,
                    None => {
                        return None;
                    },
                };
                if 0xD800 <= h && h < 0xDC00 {
                    if s.len() - j > 8 && s[j + 6] == '\\' && s[j + 7] == 'u' {
                        if s.len() - j < 12 {
                            proof {
                                assert(!is_hex4(s@, j as int + 8));
                            }
                            return None;
                        }
                        let h2 = match p_hex4(s, j + 8) {
                            Some(h2) => h2,
                            None => {
                                return None;
                            },
                        };
                        if 0xDC00 <= h2 && h2 < 0xE000 {
                            let code: u32 = 0x10000 + (h - 0xD800) * 0x400 + (h2 - 0xDC00);
                            let cc = match char_from_u32(code) {
                                Some(cc) => cc,
                                None => {
                                    proof {
                                        assert(false);
                                    }
                                    return None;
                                },
                            };
                            proof {
                                assert(cc == spec_char_of(
                                    0x10000 + (h as int - 0xD800) * 0x400 + (h2 as int
                                        - 0xDC00),
                                ));
                            }
                            out.push(cc);
                            j = j + 12;
                        } else {
                            return None;
                        }
                    } else {
                        return None;
                    }
                } else if 0xDC00 <= h && h < 0xE000 {
                    return None;
                } else {
                    let cc = match char_from_u32(h) {
                        Some(cc) => cc,
                        None => {
                            proof {
                                assert(false);
                            }
                            return None;
                        },
                    };
                    proof {
                        assert(cc == spec_char_of(h as int));
                    }
                    out.push(cc);
                    j = j + 6;
                }
            } else {
                let u: char = if e == '"' {
                    '"'
                } else if e == '\\' {
                    '\\'
                } else if e == '/' {
                    '/'
                } else if e == 'n' {
                    '\n'
                } else if e == 'r' {
                    '\r'
                } else if e == 't' {
                    '\t'
                } else {
                    return None;
                };
                proof {
                    assert(sp_unescape(s@[j + 1]) == Some(u));
                }
                out.push(u);
                j = j + 2;
            }
        } else if (c as u32) < 32 {
            return None;
        } else {
            out.push(c);
            j = j + 1;
        }
    }
}

fn p_keyword4(s: &Vec<char>, j: usize, c1: char, c2: char, c3: char) -> (r: bool)
    requires
        j < s@.len(),
    ensures
        r == sp_has_keyword(s@, j as int, seq![s@[j as int], c1, c2, c3]),
{
    if s.len() - j > 3 && s[j + 1] == c1 && s[j + 2] == c2 && s[j + 3] == c3 {
        proof {
            assert(s@.subrange(j as int, j + 4) =~= seq![s@[j as int], c1, c2, c3]);
        }
        true
    } else {
        proof {
            if j + 4 <= s@.len() {
                let w = seq![s@[j as int], c1, c2, c3];
                let sub = s@.subrange(j as int, j + 4);
                if sub == w {
                    assert(sub[1] == c1 && sub[2] == c2 && sub[3] == c3);
                    assert(false);
                }
            }
        }
        false
    }
}

fn p_keyword5(s: &Vec<char>, j: usize, c1: char, c2: char, c3: char, c4: char) -> (r: bool)
    requires
        j < s@.len(),
    ensures
        r == sp_has_keyword(s@, j as int, seq![s@[j as int], c1, c2, c3, c4]),
{
    if s.len() - j > 4 && s[j + 1] == c1 && s[j + 2] == c2 && s[j + 3] == c3 && s[j + 4]
        == c4 {
        proof {
            assert(s@.subrange(j as int, j + 5) =~= seq![s@[j as int], c1, c2, c3, c4]);
        }
        true
    } else {
        proof {
            if j + 5 <= s@.len() {
                let w = seq![s@[j as int], c1, c2, c3, c4];
                let sub = s@.subrange(j as int, j + 5);
                if sub == w {
                    assert(sub[1] == c1 && sub[2] == c2 && sub[3] == c3 && sub[4] == c4);
                    assert(false);
                }
            }
        }
        false
    }
}

/// Relies on `char::from_u32`: the character whose scalar value is `n` —
/// which is what the specification-level cast of `n` to `char` denotes on
/// the allowed values — or nothing when `n` is a surrogate or lies beyond
/// the last code point.
#[verifier::external_body]
fn char_from_u32(n: u32) -> (r: Option<char>)
    ensures
        r is Some <==> (n < 0xD800 || (0xE000 <= n && n <= 0x10FFFF)),
        r matches Some(c) ==> c == spec_char_of(n as int),
{
    char::from_u32(n)
}

fn hex_digit_val(c: char) -> (r: Option<u32>)
    ensures
        match r {
            Some(v) => is_hex_digit(c) && v == hex_val(c) && v < 16,
            None => !is_hex_digit(c),
        },
{
    let u = c as u32;
    if u >= '0' as u32 && u <= '9' as u32 {
        Some(u - '0' as u32)
    } else if u >= 'a' as u32 && u <= 'f' as u32 {
        Some(u - 'a' as u32 + 10)
    } else if u >= 'A' as u32 && u <= 'F' as u32 {
        Some(u - 'A' as u32 + 10)
    } else {
        None
    }
}

fn p_hex4(s: &Vec<char>, i: usize) -> (r: Option<u32>)
    requires
        i <= s@.len(),
    ensures
        match r {
            Some(h) => is_hex4(s@, i as int) && h == sp_hex4(s@, i as int) && h <= 0xFFFF,
            None => !is_hex4(s@, i as int),
        },
{
    if s.len() - i < 4 {
        return None;
    }
    let a = match hex_digit_val(s[i]) {
        Some(v) => v,
        None => {
            return None;
        },
    };
    let b = match hex_digit_val(s[i + 1]) {
        Some(v) => v,
        None => {
            return None;
        },
    };
    let c = match hex_digit_val(s[i + 2]) {
        Some(v) => v,
        None => {
            return None;
        },
    };
    let d = match hex_digit_val(s[i + 3]) {
        Some(v) => v,
        None => {
            return None;
        },
    };
    Some(a * 4096 + b * 256 + c * 16 + d)
}

/// The characters `s[i .. end]`, as a string.
fn range_string(s: &Vec<char>, i: usize, end: usize) -> (r: String)
    requires
        i <= end <= s@.len(),
    ensures
        r@ == s@.subrange(i as int, end as int),
{
    let mut out: Vec<char> = Vec::new();
    let mut j = i;
    while j < end
        invariant
            i <= j <= end <= s@.len(),
            out@ =~= s@.subrange(i as int, j as int),
        decreases end - j,
    {
        out.push(s[j]);
        j = j + 1;
        proof {
            assert(out@ =~= s@.subrange(i as int, j as int));
        }
    }
    crate::strutil::chars_to_string(&out)
}

fn p_frac_end(s: &Vec<char>, i: usize) -> (r: Option<usize>)
    requires
        i <= s@.len(),
    ensures
        match r {
            Some(e) => sp_frac_end(s@, i as int) == Some(e as int) && i <= e <= s@.len(),
            None => sp_frac_end(s@, i as int) is None,
        },
{
    if i < s.len() && s[i] == '.' {
        let e = p_digits_end(s, i + 1);
        if e == i + 1 {
            None
        } else {
            Some(e)
        }
    } else {
        Some(i)
    }
}

fn p_exp_end(s: &Vec<char>, i: usize) -> (r: Option<usize>)
    requires
        i <= s@.len(),
    ensures
        match r {
            Some(e) => sp_exp_end(s@, i as int) == Some(e as int) && i <= e <= s@.len(),
            None => sp_exp_end(s@, i as int) is None,
        },
{
    if i < s.len() && (s[i] == 'e' || s[i] == 'E') {
        let p = if i + 1 < s.len() && (s[i + 1] == '+' || s[i + 1] == '-') {
            i + 2
        } else {
            i + 1
        };
        let e = p_digits_end(s, p);
        if e == p {
            None
        } else {
            Some(e)
        }
    } else {
        Some(i)
    }
}

fn p_number(s: &Vec<char>, i: usize) -> (r: Option<(JsonValue, usize)>)
    requires
        i <= s@.len(),
    ensures
        match r {
            Some((v, j)) => sp_number(s@, i as int) == Some((jview(v), j as int)) && i <= j
                <= s@.len(),
            None => sp_number(s@, i as int) is None,
        },
{
    let d0 = if i < s.len() && s[i] == '-' {
        i + 1
    } else {
        i
    };
    let ie = p_digits_end(s, d0);
    proof {
        lemma_digits_end_digits(s@, d0 as int);
    }
    if ie == d0 {
        return None;
    }
    if s[d0] == '0' && ie > d0 + 1 {
        return None;
    }
    let fe = match p_frac_end(s, ie) {
        Some(x) => x,
        None => {
            return None;
        },
    };
    let end = match p_exp_end(s, fe) {
        Some(x) => x,
        None => {
            return None;
        },
    };
    if end != ie {
        return Some((JsonValue::NumText(range_string(s, i, end)), end));
    }
    match p_num_val(s, d0, ie) {
        Some(v) => {
            if i < d0 {
                if v <= 0x8000_0000_0000_0000 {
                    let n: i64 = if v == 0x8000_0000_0000_0000 {
                        i64::MIN
                    } else {
                        -(v as i64)
                    };
                    Some((JsonValue::Int(n), ie))
                } else {
                    Some((JsonValue::NumText(range_string(s, i, ie)), ie))
                }
            } else {
                Some((JsonValue::UInt(v), ie))
            }
        },
        None => Some((JsonValue::NumText(range_string(s, i, ie)), ie)),
    }
}

fn p_value(s: &Vec<char>, i: usize, fuel: u64) -> (r: Option<(JsonValue, usize)>)
    requires
        i <= s@.len(),
    ensures
        match r {
            Some((v, j)) => sp_value(s@, i as int, fuel as nat) == Some((jview(v), j as int))
                && i <= j <= s@.len(),
            None => sp_value(s@, i as int, fuel as nat) is None,
        },
    decreases fuel,
{
    if fuel == 0 {
        return None;
    }
    let j = p_skip_ws(s, i);
    if j >= s.len() {
        return None;
    }
    let c = s[j];
    if c == 'n' {
        if p_keyword4(s, j, 'u', 'l', 'l') {
            Some((JsonValue::Null, j + 4))
        } else {
            None
        }
    } else if c == 't' {
        if p_keyword4(s, j, 'r', 'u', 'e') {
            Some((JsonValue::Bool(true), j + 4))
        } else {
            None
        }
    } else if c == 'f' {
        if p_keyword5(s, j, 'a', 'l', 's', 'e') {
            Some((JsonValue::Bool(false), j + 5))
        } else {
            None
        }
    } else if c == '"' {
        match p_string_body(s, j + 1) {
            Some((t, k)) => {
                let text = crate::strutil::chars_to_string(&t);
                Some((JsonValue::Str(text), k))
            },
            None => None,
        }
    } else if c == '-' || ((c as u32) >= '0' as u32 && (c as u32) <= '9' as u32) {
        p_number(s, j)
    } else if c == '[' {
        let acc: Vec<JsonValue> = Vec::new();
        proof {
            assert(spec_elems(acc@) =~= Seq::empty());
        }
        p_elements(s, j + 1, fuel - 1, acc)
    } else if c == '{' {
        let acc: Vec<(String, JsonValue)> = Vec::new();
        proof {
            assert(spec_fields(acc@) =~= Seq::empty());
        }
        p_members(s, j + 1, fuel - 1, acc)
    } else {
        None
    }
}

fn p_elements(s: &Vec<char>, i: usize, fuel: u64, acc: Vec<JsonValue>) -> (r: Option<
    (JsonValue, usize),
>)
    requires
        i <= s@.len(),
    ensures
        match r {
            Some((v, j)) => sp_elements(s@, i as int, fuel as nat, spec_elems(acc@)) == Some(
                (jview(v), j as int),
            ) && i <= j <= s@.len(),
            None => sp_elements(s@, i as int, fuel as nat, spec_elems(acc@)) is None,
        },
    decreases fuel,
{
    if fuel == 0 {
        return None;
    }
    let j = p_skip_ws(s, i);
    if acc.len() == 0 && j < s.len() && s[j] == ']' {
        let r = JsonValue::Arr(acc);
        proof {
            broadcast use lemma_jview_arr;

        }
        return Some((r, j + 1));
    }
    match p_value(s, j, fuel - 1) {
        None => None,
        Some((v, k)) => {
            let m = p_skip_ws(s, k);
            if m < s.len() && s[m] == ',' {
                let mut acc2 = acc;
                let ghost old_elems = spec_elems(acc2@);
                acc2.push(v);
                proof {
                    assert(spec_elems(acc2@) =~= old_elems.push(jview(v)));
                }
                p_elements(s, m + 1, fuel - 1, acc2)
            } else if m < s.len() && s[m] == ']' {
                let mut acc2 = acc;
                let ghost old_elems = spec_elems(acc2@);
                acc2.push(v);
                proof {
                    assert(spec_elems(acc2@) =~= old_elems.push(jview(v)));
                }
                let r = JsonValue::Arr(acc2);
                proof {
                    broadcast use lemma_jview_arr;

                }
                Some((r, m + 1))
            } else {
                None
            }
        },
    }
}

fn p_members(s: &Vec<char>, i: usize, fuel: u64, acc: Vec<(String, JsonValue)>) -> (r: Option<
    (JsonValue, usize),
>)
    requires
        i <= s@.len(),
    ensures
        match r {
            Some((v, j)) => sp_members(s@, i as int, fuel as nat, spec_fields(acc@)) == Some(
                (jview(v), j as int),
            ) && i <= j <= s@.len(),
            None => sp_members(s@, i as int, fuel as nat, spec_fields(acc@)) is None,
        },
    decreases fuel,
{
    if fuel == 0 {
        return None;
    }
    let j = p_skip_ws(s, i);
    if acc.len() == 0 && j < s.len() && s[j] == '}' {
        let r = JsonValue::Obj(acc);
        proof {
            broadcast use lemma_jview_obj;

        }
        return Some((r, j + 1));
    }
    if !(j < s.len() && s[j] == '"') {
        return None;
    }
    match p_string_body(s, j + 1) {
        None => None,
        Some((key, k)) => {
            let c = p_skip_ws(s, k);
            if !(c < s.len() && s[c] == ':') {
                return None;
            }
            match p_value(s, c + 1, fuel - 1) {
                None => None,
                Some((v, k2)) => {
                    let m = p_skip_ws(s, k2);
                    let keystring = crate::strutil::chars_to_string(&key);
                    if m < s.len() && s[m] == ',' {
                        let mut acc2 = acc;
                        let ghost old_fields = spec_fields(acc2@);
                        acc2.push((keystring, v));
                        proof {
                            assert(spec_fields(acc2@) =~= old_fields.push((key@, jview(v))));
                        }
                        p_members(s, m + 1, fuel - 1, acc2)
                    } else if m < s.len() && s[m] == '}' {
                        let mut acc2 = acc;
                        let ghost old_fields = spec_fields(acc2@);
                        acc2.push((keystring, v));
                        proof {
                            assert(spec_fields(acc2@) =~= old_fields.push((key@, jview(v))));
                        }
                        let r = JsonValue::Obj(acc2);
                        proof {
                            broadcast use lemma_jview_obj;

                        }
                        Some((r, m + 1))
                    } else {
                        None
                    }
                },
            }
        },
    }
}

/// Parses a JSON document, returning its value tree when the text is a
/// single well-formed value surrounded by nothing but whitespace.
pub fn parse_json(s: &str) -> (r: Option<JsonValue>)
    ensures
        match r {
            Some(v) => spec_parse_json(s@) == Some(jview(v)),
            None => spec_parse_json(s@) is None,
        },
{
    let chars = str_chars(s);
    if (chars.len() as u64) >= 0x1000_0000_0000_0000u64 {
        return None;
    }
    let fuel: u64 = 2 * (chars.len() as u64) + 2;
    match p_value(&chars, 0, fuel) {
        None => None,
        Some((v, j)) => {
            let k = p_skip_ws(&chars, j);
            if k == chars.len() {
                Some(v)
            } else {
                None
            }
        },
    }
}

} // verus!
