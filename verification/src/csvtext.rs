//! A CSV parser for dataset data, verified against a definitional
//! specification. It follows the common reading of RFC-4180: fields are
//! separated by commas, records by a line feed, a carriage return, or the
//! pair; a field starting with a quote runs to the closing quote, with a
//! doubled quote standing for a literal one; and a wholly empty line is no
//! record. The specification functions mirror the executable code exactly.

use crate::json::views_of_strings;
use crate::strutil::chars_to_string;
use crate::strutil::str_chars;
use vstd::prelude::*;

verus! {

/// Whether a character ends an unquoted field.
pub open spec fn is_field_end(c: char) -> bool {
    c == ',' || c == '\n' || c == '\r'
}

/// The first index at or after `i` that ends an unquoted field.
pub open spec fn sp_ufield_end(s: Seq<char>, i: int) -> int
    decreases s.len() - i,
    when 0 <= i <= s.len()
{
    if i < s.len() && !is_field_end(s[i]) {
        sp_ufield_end(s, i + 1)
    } else {
        i
    }
}

/// The remainder of a quoted field, starting inside the quotes: the content
/// and the index just after the closing quote. A doubled quote stands for a
/// literal quote; a missing closing quote fails the parse.
pub open spec fn sp_qfield(s: Seq<char>, i: int, acc: Seq<char>) -> Option<(Seq<char>, int)>
    decreases s.len() - i,
    when 0 <= i <= s.len()
{
    if i >= s.len() {
        None
    } else if s[i] == '"' {
        if i + 1 < s.len() && s[i + 1] == '"' {
            sp_qfield(s, i + 2, acc.push('"'))
        } else {
            Some((acc, i + 1))
        }
    } else {
        sp_qfield(s, i + 1, acc.push(s[i]))
    }
}

/// One field starting at `i`: its content and the index of the delimiter
/// after it.
pub open spec fn sp_field(s: Seq<char>, i: int) -> Option<(Seq<char>, int)> {
    if i < s.len() && s[i] == '"' {
        sp_qfield(s, i + 1, Seq::empty())
    } else {
        Some((s.subrange(i, sp_ufield_end(s, i)), sp_ufield_end(s, i)))
    }
}

/// One record starting at `i`: its fields and the index of the record
/// terminator after it.
pub open spec fn sp_record(s: Seq<char>, i: int, fuel: nat, acc: Seq<Seq<char>>) -> Option<
    (Seq<Seq<char>>, int),
>
    decreases fuel,
    when 0 <= i <= s.len()
{
    if fuel == 0 {
        None
    } else {
        match sp_field(s, i) {
            None => None,
            Some((f, j)) => {
                if !(0 <= j <= s.len()) {
                    None
                } else if j < s.len() && s[j] == ',' {
                    sp_record(s, j + 1, (fuel - 1) as nat, acc.push(f))
                } else {
                    Some((acc.push(f), j))
                }
            },
        }
    }
}

/// Whether a parsed record came from a wholly empty line, which is skipped.
pub open spec fn sp_is_empty_record(r: Seq<Seq<char>>) -> bool {
    r.len() == 1 && r[0].len() == 0
}

/// The records of the text from `i` on.
pub open spec fn sp_records(
    s: Seq<char>,
    i: int,
    fuel: nat,
    acc: Seq<Seq<Seq<char>>>,
) -> Option<Seq<Seq<Seq<char>>>>
    decreases fuel,
    when 0 <= i <= s.len()
{
    if fuel == 0 {
        None
    } else if i >= s.len() {
        Some(acc)
    } else {
        match sp_record(s, i, (fuel - 1) as nat, Seq::empty()) {
            None => None,
            Some((r, j)) => {
                let acc2 = if sp_is_empty_record(r) {
                    acc
                } else {
                    acc.push(r)
                };
                if !(0 <= j <= s.len()) {
                    None
                } else if j >= s.len() {
                    Some(acc2)
                } else if s[j] == '\n' {
                    sp_records(s, j + 1, (fuel - 1) as nat, acc2)
                } else if s[j] == '\r' && j + 1 < s.len() && s[j + 1] == '\n' {
                    sp_records(s, j + 2, (fuel - 1) as nat, acc2)
                } else if s[j] == '\r' {
                    sp_records(s, j + 1, (fuel - 1) as nat, acc2)
                } else {
                    None
                }
            },
        }
    }
}

/// The bound above which a text is not parsed; it lies far beyond any
/// string a machine can hold.
pub open spec fn spec_csv_limit() -> int {
    0x1000_0000_0000_0000
}

/// The model of the parser: the record matrix of the text, or nothing when
/// a quoted field never closes.
pub open spec fn spec_parse_csv(s: Seq<char>) -> Option<Seq<Seq<Seq<char>>>> {
    if s.len() >= spec_csv_limit() {
        None
    } else {
        sp_records(s, 0, (2 * s.len() + 2) as nat, Seq::empty())
    }
}

/// The model of a parsed record matrix.
pub open spec fn csv_rows_view(v: Seq<Vec<String>>) -> Seq<Seq<Seq<char>>> {
    Seq::new(v.len(), |i: int| views_of_strings(v[i]@))
}

fn p_ufield_end(s: &Vec<char>, i: usize) -> (j: usize)
    requires
        i <= s@.len(),
    ensures
        j == sp_ufield_end(s@, i as int),
        i <= j <= s@.len(),
{
    let mut j = i;
    while j < s.len() && !(s[j] == ',' || s[j] == '\n' || s[j] == '\r')
        invariant
            i <= j <= s@.len(),
            sp_ufield_end(s@, i as int) == sp_ufield_end(s@, j as int),
        decreases s@.len() - j,
    {
        j = j + 1;
    }
    j
}

fn p_qfield(s: &Vec<char>, i: usize) -> (r: Option<(Vec<char>, usize)>)
    requires
        i <= s@.len(),
    ensures
        match r {
            Some((t, j)) => sp_qfield(s@, i as int, Seq::empty()) == Some((t@, j as int))
                && i <= j <= s@.len(),
            None => sp_qfield(s@, i as int, Seq::empty()) is None,
        },
{
    let mut out: Vec<char> = Vec::new();
    let mut j = i;
    loop
        invariant
            i <= j <= s@.len(),
            sp_qfield(s@, i as int, Seq::empty()) == sp_qfield(s@, j as int, out@),
        decreases s@.len() - j,
    {
        if j >= s.len() {
            return None;
        }
        if s[j] == '"' {
            if j + 1 < s.len() && s[j + 1] == '"' {
                out.push('"');
                j = j + 2;
            } else {
                return Some((out, j + 1));
            }
        } else {
            out.push(s[j]);
            j = j + 1;
        }
    }
}

fn p_field(s: &Vec<char>, i: usize) -> (r: Option<(Vec<char>, usize)>)
    requires
        i <= s@.len(),
    ensures
        match r {
            Some((t, j)) => sp_field(s@, i as int) == Some((t@, j as int)) && i <= j
                <= s@.len(),
            None => sp_field(s@, i as int) is None,
        },
{
    if i < s.len() && s[i] == '"' {
        p_qfield(s, i + 1)
    } else {
        let end = p_ufield_end(s, i);
        let mut out: Vec<char> = Vec::new();
        let mut j = i;
        while j < end
            invariant
                i <= j <= end <= s@.len(),
                end == sp_ufield_end(s@, i as int),
                out@ =~= s@.subrange(i as int, j as int),
            decreases end - j,
        {
            out.push(s[j]);
            j = j + 1;
            proof {
                assert(out@ =~= s@.subrange(i as int, j as int));
            }
        }
        proof {
            assert(out@ =~= s@.subrange(i as int, end as int));
        }
        Some((out, end))
    }
}

fn p_record(s: &Vec<char>, i: usize, fuel: u64, acc: Vec<String>) -> (r: Option<
    (Vec<String>, usize),
>)
    requires
        i <= s@.len(),
    ensures
        match r {
            Some((t, j)) => sp_record(s@, i as int, fuel as nat, views_of_strings(acc@))
                == Some((views_of_strings(t@), j as int)) && i <= j <= s@.len(),
            None => sp_record(s@, i as int, fuel as nat, views_of_strings(acc@)) is None,
        },
    decreases fuel,
{
    if fuel == 0 {
        return None;
    }
    match p_field(s, i) {
        None => None,
        Some((f, j)) => {
            let field = chars_to_string(&f);
            if j < s.len() && s[j] == ',' {
                let mut acc2 = acc;
                let ghost old_view = views_of_strings(acc2@);
                acc2.push(field);
                proof {
                    assert(views_of_strings(acc2@) =~= old_view.push(f@));
                }
                p_record(s, j + 1, fuel - 1, acc2)
            } else {
                let mut acc2 = acc;
                let ghost old_view = views_of_strings(acc2@);
                acc2.push(field);
                proof {
                    assert(views_of_strings(acc2@) =~= old_view.push(f@));
                }
                Some((acc2, j))
            }
        },
    }
}

fn p_records(s: &Vec<char>, i: usize, fuel: u64, acc: Vec<Vec<String>>) -> (r: Option<
    Vec<Vec<String>>,
>)
    requires
        i <= s@.len(),
    ensures
        match r {
            Some(t) => sp_records(s@, i as int, fuel as nat, csv_rows_view(acc@)) == Some(
                csv_rows_view(t@),
            ),
            None => sp_records(s@, i as int, fuel as nat, csv_rows_view(acc@)) is None,
        },
    decreases fuel,
{
    if fuel == 0 {
        return None;
    }
    if i >= s.len() {
        return Some(acc);
    }
    let empty_fields: Vec<String> = Vec::new();
    proof {
        assert(views_of_strings(empty_fields@) =~= Seq::<Seq<char>>::empty());
    }
    match p_record(s, i, fuel - 1, empty_fields) {
        None => None,
        Some((rec, j)) => {
            let skip = rec.len() == 1 && rec[0].as_str().is_empty();
            proof {
                assert(views_of_strings(rec@)[0] == rec@[0]@ || rec@.len() != 1);
                assert(skip == sp_is_empty_record(views_of_strings(rec@)));
            }
            let acc2 = if skip {
                acc
            } else {
                let mut acc2 = acc;
                let ghost old_view = csv_rows_view(acc2@);
                acc2.push(rec);
                proof {
                    assert(csv_rows_view(acc2@) =~= old_view.push(
                        views_of_strings(acc2@.last()@),
                    ));
                }
                acc2
            };
            if j >= s.len() {
                Some(acc2)
            } else if s[j] == '\n' {
                p_records(s, j + 1, fuel - 1, acc2)
            } else if s[j] == '\r' && j + 1 < s.len() && s[j + 1] == '\n' {
                p_records(s, j + 2, fuel - 1, acc2)
            } else if s[j] == '\r' {
                p_records(s, j + 1, fuel - 1, acc2)
            } else {
                None
            }
        },
    }
}

/// Parses CSV text into its record matrix: one row per line, one string per
/// field. Nothing is returned when a quoted field never closes.
pub fn csv_records(text: &str) -> (r: Option<Vec<Vec<String>>>)
    ensures
        match r {
            Some(rows) => spec_parse_csv(text@) == Some(csv_rows_view(rows@)),
            None => spec_parse_csv(text@) is None,
        },
{
    let chars = str_chars(text);
    if (chars.len() as u64) >= 0x1000_0000_0000_0000u64 {
        return None;
    }
    let fuel: u64 = 2 * (chars.len() as u64) + 2;
    let acc: Vec<Vec<String>> = Vec::new();
    proof {
        assert(csv_rows_view(acc@) =~= Seq::<Seq<Seq<char>>>::empty());
    }
    p_records(&chars, 0, fuel, acc)
}

} // verus!
