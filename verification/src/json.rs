//! A JSON value tree and the helpers the resource codecs are built from.
//!
//! Every resource record is encoded to and decoded from this tree; the tree
//! itself is rendered to and parsed from text in `jsontext`. The mathematical
//! model of a tree is [`JVal`], where numbers are unbounded integers, strings
//! are character sequences and objects are ordered key/value sequences.

use vstd::prelude::*;

verus! {

/// The mathematical model of a JSON document.
#[verifier::ext_equal]
pub enum JVal {
    Null,
    Bool(bool),
    Num(int),
    NumText(Seq<char>),
    Str(Seq<char>),
    Arr(Seq<JVal>),
    Obj(Seq<(Seq<char>, JVal)>),
}

/// A JSON document. The wire format of this API uses integer numbers for
/// ids, counts and timestamps in milliseconds: non-negative ones are carried
/// as `UInt` so that the whole `u64` range is representable, negative ones
/// as `Int`. Any other number — one with a fraction or an exponent, or one
/// beyond those ranges, as query results over decimal columns hold — is
/// carried verbatim as its lexeme in `NumText`, so it passes through
/// untouched; no record field decodes from it.
#[derive(Debug, PartialEq, Eq)]
pub enum JsonValue {
    Null,
    Bool(bool),
    Int(i64),
    UInt(u64),
    NumText(String),
    Str(String),
    Arr(Vec<JsonValue>),
    Obj(Vec<(String, JsonValue)>),
}

/// The model of a JSON document: numbers become unbounded integers, strings
/// become character sequences, arrays and objects become sequences.
pub open spec fn jview(v: JsonValue) -> JVal
    decreases v,
    via jview_decreases
{
    match v {
        JsonValue::Null => JVal::Null,
        JsonValue::Bool(b) => JVal::Bool(b),
        JsonValue::Int(n) => JVal::Num(n as int),
        JsonValue::UInt(n) => JVal::Num(n as int),
        JsonValue::NumText(s) => JVal::NumText(s@),
        JsonValue::Str(s) => JVal::Str(s@),
        JsonValue::Arr(a) => JVal::Arr(jview_seq(a@)),
        JsonValue::Obj(o) => JVal::Obj(jview_fields(o@)),
    }
}

/// The models of an array's elements, one by one.
pub open spec fn jview_seq(s: Seq<JsonValue>) -> Seq<JVal>
    decreases s,
    via jview_seq_decreases
{
    if s.len() == 0 {
        Seq::empty()
    } else {
        seq![jview(s[0])] + jview_seq(s.drop_first())
    }
}

/// The models of an object's fields, one by one.
pub open spec fn jview_fields(s: Seq<(String, JsonValue)>) -> Seq<(Seq<char>, JVal)>
    decreases s,
    via jview_fields_decreases
{
    if s.len() == 0 {
        Seq::empty()
    } else {
        seq![(s[0].0@, jview(s[0].1))] + jview_fields(s.drop_first())
    }
}

#[via_fn]
proof fn jview_decreases(v: JsonValue) {
    match v {
        JsonValue::Arr(a) => {
            assert(decreases_to!(v => a));
            assert(decreases_to!(a => a@));
        },
        JsonValue::Obj(o) => {
            assert(decreases_to!(v => o));
            assert(decreases_to!(o => o@));
        },
        _ => {},
    }
}

#[via_fn]
proof fn jview_seq_decreases(s: Seq<JsonValue>) {
    if s.len() > 0 {
        assert(decreases_to!(s => s[0]));
        assert(s.drop_first() == s.subrange(1, s.len() as int));
        assert(decreases_to!(s => s.subrange(1, s.len() as int)));
    }
}

#[via_fn]
proof fn jview_fields_decreases(s: Seq<(String, JsonValue)>) {
    if s.len() > 0 {
        assert(decreases_to!(s => s[0]));
        assert(decreases_to!(s[0] => s[0].1));
        assert(s.drop_first() == s.subrange(1, s.len() as int));
        assert(decreases_to!(s => s.subrange(1, s.len() as int)));
    }
}

impl View for JsonValue {
    type V = JVal;

    open spec fn view(&self) -> JVal {
        jview(*self)
    }
}

/// The model of an object's field list, indexed directly.
pub open spec fn spec_fields(s: Seq<(String, JsonValue)>) -> Seq<(Seq<char>, JVal)> {
    Seq::new(s.len(), |i: int| (s[i].0@, jview(s[i].1)))
}

/// The model of an array's element list, indexed directly.
pub open spec fn spec_elems(s: Seq<JsonValue>) -> Seq<JVal> {
    Seq::new(s.len(), |i: int| jview(s[i]))
}

proof fn lemma_jview_fields_eq(s: Seq<(String, JsonValue)>)
    ensures
        jview_fields(s) =~= spec_fields(s),
    decreases s.len(),
{
    if s.len() > 0 {
        lemma_jview_fields_eq(s.drop_first());
    }
}

proof fn lemma_jview_seq_eq(s: Seq<JsonValue>)
    ensures
        jview_seq(s) =~= spec_elems(s),
    decreases s.len(),
{
    if s.len() > 0 {
        lemma_jview_seq_eq(s.drop_first());
    }
}

pub broadcast proof fn lemma_jview_obj(o: Vec<(String, JsonValue)>)
    ensures
        #[trigger] jview(JsonValue::Obj(o)) == JVal::Obj(spec_fields(o@)),
{
    lemma_jview_fields_eq(o@);
}

pub broadcast proof fn lemma_jview_arr(a: Vec<JsonValue>)
    ensures
        #[trigger] jview(JsonValue::Arr(a)) == JVal::Arr(spec_elems(a@)),
{
    lemma_jview_seq_eq(a@);
}


/// The value of the first field named `key`, if any.
pub open spec fn spec_lookup(fields: Seq<(Seq<char>, JVal)>, key: Seq<char>) -> Option<JVal>
    decreases fields.len(),
{
    if fields.len() == 0 {
        None
    } else if fields[0].0 == key {
        Some(fields[0].1)
    } else {
        spec_lookup(fields.drop_first(), key)
    }
}

/// The value of the first field named `key` of an object's field list.
pub fn jlookup<'a>(fields: &'a Vec<(String, JsonValue)>, key: &str) -> (r: Option<
    &'a JsonValue,
>)
    ensures
        match r {
            Some(v) => spec_lookup(spec_fields(fields@), key@) == Some(jview(*v)) && exists|
                i: int,
            |
                0 <= i < fields@.len() && (#[trigger] fields@[i]).1 == *v,
            None => spec_lookup(spec_fields(fields@), key@) is None,
        },
{
    let keystring = key.to_owned();
    let mut i: usize = 0;
    proof {
        assert(spec_fields(fields@).subrange(0, spec_fields(fields@).len() as int) =~= spec_fields(
            fields@,
        ));
    }
    while i < fields.len()
        invariant
            keystring@ == key@,
            i <= fields.len(),
            spec_lookup(spec_fields(fields@), key@) == spec_lookup(
                spec_fields(fields@).subrange(i as int, spec_fields(fields@).len() as int),
                key@,
            ),
            forall|j: int|
                0 <= j < i ==> #[trigger] spec_fields(fields@)[j].0 != key@,
        decreases fields.len() - i,
    {
        proof {
            assert(spec_fields(fields@).subrange(i as int, spec_fields(fields@).len() as int)[0] == spec_fields(fields@)[i as int]);
        }
        if fields[i].0.eq(&keystring) {
            proof {
                assert(0 <= i < fields@.len() && fields@[i as int].1 == fields@[i as int].1);
            }
            return Some(&fields[i].1);
        }
        proof {
            assert(spec_fields(fields@).subrange(i as int, spec_fields(fields@).len() as int).drop_first() =~= spec_fields(fields@).subrange(i as int + 1, spec_fields(fields@).len() as int));
        }
        i = i + 1;
    }
    proof {
        assert(spec_fields(fields@).subrange(fields@.len() as int, spec_fields(fields@).len() as int).len() == 0);
    }
    None
}

/// Appends a field to an object under construction.
pub fn put_field(fields: &mut Vec<(String, JsonValue)>, key: &str, v: JsonValue)
    ensures
        spec_fields(final(fields)@) == spec_fields(old(fields)@).push((key@, jview(v))),
{
    fields.push((key.to_owned(), v));
    proof {
        assert(spec_fields(fields@) =~= spec_fields(old(fields)@).push((key@, jview(v))));
    }
}

// ---------------------------------------------------------------------------
// Encoders for the field shapes the data model uses.
// ---------------------------------------------------------------------------
/// An optional number: `null` when unset.
pub open spec fn spec_j_opt_num(o: Option<u64>) -> JVal {
    match o {
        None => JVal::Null,
        Some(n) => JVal::Num(n as int),
    }
}

pub fn j_opt_u64(o: &Option<u64>) -> (r: JsonValue)
    ensures
        r@ == spec_j_opt_num(*o),
{
    match o {
        None => JsonValue::Null,
        Some(n) => JsonValue::UInt(*n),
    }
}

pub open spec fn spec_j_opt_num32(o: Option<u32>) -> JVal {
    match o {
        None => JVal::Null,
        Some(n) => JVal::Num(n as int),
    }
}

pub fn j_opt_u32(o: &Option<u32>) -> (r: JsonValue)
    ensures
        r@ == spec_j_opt_num32(*o),
{
    match o {
        None => JsonValue::Null,
        Some(n) => JsonValue::UInt(*n as u64),
    }
}

pub open spec fn spec_j_opt_num_i32(o: Option<i32>) -> JVal {
    match o {
        None => JVal::Null,
        Some(n) => JVal::Num(n as int),
    }
}

pub fn j_opt_i32(o: &Option<i32>) -> (r: JsonValue)
    ensures
        r@ == spec_j_opt_num_i32(*o),
{
    match o {
        None => JsonValue::Null,
        Some(n) => JsonValue::Int(*n as i64),
    }
}

/// An optional flag: `null` when unset.
pub open spec fn spec_j_opt_bool(o: Option<bool>) -> JVal {
    match o {
        None => JVal::Null,
        Some(b) => JVal::Bool(b),
    }
}

pub fn j_opt_bool(o: &Option<bool>) -> (r: JsonValue)
    ensures
        r@ == spec_j_opt_bool(*o),
{
    match o {
        None => JsonValue::Null,
        Some(b) => JsonValue::Bool(*b),
    }
}

/// An optional string: `null` when unset.
pub open spec fn spec_j_opt_str(o: Option<Seq<char>>) -> JVal {
    match o {
        None => JVal::Null,
        Some(s) => JVal::Str(s),
    }
}

pub fn j_opt_string(o: &Option<String>) -> (r: JsonValue)
    ensures
        r@ == spec_j_opt_str(match *o {
            None => None,
            Some(s) => Some(s@),
        }),
{
    match o {
        None => JsonValue::Null,
        Some(s) => JsonValue::Str(s.clone()),
    }
}

/// An optional list of numbers: `null` when unset.
pub open spec fn spec_j_num_arr(s: Seq<u64>) -> JVal {
    JVal::Arr(Seq::new(s.len(), |i: int| JVal::Num(s[i] as int)))
}

pub open spec fn spec_j_opt_num_arr(o: Option<Seq<u64>>) -> JVal {
    match o {
        None => JVal::Null,
        Some(s) => spec_j_num_arr(s),
    }
}

pub fn j_num_arr(s: &Vec<u64>) -> (r: JsonValue)
    ensures
        r@ == spec_j_num_arr(s@),
{
    let mut a: Vec<JsonValue> = Vec::new();
    let mut i: usize = 0;
    while i < s.len()
        invariant
            i <= s.len(),
            a@.len() == i as int,
            forall|j: int| 0 <= j < i ==> jview(#[trigger] a@[j]) == JVal::Num(s@[j] as int),
        decreases s.len() - i,
    {
        a.push(JsonValue::UInt(s[i]));
        i = i + 1;
    }
    let r = JsonValue::Arr(a);
    proof {
        broadcast use lemma_jview_arr;

        assert forall|j: int| 0 <= j < s@.len() implies spec_elems(r->Arr_0@)[j] == JVal::Num(
            s@[j] as int,
        ) by {
            assert(spec_elems(r->Arr_0@)[j] == jview(r->Arr_0@[j]));
        }
        assert(spec_elems(r->Arr_0@) =~= Seq::new(s@.len(), |j: int| JVal::Num(s@[j] as int)));
        assert(jview(r) =~~= spec_j_num_arr(s@));
    }
    r
}

pub fn j_opt_num_arr(o: &Option<Vec<u64>>) -> (r: JsonValue)
    ensures
        r@ == spec_j_opt_num_arr(match *o {
            None => None,
            Some(v) => Some(v@),
        }),
{
    match o {
        None => JsonValue::Null,
        Some(v) => j_num_arr(v),
    }
}

/// An optional list of strings: `null` when unset.
pub open spec fn spec_j_str_arr(s: Seq<Seq<char>>) -> JVal {
    JVal::Arr(Seq::new(s.len(), |i: int| JVal::Str(s[i])))
}

pub open spec fn spec_j_opt_str_arr(o: Option<Seq<Seq<char>>>) -> JVal {
    match o {
        None => JVal::Null,
        Some(s) => spec_j_str_arr(s),
    }
}

/// The character sequences of a vector of strings.
pub open spec fn views_of_strings(v: Seq<String>) -> Seq<Seq<char>> {
    Seq::new(v.len(), |i: int| v[i]@)
}

pub fn j_str_arr(s: &Vec<String>) -> (r: JsonValue)
    ensures
        r@ == spec_j_str_arr(views_of_strings(s@)),
{
    let mut a: Vec<JsonValue> = Vec::new();
    let mut i: usize = 0;
    while i < s.len()
        invariant
            i <= s.len(),
            a@.len() == i as int,
            forall|j: int| 0 <= j < i ==> jview(#[trigger] a@[j]) == JVal::Str(s@[j]@),
        decreases s.len() - i,
    {
        a.push(JsonValue::Str(s[i].clone()));
        i = i + 1;
    }
    let r = JsonValue::Arr(a);
    proof {
        broadcast use lemma_jview_arr;

        assert forall|j: int| 0 <= j < s@.len() implies spec_elems(r->Arr_0@)[j] == JVal::Str(
            s@[j]@,
        ) by {
            assert(spec_elems(r->Arr_0@)[j] == jview(r->Arr_0@[j]));
        }
        assert(spec_elems(r->Arr_0@) =~= Seq::new(
            views_of_strings(s@).len(),
            |j: int| JVal::Str(views_of_strings(s@)[j]),
        ));
        assert(jview(r) == spec_j_str_arr(views_of_strings(s@)));
    }
    r
}

pub fn j_opt_str_arr(o: &Option<Vec<String>>) -> (r: JsonValue)
    ensures
        r@ == spec_j_opt_str_arr(match *o {
            None => None,
            Some(v) => Some(views_of_strings(v@)),
        }),
{
    match o {
        None => JsonValue::Null,
        Some(v) => j_str_arr(v),
    }
}

/// A string-to-string map, kept as an ordered entry list.
pub open spec fn spec_j_strmap(s: Seq<(Seq<char>, Seq<char>)>) -> JVal {
    JVal::Obj(Seq::new(s.len(), |i: int| (s[i].0, JVal::Str(s[i].1))))
}

/// The character sequences of a vector of string pairs.
pub open spec fn views_of_pairs(v: Seq<(String, String)>) -> Seq<(Seq<char>, Seq<char>)> {
    Seq::new(v.len(), |i: int| (v[i].0@, v[i].1@))
}

pub fn j_strmap(s: &Vec<(String, String)>) -> (r: JsonValue)
    ensures
        r@ == spec_j_strmap(views_of_pairs(s@)),
{
    let mut f: Vec<(String, JsonValue)> = Vec::new();
    let mut i: usize = 0;
    while i < s.len()
        invariant
            i <= s.len(),
            f@.len() == i as int,
            forall|j: int|
                0 <= j < i ==> (#[trigger] f@[j]).0@ == s@[j].0@ && jview(f@[j].1)
                    == JVal::Str(s@[j].1@),
        decreases s.len() - i,
    {
        f.push((s[i].0.clone(), JsonValue::Str(s[i].1.clone())));
        i = i + 1;
    }
    let r = JsonValue::Obj(f);
    proof {
        broadcast use lemma_jview_obj;

        assert forall|j: int| 0 <= j < s@.len() implies spec_fields(r->Obj_0@)[j] == (
            s@[j].0@,
            JVal::Str(s@[j].1@),
        ) by {
            assert(spec_fields(r->Obj_0@)[j] == (r->Obj_0@[j].0@, jview(r->Obj_0@[j].1)));
        }
        assert(spec_fields(r->Obj_0@) =~= Seq::new(
            views_of_pairs(s@).len(),
            |j: int| (views_of_pairs(s@)[j].0, JVal::Str(views_of_pairs(s@)[j].1)),
        ));
        assert(jview(r) == spec_j_strmap(views_of_pairs(s@)));
    }
    r
}

pub open spec fn spec_j_opt_strmap(o: Option<Seq<(Seq<char>, Seq<char>)>>) -> JVal {
    match o {
        None => JVal::Null,
        Some(s) => spec_j_strmap(s),
    }
}

pub fn j_opt_strmap(o: &Option<Vec<(String, String)>>) -> (r: JsonValue)
    ensures
        r@ == spec_j_opt_strmap(match *o {
            None => None,
            Some(v) => Some(views_of_pairs(v@)),
        }),
{
    match o {
        None => JsonValue::Null,
        Some(v) => j_strmap(v),
    }
}

// ---------------------------------------------------------------------------
// Field decoders. A decoder fails (`Err`) exactly when the field is present
// with a value of the wrong shape; a missing or `null` optional field is the
// unset value, never an error.
// ---------------------------------------------------------------------------
pub open spec fn spec_field_opt_u64(
    fields: Seq<(Seq<char>, JVal)>,
    key: Seq<char>,
) -> Result<Option<u64>, ()> {
    match spec_lookup(fields, key) {
        None => Ok(None),
        Some(j) => match j {
            JVal::Null => Ok(None),
            JVal::Num(n) => if 0 <= n <= u64::MAX {
                Ok(Some(n as u64))
            } else {
                Err(())
            },
            _ => Err(()),
        },
    }
}

pub fn field_opt_u64(fields: &Vec<(String, JsonValue)>, key: &str) -> (r: Result<
    Option<u64>,
    (),
>)
    ensures
        r == spec_field_opt_u64(spec_fields(fields@), key@),
{
    match jlookup(fields, key) {
        None => Ok(None),
        Some(v) => match v {
            JsonValue::Null => Ok(None),
            JsonValue::UInt(n) => Ok(Some(*n)),
            JsonValue::Int(n) => if *n >= 0 {
                Ok(Some(*n as u64))
            } else {
                Err(())
            },
            _ => Err(()),
        },
    }
}

pub open spec fn spec_field_opt_u32(
    fields: Seq<(Seq<char>, JVal)>,
    key: Seq<char>,
) -> Result<Option<u32>, ()> {
    match spec_lookup(fields, key) {
        None => Ok(None),
        Some(j) => match j {
            JVal::Null => Ok(None),
            JVal::Num(n) => if 0 <= n <= u32::MAX {
                Ok(Some(n as u32))
            } else {
                Err(())
            },
            _ => Err(()),
        },
    }
}

pub fn field_opt_u32(fields: &Vec<(String, JsonValue)>, key: &str) -> (r: Result<
    Option<u32>,
    (),
>)
    ensures
        r == spec_field_opt_u32(spec_fields(fields@), key@),
{
    match jlookup(fields, key) {
        None => Ok(None),
        Some(v) => match v {
            JsonValue::Null => Ok(None),
            JsonValue::UInt(n) => if *n <= u32::MAX as u64 {
                Ok(Some(*n as u32))
            } else {
                Err(())
            },
            JsonValue::Int(n) => if 0 <= *n && *n <= u32::MAX as i64 {
                Ok(Some(*n as u32))
            } else {
                Err(())
            },
            _ => Err(()),
        },
    }
}

pub open spec fn spec_field_opt_i32(
    fields: Seq<(Seq<char>, JVal)>,
    key: Seq<char>,
) -> Result<Option<i32>, ()> {
    match spec_lookup(fields, key) {
        None => Ok(None),
        Some(j) => match j {
            JVal::Null => Ok(None),
            JVal::Num(n) => if i32::MIN <= n <= i32::MAX {
                Ok(Some(n as i32))
            } else {
                Err(())
            },
            _ => Err(()),
        },
    }
}

pub fn field_opt_i32(fields: &Vec<(String, JsonValue)>, key: &str) -> (r: Result<
    Option<i32>,
    (),
>)
    ensures
        r == spec_field_opt_i32(spec_fields(fields@), key@),
{
    match jlookup(fields, key) {
        None => Ok(None),
        Some(v) => match v {
            JsonValue::Null => Ok(None),
            JsonValue::UInt(n) => if *n <= i32::MAX as u64 {
                Ok(Some(*n as i32))
            } else {
                Err(())
            },
            JsonValue::Int(n) => if i32::MIN as i64 <= *n && *n <= i32::MAX as i64 {
                Ok(Some(*n as i32))
            } else {
                Err(())
            },
            _ => Err(()),
        },
    }
}

pub open spec fn spec_field_opt_bool(
    fields: Seq<(Seq<char>, JVal)>,
    key: Seq<char>,
) -> Result<Option<bool>, ()> {
    match spec_lookup(fields, key) {
        None => Ok(None),
        Some(j) => match j {
            JVal::Null => Ok(None),
            JVal::Bool(b) => Ok(Some(b)),
            _ => Err(()),
        },
    }
}

pub fn field_opt_bool(fields: &Vec<(String, JsonValue)>, key: &str) -> (r: Result<
    Option<bool>,
    (),
>)
    ensures
        r == spec_field_opt_bool(spec_fields(fields@), key@),
{
    match jlookup(fields, key) {
        None => Ok(None),
        Some(v) => match v {
            JsonValue::Null => Ok(None),
            JsonValue::Bool(b) => Ok(Some(*b)),
            _ => Err(()),
        },
    }
}

pub open spec fn spec_field_opt_str(
    fields: Seq<(Seq<char>, JVal)>,
    key: Seq<char>,
) -> Result<Option<Seq<char>>, ()> {
    match spec_lookup(fields, key) {
        None => Ok(None),
        Some(j) => match j {
            JVal::Null => Ok(None),
            JVal::Str(s) => Ok(Some(s)),
            _ => Err(()),
        },
    }
}

pub fn field_opt_string(fields: &Vec<(String, JsonValue)>, key: &str) -> (r: Result<
    Option<String>,
    (),
>)
    ensures
        match r {
            Ok(o) => spec_field_opt_str(spec_fields(fields@), key@) == Ok::<
                Option<Seq<char>>,
                (),
            >(match o {
                None => None,
                Some(s) => Some(s@),
            }),
            Err(e) => spec_field_opt_str(spec_fields(fields@), key@) == Err::<
                Option<Seq<char>>,
                (),
            >(e),
        },
{
    match jlookup(fields, key) {
        None => Ok(None),
        Some(v) => match v {
            JsonValue::Null => Ok(None),
            JsonValue::Str(s) => Ok(Some(s.clone())),
            _ => Err(()),
        },
    }
}

pub open spec fn spec_dec_num_list(es: Seq<JVal>) -> Option<Seq<u64>> {
    if forall|i: int|
        0 <= i < es.len() ==> ((#[trigger] es[i]) matches JVal::Num(n) && 0 <= n <= u64::MAX) {
        Some(Seq::new(es.len(), |i: int| es[i]->Num_0 as u64))
    } else {
        None
    }
}

pub open spec fn spec_field_opt_num_arr(
    fields: Seq<(Seq<char>, JVal)>,
    key: Seq<char>,
) -> Result<Option<Seq<u64>>, ()> {
    match spec_lookup(fields, key) {
        None => Ok(None),
        Some(j) => match j {
            JVal::Null => Ok(None),
            JVal::Arr(es) => match spec_dec_num_list(es) {
                Some(s) => Ok(Some(s)),
                None => Err(()),
            },
            _ => Err(()),
        },
    }
}

pub fn dec_num_list(es: &Vec<JsonValue>) -> (r: Option<Vec<u64>>)
    ensures
        match r {
            Some(v) => spec_dec_num_list(spec_elems(es@)) == Some(v@),
            None => spec_dec_num_list(spec_elems(es@)) is None,
        },
{
    let mut out: Vec<u64> = Vec::new();
    let mut i: usize = 0;
    while i < es.len()
        invariant
            i <= es.len(),
            out@.len() == i as int,
            forall|j: int|
                0 <= j < i ==> ((#[trigger] spec_elems(es@)[j]) matches JVal::Num(n) && 0 <= n
                    <= u64::MAX && n == out@[j] as int),
        decreases es.len() - i,
    {
        proof {
            assert(spec_elems(es@)[i as int] == jview(es@[i as int]));
        }
        match &es[i] {
            JsonValue::UInt(n) => out.push(*n),
            JsonValue::Int(n) => if *n >= 0 {
                out.push(*n as u64);
            } else {
                proof {
                    assert(spec_elems(es@)[i as int] matches JVal::Num(m) && m < 0);
                }
                return None;
            },
            _ => {
                return None;
            },
        }
        i = i + 1;
    }
    proof {
        assert(spec_dec_num_list(spec_elems(es@)) == Some(out@)) by {
            assert(Seq::new(
                spec_elems(es@).len(),
                |j: int| spec_elems(es@)[j]->Num_0 as u64,
            ) =~= out@);
        }
    }
    Some(out)
}

pub fn field_opt_num_arr(fields: &Vec<(String, JsonValue)>, key: &str) -> (r: Result<
    Option<Vec<u64>>,
    (),
>)
    ensures
        match r {
            Ok(o) => spec_field_opt_num_arr(spec_fields(fields@), key@) == Ok::<
                Option<Seq<u64>>,
                (),
            >(match o {
                None => None,
                Some(v) => Some(v@),
            }),
            Err(e) => spec_field_opt_num_arr(spec_fields(fields@), key@) == Err::<
                Option<Seq<u64>>,
                (),
            >(e),
        },
{
    proof {
        broadcast use lemma_jview_arr;

    }
    match jlookup(fields, key) {
        None => Ok(None),
        Some(v) => match v {
            JsonValue::Null => Ok(None),
            JsonValue::Arr(es) => match dec_num_list(es) {
                Some(out) => Ok(Some(out)),
                None => Err(()),
            },
            _ => Err(()),
        },
    }
}

pub open spec fn spec_dec_str_list(es: Seq<JVal>) -> Option<Seq<Seq<char>>> {
    if forall|i: int| 0 <= i < es.len() ==> (#[trigger] es[i]) matches JVal::Str(s) {
        Some(Seq::new(es.len(), |i: int| es[i]->Str_0))
    } else {
        None
    }
}

pub open spec fn spec_field_opt_str_arr(
    fields: Seq<(Seq<char>, JVal)>,
    key: Seq<char>,
) -> Result<Option<Seq<Seq<char>>>, ()> {
    match spec_lookup(fields, key) {
        None => Ok(None),
        Some(j) => match j {
            JVal::Null => Ok(None),
            JVal::Arr(es) => match spec_dec_str_list(es) {
                Some(s) => Ok(Some(s)),
                None => Err(()),
            },
            _ => Err(()),
        },
    }
}

pub fn dec_str_list(es: &Vec<JsonValue>) -> (r: Option<Vec<String>>)
    ensures
        match r {
            Some(v) => spec_dec_str_list(spec_elems(es@)) == Some(views_of_strings(v@)),
            None => spec_dec_str_list(spec_elems(es@)) is None,
        },
{
    let mut out: Vec<String> = Vec::new();
    let mut i: usize = 0;
    while i < es.len()
        invariant
            i <= es.len(),
            out@.len() == i as int,
            forall|j: int|
                0 <= j < i ==> ((#[trigger] spec_elems(es@)[j]) matches JVal::Str(t) && t
                    == out@[j]@),
        decreases es.len() - i,
    {
        proof {
            assert(spec_elems(es@)[i as int] == jview(es@[i as int]));
        }
        match &es[i] {
            JsonValue::Str(s) => out.push(s.clone()),
            _ => {
                return None;
            },
        }
        i = i + 1;
    }
    proof {
        assert(spec_dec_str_list(spec_elems(es@)) == Some(views_of_strings(out@))) by {
            assert(Seq::new(
                spec_elems(es@).len(),
                |j: int| spec_elems(es@)[j]->Str_0,
            ) =~= views_of_strings(out@));
        }
    }
    Some(out)
}

pub fn field_opt_str_arr(fields: &Vec<(String, JsonValue)>, key: &str) -> (r: Result<
    Option<Vec<String>>,
    (),
>)
    ensures
        match r {
            Ok(o) => spec_field_opt_str_arr(spec_fields(fields@), key@) == Ok::<
                Option<Seq<Seq<char>>>,
                (),
            >(match o {
                None => None,
                Some(v) => Some(views_of_strings(v@)),
            }),
            Err(e) => spec_field_opt_str_arr(spec_fields(fields@), key@) == Err::<
                Option<Seq<Seq<char>>>,
                (),
            >(e),
        },
{
    proof {
        broadcast use lemma_jview_arr;

    }
    match jlookup(fields, key) {
        None => Ok(None),
        Some(v) => match v {
            JsonValue::Null => Ok(None),
            JsonValue::Arr(es) => match dec_str_list(es) {
                Some(out) => Ok(Some(out)),
                None => Err(()),
            },
            _ => Err(()),
        },
    }
}

pub open spec fn spec_dec_strmap(fs: Seq<(Seq<char>, JVal)>) -> Option<
    Seq<(Seq<char>, Seq<char>)>,
> {
    if forall|i: int| 0 <= i < fs.len() ==> (#[trigger] fs[i]).1 matches JVal::Str(s) {
        Some(Seq::new(fs.len(), |i: int| (fs[i].0, fs[i].1->Str_0)))
    } else {
        None
    }
}

pub open spec fn spec_field_opt_strmap(
    fields: Seq<(Seq<char>, JVal)>,
    key: Seq<char>,
) -> Result<Option<Seq<(Seq<char>, Seq<char>)>>, ()> {
    match spec_lookup(fields, key) {
        None => Ok(None),
        Some(j) => match j {
            JVal::Null => Ok(None),
            JVal::Obj(fs) => match spec_dec_strmap(fs) {
                Some(s) => Ok(Some(s)),
                None => Err(()),
            },
            _ => Err(()),
        },
    }
}

pub fn dec_strmap(fs: &Vec<(String, JsonValue)>) -> (r: Option<Vec<(String, String)>>)
    ensures
        match r {
            Some(v) => spec_dec_strmap(spec_fields(fs@)) == Some(views_of_pairs(v@)),
            None => spec_dec_strmap(spec_fields(fs@)) is None,
        },
{
    let mut out: Vec<(String, String)> = Vec::new();
    let mut i: usize = 0;
    while i < fs.len()
        invariant
            i <= fs.len(),
            out@.len() == i as int,
            forall|j: int|
                0 <= j < i ==> ((#[trigger] spec_fields(fs@)[j]).1 matches JVal::Str(t) && t
                    == out@[j].1@ && spec_fields(fs@)[j].0 == out@[j].0@),
        decreases fs.len() - i,
    {
        proof {
            assert(spec_fields(fs@)[i as int] == (fs@[i as int].0@, jview(fs@[i as int].1)));
        }
        match &fs[i].1 {
            JsonValue::Str(s) => out.push((fs[i].0.clone(), s.clone())),
            _ => {
                return None;
            },
        }
        i = i + 1;
    }
    proof {
        assert(spec_dec_strmap(spec_fields(fs@)) == Some(views_of_pairs(out@))) by {
            assert(Seq::new(
                spec_fields(fs@).len(),
                |j: int| (spec_fields(fs@)[j].0, spec_fields(fs@)[j].1->Str_0),
            ) =~= views_of_pairs(out@));
        }
    }
    Some(out)
}

pub fn field_opt_strmap(fields: &Vec<(String, JsonValue)>, key: &str) -> (r: Result<
    Option<Vec<(String, String)>>,
    (),
>)
    ensures
        match r {
            Ok(o) => spec_field_opt_strmap(spec_fields(fields@), key@) == Ok::<
                Option<Seq<(Seq<char>, Seq<char>)>>,
                (),
            >(match o {
                None => None,
                Some(v) => Some(views_of_pairs(v@)),
            }),
            Err(e) => spec_field_opt_strmap(spec_fields(fields@), key@) == Err::<
                Option<Seq<(Seq<char>, Seq<char>)>>,
                (),
            >(e),
        },
{
    proof {
        broadcast use lemma_jview_obj;

    }
    match jlookup(fields, key) {
        None => Ok(None),
        Some(v) => match v {
            JsonValue::Null => Ok(None),
            JsonValue::Obj(fs) => match dec_strmap(fs) {
                Some(out) => Ok(Some(out)),
                None => Err(()),
            },
            _ => Err(()),
        },
    }
}

/// A deep copy of a JSON document, with the same model.
#[verifier::loop_isolation(false)]
pub fn jclone(v: &JsonValue) -> (r: JsonValue)
    ensures
        r@ == v@,
    decreases *v,
{
    match v {
        JsonValue::Null => JsonValue::Null,
        JsonValue::Bool(b) => JsonValue::Bool(*b),
        JsonValue::Int(n) => JsonValue::Int(*n),
        JsonValue::UInt(n) => JsonValue::UInt(*n),
        JsonValue::NumText(s) => JsonValue::NumText(s.clone()),
        JsonValue::Str(s) => JsonValue::Str(s.clone()),
        JsonValue::Arr(a) => {
            let mut out: Vec<JsonValue> = Vec::new();
            let mut i: usize = 0;
            while i < a.len()
                invariant
                    i <= a.len(),
                    out@.len() == i as int,
                    forall|j: int|
                        0 <= j < i ==> jview(#[trigger] out@[j]) == jview(a@[j]),
                decreases a.len() - i,
            {
                proof {
                    assert(decreases_to!(*v => (*v)->Arr_0));
                    assert((*v)->Arr_0 == *a);
                    assert(decreases_to!(*a => a@));
                    assert(decreases_to!(a@ => a@[i as int]));
                }
                out.push(jclone(&a[i]));
                i = i + 1;
            }
            let r = JsonValue::Arr(out);
            proof {
                broadcast use lemma_jview_arr;

                assert(spec_elems(out@) =~= spec_elems(a@));
                assert(jview(r) == jview(*v));
            }
            r
        },
        JsonValue::Obj(o) => {
            let mut out: Vec<(String, JsonValue)> = Vec::new();
            let mut i: usize = 0;
            while i < o.len()
                invariant
                    i <= o.len(),
                    out@.len() == i as int,
                    forall|j: int|
                        0 <= j < i ==> (#[trigger] out@[j]).0@ == o@[j].0@ && jview(out@[j].1)
                            == jview(o@[j].1),
                decreases o.len() - i,
            {
                proof {
                    assert(decreases_to!(*v => (*v)->Obj_0));
                    assert((*v)->Obj_0 == *o);
                    assert(decreases_to!(*o => o@));
                    assert(decreases_to!(o@ => o@[i as int]));
                    assert(decreases_to!(o@[i as int] => o@[i as int].1));
                }
                out.push((o[i].0.clone(), jclone(&o[i].1)));
                i = i + 1;
            }
            let r = JsonValue::Obj(out);
            proof {
                broadcast use lemma_jview_obj;

                assert(spec_fields(out@) =~= spec_fields(o@));
                assert(jview(r) == jview(*v));
            }
            r
        },
    }
}

// ---------------------------------------------------------------------------
// View helpers for optional fields, and decoders for required fields.
// ---------------------------------------------------------------------------
/// The character sequence of an optional string.
pub open spec fn ostr(o: Option<String>) -> Option<Seq<char>> {
    match o {
        None => None,
        Some(s) => Some(s@),
    }
}

/// The character sequences of an optional list of strings.
pub open spec fn ostrs(o: Option<Vec<String>>) -> Option<Seq<Seq<char>>> {
    match o {
        None => None,
        Some(v) => Some(views_of_strings(v@)),
    }
}

/// The element sequence of an optional list of numbers.
pub open spec fn onums(o: Option<Vec<u64>>) -> Option<Seq<u64>> {
    match o {
        None => None,
        Some(v) => Some(v@),
    }
}

/// The character sequences of an optional list of string pairs.
pub open spec fn opairs(o: Option<Vec<(String, String)>>) -> Option<Seq<(Seq<char>, Seq<char>)>> {
    match o {
        None => None,
        Some(v) => Some(views_of_pairs(v@)),
    }
}

/// The model of an optional nested value.
pub open spec fn oview<T: View>(o: Option<T>) -> Option<T::V> {
    match o {
        None => None,
        Some(x) => Some(x@),
    }
}

/// The models of a list of nested values.
pub open spec fn vviews<T: View>(s: Seq<T>) -> Seq<T::V> {
    Seq::new(s.len(), |i: int| s[i]@)
}

/// The models of an optional list of nested values.
pub open spec fn ovviews<T: View>(o: Option<Vec<T>>) -> Option<Seq<T::V>> {
    match o {
        None => None,
        Some(v) => Some(vviews(v@)),
    }
}

pub open spec fn spec_field_req_u16(
    fields: Seq<(Seq<char>, JVal)>,
    key: Seq<char>,
) -> Result<u16, ()> {
    match spec_lookup(fields, key) {
        None => Err(()),
        Some(j) => match j {
            JVal::Num(n) => if 0 <= n <= u16::MAX {
                Ok(n as u16)
            } else {
                Err(())
            },
            _ => Err(()),
        },
    }
}

pub fn field_req_u16(fields: &Vec<(String, JsonValue)>, key: &str) -> (r: Result<u16, ()>)
    ensures
        r == spec_field_req_u16(spec_fields(fields@), key@),
{
    match jlookup(fields, key) {
        None => Err(()),
        Some(v) => match v {
            JsonValue::UInt(n) => if *n <= u16::MAX as u64 {
                Ok(*n as u16)
            } else {
                Err(())
            },
            JsonValue::Int(n) => if 0 <= *n && *n <= u16::MAX as i64 {
                Ok(*n as u16)
            } else {
                Err(())
            },
            _ => Err(()),
        },
    }
}

pub open spec fn spec_field_req_str(
    fields: Seq<(Seq<char>, JVal)>,
    key: Seq<char>,
) -> Result<Seq<char>, ()> {
    match spec_lookup(fields, key) {
        None => Err(()),
        Some(j) => match j {
            JVal::Str(s) => Ok(s),
            _ => Err(()),
        },
    }
}

pub fn field_req_string(fields: &Vec<(String, JsonValue)>, key: &str) -> (r: Result<
    String,
    (),
>)
    ensures
        match r {
            Ok(s) => spec_field_req_str(spec_fields(fields@), key@) == Ok::<Seq<char>, ()>(s@),
            Err(e) => spec_field_req_str(spec_fields(fields@), key@) == Err::<Seq<char>, ()>(e),
        },
{
    match jlookup(fields, key) {
        None => Err(()),
        Some(v) => match v {
            JsonValue::Str(s) => Ok(s.clone()),
            _ => Err(()),
        },
    }
}

/// A number field with a default: a missing field is zero, `null` is an
/// error, as a non-optional numeric field with a container default decodes.
pub open spec fn spec_field_u32_default(
    fields: Seq<(Seq<char>, JVal)>,
    key: Seq<char>,
) -> Result<u32, ()> {
    match spec_lookup(fields, key) {
        None => Ok(0u32),
        Some(j) => match j {
            JVal::Num(n) => if 0 <= n <= u32::MAX {
                Ok(n as u32)
            } else {
                Err(())
            },
            _ => Err(()),
        },
    }
}

pub fn field_u32_default(fields: &Vec<(String, JsonValue)>, key: &str) -> (r: Result<
    u32,
    (),
>)
    ensures
        r == spec_field_u32_default(spec_fields(fields@), key@),
{
    match jlookup(fields, key) {
        None => Ok(0),
        Some(v) => match v {
            JsonValue::UInt(n) => if *n <= u32::MAX as u64 {
                Ok(*n as u32)
            } else {
                Err(())
            },
            JsonValue::Int(n) => if 0 <= *n && *n <= u32::MAX as i64 {
                Ok(*n as u32)
            } else {
                Err(())
            },
            _ => Err(()),
        },
    }
}

/// A flag field with a default: a missing field is `false`.
pub open spec fn spec_field_bool_default(
    fields: Seq<(Seq<char>, JVal)>,
    key: Seq<char>,
) -> Result<bool, ()> {
    match spec_lookup(fields, key) {
        None => Ok(false),
        Some(j) => match j {
            JVal::Bool(b) => Ok(b),
            _ => Err(()),
        },
    }
}

pub fn field_bool_default(fields: &Vec<(String, JsonValue)>, key: &str) -> (r: Result<
    bool,
    (),
>)
    ensures
        r == spec_field_bool_default(spec_fields(fields@), key@),
{
    match jlookup(fields, key) {
        None => Ok(false),
        Some(v) => match v {
            JsonValue::Bool(b) => Ok(*b),
            _ => Err(()),
        },
    }
}

/// A string field with a default: a missing field is the empty string.
pub open spec fn spec_field_str_default(
    fields: Seq<(Seq<char>, JVal)>,
    key: Seq<char>,
) -> Result<Seq<char>, ()> {
    match spec_lookup(fields, key) {
        None => Ok(Seq::empty()),
        Some(j) => match j {
            JVal::Str(s) => Ok(s),
            _ => Err(()),
        },
    }
}

pub fn field_str_default(fields: &Vec<(String, JsonValue)>, key: &str) -> (r: Result<
    String,
    (),
>)
    ensures
        match r {
            Ok(s) => spec_field_str_default(spec_fields(fields@), key@) == Ok::<
                Seq<char>,
                (),
            >(s@),
            Err(e) => spec_field_str_default(spec_fields(fields@), key@) == Err::<
                Seq<char>,
                (),
            >(e),
        },
{
    match jlookup(fields, key) {
        None => Ok(String::new()),
        Some(v) => match v {
            JsonValue::Str(s) => Ok(s.clone()),
            _ => Err(()),
        },
    }
}

/// A string-list field with a default: a missing field is the empty list.
pub open spec fn spec_field_strarr_default(
    fields: Seq<(Seq<char>, JVal)>,
    key: Seq<char>,
) -> Result<Seq<Seq<char>>, ()> {
    match spec_lookup(fields, key) {
        None => Ok(Seq::empty()),
        Some(j) => match j {
            JVal::Arr(es) => match spec_dec_str_list(es) {
                Some(s) => Ok(s),
                None => Err(()),
            },
            _ => Err(()),
        },
    }
}

pub fn field_strarr_default(fields: &Vec<(String, JsonValue)>, key: &str) -> (r: Result<
    Vec<String>,
    (),
>)
    ensures
        match r {
            Ok(v) => spec_field_strarr_default(spec_fields(fields@), key@) == Ok::<
                Seq<Seq<char>>,
                (),
            >(views_of_strings(v@)),
            Err(e) => spec_field_strarr_default(spec_fields(fields@), key@) == Err::<
                Seq<Seq<char>>,
                (),
            >(e),
        },
{
    proof {
        broadcast use lemma_jview_arr;

    }
    match jlookup(fields, key) {
        None => {
            let empty: Vec<String> = Vec::new();
            proof {
                assert(views_of_strings(empty@) =~= Seq::<Seq<char>>::empty());
            }
            Ok(empty)
        },
        Some(v) => match v {
            JsonValue::Arr(es) => match dec_str_list(es) {
                Some(out) => Ok(out),
                None => Err(()),
            },
            _ => Err(()),
        },
    }
}

/// A string-map field with a default: a missing field is the empty map.
pub open spec fn spec_field_strmap_default(
    fields: Seq<(Seq<char>, JVal)>,
    key: Seq<char>,
) -> Result<Seq<(Seq<char>, Seq<char>)>, ()> {
    match spec_lookup(fields, key) {
        None => Ok(Seq::empty()),
        Some(j) => match j {
            JVal::Obj(fs) => match spec_dec_strmap(fs) {
                Some(s) => Ok(s),
                None => Err(()),
            },
            _ => Err(()),
        },
    }
}

pub fn field_strmap_default(fields: &Vec<(String, JsonValue)>, key: &str) -> (r: Result<
    Vec<(String, String)>,
    (),
>)
    ensures
        match r {
            Ok(v) => spec_field_strmap_default(spec_fields(fields@), key@) == Ok::<
                Seq<(Seq<char>, Seq<char>)>,
                (),
            >(views_of_pairs(v@)),
            Err(e) => spec_field_strmap_default(spec_fields(fields@), key@) == Err::<
                Seq<(Seq<char>, Seq<char>)>,
                (),
            >(e),
        },
{
    proof {
        broadcast use lemma_jview_obj;

    }
    match jlookup(fields, key) {
        None => {
            let empty: Vec<(String, String)> = Vec::new();
            proof {
                assert(views_of_pairs(empty@) =~= Seq::<(Seq<char>, Seq<char>)>::empty());
            }
            Ok(empty)
        },
        Some(v) => match v {
            JsonValue::Obj(fs) => match dec_strmap(fs) {
                Some(out) => Ok(out),
                None => Err(()),
            },
            _ => Err(()),
        },
    }
}

/// A found field value is one of the field list's entries: the fact the
/// recursive decoders' termination rests on.
pub proof fn lemma_lookup_member(fields: Seq<(Seq<char>, JVal)>, key: Seq<char>)
    requires
        spec_lookup(fields, key) is Some,
    ensures
        exists|i: int|
            0 <= i < fields.len() && (#[trigger] fields[i]).1 == spec_lookup(
                fields,
                key,
            ).unwrap(),
    decreases fields.len(),
{
    if fields.len() > 0 {
        if fields[0].0 == key {
            assert(fields[0].1 == spec_lookup(fields, key).unwrap());
        } else {
            lemma_lookup_member(fields.drop_first(), key);
            let i = choose|i: int|
                0 <= i < fields.drop_first().len() && (#[trigger] fields.drop_first()[i]).1
                    == spec_lookup(fields.drop_first(), key).unwrap();
            assert(fields[i + 1] == fields.drop_first()[i]);
        }
    }
}

} // verus!
