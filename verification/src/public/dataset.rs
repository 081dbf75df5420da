//! Datasets: the dataset record with its schema and access policies, query
//! results, and the dataset endpoints.

use crate::json::{
    JVal, JsonValue, field_opt_bool, field_opt_i32, field_opt_num_arr, field_opt_string,
    field_opt_str_arr, field_opt_u32, field_opt_u64, field_strarr_default,
    field_u32_default, j_opt_bool, j_opt_i32, j_opt_num_arr, j_opt_string, j_opt_str_arr,
    j_opt_u32, j_opt_u64, j_str_arr, jclone, jlookup, jview, lemma_jview_arr,
    lemma_jview_obj, onums, ostr, ostrs, oview, ovviews, put_field, spec_elems,
    spec_field_opt_bool, spec_field_opt_i32, spec_field_opt_num_arr, spec_field_opt_str,
    spec_field_opt_str_arr, spec_field_opt_u32, spec_field_opt_u64,
    spec_field_strarr_default, spec_field_u32_default, spec_fields, spec_j_opt_bool,
    spec_j_opt_num, spec_j_opt_num32, spec_j_opt_num_arr, spec_j_opt_num_i32,
    spec_j_opt_str, spec_j_opt_str_arr, spec_j_str_arr, spec_lookup, views_of_strings,
    vviews,
};
use crate::public::{
    ApiRequest, Client, DomoError, DomoErrorV, Method, ReqBody, ReqBodyV, check_response,
    spec_check_response,
};
use crate::strutil::{str_concat, u32_string};
use vstd::prelude::*;
use vstd::string::StringExecFns;

verus! {


/// One column of a dataset's schema: its name and its declared type.
#[derive(Debug, PartialEq, Eq)]
pub struct Column {
    pub name: Option<String>,
    pub column_type: Option<String>,
}

#[verifier::ext_equal]
pub struct ColumnV {
    pub name: Option<Seq<char>>,
    pub column_type: Option<Seq<char>>,
}

impl View for Column {
    type V = ColumnV;

    open spec fn view(&self) -> ColumnV {
        ColumnV {
            name: ostr(self.name),
            column_type: ostr(self.column_type),
        }
    }
}

pub open spec fn spec_column_json(v: ColumnV) -> JVal {
    JVal::Obj(
        seq![
            ("name"@, spec_j_opt_str(v.name)),
            ("type"@, spec_j_opt_str(v.column_type)),
        ],
    )
}

pub open spec fn spec_column_from(j: JVal) -> Option<ColumnV> {
    match j {
        JVal::Obj(fields) => {
            let name = spec_field_opt_str(fields, "name"@);
            let column_type = spec_field_opt_str(fields, "type"@);
            if name is Err || column_type is Err {
                None
            } else {
                Some(
                    ColumnV {
                        name: name->Ok_0,
                        column_type: column_type->Ok_0,
                    },
                )
            }
        },
        _ => None,
    }
}

impl Column {
    /// The record as a JSON document, with its wire field names; an unset
    /// field is sent as `null`.
    #[verifier::rlimit(100)]
    pub fn to_json(&self) -> (r: JsonValue)
        ensures
            r@ == spec_column_json(self@),
    {
        let mut f: Vec<(String, JsonValue)> = Vec::new();
        put_field(&mut f, "name", j_opt_string(&self.name));
        put_field(&mut f, "type", j_opt_string(&self.column_type));
        let r = JsonValue::Obj(f);
        proof {
            broadcast use lemma_jview_obj;

            assert(jview(r) == JVal::Obj(spec_fields(r->Obj_0@)));
            assert(spec_fields(r->Obj_0@) =~= spec_column_json(self@)->Obj_0);
        }
        r
    }

    /// The record a well-formed body decodes to; `None` when a present
    /// field has the wrong shape.
    pub fn from_json(v: &JsonValue) -> (r: Option<Column>)
        ensures
            match r {
                Some(x) => spec_column_from(v@) == Some(x@),
                None => spec_column_from(v@) is None,
            },
    {
        proof {
            broadcast use lemma_jview_obj;
            broadcast use lemma_jview_arr;

        }
        match v {
            JsonValue::Obj(fields) => {
                let name = match field_opt_string(fields, "name") {
                    Ok(x) => x,
                    Err(_) => {
                        return None;
                    },
                };
                let column_type = match field_opt_string(fields, "type") {
                    Ok(x) => x,
                    Err(_) => {
                        return None;
                    },
                };
                Some(Column { name, column_type })
            },
            _ => None,
        }
    }
}

/// Decoding an encoded record gives back the same record.
#[verifier::rlimit(100)]
pub proof fn lemma_column_roundtrip(g: ColumnV)
    ensures
        spec_column_from(spec_column_json(g)) == Some(g),
{
    reveal_strlit("name");
    reveal_strlit("type");
    reveal_with_fuel(spec_lookup, 4);
    assert("name"@.len() == 4);
    assert("type"@.len() == 4);
    assert("name"@[0] == 'n');
    assert("type"@[0] == 't');
    assert("name"@ != "type"@);
    assert(spec_column_from(spec_column_json(g)) matches Some(h) && h =~= g);
}

/// A field absent from a decoded body stays unset or takes its default.
pub proof fn lemma_column_absent_fields()
    ensures
        spec_column_from(JVal::Obj(Seq::empty())) == Some(
            ColumnV {
                name: None,
                column_type: None,
            },
        ),
{
    reveal_with_fuel(spec_lookup, 2);
}

/// The encoded form of a list of these records.
pub open spec fn spec_columns_json(s: Seq<ColumnV>) -> Seq<JVal> {
    Seq::new(s.len(), |i: int| spec_column_json(s[i]))
}

pub open spec fn spec_opt_columns_json(o: Option<Seq<ColumnV>>) -> JVal {
    match o {
        None => JVal::Null,
        Some(s) => JVal::Arr(spec_columns_json(s)),
    }
}

/// The decoding of a list of these records: every element must decode.
pub open spec fn spec_columns_from(es: Seq<JVal>) -> Option<Seq<ColumnV>> {
    if forall|i: int| 0 <= i < es.len() ==> (#[trigger] spec_column_from(es[i])) is Some {
        Some(Seq::new(es.len(), |i: int| spec_column_from(es[i]).unwrap()))
    } else {
        None
    }
}

pub open spec fn spec_field_opt_columns(
    fields: Seq<(Seq<char>, JVal)>,
    key: Seq<char>,
) -> Result<Option<Seq<ColumnV>>, ()> {
    match spec_lookup(fields, key) {
        None => Ok(None),
        Some(j) => match j {
            JVal::Null => Ok(None),
            JVal::Arr(es) => match spec_columns_from(es) {
                Some(s) => Ok(Some(s)),
                None => Err(()),
            },
            _ => Err(()),
        },
    }
}

pub fn column_list_to_json(v: &Vec<Column>) -> (r: JsonValue)
    ensures
        r@ == JVal::Arr(spec_columns_json(vviews(v@))),
{
    let mut a: Vec<JsonValue> = Vec::new();
    let mut i: usize = 0;
    while i < v.len()
        invariant
            i <= v.len(),
            a@.len() == i as int,
            forall|j: int| 0 <= j < i ==> jview(#[trigger] a@[j]) == spec_column_json(v@[j]@),
        decreases v.len() - i,
    {
        a.push(v[i].to_json());
        i = i + 1;
    }
    let r = JsonValue::Arr(a);
    proof {
        broadcast use lemma_jview_arr;

        assert forall|j: int| 0 <= j < v@.len() implies spec_elems(r->Arr_0@)[j]
            == spec_column_json(vviews(v@)[j]) by {
            assert(spec_elems(r->Arr_0@)[j] == jview(r->Arr_0@[j]));
        }
        assert(spec_elems(r->Arr_0@) =~= spec_columns_json(vviews(v@)));
    }
    r
}

#[verifier::loop_isolation(false)]
pub fn column_list_from_json(es: &Vec<JsonValue>) -> (r: Option<Vec<Column>>)
    ensures
        match r {
            Some(v) => spec_columns_from(spec_elems(es@)) == Some(vviews(v@)),
            None => spec_columns_from(spec_elems(es@)) is None,
        },
{
    let mut out: Vec<Column> = Vec::new();
    let mut i: usize = 0;
    while i < es.len()
        invariant
            i <= es.len(),
            out@.len() == i as int,
            forall|j: int|
                0 <= j < i ==> spec_column_from(#[trigger] spec_elems(es@)[j]) == Some(
                    out@[j]@,
                ),
        decreases es.len() - i,
    {
        proof {
            assert(spec_elems(es@)[i as int] == jview(es@[i as int]));
        }
        match Column::from_json(&es[i]) {
            Some(x) => out.push(x),
            None => {
                proof {
                    assert(spec_column_from(spec_elems(es@)[i as int]) is None);
                }
                return None;
            },
        }
        i = i + 1;
    }
    proof {
        assert(spec_columns_from(spec_elems(es@)) == Some(vviews(out@))) by {
            assert(Seq::new(
                spec_elems(es@).len(),
                |j: int| spec_column_from(spec_elems(es@)[j]).unwrap(),
            ) =~= vviews(out@));
        }
    }
    Some(out)
}

pub open spec fn spec_opt_column_json(o: Option<ColumnV>) -> JVal {
    match o {
        None => JVal::Null,
        Some(x) => spec_column_json(x),
    }
}

pub open spec fn spec_field_opt_column(
    fields: Seq<(Seq<char>, JVal)>,
    key: Seq<char>,
) -> Result<Option<ColumnV>, ()> {
    match spec_lookup(fields, key) {
        None => Ok(None),
        Some(j) => match j {
            JVal::Null => Ok(None),
            _ => match spec_column_from(j) {
                Some(t) => Ok(Some(t)),
                None => Err(()),
            },
        },
    }
}

/// The ordered column list of a dataset.
#[derive(Debug, PartialEq, Eq)]
pub struct Schema {
    pub columns: Option<Vec<Column>>,
}

#[verifier::ext_equal]
pub struct SchemaV {
    pub columns: Option<Seq<ColumnV>>,
}

impl View for Schema {
    type V = SchemaV;

    open spec fn view(&self) -> SchemaV {
        SchemaV {
            columns: ovviews(self.columns),
        }
    }
}

pub open spec fn spec_schema_json(v: SchemaV) -> JVal {
    JVal::Obj(
        seq![
            ("columns"@, spec_opt_columns_json(v.columns)),
        ],
    )
}

pub open spec fn spec_schema_from(j: JVal) -> Option<SchemaV> {
    match j {
        JVal::Obj(fields) => {
            let columns = spec_field_opt_columns(fields, "columns"@);
            if columns is Err {
                None
            } else {
                Some(
                    SchemaV {
                        columns: columns->Ok_0,
                    },
                )
            }
        },
        _ => None,
    }
}

impl Schema {
    /// The record as a JSON document, with its wire field names; an unset
    /// field is sent as `null`.
    #[verifier::rlimit(100)]
    pub fn to_json(&self) -> (r: JsonValue)
        ensures
            r@ == spec_schema_json(self@),
    {
        let mut f: Vec<(String, JsonValue)> = Vec::new();
        let columns_json = match &self.columns {
            None => JsonValue::Null,
            Some(x) => column_list_to_json(x),
        };
        put_field(&mut f, "columns", columns_json);
        let r = JsonValue::Obj(f);
        proof {
            broadcast use lemma_jview_obj;

            assert(jview(r) == JVal::Obj(spec_fields(r->Obj_0@)));
            assert(spec_fields(r->Obj_0@) =~= spec_schema_json(self@)->Obj_0);
        }
        r
    }

    /// The record a well-formed body decodes to; `None` when a present
    /// field has the wrong shape.
    pub fn from_json(v: &JsonValue) -> (r: Option<Schema>)
        ensures
            match r {
                Some(x) => spec_schema_from(v@) == Some(x@),
                None => spec_schema_from(v@) is None,
            },
    {
        proof {
            broadcast use lemma_jview_obj;
            broadcast use lemma_jview_arr;

        }
        match v {
            JsonValue::Obj(fields) => {
                let columns = match jlookup(fields, "columns") {
                    None => None,
                    Some(w) => match w {
                        JsonValue::Null => None,
                        JsonValue::Arr(es) => match column_list_from_json(es) {
                            Some(x) => Some(x),
                            None => {
                                return None;
                            },
                        },
                        _ => {
                            return None;
                        },
                    },
                };
                Some(Schema { columns })
            },
            _ => None,
        }
    }
}

/// Decoding an encoded record gives back the same record.
#[verifier::rlimit(100)]
pub proof fn lemma_schema_roundtrip(g: SchemaV)
    ensures
        spec_schema_from(spec_schema_json(g)) == Some(g),
{
    reveal_strlit("columns");
    reveal_with_fuel(spec_lookup, 3);
    assert("columns"@.len() == 7);
    if g.columns is Some {
        let s = g.columns.unwrap();
        assert forall|i: int| 0 <= i < s.len() implies spec_column_from(
            #[trigger] spec_columns_json(s)[i],
        ) == Some(s[i]) by {
            lemma_column_roundtrip(s[i]);
        }
        assert(spec_columns_from(spec_columns_json(s)) == Some(s)) by {
            assert(Seq::new(
                spec_columns_json(s).len(),
                |i: int| spec_column_from(spec_columns_json(s)[i]).unwrap(),
            ) =~= s);
        }
    }
    assert(spec_schema_from(spec_schema_json(g)) matches Some(h) && h =~= g);
}

/// A field absent from a decoded body stays unset or takes its default.
pub proof fn lemma_schema_absent_fields()
    ensures
        spec_schema_from(JVal::Obj(Seq::empty())) == Some(
            SchemaV {
                columns: None,
            },
        ),
{
    reveal_with_fuel(spec_lookup, 2);
}

/// The encoded form of a list of these records.
pub open spec fn spec_schemas_json(s: Seq<SchemaV>) -> Seq<JVal> {
    Seq::new(s.len(), |i: int| spec_schema_json(s[i]))
}

pub open spec fn spec_opt_schemas_json(o: Option<Seq<SchemaV>>) -> JVal {
    match o {
        None => JVal::Null,
        Some(s) => JVal::Arr(spec_schemas_json(s)),
    }
}

/// The decoding of a list of these records: every element must decode.
pub open spec fn spec_schemas_from(es: Seq<JVal>) -> Option<Seq<SchemaV>> {
    if forall|i: int| 0 <= i < es.len() ==> (#[trigger] spec_schema_from(es[i])) is Some {
        Some(Seq::new(es.len(), |i: int| spec_schema_from(es[i]).unwrap()))
    } else {
        None
    }
}

pub open spec fn spec_field_opt_schemas(
    fields: Seq<(Seq<char>, JVal)>,
    key: Seq<char>,
) -> Result<Option<Seq<SchemaV>>, ()> {
    match spec_lookup(fields, key) {
        None => Ok(None),
        Some(j) => match j {
            JVal::Null => Ok(None),
            JVal::Arr(es) => match spec_schemas_from(es) {
                Some(s) => Ok(Some(s)),
                None => Err(()),
            },
            _ => Err(()),
        },
    }
}

pub fn schema_list_to_json(v: &Vec<Schema>) -> (r: JsonValue)
    ensures
        r@ == JVal::Arr(spec_schemas_json(vviews(v@))),
{
    let mut a: Vec<JsonValue> = Vec::new();
    let mut i: usize = 0;
    while i < v.len()
        invariant
            i <= v.len(),
            a@.len() == i as int,
            forall|j: int| 0 <= j < i ==> jview(#[trigger] a@[j]) == spec_schema_json(v@[j]@),
        decreases v.len() - i,
    {
        a.push(v[i].to_json());
        i = i + 1;
    }
    let r = JsonValue::Arr(a);
    proof {
        broadcast use lemma_jview_arr;

        assert forall|j: int| 0 <= j < v@.len() implies spec_elems(r->Arr_0@)[j]
            == spec_schema_json(vviews(v@)[j]) by {
            assert(spec_elems(r->Arr_0@)[j] == jview(r->Arr_0@[j]));
        }
        assert(spec_elems(r->Arr_0@) =~= spec_schemas_json(vviews(v@)));
    }
    r
}

#[verifier::loop_isolation(false)]
pub fn schema_list_from_json(es: &Vec<JsonValue>) -> (r: Option<Vec<Schema>>)
    ensures
        match r {
            Some(v) => spec_schemas_from(spec_elems(es@)) == Some(vviews(v@)),
            None => spec_schemas_from(spec_elems(es@)) is None,
        },
{
    let mut out: Vec<Schema> = Vec::new();
    let mut i: usize = 0;
    while i < es.len()
        invariant
            i <= es.len(),
            out@.len() == i as int,
            forall|j: int|
                0 <= j < i ==> spec_schema_from(#[trigger] spec_elems(es@)[j]) == Some(
                    out@[j]@,
                ),
        decreases es.len() - i,
    {
        proof {
            assert(spec_elems(es@)[i as int] == jview(es@[i as int]));
        }
        match Schema::from_json(&es[i]) {
            Some(x) => out.push(x),
            None => {
                proof {
                    assert(spec_schema_from(spec_elems(es@)[i as int]) is None);
                }
                return None;
            },
        }
        i = i + 1;
    }
    proof {
        assert(spec_schemas_from(spec_elems(es@)) == Some(vviews(out@))) by {
            assert(Seq::new(
                spec_elems(es@).len(),
                |j: int| spec_schema_from(spec_elems(es@)[j]).unwrap(),
            ) =~= vviews(out@));
        }
    }
    Some(out)
}

pub open spec fn spec_opt_schema_json(o: Option<SchemaV>) -> JVal {
    match o {
        None => JVal::Null,
        Some(x) => spec_schema_json(x),
    }
}

pub open spec fn spec_field_opt_schema(
    fields: Seq<(Seq<char>, JVal)>,
    key: Seq<char>,
) -> Result<Option<SchemaV>, ()> {
    match spec_lookup(fields, key) {
        None => Ok(None),
        Some(j) => match j {
            JVal::Null => Ok(None),
            _ => match spec_schema_from(j) {
                Some(t) => Ok(Some(t)),
                None => Err(()),
            },
        },
    }
}

/// The owner of a dataset. The id decodes to zero when the server leaves it
/// out, as a non-optional field with a container default.
#[derive(Debug, PartialEq, Eq)]
pub struct Owner {
    pub id: u32,
    pub name: Option<String>,
}

#[verifier::ext_equal]
pub struct OwnerV {
    pub id: u32,
    pub name: Option<Seq<char>>,
}

impl View for Owner {
    type V = OwnerV;

    open spec fn view(&self) -> OwnerV {
        OwnerV {
            id: self.id,
            name: ostr(self.name),
        }
    }
}

pub open spec fn spec_owner_json(v: OwnerV) -> JVal {
    JVal::Obj(
        seq![
            ("id"@, JVal::Num(v.id as int)),
            ("name"@, spec_j_opt_str(v.name)),
        ],
    )
}

pub open spec fn spec_owner_from(j: JVal) -> Option<OwnerV> {
    match j {
        JVal::Obj(fields) => {
            let id = spec_field_u32_default(fields, "id"@);
            let name = spec_field_opt_str(fields, "name"@);
            if id is Err || name is Err {
                None
            } else {
                Some(
                    OwnerV {
                        id: id->Ok_0,
                        name: name->Ok_0,
                    },
                )
            }
        },
        _ => None,
    }
}

impl Owner {
    /// The record as a JSON document, with its wire field names; an unset
    /// field is sent as `null`.
    #[verifier::rlimit(100)]
    pub fn to_json(&self) -> (r: JsonValue)
        ensures
            r@ == spec_owner_json(self@),
    {
        let mut f: Vec<(String, JsonValue)> = Vec::new();
        put_field(&mut f, "id", JsonValue::UInt(self.id as u64));
        put_field(&mut f, "name", j_opt_string(&self.name));
        let r = JsonValue::Obj(f);
        proof {
            broadcast use lemma_jview_obj;

            assert(jview(r) == JVal::Obj(spec_fields(r->Obj_0@)));
            assert(spec_fields(r->Obj_0@) =~= spec_owner_json(self@)->Obj_0);
        }
        r
    }

    /// The record a well-formed body decodes to; `None` when a present
    /// field has the wrong shape.
    pub fn from_json(v: &JsonValue) -> (r: Option<Owner>)
        ensures
            match r {
                Some(x) => spec_owner_from(v@) == Some(x@),
                None => spec_owner_from(v@) is None,
            },
    {
        proof {
            broadcast use lemma_jview_obj;
            broadcast use lemma_jview_arr;

        }
        match v {
            JsonValue::Obj(fields) => {
                let id = match field_u32_default(fields, "id") {
                    Ok(x) => x,
                    Err(_) => {
                        return None;
                    },
                };
                let name = match field_opt_string(fields, "name") {
                    Ok(x) => x,
                    Err(_) => {
                        return None;
                    },
                };
                Some(Owner { id, name })
            },
            _ => None,
        }
    }
}

/// Decoding an encoded record gives back the same record.
#[verifier::rlimit(100)]
pub proof fn lemma_owner_roundtrip(g: OwnerV)
    ensures
        spec_owner_from(spec_owner_json(g)) == Some(g),
{
    reveal_strlit("id");
    reveal_strlit("name");
    reveal_with_fuel(spec_lookup, 4);
    assert("id"@.len() == 2);
    assert("name"@.len() == 4);
    assert(spec_owner_from(spec_owner_json(g)) matches Some(h) && h =~= g);
}

/// A field absent from a decoded body stays unset or takes its default.
pub proof fn lemma_owner_absent_fields()
    ensures
        spec_owner_from(JVal::Obj(Seq::empty())) == Some(
            OwnerV {
                id: 0,
                name: None,
            },
        ),
{
    reveal_with_fuel(spec_lookup, 2);
}

/// The encoded form of a list of these records.
pub open spec fn spec_owners_json(s: Seq<OwnerV>) -> Seq<JVal> {
    Seq::new(s.len(), |i: int| spec_owner_json(s[i]))
}

pub open spec fn spec_opt_owners_json(o: Option<Seq<OwnerV>>) -> JVal {
    match o {
        None => JVal::Null,
        Some(s) => JVal::Arr(spec_owners_json(s)),
    }
}

/// The decoding of a list of these records: every element must decode.
pub open spec fn spec_owners_from(es: Seq<JVal>) -> Option<Seq<OwnerV>> {
    if forall|i: int| 0 <= i < es.len() ==> (#[trigger] spec_owner_from(es[i])) is Some {
        Some(Seq::new(es.len(), |i: int| spec_owner_from(es[i]).unwrap()))
    } else {
        None
    }
}

pub open spec fn spec_field_opt_owners(
    fields: Seq<(Seq<char>, JVal)>,
    key: Seq<char>,
) -> Result<Option<Seq<OwnerV>>, ()> {
    match spec_lookup(fields, key) {
        None => Ok(None),
        Some(j) => match j {
            JVal::Null => Ok(None),
            JVal::Arr(es) => match spec_owners_from(es) {
                Some(s) => Ok(Some(s)),
                None => Err(()),
            },
            _ => Err(()),
        },
    }
}

pub fn owner_list_to_json(v: &Vec<Owner>) -> (r: JsonValue)
    ensures
        r@ == JVal::Arr(spec_owners_json(vviews(v@))),
{
    let mut a: Vec<JsonValue> = Vec::new();
    let mut i: usize = 0;
    while i < v.len()
        invariant
            i <= v.len(),
            a@.len() == i as int,
            forall|j: int| 0 <= j < i ==> jview(#[trigger] a@[j]) == spec_owner_json(v@[j]@),
        decreases v.len() - i,
    {
        a.push(v[i].to_json());
        i = i + 1;
    }
    let r = JsonValue::Arr(a);
    proof {
        broadcast use lemma_jview_arr;

        assert forall|j: int| 0 <= j < v@.len() implies spec_elems(r->Arr_0@)[j]
            == spec_owner_json(vviews(v@)[j]) by {
            assert(spec_elems(r->Arr_0@)[j] == jview(r->Arr_0@[j]));
        }
        assert(spec_elems(r->Arr_0@) =~= spec_owners_json(vviews(v@)));
    }
    r
}

#[verifier::loop_isolation(false)]
pub fn owner_list_from_json(es: &Vec<JsonValue>) -> (r: Option<Vec<Owner>>)
    ensures
        match r {
            Some(v) => spec_owners_from(spec_elems(es@)) == Some(vviews(v@)),
            None => spec_owners_from(spec_elems(es@)) is None,
        },
{
    let mut out: Vec<Owner> = Vec::new();
    let mut i: usize = 0;
    while i < es.len()
        invariant
            i <= es.len(),
            out@.len() == i as int,
            forall|j: int|
                0 <= j < i ==> spec_owner_from(#[trigger] spec_elems(es@)[j]) == Some(
                    out@[j]@,
                ),
        decreases es.len() - i,
    {
        proof {
            assert(spec_elems(es@)[i as int] == jview(es@[i as int]));
        }
        match Owner::from_json(&es[i]) {
            Some(x) => out.push(x),
            None => {
                proof {
                    assert(spec_owner_from(spec_elems(es@)[i as int]) is None);
                }
                return None;
            },
        }
        i = i + 1;
    }
    proof {
        assert(spec_owners_from(spec_elems(es@)) == Some(vviews(out@))) by {
            assert(Seq::new(
                spec_elems(es@).len(),
                |j: int| spec_owner_from(spec_elems(es@)[j]).unwrap(),
            ) =~= vviews(out@));
        }
    }
    Some(out)
}

pub open spec fn spec_opt_owner_json(o: Option<OwnerV>) -> JVal {
    match o {
        None => JVal::Null,
        Some(x) => spec_owner_json(x),
    }
}

pub open spec fn spec_field_opt_owner(
    fields: Seq<(Seq<char>, JVal)>,
    key: Seq<char>,
) -> Result<Option<OwnerV>, ()> {
    match spec_lookup(fields, key) {
        None => Ok(None),
        Some(j) => match j {
            JVal::Null => Ok(None),
            _ => match spec_owner_from(j) {
                Some(t) => Ok(Some(t)),
                None => Err(()),
            },
        },
    }
}

/// One row filter of an access policy. The matched values are kept as a
/// plain list: an empty list is left out of the encoded record.
#[derive(Debug, PartialEq, Eq)]
pub struct Filter {
    pub column: Option<String>,
    pub not: Option<bool>,
    pub operator: Option<String>,
    pub values: Vec<String>,
}

#[verifier::ext_equal]
pub struct FilterV {
    pub column: Option<Seq<char>>,
    pub not: Option<bool>,
    pub operator: Option<Seq<char>>,
    pub values: Seq<Seq<char>>,
}

impl View for Filter {
    type V = FilterV;

    open spec fn view(&self) -> FilterV {
        FilterV {
            column: ostr(self.column),
            not: self.not,
            operator: ostr(self.operator),
            values: views_of_strings(self.values@),
        }
    }
}

pub open spec fn spec_filter_json(v: FilterV) -> JVal {
    JVal::Obj(
        seq![
            ("column"@, spec_j_opt_str(v.column)),
            ("not"@, spec_j_opt_bool(v.not)),
            ("operator"@, spec_j_opt_str(v.operator)),
        ] + (if v.values.len() > 0 {
            seq![("values"@, spec_j_str_arr(v.values))]
        } else {
            Seq::empty()
        }),
    )
}

pub open spec fn spec_filter_from(j: JVal) -> Option<FilterV> {
    match j {
        JVal::Obj(fields) => {
            let column = spec_field_opt_str(fields, "column"@);
            let not = spec_field_opt_bool(fields, "not"@);
            let operator = spec_field_opt_str(fields, "operator"@);
            let values = spec_field_strarr_default(fields, "values"@);
            if column is Err || not is Err || operator is Err || values is Err {
                None
            } else {
                Some(
                    FilterV {
                        column: column->Ok_0,
                        not: not->Ok_0,
                        operator: operator->Ok_0,
                        values: values->Ok_0,
                    },
                )
            }
        },
        _ => None,
    }
}

impl Filter {
    /// The filter as a JSON document; an empty value list is omitted.
    #[verifier::rlimit(100)]
    pub fn to_json(&self) -> (r: JsonValue)
        ensures
            r@ == spec_filter_json(self@),
    {
        let mut f: Vec<(String, JsonValue)> = Vec::new();
        put_field(&mut f, "column", j_opt_string(&self.column));
        put_field(&mut f, "not", j_opt_bool(&self.not));
        put_field(&mut f, "operator", j_opt_string(&self.operator));
        if self.values.len() > 0 {
            put_field(&mut f, "values", j_str_arr(&self.values));
        }
        let r = JsonValue::Obj(f);
        proof {
            broadcast use lemma_jview_obj;

            assert(jview(r) == JVal::Obj(spec_fields(r->Obj_0@)));
            assert(spec_fields(r->Obj_0@) =~= spec_filter_json(self@)->Obj_0);
        }
        r
    }

    /// The filter a well-formed body decodes to.
    pub fn from_json(v: &JsonValue) -> (r: Option<Filter>)
        ensures
            match r {
                Some(x) => spec_filter_from(v@) == Some(x@),
                None => spec_filter_from(v@) is None,
            },
    {
        proof {
            broadcast use lemma_jview_obj;
            broadcast use lemma_jview_arr;

        }
        match v {
            JsonValue::Obj(fields) => {
                let column = match field_opt_string(fields, "column") {
                    Ok(x) => x,
                    Err(_) => {
                        return None;
                    },
                };
                let not = match field_opt_bool(fields, "not") {
                    Ok(x) => x,
                    Err(_) => {
                        return None;
                    },
                };
                let operator = match field_opt_string(fields, "operator") {
                    Ok(x) => x,
                    Err(_) => {
                        return None;
                    },
                };
                let values = match field_strarr_default(fields, "values") {
                    Ok(x) => x,
                    Err(_) => {
                        return None;
                    },
                };
                Some(Filter { column, not, operator, values })
            },
            _ => None,
        }
    }
}

/// Decoding an encoded filter gives back the same filter.
#[verifier::rlimit(100)]
pub proof fn lemma_filter_roundtrip(g: FilterV)
    ensures
        spec_filter_from(spec_filter_json(g)) == Some(g),
{
    reveal_strlit("column");
    reveal_strlit("not");
    reveal_strlit("operator");
    reveal_strlit("values");
    reveal_with_fuel(spec_lookup, 6);
    assert("column"@.len() == 6);
    assert("not"@.len() == 3);
    assert("operator"@.len() == 8);
    assert("values"@.len() == 6);
    assert("column"@[0] == 'c');
    assert("values"@[0] == 'v');
    assert("column"@ != "values"@);
    assert(spec_filter_from(spec_filter_json(g)) matches Some(h) && h =~= g);
}


/// The encoded form of a list of these records.
pub open spec fn spec_filters_json(s: Seq<FilterV>) -> Seq<JVal> {
    Seq::new(s.len(), |i: int| spec_filter_json(s[i]))
}

pub open spec fn spec_opt_filters_json(o: Option<Seq<FilterV>>) -> JVal {
    match o {
        None => JVal::Null,
        Some(s) => JVal::Arr(spec_filters_json(s)),
    }
}

/// The decoding of a list of these records: every element must decode.
pub open spec fn spec_filters_from(es: Seq<JVal>) -> Option<Seq<FilterV>> {
    if forall|i: int| 0 <= i < es.len() ==> (#[trigger] spec_filter_from(es[i])) is Some {
        Some(Seq::new(es.len(), |i: int| spec_filter_from(es[i]).unwrap()))
    } else {
        None
    }
}

pub open spec fn spec_field_opt_filters(
    fields: Seq<(Seq<char>, JVal)>,
    key: Seq<char>,
) -> Result<Option<Seq<FilterV>>, ()> {
    match spec_lookup(fields, key) {
        None => Ok(None),
        Some(j) => match j {
            JVal::Null => Ok(None),
            JVal::Arr(es) => match spec_filters_from(es) {
                Some(s) => Ok(Some(s)),
                None => Err(()),
            },
            _ => Err(()),
        },
    }
}

pub fn filter_list_to_json(v: &Vec<Filter>) -> (r: JsonValue)
    ensures
        r@ == JVal::Arr(spec_filters_json(vviews(v@))),
{
    let mut a: Vec<JsonValue> = Vec::new();
    let mut i: usize = 0;
    while i < v.len()
        invariant
            i <= v.len(),
            a@.len() == i as int,
            forall|j: int| 0 <= j < i ==> jview(#[trigger] a@[j]) == spec_filter_json(v@[j]@),
        decreases v.len() - i,
    {
        a.push(v[i].to_json());
        i = i + 1;
    }
    let r = JsonValue::Arr(a);
    proof {
        broadcast use lemma_jview_arr;

        assert forall|j: int| 0 <= j < v@.len() implies spec_elems(r->Arr_0@)[j]
            == spec_filter_json(vviews(v@)[j]) by {
            assert(spec_elems(r->Arr_0@)[j] == jview(r->Arr_0@[j]));
        }
        assert(spec_elems(r->Arr_0@) =~= spec_filters_json(vviews(v@)));
    }
    r
}

#[verifier::loop_isolation(false)]
pub fn filter_list_from_json(es: &Vec<JsonValue>) -> (r: Option<Vec<Filter>>)
    ensures
        match r {
            Some(v) => spec_filters_from(spec_elems(es@)) == Some(vviews(v@)),
            None => spec_filters_from(spec_elems(es@)) is None,
        },
{
    let mut out: Vec<Filter> = Vec::new();
    let mut i: usize = 0;
    while i < es.len()
        invariant
            i <= es.len(),
            out@.len() == i as int,
            forall|j: int|
                0 <= j < i ==> spec_filter_from(#[trigger] spec_elems(es@)[j]) == Some(
                    out@[j]@,
                ),
        decreases es.len() - i,
    {
        proof {
            assert(spec_elems(es@)[i as int] == jview(es@[i as int]));
        }
        match Filter::from_json(&es[i]) {
            Some(x) => out.push(x),
            None => {
                proof {
                    assert(spec_filter_from(spec_elems(es@)[i as int]) is None);
                }
                return None;
            },
        }
        i = i + 1;
    }
    proof {
        assert(spec_filters_from(spec_elems(es@)) == Some(vviews(out@))) by {
            assert(Seq::new(
                spec_elems(es@).len(),
                |j: int| spec_filter_from(spec_elems(es@)[j]).unwrap(),
            ) =~= vviews(out@));
        }
    }
    Some(out)
}

pub open spec fn spec_opt_filter_json(o: Option<FilterV>) -> JVal {
    match o {
        None => JVal::Null,
        Some(x) => spec_filter_json(x),
    }
}

pub open spec fn spec_field_opt_filter(
    fields: Seq<(Seq<char>, JVal)>,
    key: Seq<char>,
) -> Result<Option<FilterV>, ()> {
    match spec_lookup(fields, key) {
        None => Ok(None),
        Some(j) => match j {
            JVal::Null => Ok(None),
            _ => match spec_filter_from(j) {
                Some(t) => Ok(Some(t)),
                None => Err(()),
            },
        },
    }
}

/// A personalized-data-permission policy: row filters and the users and
/// groups they apply to.
#[derive(Debug, PartialEq, Eq)]
pub struct Policy {
    pub id: Option<u32>,
    pub name: Option<String>,
    pub policy_type: Option<String>,
    pub filters: Option<Vec<Filter>>,
    pub users: Option<Vec<u64>>,
    pub groups: Option<Vec<String>>,
}

#[verifier::ext_equal]
pub struct PolicyV {
    pub id: Option<u32>,
    pub name: Option<Seq<char>>,
    pub policy_type: Option<Seq<char>>,
    pub filters: Option<Seq<FilterV>>,
    pub users: Option<Seq<u64>>,
    pub groups: Option<Seq<Seq<char>>>,
}

impl View for Policy {
    type V = PolicyV;

    open spec fn view(&self) -> PolicyV {
        PolicyV {
            id: self.id,
            name: ostr(self.name),
            policy_type: ostr(self.policy_type),
            filters: ovviews(self.filters),
            users: onums(self.users),
            groups: ostrs(self.groups),
        }
    }
}

pub open spec fn spec_policy_json(v: PolicyV) -> JVal {
    JVal::Obj(
        seq![
            ("id"@, spec_j_opt_num32(v.id)),
            ("name"@, spec_j_opt_str(v.name)),
            ("type"@, spec_j_opt_str(v.policy_type)),
            ("filters"@, spec_opt_filters_json(v.filters)),
            ("users"@, spec_j_opt_num_arr(v.users)),
            ("groups"@, spec_j_opt_str_arr(v.groups)),
        ],
    )
}

pub open spec fn spec_policy_from(j: JVal) -> Option<PolicyV> {
    match j {
        JVal::Obj(fields) => {
            let id = spec_field_opt_u32(fields, "id"@);
            let name = spec_field_opt_str(fields, "name"@);
            let policy_type = spec_field_opt_str(fields, "type"@);
            let filters = spec_field_opt_filters(fields, "filters"@);
            let users = spec_field_opt_num_arr(fields, "users"@);
            let groups = spec_field_opt_str_arr(fields, "groups"@);
            if id is Err || name is Err || policy_type is Err || filters is Err || users is Err || groups is Err {
                None
            } else {
                Some(
                    PolicyV {
                        id: id->Ok_0,
                        name: name->Ok_0,
                        policy_type: policy_type->Ok_0,
                        filters: filters->Ok_0,
                        users: users->Ok_0,
                        groups: groups->Ok_0,
                    },
                )
            }
        },
        _ => None,
    }
}

impl Policy {
    /// The record as a JSON document, with its wire field names; an unset
    /// field is sent as `null`.
    #[verifier::rlimit(100)]
    pub fn to_json(&self) -> (r: JsonValue)
        ensures
            r@ == spec_policy_json(self@),
    {
        let mut f: Vec<(String, JsonValue)> = Vec::new();
        put_field(&mut f, "id", j_opt_u32(&self.id));
        put_field(&mut f, "name", j_opt_string(&self.name));
        put_field(&mut f, "type", j_opt_string(&self.policy_type));
        let filters_json = match &self.filters {
            None => JsonValue::Null,
            Some(x) => filter_list_to_json(x),
        };
        put_field(&mut f, "filters", filters_json);
        put_field(&mut f, "users", j_opt_num_arr(&self.users));
        put_field(&mut f, "groups", j_opt_str_arr(&self.groups));
        let r = JsonValue::Obj(f);
        proof {
            broadcast use lemma_jview_obj;

            assert(jview(r) == JVal::Obj(spec_fields(r->Obj_0@)));
            assert(spec_fields(r->Obj_0@) =~= spec_policy_json(self@)->Obj_0);
        }
        r
    }

    /// The record a well-formed body decodes to; `None` when a present
    /// field has the wrong shape.
    pub fn from_json(v: &JsonValue) -> (r: Option<Policy>)
        ensures
            match r {
                Some(x) => spec_policy_from(v@) == Some(x@),
                None => spec_policy_from(v@) is None,
            },
    {
        proof {
            broadcast use lemma_jview_obj;
            broadcast use lemma_jview_arr;

        }
        match v {
            JsonValue::Obj(fields) => {
                let id = match field_opt_u32(fields, "id") {
                    Ok(x) => x,
                    Err(_) => {
                        return None;
                    },
                };
                let name = match field_opt_string(fields, "name") {
                    Ok(x) => x,
                    Err(_) => {
                        return None;
                    },
                };
                let policy_type = match field_opt_string(fields, "type") {
                    Ok(x) => x,
                    Err(_) => {
                        return None;
                    },
                };
                let filters = match jlookup(fields, "filters") {
                    None => None,
                    Some(w) => match w {
                        JsonValue::Null => None,
                        JsonValue::Arr(es) => match filter_list_from_json(es) {
                            Some(x) => Some(x),
                            None => {
                                return None;
                            },
                        },
                        _ => {
                            return None;
                        },
                    },
                };
                let users = match field_opt_num_arr(fields, "users") {
                    Ok(x) => x,
                    Err(_) => {
                        return None;
                    },
                };
                let groups = match field_opt_str_arr(fields, "groups") {
                    Ok(x) => x,
                    Err(_) => {
                        return None;
                    },
                };
                Some(Policy { id, name, policy_type, filters, users, groups })
            },
            _ => None,
        }
    }
}

/// Decoding an encoded record gives back the same record.
#[verifier::rlimit(100)]
pub proof fn lemma_policy_roundtrip(g: PolicyV)
    ensures
        spec_policy_from(spec_policy_json(g)) == Some(g),
{
    reveal_strlit("id");
    reveal_strlit("name");
    reveal_strlit("type");
    reveal_strlit("filters");
    reveal_strlit("users");
    reveal_strlit("groups");
    reveal_with_fuel(spec_lookup, 8);
    assert("id"@.len() == 2);
    assert("name"@.len() == 4);
    assert("type"@.len() == 4);
    assert("filters"@.len() == 7);
    assert("users"@.len() == 5);
    assert("groups"@.len() == 6);
    assert("name"@[0] == 'n');
    assert("type"@[0] == 't');
    assert("name"@ != "type"@);
    if g.filters is Some {
        let s = g.filters.unwrap();
        assert forall|i: int| 0 <= i < s.len() implies spec_filter_from(
            #[trigger] spec_filters_json(s)[i],
        ) == Some(s[i]) by {
            lemma_filter_roundtrip(s[i]);
        }
        assert(spec_filters_from(spec_filters_json(s)) == Some(s)) by {
            assert(Seq::new(
                spec_filters_json(s).len(),
                |i: int| spec_filter_from(spec_filters_json(s)[i]).unwrap(),
            ) =~= s);
        }
    }
    assert(spec_policy_from(spec_policy_json(g)) matches Some(h) && h =~= g);
}

/// A field absent from a decoded body stays unset or takes its default.
pub proof fn lemma_policy_absent_fields()
    ensures
        spec_policy_from(JVal::Obj(Seq::empty())) == Some(
            PolicyV {
                id: None,
                name: None,
                policy_type: None,
                filters: None,
                users: None,
                groups: None,
            },
        ),
{
    reveal_with_fuel(spec_lookup, 2);
}

/// The encoded form of a list of these records.
pub open spec fn spec_policies_json(s: Seq<PolicyV>) -> Seq<JVal> {
    Seq::new(s.len(), |i: int| spec_policy_json(s[i]))
}

pub open spec fn spec_opt_policies_json(o: Option<Seq<PolicyV>>) -> JVal {
    match o {
        None => JVal::Null,
        Some(s) => JVal::Arr(spec_policies_json(s)),
    }
}

/// The decoding of a list of these records: every element must decode.
pub open spec fn spec_policies_from(es: Seq<JVal>) -> Option<Seq<PolicyV>> {
    if forall|i: int| 0 <= i < es.len() ==> (#[trigger] spec_policy_from(es[i])) is Some {
        Some(Seq::new(es.len(), |i: int| spec_policy_from(es[i]).unwrap()))
    } else {
        None
    }
}

pub open spec fn spec_field_opt_policies(
    fields: Seq<(Seq<char>, JVal)>,
    key: Seq<char>,
) -> Result<Option<Seq<PolicyV>>, ()> {
    match spec_lookup(fields, key) {
        None => Ok(None),
        Some(j) => match j {
            JVal::Null => Ok(None),
            JVal::Arr(es) => match spec_policies_from(es) {
                Some(s) => Ok(Some(s)),
                None => Err(()),
            },
            _ => Err(()),
        },
    }
}

pub fn policy_list_to_json(v: &Vec<Policy>) -> (r: JsonValue)
    ensures
        r@ == JVal::Arr(spec_policies_json(vviews(v@))),
{
    let mut a: Vec<JsonValue> = Vec::new();
    let mut i: usize = 0;
    while i < v.len()
        invariant
            i <= v.len(),
            a@.len() == i as int,
            forall|j: int| 0 <= j < i ==> jview(#[trigger] a@[j]) == spec_policy_json(v@[j]@),
        decreases v.len() - i,
    {
        a.push(v[i].to_json());
        i = i + 1;
    }
    let r = JsonValue::Arr(a);
    proof {
        broadcast use lemma_jview_arr;

        assert forall|j: int| 0 <= j < v@.len() implies spec_elems(r->Arr_0@)[j]
            == spec_policy_json(vviews(v@)[j]) by {
            assert(spec_elems(r->Arr_0@)[j] == jview(r->Arr_0@[j]));
        }
        assert(spec_elems(r->Arr_0@) =~= spec_policies_json(vviews(v@)));
    }
    r
}

#[verifier::loop_isolation(false)]
pub fn policy_list_from_json(es: &Vec<JsonValue>) -> (r: Option<Vec<Policy>>)
    ensures
        match r {
            Some(v) => spec_policies_from(spec_elems(es@)) == Some(vviews(v@)),
            None => spec_policies_from(spec_elems(es@)) is None,
        },
{
    let mut out: Vec<Policy> = Vec::new();
    let mut i: usize = 0;
    while i < es.len()
        invariant
            i <= es.len(),
            out@.len() == i as int,
            forall|j: int|
                0 <= j < i ==> spec_policy_from(#[trigger] spec_elems(es@)[j]) == Some(
                    out@[j]@,
                ),
        decreases es.len() - i,
    {
        proof {
            assert(spec_elems(es@)[i as int] == jview(es@[i as int]));
        }
        match Policy::from_json(&es[i]) {
            Some(x) => out.push(x),
            None => {
                proof {
                    assert(spec_policy_from(spec_elems(es@)[i as int]) is None);
                }
                return None;
            },
        }
        i = i + 1;
    }
    proof {
        assert(spec_policies_from(spec_elems(es@)) == Some(vviews(out@))) by {
            assert(Seq::new(
                spec_elems(es@).len(),
                |j: int| spec_policy_from(spec_elems(es@)[j]).unwrap(),
            ) =~= vviews(out@));
        }
    }
    Some(out)
}

pub open spec fn spec_opt_policy_json(o: Option<PolicyV>) -> JVal {
    match o {
        None => JVal::Null,
        Some(x) => spec_policy_json(x),
    }
}

pub open spec fn spec_field_opt_policy(
    fields: Seq<(Seq<char>, JVal)>,
    key: Seq<char>,
) -> Result<Option<PolicyV>, ()> {
    match spec_lookup(fields, key) {
        None => Ok(None),
        Some(j) => match j {
            JVal::Null => Ok(None),
            _ => match spec_policy_from(j) {
                Some(t) => Ok(Some(t)),
                None => Err(()),
            },
        },
    }
}

/// A dataset: its identity, owner, timestamps, schema, access policies and
/// size. Timestamps are carried as the wire's ISO-8601 text.
#[derive(Debug, PartialEq, Eq)]
pub struct DataSet {
    pub id: Option<String>,
    pub name: Option<String>,
    pub description: Option<String>,
    pub owner: Option<Owner>,
    pub created_at: Option<String>,
    pub updated_at: Option<String>,
    pub data_current_at: Option<String>,
    pub schema: Option<Schema>,
    pub pdp_enabled: Option<bool>,
    pub policies: Option<Vec<Policy>>,
    pub rows: Option<u64>,
    pub columns: Option<u32>,
}

#[verifier::ext_equal]
pub struct DataSetV {
    pub id: Option<Seq<char>>,
    pub name: Option<Seq<char>>,
    pub description: Option<Seq<char>>,
    pub owner: Option<OwnerV>,
    pub created_at: Option<Seq<char>>,
    pub updated_at: Option<Seq<char>>,
    pub data_current_at: Option<Seq<char>>,
    pub schema: Option<SchemaV>,
    pub pdp_enabled: Option<bool>,
    pub policies: Option<Seq<PolicyV>>,
    pub rows: Option<u64>,
    pub columns: Option<u32>,
}

impl View for DataSet {
    type V = DataSetV;

    open spec fn view(&self) -> DataSetV {
        DataSetV {
            id: ostr(self.id),
            name: ostr(self.name),
            description: ostr(self.description),
            owner: oview(self.owner),
            created_at: ostr(self.created_at),
            updated_at: ostr(self.updated_at),
            data_current_at: ostr(self.data_current_at),
            schema: oview(self.schema),
            pdp_enabled: self.pdp_enabled,
            policies: ovviews(self.policies),
            rows: self.rows,
            columns: self.columns,
        }
    }
}

pub open spec fn spec_data_set_json(v: DataSetV) -> JVal {
    JVal::Obj(
        seq![
            ("id"@, spec_j_opt_str(v.id)),
            ("name"@, spec_j_opt_str(v.name)),
            ("description"@, spec_j_opt_str(v.description)),
            ("owner"@, spec_opt_owner_json(v.owner)),
            ("createdAt"@, spec_j_opt_str(v.created_at)),
            ("updatedAt"@, spec_j_opt_str(v.updated_at)),
            ("dataCurrentAt"@, spec_j_opt_str(v.data_current_at)),
            ("schema"@, spec_opt_schema_json(v.schema)),
            ("pdpEnabled"@, spec_j_opt_bool(v.pdp_enabled)),
            ("policies"@, spec_opt_policies_json(v.policies)),
            ("rows"@, spec_j_opt_num(v.rows)),
            ("columns"@, spec_j_opt_num32(v.columns)),
        ],
    )
}

pub open spec fn spec_data_set_from(j: JVal) -> Option<DataSetV> {
    match j {
        JVal::Obj(fields) => {
            let id = spec_field_opt_str(fields, "id"@);
            let name = spec_field_opt_str(fields, "name"@);
            let description = spec_field_opt_str(fields, "description"@);
            let owner = spec_field_opt_owner(fields, "owner"@);
            let created_at = spec_field_opt_str(fields, "createdAt"@);
            let updated_at = spec_field_opt_str(fields, "updatedAt"@);
            let data_current_at = spec_field_opt_str(fields, "dataCurrentAt"@);
            let schema = spec_field_opt_schema(fields, "schema"@);
            let pdp_enabled = spec_field_opt_bool(fields, "pdpEnabled"@);
            let policies = spec_field_opt_policies(fields, "policies"@);
            let rows = spec_field_opt_u64(fields, "rows"@);
            let columns = spec_field_opt_u32(fields, "columns"@);
            if id is Err || name is Err || description is Err || owner is Err || created_at is Err || updated_at is Err || data_current_at is Err || schema is Err || pdp_enabled is Err || policies is Err || rows is Err || columns is Err {
                None
            } else {
                Some(
                    DataSetV {
                        id: id->Ok_0,
                        name: name->Ok_0,
                        description: description->Ok_0,
                        owner: owner->Ok_0,
                        created_at: created_at->Ok_0,
                        updated_at: updated_at->Ok_0,
                        data_current_at: data_current_at->Ok_0,
                        schema: schema->Ok_0,
                        pdp_enabled: pdp_enabled->Ok_0,
                        policies: policies->Ok_0,
                        rows: rows->Ok_0,
                        columns: columns->Ok_0,
                    },
                )
            }
        },
        _ => None,
    }
}

impl DataSet {
    /// The record as a JSON document, with its wire field names; an unset
    /// field is sent as `null`.
    #[verifier::rlimit(100)]
    pub fn to_json(&self) -> (r: JsonValue)
        ensures
            r@ == spec_data_set_json(self@),
    {
        let mut f: Vec<(String, JsonValue)> = Vec::new();
        put_field(&mut f, "id", j_opt_string(&self.id));
        put_field(&mut f, "name", j_opt_string(&self.name));
        put_field(&mut f, "description", j_opt_string(&self.description));
        let owner_json = match &self.owner {
            None => JsonValue::Null,
            Some(x) => x.to_json(),
        };
        put_field(&mut f, "owner", owner_json);
        put_field(&mut f, "createdAt", j_opt_string(&self.created_at));
        put_field(&mut f, "updatedAt", j_opt_string(&self.updated_at));
        put_field(&mut f, "dataCurrentAt", j_opt_string(&self.data_current_at));
        let schema_json = match &self.schema {
            None => JsonValue::Null,
            Some(x) => x.to_json(),
        };
        put_field(&mut f, "schema", schema_json);
        put_field(&mut f, "pdpEnabled", j_opt_bool(&self.pdp_enabled));
        let policies_json = match &self.policies {
            None => JsonValue::Null,
            Some(x) => policy_list_to_json(x),
        };
        put_field(&mut f, "policies", policies_json);
        put_field(&mut f, "rows", j_opt_u64(&self.rows));
        put_field(&mut f, "columns", j_opt_u32(&self.columns));
        let r = JsonValue::Obj(f);
        proof {
            broadcast use lemma_jview_obj;

            assert(jview(r) == JVal::Obj(spec_fields(r->Obj_0@)));
            assert(spec_fields(r->Obj_0@) =~= spec_data_set_json(self@)->Obj_0);
        }
        r
    }

    /// The record a well-formed body decodes to; `None` when a present
    /// field has the wrong shape.
    pub fn from_json(v: &JsonValue) -> (r: Option<DataSet>)
        ensures
            match r {
                Some(x) => spec_data_set_from(v@) == Some(x@),
                None => spec_data_set_from(v@) is None,
            },
    {
        proof {
            broadcast use lemma_jview_obj;
            broadcast use lemma_jview_arr;

        }
        match v {
            JsonValue::Obj(fields) => {
                let id = match field_opt_string(fields, "id") {
                    Ok(x) => x,
                    Err(_) => {
                        return None;
                    },
                };
                let name = match field_opt_string(fields, "name") {
                    Ok(x) => x,
                    Err(_) => {
                        return None;
                    },
                };
                let description = match field_opt_string(fields, "description") {
                    Ok(x) => x,
                    Err(_) => {
                        return None;
                    },
                };
                let owner = match jlookup(fields, "owner") {
                    None => None,
                    Some(w) => match w {
                        JsonValue::Null => None,
                        _ => match Owner::from_json(w) {
                            Some(x) => Some(x),
                            None => {
                                return None;
                            },
                        },
                    },
                };
                let created_at = match field_opt_string(fields, "createdAt") {
                    Ok(x) => x,
                    Err(_) => {
                        return None;
                    },
                };
                let updated_at = match field_opt_string(fields, "updatedAt") {
                    Ok(x) => x,
                    Err(_) => {
                        return None;
                    },
                };
                let data_current_at = match field_opt_string(fields, "dataCurrentAt") {
                    Ok(x) => x,
                    Err(_) => {
                        return None;
                    },
                };
                let schema = match jlookup(fields, "schema") {
                    None => None,
                    Some(w) => match w {
                        JsonValue::Null => None,
                        _ => match Schema::from_json(w) {
                            Some(x) => Some(x),
                            None => {
                                return None;
                            },
                        },
                    },
                };
                let pdp_enabled = match field_opt_bool(fields, "pdpEnabled") {
                    Ok(x) => x,
                    Err(_) => {
                        return None;
                    },
                };
                let policies = match jlookup(fields, "policies") {
                    None => None,
                    Some(w) => match w {
                        JsonValue::Null => None,
                        JsonValue::Arr(es) => match policy_list_from_json(es) {
                            Some(x) => Some(x),
                            None => {
                                return None;
                            },
                        },
                        _ => {
                            return None;
                        },
                    },
                };
                let rows = match field_opt_u64(fields, "rows") {
                    Ok(x) => x,
                    Err(_) => {
                        return None;
                    },
                };
                let columns = match field_opt_u32(fields, "columns") {
                    Ok(x) => x,
                    Err(_) => {
                        return None;
                    },
                };
                Some(DataSet { id, name, description, owner, created_at, updated_at, data_current_at, schema, pdp_enabled, policies, rows, columns })
            },
            _ => None,
        }
    }
}

/// Decoding an encoded record gives back the same record.
#[verifier::rlimit(100)]
pub proof fn lemma_data_set_roundtrip(g: DataSetV)
    ensures
        spec_data_set_from(spec_data_set_json(g)) == Some(g),
{
    reveal_strlit("id");
    reveal_strlit("name");
    reveal_strlit("description");
    reveal_strlit("owner");
    reveal_strlit("createdAt");
    reveal_strlit("updatedAt");
    reveal_strlit("dataCurrentAt");
    reveal_strlit("schema");
    reveal_strlit("pdpEnabled");
    reveal_strlit("policies");
    reveal_strlit("rows");
    reveal_strlit("columns");
    reveal_with_fuel(spec_lookup, 14);
    assert("id"@.len() == 2);
    assert("name"@.len() == 4);
    assert("description"@.len() == 11);
    assert("owner"@.len() == 5);
    assert("createdAt"@.len() == 9);
    assert("updatedAt"@.len() == 9);
    assert("dataCurrentAt"@.len() == 13);
    assert("schema"@.len() == 6);
    assert("pdpEnabled"@.len() == 10);
    assert("policies"@.len() == 8);
    assert("rows"@.len() == 4);
    assert("columns"@.len() == 7);
    assert("name"@[0] == 'n');
    assert("rows"@[0] == 'r');
    assert("name"@ != "rows"@);
    assert("createdAt"@[0] == 'c');
    assert("updatedAt"@[0] == 'u');
    assert("createdAt"@ != "updatedAt"@);
    if g.owner is Some {
        lemma_owner_roundtrip(g.owner.unwrap());
    }
    if g.schema is Some {
        lemma_schema_roundtrip(g.schema.unwrap());
    }
    if g.policies is Some {
        let s = g.policies.unwrap();
        assert forall|i: int| 0 <= i < s.len() implies spec_policy_from(
            #[trigger] spec_policies_json(s)[i],
        ) == Some(s[i]) by {
            lemma_policy_roundtrip(s[i]);
        }
        assert(spec_policies_from(spec_policies_json(s)) == Some(s)) by {
            assert(Seq::new(
                spec_policies_json(s).len(),
                |i: int| spec_policy_from(spec_policies_json(s)[i]).unwrap(),
            ) =~= s);
        }
    }
    assert(spec_data_set_from(spec_data_set_json(g)) matches Some(h) && h =~= g);
}

/// A field absent from a decoded body stays unset or takes its default.
pub proof fn lemma_data_set_absent_fields()
    ensures
        spec_data_set_from(JVal::Obj(Seq::empty())) == Some(
            DataSetV {
                id: None,
                name: None,
                description: None,
                owner: None,
                created_at: None,
                updated_at: None,
                data_current_at: None,
                schema: None,
                pdp_enabled: None,
                policies: None,
                rows: None,
                columns: None,
            },
        ),
{
    reveal_with_fuel(spec_lookup, 2);
}

/// The encoded form of a list of these records.
pub open spec fn spec_data_sets_json(s: Seq<DataSetV>) -> Seq<JVal> {
    Seq::new(s.len(), |i: int| spec_data_set_json(s[i]))
}

pub open spec fn spec_opt_data_sets_json(o: Option<Seq<DataSetV>>) -> JVal {
    match o {
        None => JVal::Null,
        Some(s) => JVal::Arr(spec_data_sets_json(s)),
    }
}

/// The decoding of a list of these records: every element must decode.
pub open spec fn spec_data_sets_from(es: Seq<JVal>) -> Option<Seq<DataSetV>> {
    if forall|i: int| 0 <= i < es.len() ==> (#[trigger] spec_data_set_from(es[i])) is Some {
        Some(Seq::new(es.len(), |i: int| spec_data_set_from(es[i]).unwrap()))
    } else {
        None
    }
}

pub open spec fn spec_field_opt_data_sets(
    fields: Seq<(Seq<char>, JVal)>,
    key: Seq<char>,
) -> Result<Option<Seq<DataSetV>>, ()> {
    match spec_lookup(fields, key) {
        None => Ok(None),
        Some(j) => match j {
            JVal::Null => Ok(None),
            JVal::Arr(es) => match spec_data_sets_from(es) {
                Some(s) => Ok(Some(s)),
                None => Err(()),
            },
            _ => Err(()),
        },
    }
}

pub fn data_set_list_to_json(v: &Vec<DataSet>) -> (r: JsonValue)
    ensures
        r@ == JVal::Arr(spec_data_sets_json(vviews(v@))),
{
    let mut a: Vec<JsonValue> = Vec::new();
    let mut i: usize = 0;
    while i < v.len()
        invariant
            i <= v.len(),
            a@.len() == i as int,
            forall|j: int| 0 <= j < i ==> jview(#[trigger] a@[j]) == spec_data_set_json(v@[j]@),
        decreases v.len() - i,
    {
        a.push(v[i].to_json());
        i = i + 1;
    }
    let r = JsonValue::Arr(a);
    proof {
        broadcast use lemma_jview_arr;

        assert forall|j: int| 0 <= j < v@.len() implies spec_elems(r->Arr_0@)[j]
            == spec_data_set_json(vviews(v@)[j]) by {
            assert(spec_elems(r->Arr_0@)[j] == jview(r->Arr_0@[j]));
        }
        assert(spec_elems(r->Arr_0@) =~= spec_data_sets_json(vviews(v@)));
    }
    r
}

#[verifier::loop_isolation(false)]
pub fn data_set_list_from_json(es: &Vec<JsonValue>) -> (r: Option<Vec<DataSet>>)
    ensures
        match r {
            Some(v) => spec_data_sets_from(spec_elems(es@)) == Some(vviews(v@)),
            None => spec_data_sets_from(spec_elems(es@)) is None,
        },
{
    let mut out: Vec<DataSet> = Vec::new();
    let mut i: usize = 0;
    while i < es.len()
        invariant
            i <= es.len(),
            out@.len() == i as int,
            forall|j: int|
                0 <= j < i ==> spec_data_set_from(#[trigger] spec_elems(es@)[j]) == Some(
                    out@[j]@,
                ),
        decreases es.len() - i,
    {
        proof {
            assert(spec_elems(es@)[i as int] == jview(es@[i as int]));
        }
        match DataSet::from_json(&es[i]) {
            Some(x) => out.push(x),
            None => {
                proof {
                    assert(spec_data_set_from(spec_elems(es@)[i as int]) is None);
                }
                return None;
            },
        }
        i = i + 1;
    }
    proof {
        assert(spec_data_sets_from(spec_elems(es@)) == Some(vviews(out@))) by {
            assert(Seq::new(
                spec_elems(es@).len(),
                |j: int| spec_data_set_from(spec_elems(es@)[j]).unwrap(),
            ) =~= vviews(out@));
        }
    }
    Some(out)
}

pub open spec fn spec_opt_data_set_json(o: Option<DataSetV>) -> JVal {
    match o {
        None => JVal::Null,
        Some(x) => spec_data_set_json(x),
    }
}

pub open spec fn spec_field_opt_data_set(
    fields: Seq<(Seq<char>, JVal)>,
    key: Seq<char>,
) -> Result<Option<DataSetV>, ()> {
    match spec_lookup(fields, key) {
        None => Ok(None),
        Some(j) => match j {
            JVal::Null => Ok(None),
            _ => match spec_data_set_from(j) {
                Some(t) => Ok(Some(t)),
                None => Err(()),
            },
        },
    }
}

/// Metadata the query endpoint reports for one result column.
#[derive(Debug, PartialEq, Eq)]
pub struct QueryMetadata {
    pub column_type: Option<String>,
    pub datasource_id: Option<String>,
    pub max_length: Option<i32>,
    pub min_length: Option<i32>,
    pub period_index: Option<u32>,
}

#[verifier::ext_equal]
pub struct QueryMetadataV {
    pub column_type: Option<Seq<char>>,
    pub datasource_id: Option<Seq<char>>,
    pub max_length: Option<i32>,
    pub min_length: Option<i32>,
    pub period_index: Option<u32>,
}

impl View for QueryMetadata {
    type V = QueryMetadataV;

    open spec fn view(&self) -> QueryMetadataV {
        QueryMetadataV {
            column_type: ostr(self.column_type),
            datasource_id: ostr(self.datasource_id),
            max_length: self.max_length,
            min_length: self.min_length,
            period_index: self.period_index,
        }
    }
}

pub open spec fn spec_query_metadata_json(v: QueryMetadataV) -> JVal {
    JVal::Obj(
        seq![
            ("type"@, spec_j_opt_str(v.column_type)),
            ("datasourceId"@, spec_j_opt_str(v.datasource_id)),
            ("maxLength"@, spec_j_opt_num_i32(v.max_length)),
            ("minLength"@, spec_j_opt_num_i32(v.min_length)),
            ("periodIndex"@, spec_j_opt_num32(v.period_index)),
        ],
    )
}

pub open spec fn spec_query_metadata_from(j: JVal) -> Option<QueryMetadataV> {
    match j {
        JVal::Obj(fields) => {
            let column_type = spec_field_opt_str(fields, "type"@);
            let datasource_id = spec_field_opt_str(fields, "datasourceId"@);
            let max_length = spec_field_opt_i32(fields, "maxLength"@);
            let min_length = spec_field_opt_i32(fields, "minLength"@);
            let period_index = spec_field_opt_u32(fields, "periodIndex"@);
            if column_type is Err || datasource_id is Err || max_length is Err || min_length is Err || period_index is Err {
                None
            } else {
                Some(
                    QueryMetadataV {
                        column_type: column_type->Ok_0,
                        datasource_id: datasource_id->Ok_0,
                        max_length: max_length->Ok_0,
                        min_length: min_length->Ok_0,
                        period_index: period_index->Ok_0,
                    },
                )
            }
        },
        _ => None,
    }
}

impl QueryMetadata {
    /// The record as a JSON document, with its wire field names; an unset
    /// field is sent as `null`.
    #[verifier::rlimit(100)]
    pub fn to_json(&self) -> (r: JsonValue)
        ensures
            r@ == spec_query_metadata_json(self@),
    {
        let mut f: Vec<(String, JsonValue)> = Vec::new();
        put_field(&mut f, "type", j_opt_string(&self.column_type));
        put_field(&mut f, "datasourceId", j_opt_string(&self.datasource_id));
        put_field(&mut f, "maxLength", j_opt_i32(&self.max_length));
        put_field(&mut f, "minLength", j_opt_i32(&self.min_length));
        put_field(&mut f, "periodIndex", j_opt_u32(&self.period_index));
        let r = JsonValue::Obj(f);
        proof {
            broadcast use lemma_jview_obj;

            assert(jview(r) == JVal::Obj(spec_fields(r->Obj_0@)));
            assert(spec_fields(r->Obj_0@) =~= spec_query_metadata_json(self@)->Obj_0);
        }
        r
    }

    /// The record a well-formed body decodes to; `None` when a present
    /// field has the wrong shape.
    pub fn from_json(v: &JsonValue) -> (r: Option<QueryMetadata>)
        ensures
            match r {
                Some(x) => spec_query_metadata_from(v@) == Some(x@),
                None => spec_query_metadata_from(v@) is None,
            },
    {
        proof {
            broadcast use lemma_jview_obj;
            broadcast use lemma_jview_arr;

        }
        match v {
            JsonValue::Obj(fields) => {
                let column_type = match field_opt_string(fields, "type") {
                    Ok(x) => x,
                    Err(_) => {
                        return None;
                    },
                };
                let datasource_id = match field_opt_string(fields, "datasourceId") {
                    Ok(x) => x,
                    Err(_) => {
                        return None;
                    },
                };
                let max_length = match field_opt_i32(fields, "maxLength") {
                    Ok(x) => x,
                    Err(_) => {
                        return None;
                    },
                };
                let min_length = match field_opt_i32(fields, "minLength") {
                    Ok(x) => x,
                    Err(_) => {
                        return None;
                    },
                };
                let period_index = match field_opt_u32(fields, "periodIndex") {
                    Ok(x) => x,
                    Err(_) => {
                        return None;
                    },
                };
                Some(QueryMetadata { column_type, datasource_id, max_length, min_length, period_index })
            },
            _ => None,
        }
    }
}

/// Decoding an encoded record gives back the same record.
#[verifier::rlimit(100)]
pub proof fn lemma_query_metadata_roundtrip(g: QueryMetadataV)
    ensures
        spec_query_metadata_from(spec_query_metadata_json(g)) == Some(g),
{
    reveal_strlit("type");
    reveal_strlit("datasourceId");
    reveal_strlit("maxLength");
    reveal_strlit("minLength");
    reveal_strlit("periodIndex");
    reveal_with_fuel(spec_lookup, 7);
    assert("type"@.len() == 4);
    assert("datasourceId"@.len() == 12);
    assert("maxLength"@.len() == 9);
    assert("minLength"@.len() == 9);
    assert("periodIndex"@.len() == 11);
    assert("maxLength"@[1] == 'a');
    assert("minLength"@[1] == 'i');
    assert("maxLength"@ != "minLength"@);
    assert(spec_query_metadata_from(spec_query_metadata_json(g)) matches Some(h) && h =~= g);
}

/// A field absent from a decoded body stays unset or takes its default.
pub proof fn lemma_query_metadata_absent_fields()
    ensures
        spec_query_metadata_from(JVal::Obj(Seq::empty())) == Some(
            QueryMetadataV {
                column_type: None,
                datasource_id: None,
                max_length: None,
                min_length: None,
                period_index: None,
            },
        ),
{
    reveal_with_fuel(spec_lookup, 2);
}

/// The encoded form of a list of these records.
pub open spec fn spec_query_metadatas_json(s: Seq<QueryMetadataV>) -> Seq<JVal> {
    Seq::new(s.len(), |i: int| spec_query_metadata_json(s[i]))
}

pub open spec fn spec_opt_query_metadatas_json(o: Option<Seq<QueryMetadataV>>) -> JVal {
    match o {
        None => JVal::Null,
        Some(s) => JVal::Arr(spec_query_metadatas_json(s)),
    }
}

/// The decoding of a list of these records: every element must decode.
pub open spec fn spec_query_metadatas_from(es: Seq<JVal>) -> Option<Seq<QueryMetadataV>> {
    if forall|i: int| 0 <= i < es.len() ==> (#[trigger] spec_query_metadata_from(es[i])) is Some {
        Some(Seq::new(es.len(), |i: int| spec_query_metadata_from(es[i]).unwrap()))
    } else {
        None
    }
}

pub open spec fn spec_field_opt_query_metadatas(
    fields: Seq<(Seq<char>, JVal)>,
    key: Seq<char>,
) -> Result<Option<Seq<QueryMetadataV>>, ()> {
    match spec_lookup(fields, key) {
        None => Ok(None),
        Some(j) => match j {
            JVal::Null => Ok(None),
            JVal::Arr(es) => match spec_query_metadatas_from(es) {
                Some(s) => Ok(Some(s)),
                None => Err(()),
            },
            _ => Err(()),
        },
    }
}

pub fn query_metadata_list_to_json(v: &Vec<QueryMetadata>) -> (r: JsonValue)
    ensures
        r@ == JVal::Arr(spec_query_metadatas_json(vviews(v@))),
{
    let mut a: Vec<JsonValue> = Vec::new();
    let mut i: usize = 0;
    while i < v.len()
        invariant
            i <= v.len(),
            a@.len() == i as int,
            forall|j: int| 0 <= j < i ==> jview(#[trigger] a@[j]) == spec_query_metadata_json(v@[j]@),
        decreases v.len() - i,
    {
        a.push(v[i].to_json());
        i = i + 1;
    }
    let r = JsonValue::Arr(a);
    proof {
        broadcast use lemma_jview_arr;

        assert forall|j: int| 0 <= j < v@.len() implies spec_elems(r->Arr_0@)[j]
            == spec_query_metadata_json(vviews(v@)[j]) by {
            assert(spec_elems(r->Arr_0@)[j] == jview(r->Arr_0@[j]));
        }
        assert(spec_elems(r->Arr_0@) =~= spec_query_metadatas_json(vviews(v@)));
    }
    r
}

#[verifier::loop_isolation(false)]
pub fn query_metadata_list_from_json(es: &Vec<JsonValue>) -> (r: Option<Vec<QueryMetadata>>)
    ensures
        match r {
            Some(v) => spec_query_metadatas_from(spec_elems(es@)) == Some(vviews(v@)),
            None => spec_query_metadatas_from(spec_elems(es@)) is None,
        },
{
    let mut out: Vec<QueryMetadata> = Vec::new();
    let mut i: usize = 0;
    while i < es.len()
        invariant
            i <= es.len(),
            out@.len() == i as int,
            forall|j: int|
                0 <= j < i ==> spec_query_metadata_from(#[trigger] spec_elems(es@)[j]) == Some(
                    out@[j]@,
                ),
        decreases es.len() - i,
    {
        proof {
            assert(spec_elems(es@)[i as int] == jview(es@[i as int]));
        }
        match QueryMetadata::from_json(&es[i]) {
            Some(x) => out.push(x),
            None => {
                proof {
                    assert(spec_query_metadata_from(spec_elems(es@)[i as int]) is None);
                }
                return None;
            },
        }
        i = i + 1;
    }
    proof {
        assert(spec_query_metadatas_from(spec_elems(es@)) == Some(vviews(out@))) by {
            assert(Seq::new(
                spec_elems(es@).len(),
                |j: int| spec_query_metadata_from(spec_elems(es@)[j]).unwrap(),
            ) =~= vviews(out@));
        }
    }
    Some(out)
}

pub open spec fn spec_opt_query_metadata_json(o: Option<QueryMetadataV>) -> JVal {
    match o {
        None => JVal::Null,
        Some(x) => spec_query_metadata_json(x),
    }
}

pub open spec fn spec_field_opt_query_metadata(
    fields: Seq<(Seq<char>, JVal)>,
    key: Seq<char>,
) -> Result<Option<QueryMetadataV>, ()> {
    match spec_lookup(fields, key) {
        None => Ok(None),
        Some(j) => match j {
            JVal::Null => Ok(None),
            _ => match spec_query_metadata_from(j) {
                Some(t) => Ok(Some(t)),
                None => Err(()),
            },
        },
    }
}

/// The rows of a query result: each cell is a raw JSON scalar, since the
/// server types cells per column.
pub open spec fn spec_rows_view(o: Option<Vec<Vec<JsonValue>>>) -> Option<Seq<Seq<JVal>>> {
    match o {
        None => None,
        Some(v) => Some(Seq::new(v@.len(), |i: int| spec_elems(v@[i]@))),
    }
}

pub open spec fn spec_rows_json(rs: Seq<Seq<JVal>>) -> JVal {
    JVal::Arr(Seq::new(rs.len(), |i: int| JVal::Arr(rs[i])))
}

/// The decoding of the row matrix: an array of arrays of raw cells.
pub open spec fn spec_rows_from(es: Seq<JVal>) -> Option<Seq<Seq<JVal>>> {
    if forall|i: int| 0 <= i < es.len() ==> ((#[trigger] es[i]) matches JVal::Arr(cells)) {
        Some(Seq::new(es.len(), |i: int| es[i]->Arr_0))
    } else {
        None
    }
}

/// The result of a server-side SQL query: the column names, per-column
/// metadata, and the loosely typed row data.
#[derive(Debug, PartialEq, Eq)]
pub struct QueryResult {
    pub datasource: Option<String>,
    pub columns: Option<Vec<String>>,
    pub metadata: Option<Vec<QueryMetadata>>,
    pub rows: Option<Vec<Vec<JsonValue>>>,
    pub num_rows: Option<u64>,
    pub num_columns: Option<u32>,
    pub from_cache: Option<bool>,
}

#[verifier::ext_equal]
pub struct QueryResultV {
    pub datasource: Option<Seq<char>>,
    pub columns: Option<Seq<Seq<char>>>,
    pub metadata: Option<Seq<QueryMetadataV>>,
    pub rows: Option<Seq<Seq<JVal>>>,
    pub num_rows: Option<u64>,
    pub num_columns: Option<u32>,
    pub from_cache: Option<bool>,
}

impl View for QueryResult {
    type V = QueryResultV;

    open spec fn view(&self) -> QueryResultV {
        QueryResultV {
            datasource: ostr(self.datasource),
            columns: ostrs(self.columns),
            metadata: ovviews(self.metadata),
            rows: spec_rows_view(self.rows),
            num_rows: self.num_rows,
            num_columns: self.num_columns,
            from_cache: self.from_cache,
        }
    }
}

pub open spec fn spec_query_result_from(j: JVal) -> Option<QueryResultV> {
    match j {
        JVal::Obj(fields) => {
            let datasource = spec_field_opt_str(fields, "datasource"@);
            let columns = spec_field_opt_str_arr(fields, "columns"@);
            let metadata = spec_field_opt_query_metadatas(fields, "metadata"@);
            let rows = (match spec_lookup(fields, "rows"@) {
                None => Ok::<Option<Seq<Seq<JVal>>>, ()>(None),
                Some(w) => match w {
                    JVal::Null => Ok(None),
                    JVal::Arr(es) => match spec_rows_from(es) {
                        Some(rs) => Ok(Some(rs)),
                        None => Err(()),
                    },
                    _ => Err(()),
                },
            });
            let num_rows = spec_field_opt_u64(fields, "numRows"@);
            let num_columns = spec_field_opt_u32(fields, "numColumns"@);
            let from_cache = spec_field_opt_bool(fields, "fromCache"@);
            if datasource is Err || columns is Err || metadata is Err || rows is Err
                || num_rows is Err || num_columns is Err || from_cache is Err {
                None
            } else {
                Some(
                    QueryResultV {
                        datasource: datasource->Ok_0,
                        columns: columns->Ok_0,
                        metadata: metadata->Ok_0,
                        rows: rows->Ok_0,
                        num_rows: num_rows->Ok_0,
                        num_columns: num_columns->Ok_0,
                        from_cache: from_cache->Ok_0,
                    },
                )
            }
        },
        _ => None,
    }
}

/// Decodes the row matrix of a query result.
#[verifier::loop_isolation(false)]
fn rows_from_json(es: &Vec<JsonValue>) -> (r: Option<Vec<Vec<JsonValue>>>)
    ensures
        match r {
            Some(v) => spec_rows_from(spec_elems(es@)) == Some(spec_rows_view(Some(v)).unwrap()),
            None => spec_rows_from(spec_elems(es@)) is None,
        },
{
    let mut out: Vec<Vec<JsonValue>> = Vec::new();
    let mut i: usize = 0;
    while i < es.len()
        invariant
            i <= es.len(),
            out@.len() == i as int,
            forall|j: int|
                0 <= j < i ==> ((#[trigger] spec_elems(es@)[j]) matches JVal::Arr(cells)
                    && cells == spec_elems(out@[j]@)),
        decreases es.len() - i,
    {
        proof {
            assert(spec_elems(es@)[i as int] == jview(es@[i as int]));
        }
        match &es[i] {
            JsonValue::Arr(cells) => {
                let mut row: Vec<JsonValue> = Vec::new();
                let mut c: usize = 0;
                while c < cells.len()
                    invariant
                        c <= cells.len(),
                        row@.len() == c as int,
                        forall|k: int|
                            0 <= k < c ==> jview(#[trigger] row@[k]) == jview(cells@[k]),
                    decreases cells.len() - c,
                {
                    row.push(jclone(&cells[c]));
                    c = c + 1;
                }
                proof {
                    broadcast use lemma_jview_arr;

                    assert(spec_elems(row@) =~= spec_elems(cells@));
                    assert(jview(es@[i as int]) == JVal::Arr(spec_elems(cells@)));
                }
                out.push(row);
            },
            _ => {
                return None;
            },
        }
        i = i + 1;
    }
    proof {
        assert(spec_rows_from(spec_elems(es@)) == Some(spec_rows_view(Some(out)).unwrap()))
            by {
            assert(Seq::new(
                spec_elems(es@).len(),
                |j: int| spec_elems(es@)[j]->Arr_0,
            ) =~= Seq::new(out@.len(), |i: int| spec_elems(out@[i]@)));
        }
    }
    Some(out)
}

/// The encoded form of a query result's rows.
fn rows_to_json(rs: &Vec<Vec<JsonValue>>) -> (r: JsonValue)
    ensures
        r@ == spec_rows_json(spec_rows_view(Some(*rs)).unwrap()),
{
    let mut a: Vec<JsonValue> = Vec::new();
    let mut i: usize = 0;
    while i < rs.len()
        invariant
            i <= rs.len(),
            a@.len() == i as int,
            forall|j: int|
                0 <= j < i ==> jview(#[trigger] a@[j]) == JVal::Arr(spec_elems(rs@[j]@)),
        decreases rs.len() - i,
    {
        let row = &rs[i];
        let mut cells: Vec<JsonValue> = Vec::new();
        let mut c: usize = 0;
        while c < row.len()
            invariant
                c <= row.len(),
                cells@.len() == c as int,
                forall|k: int|
                    0 <= k < c ==> jview(#[trigger] cells@[k]) == jview(row@[k]),
            decreases row.len() - c,
        {
            cells.push(jclone(&row[c]));
            c = c + 1;
        }
        let encoded = JsonValue::Arr(cells);
        proof {
            broadcast use lemma_jview_arr;

            assert(spec_elems(encoded->Arr_0@) =~= spec_elems(row@));
        }
        a.push(encoded);
        i = i + 1;
    }
    let r = JsonValue::Arr(a);
    proof {
        broadcast use lemma_jview_arr;

        assert forall|j: int| 0 <= j < rs@.len() implies spec_elems(r->Arr_0@)[j]
            == JVal::Arr(spec_rows_view(Some(*rs)).unwrap()[j]) by {
            assert(spec_elems(r->Arr_0@)[j] == jview(r->Arr_0@[j]));
        }
        assert(spec_elems(r->Arr_0@) =~= spec_rows_json(
            spec_rows_view(Some(*rs)).unwrap(),
        )->Arr_0);
    }
    r
}

pub open spec fn spec_query_result_json(v: QueryResultV) -> JVal {
    JVal::Obj(
        seq![
            ("datasource"@, spec_j_opt_str(v.datasource)),
            ("columns"@, spec_j_opt_str_arr(v.columns)),
            ("metadata"@, spec_opt_query_metadatas_json(v.metadata)),
            (
                "rows"@,
                match v.rows {
                    None => JVal::Null,
                    Some(rs) => spec_rows_json(rs),
                },
            ),
            ("numRows"@, spec_j_opt_num(v.num_rows)),
            ("numColumns"@, spec_j_opt_num32(v.num_columns)),
            ("fromCache"@, spec_j_opt_bool(v.from_cache)),
        ],
    )
}

impl QueryResult {
    /// The query result as a JSON document, with its wire field names.
    #[verifier::rlimit(100)]
    pub fn to_json(&self) -> (r: JsonValue)
        ensures
            r@ == spec_query_result_json(self@),
    {
        let mut f: Vec<(String, JsonValue)> = Vec::new();
        put_field(&mut f, "datasource", j_opt_string(&self.datasource));
        put_field(&mut f, "columns", j_opt_str_arr(&self.columns));
        let metadata_json = match &self.metadata {
            None => JsonValue::Null,
            Some(x) => query_metadata_list_to_json(x),
        };
        put_field(&mut f, "metadata", metadata_json);
        let rows_json = match &self.rows {
            None => JsonValue::Null,
            Some(rs) => rows_to_json(rs),
        };
        put_field(&mut f, "rows", rows_json);
        put_field(&mut f, "numRows", j_opt_u64(&self.num_rows));
        put_field(&mut f, "numColumns", j_opt_u32(&self.num_columns));
        put_field(&mut f, "fromCache", j_opt_bool(&self.from_cache));
        let r = JsonValue::Obj(f);
        proof {
            broadcast use lemma_jview_obj;

            assert(jview(r) == JVal::Obj(spec_fields(r->Obj_0@)));
            assert(spec_fields(r->Obj_0@) =~= spec_query_result_json(self@)->Obj_0);
        }
        r
    }

    /// The query result a well-formed body decodes to.
    pub fn from_json(v: &JsonValue) -> (r: Option<QueryResult>)
        ensures
            match r {
                Some(x) => spec_query_result_from(v@) == Some(x@),
                None => spec_query_result_from(v@) is None,
            },
    {
        proof {
            broadcast use lemma_jview_obj;
            broadcast use lemma_jview_arr;

        }
        match v {
            JsonValue::Obj(fields) => {
                let datasource = match field_opt_string(fields, "datasource") {
                    Ok(x) => x,
                    Err(_) => {
                        return None;
                    },
                };
                let columns = match field_opt_str_arr(fields, "columns") {
                    Ok(x) => x,
                    Err(_) => {
                        return None;
                    },
                };
                let metadata = match jlookup(fields, "metadata") {
                    None => None,
                    Some(w) => match w {
                        JsonValue::Null => None,
                        JsonValue::Arr(es) => match query_metadata_list_from_json(es) {
                            Some(x) => Some(x),
                            None => {
                                return None;
                            },
                        },
                        _ => {
                            return None;
                        },
                    },
                };
                let rows = match jlookup(fields, "rows") {
                    None => None,
                    Some(w) => match w {
                        JsonValue::Null => None,
                        JsonValue::Arr(es) => match rows_from_json(es) {
                            Some(x) => Some(x),
                            None => {
                                return None;
                            },
                        },
                        _ => {
                            return None;
                        },
                    },
                };
                let num_rows = match field_opt_u64(fields, "numRows") {
                    Ok(x) => x,
                    Err(_) => {
                        return None;
                    },
                };
                let num_columns = match field_opt_u32(fields, "numColumns") {
                    Ok(x) => x,
                    Err(_) => {
                        return None;
                    },
                };
                let from_cache = match field_opt_bool(fields, "fromCache") {
                    Ok(x) => x,
                    Err(_) => {
                        return None;
                    },
                };
                Some(
                    QueryResult {
                        datasource,
                        columns,
                        metadata,
                        rows,
                        num_rows,
                        num_columns,
                        from_cache,
                    },
                )
            },
            _ => None,
        }
    }
}


/// Decoding an encoded query result gives back the same result.
#[verifier::rlimit(100)]
pub proof fn lemma_query_result_roundtrip(g: QueryResultV)
    ensures
        spec_query_result_from(spec_query_result_json(g)) == Some(g),
{
    reveal_strlit("datasource");
    reveal_strlit("columns");
    reveal_strlit("metadata");
    reveal_strlit("rows");
    reveal_strlit("numRows");
    reveal_strlit("numColumns");
    reveal_strlit("fromCache");
    reveal_with_fuel(spec_lookup, 9);
    assert("datasource"@.len() == 10);
    assert("columns"@.len() == 7);
    assert("metadata"@.len() == 8);
    assert("rows"@.len() == 4);
    assert("numRows"@.len() == 7);
    assert("numColumns"@.len() == 10);
    assert("fromCache"@.len() == 9);
    assert("columns"@[0] == 'c');
    assert("numRows"@[0] == 'n');
    assert("columns"@ != "numRows"@);
    assert("datasource"@[0] == 'd');
    assert("numColumns"@[0] == 'n');
    assert("datasource"@ != "numColumns"@);
    if g.metadata is Some {
        let s = g.metadata.unwrap();
        assert forall|i: int| 0 <= i < s.len() implies spec_query_metadata_from(
            #[trigger] spec_query_metadatas_json(s)[i],
        ) == Some(s[i]) by {
            lemma_query_metadata_roundtrip(s[i]);
        }
        assert(spec_query_metadatas_from(spec_query_metadatas_json(s)) == Some(s)) by {
            assert(Seq::new(
                spec_query_metadatas_json(s).len(),
                |i: int| spec_query_metadata_from(spec_query_metadatas_json(s)[i]).unwrap(),
            ) =~= s);
        }
    }
    if g.rows is Some {
        let rs = g.rows.unwrap();
        assert(spec_rows_from(spec_rows_json(rs)->Arr_0) == Some(rs)) by {
            assert(Seq::new(
                spec_rows_json(rs)->Arr_0.len(),
                |i: int| spec_rows_json(rs)->Arr_0[i]->Arr_0,
            ) =~= rs);
        }
    }
    assert(spec_query_result_from(spec_query_result_json(g)) matches Some(h) && h =~= g);
}

/// The placeholder policy the template constructor builds: one example
/// filter, one user and one group.
pub open spec fn spec_policy_template() -> PolicyV {
    PolicyV {
        id: Some(0u32),
        name: Some("Policy Name"@),
        policy_type: Some("user | system"@),
        filters: Some(
            seq![
                FilterV {
                    column: Some("Column to filter on"@),
                    not: Some(false),
                    operator: Some("EQUALS"@),
                    values: seq!["values in this column that match will apply"@],
                },
            ],
        ),
        users: Some(seq![27u64]),
        groups: Some(seq!["15"@]),
    }
}

/// The placeholder dataset the template constructor builds: one example
/// column, the seeded policy template, and a fixed placeholder instant for
/// the timestamps.
pub open spec fn spec_data_set_template() -> DataSetV {
    DataSetV {
        id: Some("UUID"@),
        name: Some("DataSet Name"@),
        description: Some("DataSet Description"@),
        owner: Some(OwnerV { id: 1234u32, name: Some("DataSet Owner's Name"@) }),
        created_at: Some("1970-01-01T00:00:00Z"@),
        updated_at: Some("1970-01-01T00:00:00Z"@),
        data_current_at: Some("1970-01-01T00:00:00Z"@),
        schema: Some(
            SchemaV {
                columns: Some(
                    seq![
                        ColumnV {
                            name: Some("Column Name"@),
                            column_type: Some(
                                "STRING | DECIMAL | LONG | DOUBLE | DATE | DATETIME"@,
                            ),
                        },
                    ],
                ),
            },
        ),
        pdp_enabled: Some(false),
        policies: Some(seq![spec_policy_template()]),
        rows: Some(0u64),
        columns: Some(0u32),
    }
}

impl DataSet {
    /// A dataset record with every field unset.
    pub fn new() -> (r: Self)
        ensures
            r@ == (DataSetV {
                id: None,
                name: None,
                description: None,
                owner: None,
                created_at: None,
                updated_at: None,
                data_current_at: None,
                schema: None,
                pdp_enabled: None,
                policies: None,
                rows: None,
                columns: None,
            }),
    {
        DataSet {
            id: None,
            name: None,
            description: None,
            owner: None,
            created_at: None,
            updated_at: None,
            data_current_at: None,
            schema: None,
            pdp_enabled: None,
            policies: None,
            rows: None,
            columns: None,
        }
    }

    /// A placeholder dataset for seeding an interactive edit buffer. The
    /// timestamps hold a fixed placeholder instant.
    pub fn template() -> (r: Self)
        ensures
            r@ == spec_data_set_template(),
    {
        let mut columns: Vec<Column> = Vec::new();
        columns.push(
            Column {
                name: Some("Column Name".to_owned()),
                column_type: Some("STRING | DECIMAL | LONG | DOUBLE | DATE | DATETIME".to_owned()),
            },
        );
        let mut policies: Vec<Policy> = Vec::new();
        policies.push(Policy::template());
        let r = DataSet {
            id: Some("UUID".to_owned()),
            name: Some("DataSet Name".to_owned()),
            description: Some("DataSet Description".to_owned()),
            owner: Some(Owner { id: 1234, name: Some("DataSet Owner's Name".to_owned()) }),
            created_at: Some("1970-01-01T00:00:00Z".to_owned()),
            updated_at: Some("1970-01-01T00:00:00Z".to_owned()),
            data_current_at: Some("1970-01-01T00:00:00Z".to_owned()),
            schema: Some(Schema { columns: Some(columns) }),
            pdp_enabled: Some(false),
            policies: Some(policies),
            rows: Some(0),
            columns: Some(0),
        };
        proof {
            assert(r@ =~~= spec_data_set_template());
        }
        r
    }
}

impl Policy {
    /// A policy with every field unset.
    pub fn new() -> (r: Self)
        ensures
            r@ == (PolicyV {
                id: None,
                name: None,
                policy_type: None,
                filters: None,
                users: None,
                groups: None,
            }),
    {
        Policy { id: None, name: None, policy_type: None, filters: None, users: None, groups: None }
    }

    /// A placeholder policy for seeding an interactive edit buffer.
    pub fn template() -> (r: Self)
        ensures
            r@ == spec_policy_template(),
    {
        let mut filters: Vec<Filter> = Vec::new();
        let mut values: Vec<String> = Vec::new();
        values.push("values in this column that match will apply".to_owned());
        filters.push(
            Filter {
                column: Some("Column to filter on".to_owned()),
                not: Some(false),
                operator: Some("EQUALS".to_owned()),
                values,
            },
        );
        let mut users: Vec<u64> = Vec::new();
        users.push(27);
        let mut groups: Vec<String> = Vec::new();
        groups.push("15".to_owned());
        let r = Policy {
            id: Some(0),
            name: Some("Policy Name".to_owned()),
            policy_type: Some("user | system".to_owned()),
            filters: Some(filters),
            users: Some(users),
            groups: Some(groups),
        };
        proof {
            assert(r@ =~~= spec_policy_template());
        }
        r
    }
}


impl Client {
    /// The request for a page of datasets, with optional paging parameters.
    pub fn get_datasets(&self, limit: Option<u32>, offset: Option<u32>) -> (r: ApiRequest)
        ensures
            r@.method == Method::Get,
            r@.url == self@.host + "/v1/datasets"@,
            r@.scope == "data"@,
            r@.body is None,
            r@.query == crate::public::spec_paging_query(limit, offset),
    {
        let mut r = ApiRequest::new(
            Method::Get,
            str_concat(self.host.as_str(), "/v1/datasets"),
            "data",
        );
        r.query = crate::public::paging_query(limit, offset);
        r
    }

    /// The request that creates a dataset from the given record.
    pub fn post_dataset(&self, ds: DataSet) -> (r: ApiRequest)
        ensures
            r@.method == Method::Post,
            r@.url == self@.host + "/v1/datasets"@,
            r@.scope == "data"@,
            r@.query == Seq::<(Seq<char>, Seq<char>)>::empty(),
            r@.body == Some(ReqBodyV::Json(spec_data_set_json(ds@))),
    {
        let mut r = ApiRequest::new(
            Method::Post,
            str_concat(self.host.as_str(), "/v1/datasets"),
            "data",
        );
        r.body = Some(ReqBody::Json(ds.to_json()));
        r
    }

    /// The request for one dataset by id.
    pub fn get_dataset(&self, id: &str) -> (r: ApiRequest)
        ensures
            r@.method == Method::Get,
            r@.url == self@.host + "/v1/datasets/"@ + id@,
            r@.scope == "data"@,
            r@.query == Seq::<(Seq<char>, Seq<char>)>::empty(),
            r@.body is None,
    {
        let mut url = str_concat(self.host.as_str(), "/v1/datasets/");
        url.append(id);
        ApiRequest::new(Method::Get, url, "data")
    }

    /// The request that updates a dataset's metadata by id.
    pub fn put_dataset(&self, id: &str, ds: DataSet) -> (r: ApiRequest)
        ensures
            r@.method == Method::Put,
            r@.url == self@.host + "/v1/datasets/"@ + id@,
            r@.scope == "data"@,
            r@.query == Seq::<(Seq<char>, Seq<char>)>::empty(),
            r@.body == Some(ReqBodyV::Json(spec_data_set_json(ds@))),
    {
        let mut url = str_concat(self.host.as_str(), "/v1/datasets/");
        url.append(id);
        let mut r = ApiRequest::new(Method::Put, url, "data");
        r.body = Some(ReqBody::Json(ds.to_json()));
        r
    }

    /// The request that deletes a dataset by id.
    pub fn delete_dataset(&self, id: &str) -> (r: ApiRequest)
        ensures
            r@.method == Method::Delete,
            r@.url == self@.host + "/v1/datasets/"@ + id@,
            r@.scope == "data"@,
            r@.query == Seq::<(Seq<char>, Seq<char>)>::empty(),
            r@.body is None,
    {
        let mut url = str_concat(self.host.as_str(), "/v1/datasets/");
        url.append(id);
        ApiRequest::new(Method::Delete, url, "data")
    }

    /// The request that exports a dataset's data as CSV text with a header
    /// row.
    pub fn get_dataset_data(&self, id: &str) -> (r: ApiRequest)
        ensures
            r@.method == Method::Get,
            r@.url == self@.host + "/v1/datasets/"@ + id@ + "/data"@,
            r@.scope == "data"@,
            r@.query == seq![("includeHeader"@, "true"@)],
            r@.body is None,
    {
        let mut url = str_concat(self.host.as_str(), "/v1/datasets/");
        url.append(id);
        url.append("/data");
        let mut r = ApiRequest::new(Method::Get, url, "data");
        let mut q: Vec<(String, String)> = Vec::new();
        q.push(("includeHeader".to_owned(), "true".to_owned()));
        r.query = q;
        proof {
            assert(crate::json::views_of_pairs(r.query@) =~= seq![("includeHeader"@, "true"@)]);
        }
        r
    }

    /// The request that replaces a dataset's entire data content with the
    /// given CSV text.
    pub fn put_dataset_data(&self, id: &str, csv: String) -> (r: ApiRequest)
        ensures
            r@.method == Method::Put,
            r@.url == self@.host + "/v1/datasets/"@ + id@ + "/data"@,
            r@.scope == "data"@,
            r@.query == Seq::<(Seq<char>, Seq<char>)>::empty(),
            r@.body == Some(ReqBodyV::Csv(csv@)),
    {
        let mut url = str_concat(self.host.as_str(), "/v1/datasets/");
        url.append(id);
        url.append("/data");
        let mut r = ApiRequest::new(Method::Put, url, "data");
        r.body = Some(ReqBody::Csv(csv));
        r
    }

    /// The request that runs a SQL query against a dataset; the body wraps
    /// the statement under a `sql` field.
    pub fn post_dataset_query(&self, id: &str, query: &str) -> (r: ApiRequest)
        ensures
            r@.method == Method::Post,
            r@.url == self@.host + "/v1/datasets/query/execute/"@ + id@,
            r@.scope == "data"@,
            r@.query == Seq::<(Seq<char>, Seq<char>)>::empty(),
            r@.body == Some(ReqBodyV::Json(JVal::Obj(seq![("sql"@, JVal::Str(query@))]))),
    {
        let mut url = str_concat(self.host.as_str(), "/v1/datasets/query/execute/");
        url.append(id);
        let mut r = ApiRequest::new(Method::Post, url, "data");
        let mut f: Vec<(String, JsonValue)> = Vec::new();
        put_field(&mut f, "sql", JsonValue::Str(query.to_owned()));
        let body = JsonValue::Obj(f);
        proof {
            broadcast use lemma_jview_obj;

            assert(jview(body) == JVal::Obj(spec_fields(body->Obj_0@)));
            assert(spec_fields(body->Obj_0@) =~= seq![("sql"@, JVal::Str(query@))]);
        }
        r.body = Some(ReqBody::Json(body));
        r
    }

    /// The request for a dataset's access policies.
    pub fn get_dataset_policies(&self, id: &str) -> (r: ApiRequest)
        ensures
            r@.method == Method::Get,
            r@.url == self@.host + "/v1/datasets/"@ + id@ + "/policies"@,
            r@.scope == "data"@,
            r@.query == Seq::<(Seq<char>, Seq<char>)>::empty(),
            r@.body is None,
    {
        let mut url = str_concat(self.host.as_str(), "/v1/datasets/");
        url.append(id);
        url.append("/policies");
        ApiRequest::new(Method::Get, url, "data")
    }

    /// The request that creates an access policy on a dataset.
    pub fn post_dataset_policy(&self, id: &str, policy: Policy) -> (r: ApiRequest)
        ensures
            r@.method == Method::Post,
            r@.url == self@.host + "/v1/datasets/"@ + id@ + "/policies"@,
            r@.scope == "data"@,
            r@.query == Seq::<(Seq<char>, Seq<char>)>::empty(),
            r@.body == Some(ReqBodyV::Json(spec_policy_json(policy@))),
    {
        let mut url = str_concat(self.host.as_str(), "/v1/datasets/");
        url.append(id);
        url.append("/policies");
        let mut r = ApiRequest::new(Method::Post, url, "data");
        r.body = Some(ReqBody::Json(policy.to_json()));
        r
    }

    /// The request for one access policy of a dataset.
    pub fn get_dataset_policy(&self, id: &str, policy_id: u32) -> (r: ApiRequest)
        ensures
            r@.method == Method::Get,
            r@.url == self@.host + "/v1/datasets/"@ + id@ + "/policies/"@
                + crate::strutil::spec_u64_chars(policy_id as int),
            r@.scope == "data"@,
            r@.query == Seq::<(Seq<char>, Seq<char>)>::empty(),
            r@.body is None,
    {
        let mut url = str_concat(self.host.as_str(), "/v1/datasets/");
        url.append(id);
        url.append("/policies/");
        url.append(u32_string(policy_id).as_str());
        ApiRequest::new(Method::Get, url, "data")
    }

    /// The request that updates one access policy of a dataset.
    pub fn put_dataset_policy(&self, id: &str, policy_id: u32, policy: Policy) -> (r:
        ApiRequest)
        ensures
            r@.method == Method::Put,
            r@.url == self@.host + "/v1/datasets/"@ + id@ + "/policies/"@
                + crate::strutil::spec_u64_chars(policy_id as int),
            r@.scope == "data"@,
            r@.query == Seq::<(Seq<char>, Seq<char>)>::empty(),
            r@.body == Some(ReqBodyV::Json(spec_policy_json(policy@))),
    {
        let mut url = str_concat(self.host.as_str(), "/v1/datasets/");
        url.append(id);
        url.append("/policies/");
        url.append(u32_string(policy_id).as_str());
        let mut r = ApiRequest::new(Method::Put, url, "data");
        r.body = Some(ReqBody::Json(policy.to_json()));
        r
    }

    /// The request that deletes one access policy of a dataset.
    pub fn delete_dataset_policy(&self, id: &str, policy_id: u32) -> (r: ApiRequest)
        ensures
            r@.method == Method::Delete,
            r@.url == self@.host + "/v1/datasets/"@ + id@ + "/policies/"@
                + crate::strutil::spec_u64_chars(policy_id as int),
            r@.scope == "data"@,
            r@.query == Seq::<(Seq<char>, Seq<char>)>::empty(),
            r@.body is None,
    {
        let mut url = str_concat(self.host.as_str(), "/v1/datasets/");
        url.append(id);
        url.append("/policies/");
        url.append(u32_string(policy_id).as_str());
        ApiRequest::new(Method::Delete, url, "data")
    }
}


/// Maps a response holding one record of this resource.
pub fn dataset_response(status: u16, body: &str) -> (r: Result<DataSet, DomoError>)
    ensures
        match r {
            Ok(x) => spec_check_response(status, body@) matches Ok(j) && spec_data_set_from(j)
                == Some(x@),
            Err(e) => match spec_check_response(status, body@) {
                Ok(j) => spec_data_set_from(j) is None && e@ == (DomoErrorV::Malformed {
                    status,
                }),
                Err(e2) => e@ == e2,
            },
        },
{
    match check_response(status, body) {
        Err(e) => Err(e),
        Ok(v) => match DataSet::from_json(&v) {
            Some(x) => Ok(x),
            None => Err(DomoError::Malformed { status }),
        },
    }
}

/// Maps a response holding a list of records of this resource.
pub fn datasets_response(status: u16, body: &str) -> (r: Result<Vec<DataSet>, DomoError>)
    ensures
        match r {
            Ok(xs) => spec_check_response(status, body@) matches Ok(j) && j matches JVal::Arr(
                es,
            ) && spec_data_sets_from(es) == Some(vviews(xs@)),
            Err(e) => match spec_check_response(status, body@) {
                Ok(j) => e@ == (DomoErrorV::Malformed { status }) && !(j matches JVal::Arr(
                    es,
                ) && spec_data_sets_from(es) is Some),
                Err(e2) => e@ == e2,
            },
        },
{
    let v = match check_response(status, body) {
        Ok(v) => v,
        Err(e) => {
            return Err(e);
        },
    };
    proof {
        broadcast use lemma_jview_arr;

    }
    match &v {
        JsonValue::Arr(es) => match data_set_list_from_json(es) {
            Some(xs) => Ok(xs),
            None => Err(DomoError::Malformed { status }),
        },
        _ => Err(DomoError::Malformed { status }),
    }
}

/// Maps a response holding one record of this resource.
pub fn policy_response(status: u16, body: &str) -> (r: Result<Policy, DomoError>)
    ensures
        match r {
            Ok(x) => spec_check_response(status, body@) matches Ok(j) && spec_policy_from(j)
                == Some(x@),
            Err(e) => match spec_check_response(status, body@) {
                Ok(j) => spec_policy_from(j) is None && e@ == (DomoErrorV::Malformed {
                    status,
                }),
                Err(e2) => e@ == e2,
            },
        },
{
    match check_response(status, body) {
        Err(e) => Err(e),
        Ok(v) => match Policy::from_json(&v) {
            Some(x) => Ok(x),
            None => Err(DomoError::Malformed { status }),
        },
    }
}

/// Maps a response holding a list of records of this resource.
pub fn policies_response(status: u16, body: &str) -> (r: Result<Vec<Policy>, DomoError>)
    ensures
        match r {
            Ok(xs) => spec_check_response(status, body@) matches Ok(j) && j matches JVal::Arr(
                es,
            ) && spec_policies_from(es) == Some(vviews(xs@)),
            Err(e) => match spec_check_response(status, body@) {
                Ok(j) => e@ == (DomoErrorV::Malformed { status }) && !(j matches JVal::Arr(
                    es,
                ) && spec_policies_from(es) is Some),
                Err(e2) => e@ == e2,
            },
        },
{
    let v = match check_response(status, body) {
        Ok(v) => v,
        Err(e) => {
            return Err(e);
        },
    };
    proof {
        broadcast use lemma_jview_arr;

    }
    match &v {
        JsonValue::Arr(es) => match policy_list_from_json(es) {
            Some(xs) => Ok(xs),
            None => Err(DomoError::Malformed { status }),
        },
        _ => Err(DomoError::Malformed { status }),
    }
}

/// The text of one query cell, as the rendered table shows it: strings
/// verbatim, integers in decimal, any other number by its lexeme, and the
/// empty field for anything else.
pub open spec fn spec_cell_text(c: JVal) -> Seq<char> {
    match c {
        JVal::Str(t) => t,
        JVal::Num(n) => crate::strutil::spec_i64_chars(n),
        JVal::NumText(t) => t,
        _ => Seq::empty(),
    }
}

/// The rendered table of a query result: the column names, and one text per
/// cell, row by row in order.
pub fn query_cells(q: &QueryResult) -> (r: (Vec<String>, Vec<Vec<String>>))
    ensures
        views_of_strings(r.0@) == (match q@.columns {
            Some(cs) => cs,
            None => Seq::<Seq<char>>::empty(),
        }),
        r.1@.len() == (match q@.rows {
            Some(rs) => rs.len() as int,
            None => 0int,
        }),
        forall|i: int|
            0 <= i < r.1@.len() ==> (#[trigger] r.1@[i])@.len() == q@.rows.unwrap()[i].len(),
        forall|i: int, k: int|
            0 <= i < r.1@.len() && 0 <= k < r.1@[i]@.len() ==> (#[trigger] r.1@[i]@[k])@
                == spec_cell_text(q@.rows.unwrap()[i][k]),
{
    let columns: Vec<String> = match &q.columns {
        None => {
            let empty: Vec<String> = Vec::new();
            proof {
                assert(views_of_strings(empty@) =~= Seq::<Seq<char>>::empty());
            }
            empty
        },
        Some(cs) => {
            let mut out: Vec<String> = Vec::new();
            let mut i: usize = 0;
            while i < cs.len()
                invariant
                    i <= cs.len(),
                    out@.len() == i as int,
                    forall|j: int| 0 <= j < i ==> (#[trigger] out@[j])@ == cs@[j]@,
                decreases cs.len() - i,
            {
                out.push(cs[i].clone());
                i = i + 1;
            }
            proof {
                assert(views_of_strings(out@) =~= views_of_strings(cs@));
            }
            out
        },
    };
    let rows_out: Vec<Vec<String>> = match &q.rows {
        None => Vec::new(),
        Some(rows) => {
            let mut out: Vec<Vec<String>> = Vec::new();
            let mut i: usize = 0;
            while i < rows.len()
                invariant
                    i <= rows.len(),
                    out@.len() == i as int,
                    forall|ii: int|
                        0 <= ii < i ==> (#[trigger] out@[ii])@.len() == spec_elems(
                            rows@[ii]@,
                        ).len(),
                    forall|ii: int, k: int|
                        0 <= ii < i && 0 <= k < out@[ii]@.len() ==> (#[trigger] out@[ii]@[k])@
                            == spec_cell_text(spec_elems(rows@[ii]@)[k]),
                decreases rows.len() - i,
            {
                let row = &rows[i];
                let mut cells: Vec<String> = Vec::new();
                let mut k: usize = 0;
                while k < row.len()
                    invariant
                        k <= row.len(),
                        cells@.len() == k as int,
                        forall|kk: int|
                            0 <= kk < k ==> (#[trigger] cells@[kk])@ == spec_cell_text(
                                spec_elems(row@)[kk],
                            ),
                    decreases row.len() - k,
                {
                    proof {
                        assert(spec_elems(row@)[k as int] == jview(row@[k as int]));
                    }
                    let text = match &row[k] {
                        JsonValue::Str(t) => t.clone(),
                        JsonValue::UInt(n) => crate::strutil::u64_string(*n),
                        JsonValue::Int(n) => crate::strutil::i64_string(*n),
                        JsonValue::NumText(t) => t.clone(),
                        _ => String::new(),
                    };
                    cells.push(text);
                    k = k + 1;
                }
                out.push(cells);
                i = i + 1;
            }
            out
        },
    };
    (columns, rows_out)
}

/// Maps a response holding a query result.
pub fn query_response(status: u16, body: &str) -> (r: Result<QueryResult, DomoError>)
    ensures
        match r {
            Ok(x) => spec_check_response(status, body@) matches Ok(j)
                && spec_query_result_from(j) == Some(x@),
            Err(e) => match spec_check_response(status, body@) {
                Ok(j) => spec_query_result_from(j) is None && e@ == (DomoErrorV::Malformed {
                    status,
                }),
                Err(e2) => e@ == e2,
            },
        },
{
    match check_response(status, body) {
        Err(e) => Err(e),
        Ok(v) => match QueryResult::from_json(&v) {
            Some(x) => Ok(x),
            None => Err(DomoError::Malformed { status }),
        },
    }
}


} // verus!
