//! Streams: the accelerated-upload stream record, its executions, and the
//! stream endpoints.

use crate::json::{
    JVal, JsonValue, field_opt_bool, field_opt_string, field_opt_u32, j_opt_bool,
    j_opt_string, j_opt_u32, jlookup, jview, lemma_jview_arr, lemma_jview_obj, ostr, oview,
    put_field, spec_elems, spec_field_opt_bool, spec_field_opt_str, spec_field_opt_u32,
    spec_fields, spec_j_opt_bool, spec_j_opt_num32, spec_j_opt_str, spec_lookup, vviews,
};
use crate::public::dataset::{
    DataSet, DataSetV, spec_field_opt_data_set,
    spec_opt_data_set_json, lemma_data_set_roundtrip,
};
use crate::public::{
    ApiRequest, Client, DomoError, DomoErrorV, Method, ReqBody, ReqBodyV, check_response,
    spec_check_response,
};
use crate::strutil::str_concat;
use vstd::prelude::*;
use vstd::string::StringExecFns;

verus! {


/// One bounded upload session against a stream, finalized by a commit.
#[derive(Debug, PartialEq, Eq)]
pub struct Execution {
    pub id: Option<u32>,
    pub started_at: Option<String>,
    pub current_state: Option<String>,
    pub created_at: Option<String>,
    pub modified_at: Option<String>,
}

#[verifier::ext_equal]
pub struct ExecutionV {
    pub id: Option<u32>,
    pub started_at: Option<Seq<char>>,
    pub current_state: Option<Seq<char>>,
    pub created_at: Option<Seq<char>>,
    pub modified_at: Option<Seq<char>>,
}

impl View for Execution {
    type V = ExecutionV;

    open spec fn view(&self) -> ExecutionV {
        ExecutionV {
            id: self.id,
            started_at: ostr(self.started_at),
            current_state: ostr(self.current_state),
            created_at: ostr(self.created_at),
            modified_at: ostr(self.modified_at),
        }
    }
}

pub open spec fn spec_execution_json(v: ExecutionV) -> JVal {
    JVal::Obj(
        seq![
            ("id"@, spec_j_opt_num32(v.id)),
            ("startedAt"@, spec_j_opt_str(v.started_at)),
            ("currentState"@, spec_j_opt_str(v.current_state)),
            ("createdAt"@, spec_j_opt_str(v.created_at)),
            ("modifiedAt"@, spec_j_opt_str(v.modified_at)),
        ],
    )
}

pub open spec fn spec_execution_from(j: JVal) -> Option<ExecutionV> {
    match j {
        JVal::Obj(fields) => {
            let id = spec_field_opt_u32(fields, "id"@);
            let started_at = spec_field_opt_str(fields, "startedAt"@);
            let current_state = spec_field_opt_str(fields, "currentState"@);
            let created_at = spec_field_opt_str(fields, "createdAt"@);
            let modified_at = spec_field_opt_str(fields, "modifiedAt"@);
            if id is Err || started_at is Err || current_state is Err || created_at is Err || modified_at is Err {
                None
            } else {
                Some(
                    ExecutionV {
                        id: id->Ok_0,
                        started_at: started_at->Ok_0,
                        current_state: current_state->Ok_0,
                        created_at: created_at->Ok_0,
                        modified_at: modified_at->Ok_0,
                    },
                )
            }
        },
        _ => None,
    }
}

impl Execution {
    /// The record as a JSON document, with its wire field names; an unset
    /// field is sent as `null`.
    #[verifier::rlimit(100)]
    pub fn to_json(&self) -> (r: JsonValue)
        ensures
            r@ == spec_execution_json(self@),
    {
        let mut f: Vec<(String, JsonValue)> = Vec::new();
        put_field(&mut f, "id", j_opt_u32(&self.id));
        put_field(&mut f, "startedAt", j_opt_string(&self.started_at));
        put_field(&mut f, "currentState", j_opt_string(&self.current_state));
        put_field(&mut f, "createdAt", j_opt_string(&self.created_at));
        put_field(&mut f, "modifiedAt", j_opt_string(&self.modified_at));
        let r = JsonValue::Obj(f);
        proof {
            broadcast use lemma_jview_obj;

            assert(jview(r) == JVal::Obj(spec_fields(r->Obj_0@)));
            assert(spec_fields(r->Obj_0@) =~= spec_execution_json(self@)->Obj_0);
        }
        r
    }

    /// The record a well-formed body decodes to; `None` when a present
    /// field has the wrong shape.
    pub fn from_json(v: &JsonValue) -> (r: Option<Execution>)
        ensures
            match r {
                Some(x) => spec_execution_from(v@) == Some(x@),
                None => spec_execution_from(v@) is None,
            },
    {
        proof {
            broadcast use lemma_jview_obj;
            broadcast use lemma_jview_arr;

        }
        match v {
            JsonValue::Obj(fields) => {
                let id = match field_opt_u32(fields, "id") {
                    Ok(x) => x,
                    Err(_) => {
                        return None;
                    },
                };
                let started_at = match field_opt_string(fields, "startedAt") {
                    Ok(x) => x,
                    Err(_) => {
                        return None;
                    },
                };
                let current_state = match field_opt_string(fields, "currentState") {
                    Ok(x) => x,
                    Err(_) => {
                        return None;
                    },
                };
                let created_at = match field_opt_string(fields, "createdAt") {
                    Ok(x) => x,
                    Err(_) => {
                        return None;
                    },
                };
                let modified_at = match field_opt_string(fields, "modifiedAt") {
                    Ok(x) => x,
                    Err(_) => {
                        return None;
                    },
                };
                Some(Execution { id, started_at, current_state, created_at, modified_at })
            },
            _ => None,
        }
    }
}

/// Decoding an encoded record gives back the same record.
#[verifier::rlimit(100)]
pub proof fn lemma_execution_roundtrip(g: ExecutionV)
    ensures
        spec_execution_from(spec_execution_json(g)) == Some(g),
{
    reveal_strlit("id");
    reveal_strlit("startedAt");
    reveal_strlit("currentState");
    reveal_strlit("createdAt");
    reveal_strlit("modifiedAt");
    reveal_with_fuel(spec_lookup, 7);
    assert("id"@.len() == 2);
    assert("startedAt"@.len() == 9);
    assert("currentState"@.len() == 12);
    assert("createdAt"@.len() == 9);
    assert("modifiedAt"@.len() == 10);
    assert("startedAt"@[0] == 's');
    assert("createdAt"@[0] == 'c');
    assert("startedAt"@ != "createdAt"@);
    assert(spec_execution_from(spec_execution_json(g)) matches Some(h) && h =~= g);
}

/// A field absent from a decoded body stays unset or takes its default.
pub proof fn lemma_execution_absent_fields()
    ensures
        spec_execution_from(JVal::Obj(Seq::empty())) == Some(
            ExecutionV {
                id: None,
                started_at: None,
                current_state: None,
                created_at: None,
                modified_at: None,
            },
        ),
{
    reveal_with_fuel(spec_lookup, 2);
}

/// The encoded form of a list of these records.
pub open spec fn spec_executions_json(s: Seq<ExecutionV>) -> Seq<JVal> {
    Seq::new(s.len(), |i: int| spec_execution_json(s[i]))
}

pub open spec fn spec_opt_executions_json(o: Option<Seq<ExecutionV>>) -> JVal {
    match o {
        None => JVal::Null,
        Some(s) => JVal::Arr(spec_executions_json(s)),
    }
}

/// The decoding of a list of these records: every element must decode.
pub open spec fn spec_executions_from(es: Seq<JVal>) -> Option<Seq<ExecutionV>> {
    if forall|i: int| 0 <= i < es.len() ==> (#[trigger] spec_execution_from(es[i])) is Some {
        Some(Seq::new(es.len(), |i: int| spec_execution_from(es[i]).unwrap()))
    } else {
        None
    }
}

pub open spec fn spec_field_opt_executions(
    fields: Seq<(Seq<char>, JVal)>,
    key: Seq<char>,
) -> Result<Option<Seq<ExecutionV>>, ()> {
    match spec_lookup(fields, key) {
        None => Ok(None),
        Some(j) => match j {
            JVal::Null => Ok(None),
            JVal::Arr(es) => match spec_executions_from(es) {
                Some(s) => Ok(Some(s)),
                None => Err(()),
            },
            _ => Err(()),
        },
    }
}

pub fn execution_list_to_json(v: &Vec<Execution>) -> (r: JsonValue)
    ensures
        r@ == JVal::Arr(spec_executions_json(vviews(v@))),
{
    let mut a: Vec<JsonValue> = Vec::new();
    let mut i: usize = 0;
    while i < v.len()
        invariant
            i <= v.len(),
            a@.len() == i as int,
            forall|j: int| 0 <= j < i ==> jview(#[trigger] a@[j]) == spec_execution_json(v@[j]@),
        decreases v.len() - i,
    {
        a.push(v[i].to_json());
        i = i + 1;
    }
    let r = JsonValue::Arr(a);
    proof {
        broadcast use lemma_jview_arr;

        assert forall|j: int| 0 <= j < v@.len() implies spec_elems(r->Arr_0@)[j]
            == spec_execution_json(vviews(v@)[j]) by {
            assert(spec_elems(r->Arr_0@)[j] == jview(r->Arr_0@[j]));
        }
        assert(spec_elems(r->Arr_0@) =~= spec_executions_json(vviews(v@)));
    }
    r
}

#[verifier::loop_isolation(false)]
pub fn execution_list_from_json(es: &Vec<JsonValue>) -> (r: Option<Vec<Execution>>)
    ensures
        match r {
            Some(v) => spec_executions_from(spec_elems(es@)) == Some(vviews(v@)),
            None => spec_executions_from(spec_elems(es@)) is None,
        },
{
    let mut out: Vec<Execution> = Vec::new();
    let mut i: usize = 0;
    while i < es.len()
        invariant
            i <= es.len(),
            out@.len() == i as int,
            forall|j: int|
                0 <= j < i ==> spec_execution_from(#[trigger] spec_elems(es@)[j]) == Some(
                    out@[j]@,
                ),
        decreases es.len() - i,
    {
        proof {
            assert(spec_elems(es@)[i as int] == jview(es@[i as int]));
        }
        match Execution::from_json(&es[i]) {
            Some(x) => out.push(x),
            None => {
                proof {
                    assert(spec_execution_from(spec_elems(es@)[i as int]) is None);
                }
                return None;
            },
        }
        i = i + 1;
    }
    proof {
        assert(spec_executions_from(spec_elems(es@)) == Some(vviews(out@))) by {
            assert(Seq::new(
                spec_elems(es@).len(),
                |j: int| spec_execution_from(spec_elems(es@)[j]).unwrap(),
            ) =~= vviews(out@));
        }
    }
    Some(out)
}

pub open spec fn spec_opt_execution_json(o: Option<ExecutionV>) -> JVal {
    match o {
        None => JVal::Null,
        Some(x) => spec_execution_json(x),
    }
}

pub open spec fn spec_field_opt_execution(
    fields: Seq<(Seq<char>, JVal)>,
    key: Seq<char>,
) -> Result<Option<ExecutionV>, ()> {
    match spec_lookup(fields, key) {
        None => Ok(None),
        Some(j) => match j {
            JVal::Null => Ok(None),
            _ => match spec_execution_from(j) {
                Some(t) => Ok(Some(t)),
                None => Err(()),
            },
        },
    }
}

/// A stream: an upload channel bound to a dataset, with its import
/// behaviour. Timestamps are carried as the wire's ISO-8601 text.
#[derive(Debug, PartialEq, Eq)]
pub struct Stream {
    pub id: Option<u32>,
    pub created_at: Option<String>,
    pub modified_at: Option<String>,
    pub update_method: Option<String>,
    pub key_column_name: Option<String>,
    pub dataset: Option<DataSet>,
    pub deleted: Option<bool>,
}

#[verifier::ext_equal]
pub struct StreamV {
    pub id: Option<u32>,
    pub created_at: Option<Seq<char>>,
    pub modified_at: Option<Seq<char>>,
    pub update_method: Option<Seq<char>>,
    pub key_column_name: Option<Seq<char>>,
    pub dataset: Option<DataSetV>,
    pub deleted: Option<bool>,
}

impl View for Stream {
    type V = StreamV;

    open spec fn view(&self) -> StreamV {
        StreamV {
            id: self.id,
            created_at: ostr(self.created_at),
            modified_at: ostr(self.modified_at),
            update_method: ostr(self.update_method),
            key_column_name: ostr(self.key_column_name),
            dataset: oview(self.dataset),
            deleted: self.deleted,
        }
    }
}

pub open spec fn spec_stream_json(v: StreamV) -> JVal {
    JVal::Obj(
        seq![
            ("id"@, spec_j_opt_num32(v.id)),
            ("createdAt"@, spec_j_opt_str(v.created_at)),
            ("modifiedAt"@, spec_j_opt_str(v.modified_at)),
            ("updateMethod"@, spec_j_opt_str(v.update_method)),
            ("keyColumnName"@, spec_j_opt_str(v.key_column_name)),
            ("dataSet"@, spec_opt_data_set_json(v.dataset)),
            ("deleted"@, spec_j_opt_bool(v.deleted)),
        ],
    )
}

pub open spec fn spec_stream_from(j: JVal) -> Option<StreamV> {
    match j {
        JVal::Obj(fields) => {
            let id = spec_field_opt_u32(fields, "id"@);
            let created_at = spec_field_opt_str(fields, "createdAt"@);
            let modified_at = spec_field_opt_str(fields, "modifiedAt"@);
            let update_method = spec_field_opt_str(fields, "updateMethod"@);
            let key_column_name = spec_field_opt_str(fields, "keyColumnName"@);
            let dataset = spec_field_opt_data_set(fields, "dataSet"@);
            let deleted = spec_field_opt_bool(fields, "deleted"@);
            if id is Err || created_at is Err || modified_at is Err || update_method is Err || key_column_name is Err || dataset is Err || deleted is Err {
                None
            } else {
                Some(
                    StreamV {
                        id: id->Ok_0,
                        created_at: created_at->Ok_0,
                        modified_at: modified_at->Ok_0,
                        update_method: update_method->Ok_0,
                        key_column_name: key_column_name->Ok_0,
                        dataset: dataset->Ok_0,
                        deleted: deleted->Ok_0,
                    },
                )
            }
        },
        _ => None,
    }
}

impl Stream {
    /// The record as a JSON document, with its wire field names; an unset
    /// field is sent as `null`.
    #[verifier::rlimit(100)]
    pub fn to_json(&self) -> (r: JsonValue)
        ensures
            r@ == spec_stream_json(self@),
    {
        let mut f: Vec<(String, JsonValue)> = Vec::new();
        put_field(&mut f, "id", j_opt_u32(&self.id));
        put_field(&mut f, "createdAt", j_opt_string(&self.created_at));
        put_field(&mut f, "modifiedAt", j_opt_string(&self.modified_at));
        put_field(&mut f, "updateMethod", j_opt_string(&self.update_method));
        put_field(&mut f, "keyColumnName", j_opt_string(&self.key_column_name));
        let dataset_json = match &self.dataset {
            None => JsonValue::Null,
            Some(x) => x.to_json(),
        };
        put_field(&mut f, "dataSet", dataset_json);
        put_field(&mut f, "deleted", j_opt_bool(&self.deleted));
        let r = JsonValue::Obj(f);
        proof {
            broadcast use lemma_jview_obj;

            assert(jview(r) == JVal::Obj(spec_fields(r->Obj_0@)));
            assert(spec_fields(r->Obj_0@) =~= spec_stream_json(self@)->Obj_0);
        }
        r
    }

    /// The record a well-formed body decodes to; `None` when a present
    /// field has the wrong shape.
    pub fn from_json(v: &JsonValue) -> (r: Option<Stream>)
        ensures
            match r {
                Some(x) => spec_stream_from(v@) == Some(x@),
                None => spec_stream_from(v@) is None,
            },
    {
        proof {
            broadcast use lemma_jview_obj;
            broadcast use lemma_jview_arr;

        }
        match v {
            JsonValue::Obj(fields) => {
                let id = match field_opt_u32(fields, "id") {
                    Ok(x) => x,
                    Err(_) => {
                        return None;
                    },
                };
                let created_at = match field_opt_string(fields, "createdAt") {
                    Ok(x) => x,
                    Err(_) => {
                        return None;
                    },
                };
                let modified_at = match field_opt_string(fields, "modifiedAt") {
                    Ok(x) => x,
                    Err(_) => {
                        return None;
                    },
                };
                let update_method = match field_opt_string(fields, "updateMethod") {
                    Ok(x) => x,
                    Err(_) => {
                        return None;
                    },
                };
                let key_column_name = match field_opt_string(fields, "keyColumnName") {
                    Ok(x) => x,
                    Err(_) => {
                        return None;
                    },
                };
                let dataset = match jlookup(fields, "dataSet") {
                    None => None,
                    Some(w) => match w {
                        JsonValue::Null => None,
                        _ => match DataSet::from_json(w) {
                            Some(x) => Some(x),
                            None => {
                                return None;
                            },
                        },
                    },
                };
                let deleted = match field_opt_bool(fields, "deleted") {
                    Ok(x) => x,
                    Err(_) => {
                        return None;
                    },
                };
                Some(Stream { id, created_at, modified_at, update_method, key_column_name, dataset, deleted })
            },
            _ => None,
        }
    }
}

/// Decoding an encoded record gives back the same record.
#[verifier::rlimit(100)]
pub proof fn lemma_stream_roundtrip(g: StreamV)
    ensures
        spec_stream_from(spec_stream_json(g)) == Some(g),
{
    reveal_strlit("id");
    reveal_strlit("createdAt");
    reveal_strlit("modifiedAt");
    reveal_strlit("updateMethod");
    reveal_strlit("keyColumnName");
    reveal_strlit("dataSet");
    reveal_strlit("deleted");
    reveal_with_fuel(spec_lookup, 9);
    assert("id"@.len() == 2);
    assert("createdAt"@.len() == 9);
    assert("modifiedAt"@.len() == 10);
    assert("updateMethod"@.len() == 12);
    assert("keyColumnName"@.len() == 13);
    assert("dataSet"@.len() == 7);
    assert("deleted"@.len() == 7);
    assert("dataSet"@[1] == 'a');
    assert("deleted"@[1] == 'e');
    assert("dataSet"@ != "deleted"@);
    if g.dataset is Some {
        lemma_data_set_roundtrip(g.dataset.unwrap());
    }
    assert(spec_stream_from(spec_stream_json(g)) matches Some(h) && h =~= g);
}

/// A field absent from a decoded body stays unset or takes its default.
pub proof fn lemma_stream_absent_fields()
    ensures
        spec_stream_from(JVal::Obj(Seq::empty())) == Some(
            StreamV {
                id: None,
                created_at: None,
                modified_at: None,
                update_method: None,
                key_column_name: None,
                dataset: None,
                deleted: None,
            },
        ),
{
    reveal_with_fuel(spec_lookup, 2);
}

/// The encoded form of a list of these records.
pub open spec fn spec_streams_json(s: Seq<StreamV>) -> Seq<JVal> {
    Seq::new(s.len(), |i: int| spec_stream_json(s[i]))
}

pub open spec fn spec_opt_streams_json(o: Option<Seq<StreamV>>) -> JVal {
    match o {
        None => JVal::Null,
        Some(s) => JVal::Arr(spec_streams_json(s)),
    }
}

/// The decoding of a list of these records: every element must decode.
pub open spec fn spec_streams_from(es: Seq<JVal>) -> Option<Seq<StreamV>> {
    if forall|i: int| 0 <= i < es.len() ==> (#[trigger] spec_stream_from(es[i])) is Some {
        Some(Seq::new(es.len(), |i: int| spec_stream_from(es[i]).unwrap()))
    } else {
        None
    }
}

pub open spec fn spec_field_opt_streams(
    fields: Seq<(Seq<char>, JVal)>,
    key: Seq<char>,
) -> Result<Option<Seq<StreamV>>, ()> {
    match spec_lookup(fields, key) {
        None => Ok(None),
        Some(j) => match j {
            JVal::Null => Ok(None),
            JVal::Arr(es) => match spec_streams_from(es) {
                Some(s) => Ok(Some(s)),
                None => Err(()),
            },
            _ => Err(()),
        },
    }
}

pub fn stream_list_to_json(v: &Vec<Stream>) -> (r: JsonValue)
    ensures
        r@ == JVal::Arr(spec_streams_json(vviews(v@))),
{
    let mut a: Vec<JsonValue> = Vec::new();
    let mut i: usize = 0;
    while i < v.len()
        invariant
            i <= v.len(),
            a@.len() == i as int,
            forall|j: int| 0 <= j < i ==> jview(#[trigger] a@[j]) == spec_stream_json(v@[j]@),
        decreases v.len() - i,
    {
        a.push(v[i].to_json());
        i = i + 1;
    }
    let r = JsonValue::Arr(a);
    proof {
        broadcast use lemma_jview_arr;

        assert forall|j: int| 0 <= j < v@.len() implies spec_elems(r->Arr_0@)[j]
            == spec_stream_json(vviews(v@)[j]) by {
            assert(spec_elems(r->Arr_0@)[j] == jview(r->Arr_0@[j]));
        }
        assert(spec_elems(r->Arr_0@) =~= spec_streams_json(vviews(v@)));
    }
    r
}

#[verifier::loop_isolation(false)]
pub fn stream_list_from_json(es: &Vec<JsonValue>) -> (r: Option<Vec<Stream>>)
    ensures
        match r {
            Some(v) => spec_streams_from(spec_elems(es@)) == Some(vviews(v@)),
            None => spec_streams_from(spec_elems(es@)) is None,
        },
{
    let mut out: Vec<Stream> = Vec::new();
    let mut i: usize = 0;
    while i < es.len()
        invariant
            i <= es.len(),
            out@.len() == i as int,
            forall|j: int|
                0 <= j < i ==> spec_stream_from(#[trigger] spec_elems(es@)[j]) == Some(
                    out@[j]@,
                ),
        decreases es.len() - i,
    {
        proof {
            assert(spec_elems(es@)[i as int] == jview(es@[i as int]));
        }
        match Stream::from_json(&es[i]) {
            Some(x) => out.push(x),
            None => {
                proof {
                    assert(spec_stream_from(spec_elems(es@)[i as int]) is None);
                }
                return None;
            },
        }
        i = i + 1;
    }
    proof {
        assert(spec_streams_from(spec_elems(es@)) == Some(vviews(out@))) by {
            assert(Seq::new(
                spec_elems(es@).len(),
                |j: int| spec_stream_from(spec_elems(es@)[j]).unwrap(),
            ) =~= vviews(out@));
        }
    }
    Some(out)
}

pub open spec fn spec_opt_stream_json(o: Option<StreamV>) -> JVal {
    match o {
        None => JVal::Null,
        Some(x) => spec_stream_json(x),
    }
}

pub open spec fn spec_field_opt_stream(
    fields: Seq<(Seq<char>, JVal)>,
    key: Seq<char>,
) -> Result<Option<StreamV>, ()> {
    match spec_lookup(fields, key) {
        None => Ok(None),
        Some(j) => match j {
            JVal::Null => Ok(None),
            _ => match spec_stream_from(j) {
                Some(t) => Ok(Some(t)),
                None => Err(()),
            },
        },
    }
}

impl Stream {
    /// A stream record with every field unset.
    pub fn new() -> (r: Self)
        ensures
            r@ == (StreamV {
                id: None,
                created_at: None,
                modified_at: None,
                update_method: None,
                key_column_name: None,
                dataset: None,
                deleted: None,
            }),
    {
        Stream {
            id: None,
            created_at: None,
            modified_at: None,
            update_method: None,
            key_column_name: None,
            dataset: None,
            deleted: None,
        }
    }

    /// A placeholder stream for seeding an interactive edit buffer. The
    /// timestamps hold a fixed placeholder instant.
    pub fn template() -> (r: Self)
        ensures
            r@.id == Some(0u32),
            r@.created_at == Some("1970-01-01T00:00:00Z"@),
            r@.modified_at == Some("1970-01-01T00:00:00Z"@),
            r@.update_method == Some("APPEND | REPLACE | UPSERT"@),
            r@.key_column_name == Some("Defines the key column used for UPSERT updates"@),
            r@.dataset == Some(crate::public::dataset::spec_data_set_template()),
            r@.deleted == Some(false),
    {
        Stream {
            id: Some(0),
            created_at: Some("1970-01-01T00:00:00Z".to_owned()),
            modified_at: Some("1970-01-01T00:00:00Z".to_owned()),
            update_method: Some("APPEND | REPLACE | UPSERT".to_owned()),
            key_column_name: Some(
                "Defines the key column used for UPSERT updates".to_owned(),
            ),
            dataset: Some(DataSet::template()),
            deleted: Some(false),
        }
    }
}


impl Client {
    /// The request for a page of streams, with optional paging parameters.
    pub fn get_streams(&self, limit: Option<u32>, offset: Option<u32>) -> (r: ApiRequest)
        ensures
            r@.method == Method::Get,
            r@.url == self@.host + "/v1/streams"@,
            r@.scope == "data"@,
            r@.body is None,
            r@.query == crate::public::spec_paging_query(limit, offset),
    {
        let mut r = ApiRequest::new(
            Method::Get,
            str_concat(self.host.as_str(), "/v1/streams"),
            "data",
        );
        r.query = crate::public::paging_query(limit, offset);
        r
    }

    /// The request that searches streams by the backing dataset's id.
    pub fn get_stream_search_dataset_id(&self, dsid: &str) -> (r: ApiRequest)
        ensures
            r@.method == Method::Get,
            r@.url == self@.host + "/v1/streams/search"@,
            r@.scope == "data"@,
            r@.query == seq![("q"@, "dataSource.id:"@ + dsid@)],
            r@.body is None,
    {
        let mut r = ApiRequest::new(
            Method::Get,
            str_concat(self.host.as_str(), "/v1/streams/search"),
            "data",
        );
        let mut q: Vec<(String, String)> = Vec::new();
        q.push(("q".to_owned(), str_concat("dataSource.id:", dsid)));
        r.query = q;
        proof {
            assert(crate::json::views_of_pairs(r.query@) =~= seq![
                ("q"@, "dataSource.id:"@ + dsid@),
            ]);
        }
        r
    }

    /// The request that searches streams by the backing dataset's owner id.
    pub fn get_stream_search_dataset_owner_id(&self, dsoid: &str) -> (r: ApiRequest)
        ensures
            r@.method == Method::Get,
            r@.url == self@.host + "/v1/streams/search"@,
            r@.scope == "data"@,
            r@.query == seq![("q"@, "dataSource.owner.id:"@ + dsoid@)],
            r@.body is None,
    {
        let mut r = ApiRequest::new(
            Method::Get,
            str_concat(self.host.as_str(), "/v1/streams/search"),
            "data",
        );
        let mut q: Vec<(String, String)> = Vec::new();
        q.push(("q".to_owned(), str_concat("dataSource.owner.id:", dsoid)));
        r.query = q;
        proof {
            assert(crate::json::views_of_pairs(r.query@) =~= seq![
                ("q"@, "dataSource.owner.id:"@ + dsoid@),
            ]);
        }
        r
    }

    /// The request that creates a stream, and with it a dataset, from the
    /// given record.
    pub fn post_stream(&self, stream: Stream) -> (r: ApiRequest)
        ensures
            r@.method == Method::Post,
            r@.url == self@.host + "/v1/streams"@,
            r@.scope == "data"@,
            r@.query == Seq::<(Seq<char>, Seq<char>)>::empty(),
            r@.body == Some(ReqBodyV::Json(spec_stream_json(stream@))),
    {
        let mut r = ApiRequest::new(
            Method::Post,
            str_concat(self.host.as_str(), "/v1/streams"),
            "data",
        );
        r.body = Some(ReqBody::Json(stream.to_json()));
        r
    }

    /// The request for one stream by id.
    pub fn get_stream(&self, id: &str) -> (r: ApiRequest)
        ensures
            r@.method == Method::Get,
            r@.url == self@.host + "/v1/streams/"@ + id@,
            r@.scope == "data"@,
            r@.query == Seq::<(Seq<char>, Seq<char>)>::empty(),
            r@.body is None,
    {
        let mut url = str_concat(self.host.as_str(), "/v1/streams/");
        url.append(id);
        ApiRequest::new(Method::Get, url, "data")
    }

    /// The request that updates a stream's metadata by id.
    pub fn patch_stream(&self, id: &str, stream: Stream) -> (r: ApiRequest)
        ensures
            r@.method == Method::Patch,
            r@.url == self@.host + "/v1/streams/"@ + id@,
            r@.scope == "data"@,
            r@.query == Seq::<(Seq<char>, Seq<char>)>::empty(),
            r@.body == Some(ReqBodyV::Json(spec_stream_json(stream@))),
    {
        let mut url = str_concat(self.host.as_str(), "/v1/streams/");
        url.append(id);
        let mut r = ApiRequest::new(Method::Patch, url, "data");
        r.body = Some(ReqBody::Json(stream.to_json()));
        r
    }

    /// The request that deletes a stream by id, leaving its dataset alone.
    pub fn delete_stream(&self, id: &str) -> (r: ApiRequest)
        ensures
            r@.method == Method::Delete,
            r@.url == self@.host + "/v1/streams/"@ + id@,
            r@.scope == "data"@,
            r@.query == Seq::<(Seq<char>, Seq<char>)>::empty(),
            r@.body is None,
    {
        let mut url = str_concat(self.host.as_str(), "/v1/streams/");
        url.append(id);
        ApiRequest::new(Method::Delete, url, "data")
    }

    /// The request for one execution of a stream.
    pub fn get_stream_execution(&self, id: &str, execution_id: &str) -> (r: ApiRequest)
        ensures
            r@.method == Method::Get,
            r@.url == self@.host + "/v1/streams/"@ + id@ + "/executions/"@ + execution_id@,
            r@.scope == "data"@,
            r@.query == Seq::<(Seq<char>, Seq<char>)>::empty(),
            r@.body is None,
    {
        let mut url = str_concat(self.host.as_str(), "/v1/streams/");
        url.append(id);
        url.append("/executions/");
        url.append(execution_id);
        ApiRequest::new(Method::Get, url, "data")
    }

    /// The request that opens a new execution on a stream, aborting any
    /// other open execution; the body is an empty document.
    pub fn post_stream_execution(&self, id: &str) -> (r: ApiRequest)
        ensures
            r@.method == Method::Post,
            r@.url == self@.host + "/v1/streams/"@ + id@ + "/executions"@,
            r@.scope == "data"@,
            r@.query == Seq::<(Seq<char>, Seq<char>)>::empty(),
            r@.body == Some(ReqBodyV::Json(JVal::Obj(Seq::empty()))),
    {
        let mut url = str_concat(self.host.as_str(), "/v1/streams/");
        url.append(id);
        url.append("/executions");
        let mut r = ApiRequest::new(Method::Post, url, "data");
        let f: Vec<(String, JsonValue)> = Vec::new();
        let body = JsonValue::Obj(f);
        proof {
            broadcast use lemma_jview_obj;

            assert(spec_fields(body->Obj_0@) =~= Seq::<(Seq<char>, JVal)>::empty());
        }
        r.body = Some(ReqBody::Json(body));
        r
    }

    /// The request for a stream's executions, with optional paging
    /// parameters.
    pub fn get_stream_executions(&self, id: &str, limit: Option<u32>, offset: Option<u32>) -> (r:
        ApiRequest)
        ensures
            r@.method == Method::Get,
            r@.url == self@.host + "/v1/streams/"@ + id@ + "/executions"@,
            r@.scope == "data"@,
            r@.query == crate::public::spec_paging_query(limit, offset),
            r@.body is None,
    {
        let mut url = str_concat(self.host.as_str(), "/v1/streams/");
        url.append(id);
        url.append("/executions");
        let mut r = ApiRequest::new(Method::Get, url, "data");
        r.query = crate::public::paging_query(limit, offset);
        r
    }

    /// The request that uploads one CSV part into an execution. Parts are
    /// idempotent by part id: a failed upload may simply be retried, since a
    /// commit needs every part to be present first.
    pub fn put_stream_execution_part(
        &self,
        id: &str,
        execution_id: &str,
        part_id: &str,
        csv: String,
    ) -> (r: ApiRequest)
        ensures
            r@.method == Method::Put,
            r@.url == self@.host + "/v1/streams/"@ + id@ + "/executions/"@ + execution_id@
                + "/part/"@ + part_id@,
            r@.scope == "data"@,
            r@.query == Seq::<(Seq<char>, Seq<char>)>::empty(),
            r@.body == Some(ReqBodyV::Csv(csv@)),
    {
        let mut url = str_concat(self.host.as_str(), "/v1/streams/");
        url.append(id);
        url.append("/executions/");
        url.append(execution_id);
        url.append("/part/");
        url.append(part_id);
        let mut r = ApiRequest::new(Method::Put, url, "data");
        r.body = Some(ReqBody::Csv(csv));
        r
    }

    /// The request that commits an execution, importing every uploaded
    /// part. The server enforces a minimum interval between commits on the
    /// same stream; a too-soon commit simply fails with the shared error.
    pub fn put_stream_execution_commit(&self, id: &str, execution_id: &str) -> (r: ApiRequest)
        ensures
            r@.method == Method::Put,
            r@.url == self@.host + "/v1/streams/"@ + id@ + "/executions/"@ + execution_id@
                + "/commit"@,
            r@.scope == "data"@,
            r@.query == Seq::<(Seq<char>, Seq<char>)>::empty(),
            r@.body is None,
    {
        let mut url = str_concat(self.host.as_str(), "/v1/streams/");
        url.append(id);
        url.append("/executions/");
        url.append(execution_id);
        url.append("/commit");
        ApiRequest::new(Method::Put, url, "data")
    }

    /// The request that aborts an execution.
    pub fn put_stream_execution_abort(&self, id: &str, execution_id: &str) -> (r: ApiRequest)
        ensures
            r@.method == Method::Put,
            r@.url == self@.host + "/v1/streams/"@ + id@ + "/executions/"@ + execution_id@
                + "/abort"@,
            r@.scope == "data"@,
            r@.query == Seq::<(Seq<char>, Seq<char>)>::empty(),
            r@.body is None,
    {
        let mut url = str_concat(self.host.as_str(), "/v1/streams/");
        url.append(id);
        url.append("/executions/");
        url.append(execution_id);
        url.append("/abort");
        ApiRequest::new(Method::Put, url, "data")
    }
}


/// Maps a response holding one record of this resource.
pub fn stream_response(status: u16, body: &str) -> (r: Result<Stream, DomoError>)
    ensures
        match r {
            Ok(x) => spec_check_response(status, body@) matches Ok(j) && spec_stream_from(j)
                == Some(x@),
            Err(e) => match spec_check_response(status, body@) {
                Ok(j) => spec_stream_from(j) is None && e@ == (DomoErrorV::Malformed {
                    status,
                }),
                Err(e2) => e@ == e2,
            },
        },
{
    match check_response(status, body) {
        Err(e) => Err(e),
        Ok(v) => match Stream::from_json(&v) {
            Some(x) => Ok(x),
            None => Err(DomoError::Malformed { status }),
        },
    }
}

/// Maps a response holding a list of records of this resource.
pub fn streams_response(status: u16, body: &str) -> (r: Result<Vec<Stream>, DomoError>)
    ensures
        match r {
            Ok(xs) => spec_check_response(status, body@) matches Ok(j) && j matches JVal::Arr(
                es,
            ) && spec_streams_from(es) == Some(vviews(xs@)),
            Err(e) => match spec_check_response(status, body@) {
                Ok(j) => e@ == (DomoErrorV::Malformed { status }) && !(j matches JVal::Arr(
                    es,
                ) && spec_streams_from(es) is Some),
                Err(e2) => e@ == e2,
            },
        },
{
    let v = match check_response(status, body) {
        Ok(v) => v,
        Err(e) => {
            return Err(e);
        },
    };
    proof {
        broadcast use lemma_jview_arr;

    }
    match &v {
        JsonValue::Arr(es) => match stream_list_from_json(es) {
            Some(xs) => Ok(xs),
            None => Err(DomoError::Malformed { status }),
        },
        _ => Err(DomoError::Malformed { status }),
    }
}

/// Maps a response holding one record of this resource.
pub fn execution_response(status: u16, body: &str) -> (r: Result<Execution, DomoError>)
    ensures
        match r {
            Ok(x) => spec_check_response(status, body@) matches Ok(j) && spec_execution_from(j)
                == Some(x@),
            Err(e) => match spec_check_response(status, body@) {
                Ok(j) => spec_execution_from(j) is None && e@ == (DomoErrorV::Malformed {
                    status,
                }),
                Err(e2) => e@ == e2,
            },
        },
{
    match check_response(status, body) {
        Err(e) => Err(e),
        Ok(v) => match Execution::from_json(&v) {
            Some(x) => Ok(x),
            None => Err(DomoError::Malformed { status }),
        },
    }
}

/// Maps a response holding a list of records of this resource.
pub fn executions_response(status: u16, body: &str) -> (r: Result<Vec<Execution>, DomoError>)
    ensures
        match r {
            Ok(xs) => spec_check_response(status, body@) matches Ok(j) && j matches JVal::Arr(
                es,
            ) && spec_executions_from(es) == Some(vviews(xs@)),
            Err(e) => match spec_check_response(status, body@) {
                Ok(j) => e@ == (DomoErrorV::Malformed { status }) && !(j matches JVal::Arr(
                    es,
                ) && spec_executions_from(es) is Some),
                Err(e2) => e@ == e2,
            },
        },
{
    let v = match check_response(status, body) {
        Ok(v) => v,
        Err(e) => {
            return Err(e);
        },
    };
    proof {
        broadcast use lemma_jview_arr;

    }
    match &v {
        JsonValue::Arr(es) => match execution_list_from_json(es) {
            Some(xs) => Ok(xs),
            None => Err(DomoError::Malformed { status }),
        },
        _ => Err(DomoError::Malformed { status }),
    }
}

} // verus!
