//! Workflow projects: projects, their swim-lane lists, tasks and
//! attachments, with the workflow endpoints.

use crate::json::{
    JVal, JsonValue, field_bool_default, field_opt_num_arr, field_opt_string,
    field_opt_str_arr, field_opt_u32, field_opt_u64, field_u32_default, j_num_arr,
    j_opt_bool, j_opt_num_arr, j_opt_string, j_opt_str_arr, j_opt_u32, j_opt_u64,
    field_opt_bool, jview, lemma_jview_arr, lemma_jview_obj, onums, ostr, ostrs, put_field,
    spec_elems, spec_field_bool_default, spec_field_opt_bool, spec_field_opt_num_arr,
    spec_field_opt_str, spec_field_opt_str_arr, spec_field_opt_u32, spec_field_opt_u64,
    spec_field_u32_default, spec_fields, spec_j_num_arr, spec_j_opt_bool,
    spec_j_opt_num, spec_j_opt_num32, spec_j_opt_num_arr, spec_j_opt_str,
    spec_j_opt_str_arr, spec_lookup, vviews,
};
use crate::public::{
    ApiRequest, Client, DomoError, DomoErrorV, Method, ReqBody, ReqBodyV, check_response,
    spec_check_response,
};
use crate::strutil::str_concat;
use vstd::prelude::*;
use vstd::string::StringExecFns;

verus! {


/// A workflow project: its identity, dates, visibility and members.
/// Dates are carried as the wire's ISO-8601 text.
#[derive(Debug, PartialEq, Eq)]
pub struct Project {
    pub id: Option<String>,
    pub name: Option<String>,
    pub description: Option<String>,
    pub created_by: Option<u64>,
    pub created_date: Option<String>,
    pub due_date: Option<String>,
    pub public: Option<bool>,
    pub members: Option<Vec<u64>>,
}

#[verifier::ext_equal]
pub struct ProjectV {
    pub id: Option<Seq<char>>,
    pub name: Option<Seq<char>>,
    pub description: Option<Seq<char>>,
    pub created_by: Option<u64>,
    pub created_date: Option<Seq<char>>,
    pub due_date: Option<Seq<char>>,
    pub public: Option<bool>,
    pub members: Option<Seq<u64>>,
}

impl View for Project {
    type V = ProjectV;

    open spec fn view(&self) -> ProjectV {
        ProjectV {
            id: ostr(self.id),
            name: ostr(self.name),
            description: ostr(self.description),
            created_by: self.created_by,
            created_date: ostr(self.created_date),
            due_date: ostr(self.due_date),
            public: self.public,
            members: onums(self.members),
        }
    }
}

pub open spec fn spec_project_json(v: ProjectV) -> JVal {
    JVal::Obj(
        seq![
            ("id"@, spec_j_opt_str(v.id)),
            ("name"@, spec_j_opt_str(v.name)),
            ("description"@, spec_j_opt_str(v.description)),
            ("createdBy"@, spec_j_opt_num(v.created_by)),
            ("createdDate"@, spec_j_opt_str(v.created_date)),
            ("dueDate"@, spec_j_opt_str(v.due_date)),
            ("public"@, spec_j_opt_bool(v.public)),
            ("members"@, spec_j_opt_num_arr(v.members)),
        ],
    )
}

pub open spec fn spec_project_from(j: JVal) -> Option<ProjectV> {
    match j {
        JVal::Obj(fields) => {
            let id = spec_field_opt_str(fields, "id"@);
            let name = spec_field_opt_str(fields, "name"@);
            let description = spec_field_opt_str(fields, "description"@);
            let created_by = spec_field_opt_u64(fields, "createdBy"@);
            let created_date = spec_field_opt_str(fields, "createdDate"@);
            let due_date = spec_field_opt_str(fields, "dueDate"@);
            let public = spec_field_opt_bool(fields, "public"@);
            let members = spec_field_opt_num_arr(fields, "members"@);
            if id is Err || name is Err || description is Err || created_by is Err || created_date is Err || due_date is Err || public is Err || members is Err {
                None
            } else {
                Some(
                    ProjectV {
                        id: id->Ok_0,
                        name: name->Ok_0,
                        description: description->Ok_0,
                        created_by: created_by->Ok_0,
                        created_date: created_date->Ok_0,
                        due_date: due_date->Ok_0,
                        public: public->Ok_0,
                        members: members->Ok_0,
                    },
                )
            }
        },
        _ => None,
    }
}

impl Project {
    /// The record as a JSON document, with its wire field names; an unset
    /// field is sent as `null`.
    #[verifier::rlimit(100)]
    pub fn to_json(&self) -> (r: JsonValue)
        ensures
            r@ == spec_project_json(self@),
    {
        let mut f: Vec<(String, JsonValue)> = Vec::new();
        put_field(&mut f, "id", j_opt_string(&self.id));
        put_field(&mut f, "name", j_opt_string(&self.name));
        put_field(&mut f, "description", j_opt_string(&self.description));
        put_field(&mut f, "createdBy", j_opt_u64(&self.created_by));
        put_field(&mut f, "createdDate", j_opt_string(&self.created_date));
        put_field(&mut f, "dueDate", j_opt_string(&self.due_date));
        put_field(&mut f, "public", j_opt_bool(&self.public));
        put_field(&mut f, "members", j_opt_num_arr(&self.members));
        let r = JsonValue::Obj(f);
        proof {
            broadcast use lemma_jview_obj;

            assert(jview(r) == JVal::Obj(spec_fields(r->Obj_0@)));
            assert(spec_fields(r->Obj_0@) =~= spec_project_json(self@)->Obj_0);
        }
        r
    }

    /// The record a well-formed body decodes to; `None` when a present
    /// field has the wrong shape.
    pub fn from_json(v: &JsonValue) -> (r: Option<Project>)
        ensures
            match r {
                Some(x) => spec_project_from(v@) == Some(x@),
                None => spec_project_from(v@) is None,
            },
    {
        proof {
            broadcast use lemma_jview_obj;
            broadcast use lemma_jview_arr;

        }
        match v {
            JsonValue::Obj(fields) => {
                let id = match field_opt_string(fields, "id") {
                    Ok(x) => x,
                    Err(_) => {
                        return None;
                    },
                };
                let name = match field_opt_string(fields, "name") {
                    Ok(x) => x,
                    Err(_) => {
                        return None;
                    },
                };
                let description = match field_opt_string(fields, "description") {
                    Ok(x) => x,
                    Err(_) => {
                        return None;
                    },
                };
                let created_by = match field_opt_u64(fields, "createdBy") {
                    Ok(x) => x,
                    Err(_) => {
                        return None;
                    },
                };
                let created_date = match field_opt_string(fields, "createdDate") {
                    Ok(x) => x,
                    Err(_) => {
                        return None;
                    },
                };
                let due_date = match field_opt_string(fields, "dueDate") {
                    Ok(x) => x,
                    Err(_) => {
                        return None;
                    },
                };
                let public = match field_opt_bool(fields, "public") {
                    Ok(x) => x,
                    Err(_) => {
                        return None;
                    },
                };
                let members = match field_opt_num_arr(fields, "members") {
                    Ok(x) => x,
                    Err(_) => {
                        return None;
                    },
                };
                Some(Project { id, name, description, created_by, created_date, due_date, public, members })
            },
            _ => None,
        }
    }
}

/// Decoding an encoded record gives back the same record.
#[verifier::rlimit(100)]
pub proof fn lemma_project_roundtrip(g: ProjectV)
    ensures
        spec_project_from(spec_project_json(g)) == Some(g),
{
    reveal_strlit("id");
    reveal_strlit("name");
    reveal_strlit("description");
    reveal_strlit("createdBy");
    reveal_strlit("createdDate");
    reveal_strlit("dueDate");
    reveal_strlit("public");
    reveal_strlit("members");
    reveal_with_fuel(spec_lookup, 10);
    assert("id"@.len() == 2);
    assert("name"@.len() == 4);
    assert("description"@.len() == 11);
    assert("createdBy"@.len() == 9);
    assert("createdDate"@.len() == 11);
    assert("dueDate"@.len() == 7);
    assert("public"@.len() == 6);
    assert("members"@.len() == 7);
    assert("description"@[0] == 'd');
    assert("createdDate"@[0] == 'c');
    assert("description"@ != "createdDate"@);
    assert("dueDate"@[0] == 'd');
    assert("members"@[0] == 'm');
    assert("dueDate"@ != "members"@);
    assert(spec_project_from(spec_project_json(g)) matches Some(h) && h =~= g);
}

/// A field absent from a decoded body stays unset or takes its default.
pub proof fn lemma_project_absent_fields()
    ensures
        spec_project_from(JVal::Obj(Seq::empty())) == Some(
            ProjectV {
                id: None,
                name: None,
                description: None,
                created_by: None,
                created_date: None,
                due_date: None,
                public: None,
                members: None,
            },
        ),
{
    reveal_with_fuel(spec_lookup, 2);
}

/// The encoded form of a list of these records.
pub open spec fn spec_projects_json(s: Seq<ProjectV>) -> Seq<JVal> {
    Seq::new(s.len(), |i: int| spec_project_json(s[i]))
}

pub open spec fn spec_opt_projects_json(o: Option<Seq<ProjectV>>) -> JVal {
    match o {
        None => JVal::Null,
        Some(s) => JVal::Arr(spec_projects_json(s)),
    }
}

/// The decoding of a list of these records: every element must decode.
pub open spec fn spec_projects_from(es: Seq<JVal>) -> Option<Seq<ProjectV>> {
    if forall|i: int| 0 <= i < es.len() ==> (#[trigger] spec_project_from(es[i])) is Some {
        Some(Seq::new(es.len(), |i: int| spec_project_from(es[i]).unwrap()))
    } else {
        None
    }
}

pub open spec fn spec_field_opt_projects(
    fields: Seq<(Seq<char>, JVal)>,
    key: Seq<char>,
) -> Result<Option<Seq<ProjectV>>, ()> {
    match spec_lookup(fields, key) {
        None => Ok(None),
        Some(j) => match j {
            JVal::Null => Ok(None),
            JVal::Arr(es) => match spec_projects_from(es) {
                Some(s) => Ok(Some(s)),
                None => Err(()),
            },
            _ => Err(()),
        },
    }
}

pub fn project_list_to_json(v: &Vec<Project>) -> (r: JsonValue)
    ensures
        r@ == JVal::Arr(spec_projects_json(vviews(v@))),
{
    let mut a: Vec<JsonValue> = Vec::new();
    let mut i: usize = 0;
    while i < v.len()
        invariant
            i <= v.len(),
            a@.len() == i as int,
            forall|j: int| 0 <= j < i ==> jview(#[trigger] a@[j]) == spec_project_json(v@[j]@),
        decreases v.len() - i,
    {
        a.push(v[i].to_json());
        i = i + 1;
    }
    let r = JsonValue::Arr(a);
    proof {
        broadcast use lemma_jview_arr;

        assert forall|j: int| 0 <= j < v@.len() implies spec_elems(r->Arr_0@)[j]
            == spec_project_json(vviews(v@)[j]) by {
            assert(spec_elems(r->Arr_0@)[j] == jview(r->Arr_0@[j]));
        }
        assert(spec_elems(r->Arr_0@) =~= spec_projects_json(vviews(v@)));
    }
    r
}

#[verifier::loop_isolation(false)]
pub fn project_list_from_json(es: &Vec<JsonValue>) -> (r: Option<Vec<Project>>)
    ensures
        match r {
            Some(v) => spec_projects_from(spec_elems(es@)) == Some(vviews(v@)),
            None => spec_projects_from(spec_elems(es@)) is None,
        },
{
    let mut out: Vec<Project> = Vec::new();
    let mut i: usize = 0;
    while i < es.len()
        invariant
            i <= es.len(),
            out@.len() == i as int,
            forall|j: int|
                0 <= j < i ==> spec_project_from(#[trigger] spec_elems(es@)[j]) == Some(
                    out@[j]@,
                ),
        decreases es.len() - i,
    {
        proof {
            assert(spec_elems(es@)[i as int] == jview(es@[i as int]));
        }
        match Project::from_json(&es[i]) {
            Some(x) => out.push(x),
            None => {
                proof {
                    assert(spec_project_from(spec_elems(es@)[i as int]) is None);
                }
                return None;
            },
        }
        i = i + 1;
    }
    proof {
        assert(spec_projects_from(spec_elems(es@)) == Some(vviews(out@))) by {
            assert(Seq::new(
                spec_elems(es@).len(),
                |j: int| spec_project_from(spec_elems(es@)[j]).unwrap(),
            ) =~= vviews(out@));
        }
    }
    Some(out)
}

pub open spec fn spec_opt_project_json(o: Option<ProjectV>) -> JVal {
    match o {
        None => JVal::Null,
        Some(x) => spec_project_json(x),
    }
}

pub open spec fn spec_field_opt_project(
    fields: Seq<(Seq<char>, JVal)>,
    key: Seq<char>,
) -> Result<Option<ProjectV>, ()> {
    match spec_lookup(fields, key) {
        None => Ok(None),
        Some(j) => match j {
            JVal::Null => Ok(None),
            _ => match spec_project_from(j) {
                Some(t) => Ok(Some(t)),
                None => Err(()),
            },
        },
    }
}

/// A swim lane of a project. The ordered index decodes to zero when the
/// server leaves it out, as a non-optional field with a container default.
#[derive(Debug, PartialEq, Eq)]
pub struct List {
    pub id: Option<u64>,
    pub name: Option<String>,
    pub list_type: Option<String>,
    pub index: u32,
}

#[verifier::ext_equal]
pub struct ListV {
    pub id: Option<u64>,
    pub name: Option<Seq<char>>,
    pub list_type: Option<Seq<char>>,
    pub index: u32,
}

impl View for List {
    type V = ListV;

    open spec fn view(&self) -> ListV {
        ListV {
            id: self.id,
            name: ostr(self.name),
            list_type: ostr(self.list_type),
            index: self.index,
        }
    }
}

pub open spec fn spec_list_json(v: ListV) -> JVal {
    JVal::Obj(
        seq![
            ("id"@, spec_j_opt_num(v.id)),
            ("name"@, spec_j_opt_str(v.name)),
            ("type"@, spec_j_opt_str(v.list_type)),
            ("index"@, JVal::Num(v.index as int)),
        ],
    )
}

pub open spec fn spec_list_from(j: JVal) -> Option<ListV> {
    match j {
        JVal::Obj(fields) => {
            let id = spec_field_opt_u64(fields, "id"@);
            let name = spec_field_opt_str(fields, "name"@);
            let list_type = spec_field_opt_str(fields, "type"@);
            let index = spec_field_u32_default(fields, "index"@);
            if id is Err || name is Err || list_type is Err || index is Err {
                None
            } else {
                Some(
                    ListV {
                        id: id->Ok_0,
                        name: name->Ok_0,
                        list_type: list_type->Ok_0,
                        index: index->Ok_0,
                    },
                )
            }
        },
        _ => None,
    }
}

impl List {
    /// The record as a JSON document, with its wire field names; an unset
    /// field is sent as `null`.
    #[verifier::rlimit(100)]
    pub fn to_json(&self) -> (r: JsonValue)
        ensures
            r@ == spec_list_json(self@),
    {
        let mut f: Vec<(String, JsonValue)> = Vec::new();
        put_field(&mut f, "id", j_opt_u64(&self.id));
        put_field(&mut f, "name", j_opt_string(&self.name));
        put_field(&mut f, "type", j_opt_string(&self.list_type));
        put_field(&mut f, "index", JsonValue::UInt(self.index as u64));
        let r = JsonValue::Obj(f);
        proof {
            broadcast use lemma_jview_obj;

            assert(jview(r) == JVal::Obj(spec_fields(r->Obj_0@)));
            assert(spec_fields(r->Obj_0@) =~= spec_list_json(self@)->Obj_0);
        }
        r
    }

    /// The record a well-formed body decodes to; `None` when a present
    /// field has the wrong shape.
    pub fn from_json(v: &JsonValue) -> (r: Option<List>)
        ensures
            match r {
                Some(x) => spec_list_from(v@) == Some(x@),
                None => spec_list_from(v@) is None,
            },
    {
        proof {
            broadcast use lemma_jview_obj;
            broadcast use lemma_jview_arr;

        }
        match v {
            JsonValue::Obj(fields) => {
                let id = match field_opt_u64(fields, "id") {
                    Ok(x) => x,
                    Err(_) => {
                        return None;
                    },
                };
                let name = match field_opt_string(fields, "name") {
                    Ok(x) => x,
                    Err(_) => {
                        return None;
                    },
                };
                let list_type = match field_opt_string(fields, "type") {
                    Ok(x) => x,
                    Err(_) => {
                        return None;
                    },
                };
                let index = match field_u32_default(fields, "index") {
                    Ok(x) => x,
                    Err(_) => {
                        return None;
                    },
                };
                Some(List { id, name, list_type, index })
            },
            _ => None,
        }
    }
}

/// Decoding an encoded record gives back the same record.
#[verifier::rlimit(100)]
pub proof fn lemma_list_roundtrip(g: ListV)
    ensures
        spec_list_from(spec_list_json(g)) == Some(g),
{
    reveal_strlit("id");
    reveal_strlit("name");
    reveal_strlit("type");
    reveal_strlit("index");
    reveal_with_fuel(spec_lookup, 6);
    assert("id"@.len() == 2);
    assert("name"@.len() == 4);
    assert("type"@.len() == 4);
    assert("index"@.len() == 5);
    assert("name"@[0] == 'n');
    assert("type"@[0] == 't');
    assert("name"@ != "type"@);
    assert(spec_list_from(spec_list_json(g)) matches Some(h) && h =~= g);
}

/// A field absent from a decoded body stays unset or takes its default.
pub proof fn lemma_list_absent_fields()
    ensures
        spec_list_from(JVal::Obj(Seq::empty())) == Some(
            ListV {
                id: None,
                name: None,
                list_type: None,
                index: 0,
            },
        ),
{
    reveal_with_fuel(spec_lookup, 2);
}

/// The encoded form of a list of these records.
pub open spec fn spec_lists_json(s: Seq<ListV>) -> Seq<JVal> {
    Seq::new(s.len(), |i: int| spec_list_json(s[i]))
}

pub open spec fn spec_opt_lists_json(o: Option<Seq<ListV>>) -> JVal {
    match o {
        None => JVal::Null,
        Some(s) => JVal::Arr(spec_lists_json(s)),
    }
}

/// The decoding of a list of these records: every element must decode.
pub open spec fn spec_lists_from(es: Seq<JVal>) -> Option<Seq<ListV>> {
    if forall|i: int| 0 <= i < es.len() ==> (#[trigger] spec_list_from(es[i])) is Some {
        Some(Seq::new(es.len(), |i: int| spec_list_from(es[i]).unwrap()))
    } else {
        None
    }
}

pub open spec fn spec_field_opt_lists(
    fields: Seq<(Seq<char>, JVal)>,
    key: Seq<char>,
) -> Result<Option<Seq<ListV>>, ()> {
    match spec_lookup(fields, key) {
        None => Ok(None),
        Some(j) => match j {
            JVal::Null => Ok(None),
            JVal::Arr(es) => match spec_lists_from(es) {
                Some(s) => Ok(Some(s)),
                None => Err(()),
            },
            _ => Err(()),
        },
    }
}

pub fn list_list_to_json(v: &Vec<List>) -> (r: JsonValue)
    ensures
        r@ == JVal::Arr(spec_lists_json(vviews(v@))),
{
    let mut a: Vec<JsonValue> = Vec::new();
    let mut i: usize = 0;
    while i < v.len()
        invariant
            i <= v.len(),
            a@.len() == i as int,
            forall|j: int| 0 <= j < i ==> jview(#[trigger] a@[j]) == spec_list_json(v@[j]@),
        decreases v.len() - i,
    {
        a.push(v[i].to_json());
        i = i + 1;
    }
    let r = JsonValue::Arr(a);
    proof {
        broadcast use lemma_jview_arr;

        assert forall|j: int| 0 <= j < v@.len() implies spec_elems(r->Arr_0@)[j]
            == spec_list_json(vviews(v@)[j]) by {
            assert(spec_elems(r->Arr_0@)[j] == jview(r->Arr_0@[j]));
        }
        assert(spec_elems(r->Arr_0@) =~= spec_lists_json(vviews(v@)));
    }
    r
}

#[verifier::loop_isolation(false)]
pub fn list_list_from_json(es: &Vec<JsonValue>) -> (r: Option<Vec<List>>)
    ensures
        match r {
            Some(v) => spec_lists_from(spec_elems(es@)) == Some(vviews(v@)),
            None => spec_lists_from(spec_elems(es@)) is None,
        },
{
    let mut out: Vec<List> = Vec::new();
    let mut i: usize = 0;
    while i < es.len()
        invariant
            i <= es.len(),
            out@.len() == i as int,
            forall|j: int|
                0 <= j < i ==> spec_list_from(#[trigger] spec_elems(es@)[j]) == Some(
                    out@[j]@,
                ),
        decreases es.len() - i,
    {
        proof {
            assert(spec_elems(es@)[i as int] == jview(es@[i as int]));
        }
        match List::from_json(&es[i]) {
            Some(x) => out.push(x),
            None => {
                proof {
                    assert(spec_list_from(spec_elems(es@)[i as int]) is None);
                }
                return None;
            },
        }
        i = i + 1;
    }
    proof {
        assert(spec_lists_from(spec_elems(es@)) == Some(vviews(out@))) by {
            assert(Seq::new(
                spec_elems(es@).len(),
                |j: int| spec_list_from(spec_elems(es@)[j]).unwrap(),
            ) =~= vviews(out@));
        }
    }
    Some(out)
}

pub open spec fn spec_opt_list_json(o: Option<ListV>) -> JVal {
    match o {
        None => JVal::Null,
        Some(x) => spec_list_json(x),
    }
}

pub open spec fn spec_field_opt_list(
    fields: Seq<(Seq<char>, JVal)>,
    key: Seq<char>,
) -> Result<Option<ListV>, ()> {
    match spec_lookup(fields, key) {
        None => Ok(None),
        Some(j) => match j {
            JVal::Null => Ok(None),
            _ => match spec_list_from(j) {
                Some(t) => Ok(Some(t)),
                None => Err(()),
            },
        },
    }
}

/// A task of a project list: its dates, priority, people and tags. The
/// archived flag decodes to `false` when the server leaves it out.
#[derive(Debug, PartialEq, Eq)]
pub struct Task {
    pub id: Option<u64>,
    pub project_id: Option<u64>,
    pub project_list_id: Option<u64>,
    pub task_name: Option<String>,
    pub description: Option<String>,
    pub created_date: Option<String>,
    pub due_date: Option<String>,
    pub priority: Option<u32>,
    pub created_by: Option<u64>,
    pub owned_by: Option<u64>,
    pub contributors: Option<Vec<u64>>,
    pub attachment_count: Option<u32>,
    pub tags: Option<Vec<String>>,
    pub archived: bool,
}

#[verifier::ext_equal]
pub struct TaskV {
    pub id: Option<u64>,
    pub project_id: Option<u64>,
    pub project_list_id: Option<u64>,
    pub task_name: Option<Seq<char>>,
    pub description: Option<Seq<char>>,
    pub created_date: Option<Seq<char>>,
    pub due_date: Option<Seq<char>>,
    pub priority: Option<u32>,
    pub created_by: Option<u64>,
    pub owned_by: Option<u64>,
    pub contributors: Option<Seq<u64>>,
    pub attachment_count: Option<u32>,
    pub tags: Option<Seq<Seq<char>>>,
    pub archived: bool,
}

impl View for Task {
    type V = TaskV;

    open spec fn view(&self) -> TaskV {
        TaskV {
            id: self.id,
            project_id: self.project_id,
            project_list_id: self.project_list_id,
            task_name: ostr(self.task_name),
            description: ostr(self.description),
            created_date: ostr(self.created_date),
            due_date: ostr(self.due_date),
            priority: self.priority,
            created_by: self.created_by,
            owned_by: self.owned_by,
            contributors: onums(self.contributors),
            attachment_count: self.attachment_count,
            tags: ostrs(self.tags),
            archived: self.archived,
        }
    }
}

pub open spec fn spec_task_json(v: TaskV) -> JVal {
    JVal::Obj(
        seq![
            ("id"@, spec_j_opt_num(v.id)),
            ("projectId"@, spec_j_opt_num(v.project_id)),
            ("projectListId"@, spec_j_opt_num(v.project_list_id)),
            ("taskName"@, spec_j_opt_str(v.task_name)),
            ("description"@, spec_j_opt_str(v.description)),
            ("createdDate"@, spec_j_opt_str(v.created_date)),
            ("dueDate"@, spec_j_opt_str(v.due_date)),
            ("priority"@, spec_j_opt_num32(v.priority)),
            ("createdBy"@, spec_j_opt_num(v.created_by)),
            ("ownedBy"@, spec_j_opt_num(v.owned_by)),
            ("contributors"@, spec_j_opt_num_arr(v.contributors)),
            ("attachmentCount"@, spec_j_opt_num32(v.attachment_count)),
            ("tags"@, spec_j_opt_str_arr(v.tags)),
            ("archived"@, JVal::Bool(v.archived)),
        ],
    )
}

pub open spec fn spec_task_from(j: JVal) -> Option<TaskV> {
    match j {
        JVal::Obj(fields) => {
            let id = spec_field_opt_u64(fields, "id"@);
            let project_id = spec_field_opt_u64(fields, "projectId"@);
            let project_list_id = spec_field_opt_u64(fields, "projectListId"@);
            let task_name = spec_field_opt_str(fields, "taskName"@);
            let description = spec_field_opt_str(fields, "description"@);
            let created_date = spec_field_opt_str(fields, "createdDate"@);
            let due_date = spec_field_opt_str(fields, "dueDate"@);
            let priority = spec_field_opt_u32(fields, "priority"@);
            let created_by = spec_field_opt_u64(fields, "createdBy"@);
            let owned_by = spec_field_opt_u64(fields, "ownedBy"@);
            let contributors = spec_field_opt_num_arr(fields, "contributors"@);
            let attachment_count = spec_field_opt_u32(fields, "attachmentCount"@);
            let tags = spec_field_opt_str_arr(fields, "tags"@);
            let archived = spec_field_bool_default(fields, "archived"@);
            if id is Err || project_id is Err || project_list_id is Err || task_name is Err || description is Err || created_date is Err || due_date is Err || priority is Err || created_by is Err || owned_by is Err || contributors is Err || attachment_count is Err || tags is Err || archived is Err {
                None
            } else {
                Some(
                    TaskV {
                        id: id->Ok_0,
                        project_id: project_id->Ok_0,
                        project_list_id: project_list_id->Ok_0,
                        task_name: task_name->Ok_0,
                        description: description->Ok_0,
                        created_date: created_date->Ok_0,
                        due_date: due_date->Ok_0,
                        priority: priority->Ok_0,
                        created_by: created_by->Ok_0,
                        owned_by: owned_by->Ok_0,
                        contributors: contributors->Ok_0,
                        attachment_count: attachment_count->Ok_0,
                        tags: tags->Ok_0,
                        archived: archived->Ok_0,
                    },
                )
            }
        },
        _ => None,
    }
}

impl Task {
    /// The record as a JSON document, with its wire field names; an unset
    /// field is sent as `null`.
    #[verifier::rlimit(100)]
    pub fn to_json(&self) -> (r: JsonValue)
        ensures
            r@ == spec_task_json(self@),
    {
        let mut f: Vec<(String, JsonValue)> = Vec::new();
        put_field(&mut f, "id", j_opt_u64(&self.id));
        put_field(&mut f, "projectId", j_opt_u64(&self.project_id));
        put_field(&mut f, "projectListId", j_opt_u64(&self.project_list_id));
        put_field(&mut f, "taskName", j_opt_string(&self.task_name));
        put_field(&mut f, "description", j_opt_string(&self.description));
        put_field(&mut f, "createdDate", j_opt_string(&self.created_date));
        put_field(&mut f, "dueDate", j_opt_string(&self.due_date));
        put_field(&mut f, "priority", j_opt_u32(&self.priority));
        put_field(&mut f, "createdBy", j_opt_u64(&self.created_by));
        put_field(&mut f, "ownedBy", j_opt_u64(&self.owned_by));
        put_field(&mut f, "contributors", j_opt_num_arr(&self.contributors));
        put_field(&mut f, "attachmentCount", j_opt_u32(&self.attachment_count));
        put_field(&mut f, "tags", j_opt_str_arr(&self.tags));
        put_field(&mut f, "archived", JsonValue::Bool(self.archived));
        let r = JsonValue::Obj(f);
        proof {
            broadcast use lemma_jview_obj;

            assert(jview(r) == JVal::Obj(spec_fields(r->Obj_0@)));
            assert(spec_fields(r->Obj_0@) =~= spec_task_json(self@)->Obj_0);
        }
        r
    }

    /// The record a well-formed body decodes to; `None` when a present
    /// field has the wrong shape.
    pub fn from_json(v: &JsonValue) -> (r: Option<Task>)
        ensures
            match r {
                Some(x) => spec_task_from(v@) == Some(x@),
                None => spec_task_from(v@) is None,
            },
    {
        proof {
            broadcast use lemma_jview_obj;
            broadcast use lemma_jview_arr;

        }
        match v {
            JsonValue::Obj(fields) => {
                let id = match field_opt_u64(fields, "id") {
                    Ok(x) => x,
                    Err(_) => {
                        return None;
                    },
                };
                let project_id = match field_opt_u64(fields, "projectId") {
                    Ok(x) => x,
                    Err(_) => {
                        return None;
                    },
                };
                let project_list_id = match field_opt_u64(fields, "projectListId") {
                    Ok(x) => x,
                    Err(_) => {
                        return None;
                    },
                };
                let task_name = match field_opt_string(fields, "taskName") {
                    Ok(x) => x,
                    Err(_) => {
                        return None;
                    },
                };
                let description = match field_opt_string(fields, "description") {
                    Ok(x) => x,
                    Err(_) => {
                        return None;
                    },
                };
                let created_date = match field_opt_string(fields, "createdDate") {
                    Ok(x) => x,
                    Err(_) => {
                        return None;
                    },
                };
                let due_date = match field_opt_string(fields, "dueDate") {
                    Ok(x) => x,
                    Err(_) => {
                        return None;
                    },
                };
                let priority = match field_opt_u32(fields, "priority") {
                    Ok(x) => x,
                    Err(_) => {
                        return None;
                    },
                };
                let created_by = match field_opt_u64(fields, "createdBy") {
                    Ok(x) => x,
                    Err(_) => {
                        return None;
                    },
                };
                let owned_by = match field_opt_u64(fields, "ownedBy") {
                    Ok(x) => x,
                    Err(_) => {
                        return None;
                    },
                };
                let contributors = match field_opt_num_arr(fields, "contributors") {
                    Ok(x) => x,
                    Err(_) => {
                        return None;
                    },
                };
                let attachment_count = match field_opt_u32(fields, "attachmentCount") {
                    Ok(x) => x,
                    Err(_) => {
                        return None;
                    },
                };
                let tags = match field_opt_str_arr(fields, "tags") {
                    Ok(x) => x,
                    Err(_) => {
                        return None;
                    },
                };
                let archived = match field_bool_default(fields, "archived") {
                    Ok(x) => x,
                    Err(_) => {
                        return None;
                    },
                };
                Some(Task { id, project_id, project_list_id, task_name, description, created_date, due_date, priority, created_by, owned_by, contributors, attachment_count, tags, archived })
            },
            _ => None,
        }
    }
}

/// Decoding an encoded record gives back the same record.
#[verifier::rlimit(100)]
pub proof fn lemma_task_roundtrip(g: TaskV)
    ensures
        spec_task_from(spec_task_json(g)) == Some(g),
{
    reveal_strlit("id");
    reveal_strlit("projectId");
    reveal_strlit("projectListId");
    reveal_strlit("taskName");
    reveal_strlit("description");
    reveal_strlit("createdDate");
    reveal_strlit("dueDate");
    reveal_strlit("priority");
    reveal_strlit("createdBy");
    reveal_strlit("ownedBy");
    reveal_strlit("contributors");
    reveal_strlit("attachmentCount");
    reveal_strlit("tags");
    reveal_strlit("archived");
    reveal_with_fuel(spec_lookup, 16);
    assert("id"@.len() == 2);
    assert("projectId"@.len() == 9);
    assert("projectListId"@.len() == 13);
    assert("taskName"@.len() == 8);
    assert("description"@.len() == 11);
    assert("createdDate"@.len() == 11);
    assert("dueDate"@.len() == 7);
    assert("priority"@.len() == 8);
    assert("createdBy"@.len() == 9);
    assert("ownedBy"@.len() == 7);
    assert("contributors"@.len() == 12);
    assert("attachmentCount"@.len() == 15);
    assert("tags"@.len() == 4);
    assert("archived"@.len() == 8);
    assert("projectId"@[0] == 'p');
    assert("createdBy"@[0] == 'c');
    assert("projectId"@ != "createdBy"@);
    assert("taskName"@[0] == 't');
    assert("priority"@[0] == 'p');
    assert("taskName"@ != "priority"@);
    assert("taskName"@[0] == 't');
    assert("archived"@[0] == 'a');
    assert("taskName"@ != "archived"@);
    assert("description"@[0] == 'd');
    assert("createdDate"@[0] == 'c');
    assert("description"@ != "createdDate"@);
    assert("dueDate"@[0] == 'd');
    assert("ownedBy"@[0] == 'o');
    assert("dueDate"@ != "ownedBy"@);
    assert("priority"@[0] == 'p');
    assert("archived"@[0] == 'a');
    assert("priority"@ != "archived"@);
    assert(spec_task_from(spec_task_json(g)) matches Some(h) && h =~= g);
}

/// A field absent from a decoded body stays unset or takes its default.
pub proof fn lemma_task_absent_fields()
    ensures
        spec_task_from(JVal::Obj(Seq::empty())) == Some(
            TaskV {
                id: None,
                project_id: None,
                project_list_id: None,
                task_name: None,
                description: None,
                created_date: None,
                due_date: None,
                priority: None,
                created_by: None,
                owned_by: None,
                contributors: None,
                attachment_count: None,
                tags: None,
                archived: false,
            },
        ),
{
    reveal_with_fuel(spec_lookup, 2);
}

/// The encoded form of a list of these records.
pub open spec fn spec_tasks_json(s: Seq<TaskV>) -> Seq<JVal> {
    Seq::new(s.len(), |i: int| spec_task_json(s[i]))
}

pub open spec fn spec_opt_tasks_json(o: Option<Seq<TaskV>>) -> JVal {
    match o {
        None => JVal::Null,
        Some(s) => JVal::Arr(spec_tasks_json(s)),
    }
}

/// The decoding of a list of these records: every element must decode.
pub open spec fn spec_tasks_from(es: Seq<JVal>) -> Option<Seq<TaskV>> {
    if forall|i: int| 0 <= i < es.len() ==> (#[trigger] spec_task_from(es[i])) is Some {
        Some(Seq::new(es.len(), |i: int| spec_task_from(es[i]).unwrap()))
    } else {
        None
    }
}

pub open spec fn spec_field_opt_tasks(
    fields: Seq<(Seq<char>, JVal)>,
    key: Seq<char>,
) -> Result<Option<Seq<TaskV>>, ()> {
    match spec_lookup(fields, key) {
        None => Ok(None),
        Some(j) => match j {
            JVal::Null => Ok(None),
            JVal::Arr(es) => match spec_tasks_from(es) {
                Some(s) => Ok(Some(s)),
                None => Err(()),
            },
            _ => Err(()),
        },
    }
}

pub fn task_list_to_json(v: &Vec<Task>) -> (r: JsonValue)
    ensures
        r@ == JVal::Arr(spec_tasks_json(vviews(v@))),
{
    let mut a: Vec<JsonValue> = Vec::new();
    let mut i: usize = 0;
    while i < v.len()
        invariant
            i <= v.len(),
            a@.len() == i as int,
            forall|j: int| 0 <= j < i ==> jview(#[trigger] a@[j]) == spec_task_json(v@[j]@),
        decreases v.len() - i,
    {
        a.push(v[i].to_json());
        i = i + 1;
    }
    let r = JsonValue::Arr(a);
    proof {
        broadcast use lemma_jview_arr;

        assert forall|j: int| 0 <= j < v@.len() implies spec_elems(r->Arr_0@)[j]
            == spec_task_json(vviews(v@)[j]) by {
            assert(spec_elems(r->Arr_0@)[j] == jview(r->Arr_0@[j]));
        }
        assert(spec_elems(r->Arr_0@) =~= spec_tasks_json(vviews(v@)));
    }
    r
}

#[verifier::loop_isolation(false)]
pub fn task_list_from_json(es: &Vec<JsonValue>) -> (r: Option<Vec<Task>>)
    ensures
        match r {
            Some(v) => spec_tasks_from(spec_elems(es@)) == Some(vviews(v@)),
            None => spec_tasks_from(spec_elems(es@)) is None,
        },
{
    let mut out: Vec<Task> = Vec::new();
    let mut i: usize = 0;
    while i < es.len()
        invariant
            i <= es.len(),
            out@.len() == i as int,
            forall|j: int|
                0 <= j < i ==> spec_task_from(#[trigger] spec_elems(es@)[j]) == Some(
                    out@[j]@,
                ),
        decreases es.len() - i,
    {
        proof {
            assert(spec_elems(es@)[i as int] == jview(es@[i as int]));
        }
        match Task::from_json(&es[i]) {
            Some(x) => out.push(x),
            None => {
                proof {
                    assert(spec_task_from(spec_elems(es@)[i as int]) is None);
                }
                return None;
            },
        }
        i = i + 1;
    }
    proof {
        assert(spec_tasks_from(spec_elems(es@)) == Some(vviews(out@))) by {
            assert(Seq::new(
                spec_elems(es@).len(),
                |j: int| spec_task_from(spec_elems(es@)[j]).unwrap(),
            ) =~= vviews(out@));
        }
    }
    Some(out)
}

pub open spec fn spec_opt_task_json(o: Option<TaskV>) -> JVal {
    match o {
        None => JVal::Null,
        Some(x) => spec_task_json(x),
    }
}

pub open spec fn spec_field_opt_task(
    fields: Seq<(Seq<char>, JVal)>,
    key: Seq<char>,
) -> Result<Option<TaskV>, ()> {
    match spec_lookup(fields, key) {
        None => Ok(None),
        Some(j) => match j {
            JVal::Null => Ok(None),
            _ => match spec_task_from(j) {
                Some(t) => Ok(Some(t)),
                None => Err(()),
            },
        },
    }
}

/// A file attached to a task.
#[derive(Debug, PartialEq, Eq)]
pub struct Attachment {
    pub id: Option<u32>,
    pub task_id: Option<u32>,
    pub created_date: Option<String>,
    pub file_name: Option<String>,
    pub mime_type: Option<String>,
}

#[verifier::ext_equal]
pub struct AttachmentV {
    pub id: Option<u32>,
    pub task_id: Option<u32>,
    pub created_date: Option<Seq<char>>,
    pub file_name: Option<Seq<char>>,
    pub mime_type: Option<Seq<char>>,
}

impl View for Attachment {
    type V = AttachmentV;

    open spec fn view(&self) -> AttachmentV {
        AttachmentV {
            id: self.id,
            task_id: self.task_id,
            created_date: ostr(self.created_date),
            file_name: ostr(self.file_name),
            mime_type: ostr(self.mime_type),
        }
    }
}

pub open spec fn spec_attachment_json(v: AttachmentV) -> JVal {
    JVal::Obj(
        seq![
            ("id"@, spec_j_opt_num32(v.id)),
            ("taskId"@, spec_j_opt_num32(v.task_id)),
            ("createdDate"@, spec_j_opt_str(v.created_date)),
            ("fileName"@, spec_j_opt_str(v.file_name)),
            ("mimeType"@, spec_j_opt_str(v.mime_type)),
        ],
    )
}

pub open spec fn spec_attachment_from(j: JVal) -> Option<AttachmentV> {
    match j {
        JVal::Obj(fields) => {
            let id = spec_field_opt_u32(fields, "id"@);
            let task_id = spec_field_opt_u32(fields, "taskId"@);
            let created_date = spec_field_opt_str(fields, "createdDate"@);
            let file_name = spec_field_opt_str(fields, "fileName"@);
            let mime_type = spec_field_opt_str(fields, "mimeType"@);
            if id is Err || task_id is Err || created_date is Err || file_name is Err || mime_type is Err {
                None
            } else {
                Some(
                    AttachmentV {
                        id: id->Ok_0,
                        task_id: task_id->Ok_0,
                        created_date: created_date->Ok_0,
                        file_name: file_name->Ok_0,
                        mime_type: mime_type->Ok_0,
                    },
                )
            }
        },
        _ => None,
    }
}

impl Attachment {
    /// The record as a JSON document, with its wire field names; an unset
    /// field is sent as `null`.
    #[verifier::rlimit(100)]
    pub fn to_json(&self) -> (r: JsonValue)
        ensures
            r@ == spec_attachment_json(self@),
    {
        let mut f: Vec<(String, JsonValue)> = Vec::new();
        put_field(&mut f, "id", j_opt_u32(&self.id));
        put_field(&mut f, "taskId", j_opt_u32(&self.task_id));
        put_field(&mut f, "createdDate", j_opt_string(&self.created_date));
        put_field(&mut f, "fileName", j_opt_string(&self.file_name));
        put_field(&mut f, "mimeType", j_opt_string(&self.mime_type));
        let r = JsonValue::Obj(f);
        proof {
            broadcast use lemma_jview_obj;

            assert(jview(r) == JVal::Obj(spec_fields(r->Obj_0@)));
            assert(spec_fields(r->Obj_0@) =~= spec_attachment_json(self@)->Obj_0);
        }
        r
    }

    /// The record a well-formed body decodes to; `None` when a present
    /// field has the wrong shape.
    pub fn from_json(v: &JsonValue) -> (r: Option<Attachment>)
        ensures
            match r {
                Some(x) => spec_attachment_from(v@) == Some(x@),
                None => spec_attachment_from(v@) is None,
            },
    {
        proof {
            broadcast use lemma_jview_obj;
            broadcast use lemma_jview_arr;

        }
        match v {
            JsonValue::Obj(fields) => {
                let id = match field_opt_u32(fields, "id") {
                    Ok(x) => x,
                    Err(_) => {
                        return None;
                    },
                };
                let task_id = match field_opt_u32(fields, "taskId") {
                    Ok(x) => x,
                    Err(_) => {
                        return None;
                    },
                };
                let created_date = match field_opt_string(fields, "createdDate") {
                    Ok(x) => x,
                    Err(_) => {
                        return None;
                    },
                };
                let file_name = match field_opt_string(fields, "fileName") {
                    Ok(x) => x,
                    Err(_) => {
                        return None;
                    },
                };
                let mime_type = match field_opt_string(fields, "mimeType") {
                    Ok(x) => x,
                    Err(_) => {
                        return None;
                    },
                };
                Some(Attachment { id, task_id, created_date, file_name, mime_type })
            },
            _ => None,
        }
    }
}

/// Decoding an encoded record gives back the same record.
#[verifier::rlimit(100)]
pub proof fn lemma_attachment_roundtrip(g: AttachmentV)
    ensures
        spec_attachment_from(spec_attachment_json(g)) == Some(g),
{
    reveal_strlit("id");
    reveal_strlit("taskId");
    reveal_strlit("createdDate");
    reveal_strlit("fileName");
    reveal_strlit("mimeType");
    reveal_with_fuel(spec_lookup, 7);
    assert("id"@.len() == 2);
    assert("taskId"@.len() == 6);
    assert("createdDate"@.len() == 11);
    assert("fileName"@.len() == 8);
    assert("mimeType"@.len() == 8);
    assert("fileName"@[0] == 'f');
    assert("mimeType"@[0] == 'm');
    assert("fileName"@ != "mimeType"@);
    assert(spec_attachment_from(spec_attachment_json(g)) matches Some(h) && h =~= g);
}

/// A field absent from a decoded body stays unset or takes its default.
pub proof fn lemma_attachment_absent_fields()
    ensures
        spec_attachment_from(JVal::Obj(Seq::empty())) == Some(
            AttachmentV {
                id: None,
                task_id: None,
                created_date: None,
                file_name: None,
                mime_type: None,
            },
        ),
{
    reveal_with_fuel(spec_lookup, 2);
}

/// The encoded form of a list of these records.
pub open spec fn spec_attachments_json(s: Seq<AttachmentV>) -> Seq<JVal> {
    Seq::new(s.len(), |i: int| spec_attachment_json(s[i]))
}

pub open spec fn spec_opt_attachments_json(o: Option<Seq<AttachmentV>>) -> JVal {
    match o {
        None => JVal::Null,
        Some(s) => JVal::Arr(spec_attachments_json(s)),
    }
}

/// The decoding of a list of these records: every element must decode.
pub open spec fn spec_attachments_from(es: Seq<JVal>) -> Option<Seq<AttachmentV>> {
    if forall|i: int| 0 <= i < es.len() ==> (#[trigger] spec_attachment_from(es[i])) is Some {
        Some(Seq::new(es.len(), |i: int| spec_attachment_from(es[i]).unwrap()))
    } else {
        None
    }
}

pub open spec fn spec_field_opt_attachments(
    fields: Seq<(Seq<char>, JVal)>,
    key: Seq<char>,
) -> Result<Option<Seq<AttachmentV>>, ()> {
    match spec_lookup(fields, key) {
        None => Ok(None),
        Some(j) => match j {
            JVal::Null => Ok(None),
            JVal::Arr(es) => match spec_attachments_from(es) {
                Some(s) => Ok(Some(s)),
                None => Err(()),
            },
            _ => Err(()),
        },
    }
}

pub fn attachment_list_to_json(v: &Vec<Attachment>) -> (r: JsonValue)
    ensures
        r@ == JVal::Arr(spec_attachments_json(vviews(v@))),
{
    let mut a: Vec<JsonValue> = Vec::new();
    let mut i: usize = 0;
    while i < v.len()
        invariant
            i <= v.len(),
            a@.len() == i as int,
            forall|j: int| 0 <= j < i ==> jview(#[trigger] a@[j]) == spec_attachment_json(v@[j]@),
        decreases v.len() - i,
    {
        a.push(v[i].to_json());
        i = i + 1;
    }
    let r = JsonValue::Arr(a);
    proof {
        broadcast use lemma_jview_arr;

        assert forall|j: int| 0 <= j < v@.len() implies spec_elems(r->Arr_0@)[j]
            == spec_attachment_json(vviews(v@)[j]) by {
            assert(spec_elems(r->Arr_0@)[j] == jview(r->Arr_0@[j]));
        }
        assert(spec_elems(r->Arr_0@) =~= spec_attachments_json(vviews(v@)));
    }
    r
}

#[verifier::loop_isolation(false)]
pub fn attachment_list_from_json(es: &Vec<JsonValue>) -> (r: Option<Vec<Attachment>>)
    ensures
        match r {
            Some(v) => spec_attachments_from(spec_elems(es@)) == Some(vviews(v@)),
            None => spec_attachments_from(spec_elems(es@)) is None,
        },
{
    let mut out: Vec<Attachment> = Vec::new();
    let mut i: usize = 0;
    while i < es.len()
        invariant
            i <= es.len(),
            out@.len() == i as int,
            forall|j: int|
                0 <= j < i ==> spec_attachment_from(#[trigger] spec_elems(es@)[j]) == Some(
                    out@[j]@,
                ),
        decreases es.len() - i,
    {
        proof {
            assert(spec_elems(es@)[i as int] == jview(es@[i as int]));
        }
        match Attachment::from_json(&es[i]) {
            Some(x) => out.push(x),
            None => {
                proof {
                    assert(spec_attachment_from(spec_elems(es@)[i as int]) is None);
                }
                return None;
            },
        }
        i = i + 1;
    }
    proof {
        assert(spec_attachments_from(spec_elems(es@)) == Some(vviews(out@))) by {
            assert(Seq::new(
                spec_elems(es@).len(),
                |j: int| spec_attachment_from(spec_elems(es@)[j]).unwrap(),
            ) =~= vviews(out@));
        }
    }
    Some(out)
}

pub open spec fn spec_opt_attachment_json(o: Option<AttachmentV>) -> JVal {
    match o {
        None => JVal::Null,
        Some(x) => spec_attachment_json(x),
    }
}

pub open spec fn spec_field_opt_attachment(
    fields: Seq<(Seq<char>, JVal)>,
    key: Seq<char>,
) -> Result<Option<AttachmentV>, ()> {
    match spec_lookup(fields, key) {
        None => Ok(None),
        Some(j) => match j {
            JVal::Null => Ok(None),
            _ => match spec_attachment_from(j) {
                Some(t) => Ok(Some(t)),
                None => Err(()),
            },
        },
    }
}

impl Project {
    /// A project with every field unset.
    pub fn new() -> (r: Self)
        ensures
            r@ == (ProjectV {
                id: None,
                name: None,
                description: None,
                created_by: None,
                created_date: None,
                due_date: None,
                public: None,
                members: None,
            }),
    {
        Project {
            id: None,
            name: None,
            description: None,
            created_by: None,
            created_date: None,
            due_date: None,
            public: None,
            members: None,
        }
    }

    /// A placeholder project for seeding an interactive edit buffer. The
    /// dates hold a fixed placeholder instant.
    pub fn template() -> (r: Self)
        ensures
            r@.id == Some("0"@),
            r@.name == Some("Project Name"@),
            r@.description == Some("Project Description"@),
            r@.created_by == Some(12345u64),
            r@.created_date == Some("1970-01-01T00:00:00Z"@),
            r@.due_date == Some("1970-01-01T00:00:00Z"@),
            r@.public == Some(true),
            r@.members matches Some(m) && m =~= seq![0u64, 1u64, 2u64, 3u64],
    {
        let mut members: Vec<u64> = Vec::new();
        members.push(0);
        members.push(1);
        members.push(2);
        members.push(3);
        let r = Project {
            id: Some("0".to_owned()),
            name: Some("Project Name".to_owned()),
            description: Some("Project Description".to_owned()),
            created_by: Some(12345),
            created_date: Some("1970-01-01T00:00:00Z".to_owned()),
            due_date: Some("1970-01-01T00:00:00Z".to_owned()),
            public: Some(true),
            members: Some(members),
        };
        r
    }
}

impl List {
    /// A list with every field unset and index zero.
    pub fn new() -> (r: Self)
        ensures
            r@ == (ListV { id: None, name: None, list_type: None, index: 0u32 }),
    {
        List { id: None, name: None, list_type: None, index: 0 }
    }

    /// A placeholder list for seeding an interactive edit buffer.
    pub fn template() -> (r: Self)
        ensures
            r@.id == Some(0u64),
            r@.name == Some("List Name"@),
            r@.list_type == Some(""@),
            r@.index == 0u32,
    {
        List {
            id: Some(0),
            name: Some("List Name".to_owned()),
            list_type: Some("".to_owned()),
            index: 0,
        }
    }
}

impl Task {
    /// A task with every field unset and the archived flag clear.
    pub fn new() -> (r: Self)
        ensures
            r@ == (TaskV {
                id: None,
                project_id: None,
                project_list_id: None,
                task_name: None,
                description: None,
                created_date: None,
                due_date: None,
                priority: None,
                created_by: None,
                owned_by: None,
                contributors: None,
                attachment_count: None,
                tags: None,
                archived: false,
            }),
    {
        Task {
            id: None,
            project_id: None,
            project_list_id: None,
            task_name: None,
            description: None,
            created_date: None,
            due_date: None,
            priority: None,
            created_by: None,
            owned_by: None,
            contributors: None,
            attachment_count: None,
            tags: None,
            archived: false,
        }
    }

    /// A placeholder task for seeding an interactive edit buffer. The dates
    /// hold a fixed placeholder instant.
    pub fn template() -> (r: Self)
        ensures
            r@.id == Some(0u64),
            r@.project_id == Some(0u64),
            r@.project_list_id == Some(0u64),
            r@.task_name == Some("Task Name"@),
            r@.description == Some("Task Description"@),
            r@.created_date == Some("1970-01-01T00:00:00Z"@),
            r@.due_date == Some("1970-01-01T00:00:00Z"@),
            r@.priority == Some(0u32),
            r@.created_by == Some(27u64),
            r@.owned_by == Some(27u64),
            r@.contributors matches Some(c) && c =~= seq![0u64, 1u64, 2u64, 3u64],
            r@.attachment_count == Some(0u32),
            r@.tags matches Some(t) && t =~= seq!["A"@, "B"@, "C"@],
            r@.archived == false,
    {
        let mut contributors: Vec<u64> = Vec::new();
        contributors.push(0);
        contributors.push(1);
        contributors.push(2);
        contributors.push(3);
        let mut tags: Vec<String> = Vec::new();
        tags.push("A".to_owned());
        tags.push("B".to_owned());
        tags.push("C".to_owned());
        let r = Task {
            id: Some(0),
            project_id: Some(0),
            project_list_id: Some(0),
            task_name: Some("Task Name".to_owned()),
            description: Some("Task Description".to_owned()),
            created_date: Some("1970-01-01T00:00:00Z".to_owned()),
            due_date: Some("1970-01-01T00:00:00Z".to_owned()),
            priority: Some(0),
            created_by: Some(27),
            owned_by: Some(27),
            contributors: Some(contributors),
            attachment_count: Some(0),
            tags: Some(tags),
            archived: false,
        };
        proof {
            assert(r@.tags matches Some(t) && t =~= seq!["A"@, "B"@, "C"@]);
        }
        r
    }
}


impl Client {
    /// The request for every project the credential's scope can see.
    pub fn get_projects(&self) -> (r: ApiRequest)
        ensures
            r@.method == Method::Get,
            r@.url == self@.host + "/v1/projects/"@,
            r@.scope == "workflow"@,
            r@.query == Seq::<(Seq<char>, Seq<char>)>::empty(),
            r@.body is None,
    {
        ApiRequest::new(
            Method::Get,
            str_concat(self.host.as_str(), "/v1/projects/"),
            "workflow",
        )
    }

    /// The request that creates a project from the given record.
    pub fn post_project(&self, project: Project) -> (r: ApiRequest)
        ensures
            r@.method == Method::Post,
            r@.url == self@.host + "/v1/projects"@,
            r@.scope == "workflow"@,
            r@.query == Seq::<(Seq<char>, Seq<char>)>::empty(),
            r@.body == Some(ReqBodyV::Json(spec_project_json(project@))),
    {
        let mut r = ApiRequest::new(
            Method::Post,
            str_concat(self.host.as_str(), "/v1/projects"),
            "workflow",
        );
        r.body = Some(ReqBody::Json(project.to_json()));
        r
    }

    /// The request for one project by id.
    pub fn get_project(&self, id: &str) -> (r: ApiRequest)
        ensures
            r@.method == Method::Get,
            r@.url == self@.host + "/v1/projects/"@ + id@,
            r@.scope == "workflow"@,
            r@.query == Seq::<(Seq<char>, Seq<char>)>::empty(),
            r@.body is None,
    {
        let mut url = str_concat(self.host.as_str(), "/v1/projects/");
        url.append(id);
        ApiRequest::new(Method::Get, url, "workflow")
    }

    /// The request that updates a project by id from the given record.
    pub fn put_project(&self, id: &str, project: Project) -> (r: ApiRequest)
        ensures
            r@.method == Method::Put,
            r@.url == self@.host + "/v1/projects/"@ + id@,
            r@.scope == "workflow"@,
            r@.query == Seq::<(Seq<char>, Seq<char>)>::empty(),
            r@.body == Some(ReqBodyV::Json(spec_project_json(project@))),
    {
        let mut url = str_concat(self.host.as_str(), "/v1/projects/");
        url.append(id);
        let mut r = ApiRequest::new(Method::Put, url, "workflow");
        r.body = Some(ReqBody::Json(project.to_json()));
        r
    }

    /// The request that deletes a project by id.
    pub fn delete_project(&self, id: &str) -> (r: ApiRequest)
        ensures
            r@.method == Method::Delete,
            r@.url == self@.host + "/v1/projects/"@ + id@,
            r@.scope == "workflow"@,
            r@.query == Seq::<(Seq<char>, Seq<char>)>::empty(),
            r@.body is None,
    {
        let mut url = str_concat(self.host.as_str(), "/v1/projects/");
        url.append(id);
        ApiRequest::new(Method::Delete, url, "workflow")
    }

    /// The request for the user ids of a project's members.
    pub fn get_project_members(&self, id: &str) -> (r: ApiRequest)
        ensures
            r@.method == Method::Get,
            r@.url == self@.host + "/v1/projects/"@ + id@ + "/members"@,
            r@.scope == "workflow"@,
            r@.query == Seq::<(Seq<char>, Seq<char>)>::empty(),
            r@.body is None,
    {
        let mut url = str_concat(self.host.as_str(), "/v1/projects/");
        url.append(id);
        url.append("/members");
        ApiRequest::new(Method::Get, url, "workflow")
    }

    /// The request that replaces a project's member list; the body is the
    /// list of user ids.
    pub fn put_project_members(&self, id: &str, members: &Vec<u64>) -> (r: ApiRequest)
        ensures
            r@.method == Method::Put,
            r@.url == self@.host + "/v1/projects/"@ + id@ + "/members"@,
            r@.scope == "workflow"@,
            r@.query == Seq::<(Seq<char>, Seq<char>)>::empty(),
            r@.body == Some(ReqBodyV::Json(spec_j_num_arr(members@))),
    {
        let mut url = str_concat(self.host.as_str(), "/v1/projects/");
        url.append(id);
        url.append("/members");
        let mut r = ApiRequest::new(Method::Put, url, "workflow");
        r.body = Some(ReqBody::Json(j_num_arr(members)));
        r
    }

    /// The request for a project's lists.
    pub fn get_project_lists(&self, id: &str) -> (r: ApiRequest)
        ensures
            r@.method == Method::Get,
            r@.url == self@.host + "/v1/projects/"@ + id@ + "/lists"@,
            r@.scope == "workflow"@,
            r@.query == Seq::<(Seq<char>, Seq<char>)>::empty(),
            r@.body is None,
    {
        let mut url = str_concat(self.host.as_str(), "/v1/projects/");
        url.append(id);
        url.append("/lists");
        ApiRequest::new(Method::Get, url, "workflow")
    }

    /// The request that creates a list in a project.
    pub fn post_project_list(&self, id: &str, list: List) -> (r: ApiRequest)
        ensures
            r@.method == Method::Post,
            r@.url == self@.host + "/v1/projects/"@ + id@ + "/lists"@,
            r@.scope == "workflow"@,
            r@.query == Seq::<(Seq<char>, Seq<char>)>::empty(),
            r@.body == Some(ReqBodyV::Json(spec_list_json(list@))),
    {
        let mut url = str_concat(self.host.as_str(), "/v1/projects/");
        url.append(id);
        url.append("/lists");
        let mut r = ApiRequest::new(Method::Post, url, "workflow");
        r.body = Some(ReqBody::Json(list.to_json()));
        r
    }

    /// The request for one list of a project.
    pub fn get_project_list(&self, id: &str, list_id: &str) -> (r: ApiRequest)
        ensures
            r@.method == Method::Get,
            r@.url == self@.host + "/v1/projects/"@ + id@ + "/lists/"@ + list_id@,
            r@.scope == "workflow"@,
            r@.query == Seq::<(Seq<char>, Seq<char>)>::empty(),
            r@.body is None,
    {
        let mut url = str_concat(self.host.as_str(), "/v1/projects/");
        url.append(id);
        url.append("/lists/");
        url.append(list_id);
        ApiRequest::new(Method::Get, url, "workflow")
    }

    /// The request that updates one list of a project.
    pub fn put_project_list(&self, id: &str, list_id: &str, list: List) -> (r: ApiRequest)
        ensures
            r@.method == Method::Put,
            r@.url == self@.host + "/v1/projects/"@ + id@ + "/lists/"@ + list_id@,
            r@.scope == "workflow"@,
            r@.query == Seq::<(Seq<char>, Seq<char>)>::empty(),
            r@.body == Some(ReqBodyV::Json(spec_list_json(list@))),
    {
        let mut url = str_concat(self.host.as_str(), "/v1/projects/");
        url.append(id);
        url.append("/lists/");
        url.append(list_id);
        let mut r = ApiRequest::new(Method::Put, url, "workflow");
        r.body = Some(ReqBody::Json(list.to_json()));
        r
    }

    /// The request that deletes one list of a project.
    pub fn delete_project_list(&self, id: &str, list_id: &str) -> (r: ApiRequest)
        ensures
            r@.method == Method::Delete,
            r@.url == self@.host + "/v1/projects/"@ + id@ + "/lists/"@ + list_id@,
            r@.scope == "workflow"@,
            r@.query == Seq::<(Seq<char>, Seq<char>)>::empty(),
            r@.body is None,
    {
        let mut url = str_concat(self.host.as_str(), "/v1/projects/");
        url.append(id);
        url.append("/lists/");
        url.append(list_id);
        ApiRequest::new(Method::Delete, url, "workflow")
    }

    /// The request for every task of a project, with optional paging
    /// parameters.
    pub fn get_project_tasks(&self, id: &str, limit: Option<u32>, offset: Option<u32>) -> (r:
        ApiRequest)
        ensures
            r@.method == Method::Get,
            r@.url == self@.host + "/v1/projects/"@ + id@ + "/tasks"@,
            r@.scope == "workflow"@,
            r@.query == crate::public::spec_paging_query(limit, offset),
            r@.body is None,
    {
        let mut url = str_concat(self.host.as_str(), "/v1/projects/");
        url.append(id);
        url.append("/tasks");
        let mut r = ApiRequest::new(Method::Get, url, "workflow");
        r.query = crate::public::paging_query(limit, offset);
        r
    }

    /// The request for the tasks of one list, with optional paging
    /// parameters.
    pub fn get_project_list_tasks(
        &self,
        id: &str,
        list_id: &str,
        limit: Option<u32>,
        offset: Option<u32>,
    ) -> (r: ApiRequest)
        ensures
            r@.method == Method::Get,
            r@.url == self@.host + "/v1/projects/"@ + id@ + "/lists/"@ + list_id@ + "/tasks"@,
            r@.scope == "workflow"@,
            r@.query == crate::public::spec_paging_query(limit, offset),
            r@.body is None,
    {
        let mut url = str_concat(self.host.as_str(), "/v1/projects/");
        url.append(id);
        url.append("/lists/");
        url.append(list_id);
        url.append("/tasks");
        let mut r = ApiRequest::new(Method::Get, url, "workflow");
        r.query = crate::public::paging_query(limit, offset);
        r
    }

    /// The request that creates a task in a list.
    pub fn post_project_list_task(&self, id: &str, list_id: &str, task: Task) -> (r: ApiRequest)
        ensures
            r@.method == Method::Post,
            r@.url == self@.host + "/v1/projects/"@ + id@ + "/lists/"@ + list_id@ + "/tasks"@,
            r@.scope == "workflow"@,
            r@.query == Seq::<(Seq<char>, Seq<char>)>::empty(),
            r@.body == Some(ReqBodyV::Json(spec_task_json(task@))),
    {
        let mut url = str_concat(self.host.as_str(), "/v1/projects/");
        url.append(id);
        url.append("/lists/");
        url.append(list_id);
        url.append("/tasks");
        let mut r = ApiRequest::new(Method::Post, url, "workflow");
        r.body = Some(ReqBody::Json(task.to_json()));
        r
    }

    /// The request for one task of a list.
    pub fn get_project_list_task(&self, id: &str, list_id: &str, task_id: &str) -> (r:
        ApiRequest)
        ensures
            r@.method == Method::Get,
            r@.url == self@.host + "/v1/projects/"@ + id@ + "/lists/"@ + list_id@ + "/tasks/"@
                + task_id@,
            r@.scope == "workflow"@,
            r@.query == Seq::<(Seq<char>, Seq<char>)>::empty(),
            r@.body is None,
    {
        let mut url = str_concat(self.host.as_str(), "/v1/projects/");
        url.append(id);
        url.append("/lists/");
        url.append(list_id);
        url.append("/tasks/");
        url.append(task_id);
        ApiRequest::new(Method::Get, url, "workflow")
    }

    /// The request that updates one task of a list.
    pub fn put_project_list_task(&self, id: &str, list_id: &str, task_id: &str, task: Task) -> (r:
        ApiRequest)
        ensures
            r@.method == Method::Put,
            r@.url == self@.host + "/v1/projects/"@ + id@ + "/lists/"@ + list_id@ + "/tasks/"@
                + task_id@,
            r@.scope == "workflow"@,
            r@.query == Seq::<(Seq<char>, Seq<char>)>::empty(),
            r@.body == Some(ReqBodyV::Json(spec_task_json(task@))),
    {
        let mut url = str_concat(self.host.as_str(), "/v1/projects/");
        url.append(id);
        url.append("/lists/");
        url.append(list_id);
        url.append("/tasks/");
        url.append(task_id);
        let mut r = ApiRequest::new(Method::Put, url, "workflow");
        r.body = Some(ReqBody::Json(task.to_json()));
        r
    }

    /// The request that deletes one task of a list.
    pub fn delete_project_list_task(&self, id: &str, list_id: &str, task_id: &str) -> (r:
        ApiRequest)
        ensures
            r@.method == Method::Delete,
            r@.url == self@.host + "/v1/projects/"@ + id@ + "/lists/"@ + list_id@ + "/tasks/"@
                + task_id@,
            r@.scope == "workflow"@,
            r@.query == Seq::<(Seq<char>, Seq<char>)>::empty(),
            r@.body is None,
    {
        let mut url = str_concat(self.host.as_str(), "/v1/projects/");
        url.append(id);
        url.append("/lists/");
        url.append(list_id);
        url.append("/tasks/");
        url.append(task_id);
        ApiRequest::new(Method::Delete, url, "workflow")
    }

    /// The request for a task's attachments.
    pub fn get_project_list_task_attachments(&self, id: &str, list_id: &str, task_id: &str) -> (r:
        ApiRequest)
        ensures
            r@.method == Method::Get,
            r@.url == self@.host + "/v1/projects/"@ + id@ + "/lists/"@ + list_id@ + "/tasks/"@
                + task_id@ + "/attachments"@,
            r@.scope == "workflow"@,
            r@.query == Seq::<(Seq<char>, Seq<char>)>::empty(),
            r@.body is None,
    {
        let mut url = str_concat(self.host.as_str(), "/v1/projects/");
        url.append(id);
        url.append("/lists/");
        url.append(list_id);
        url.append("/tasks/");
        url.append(task_id);
        url.append("/attachments");
        ApiRequest::new(Method::Get, url, "workflow")
    }

    /// The request that downloads one attachment of a task.
    pub fn get_project_list_task_attachment(
        &self,
        id: &str,
        list_id: &str,
        task_id: &str,
        attachment_id: &str,
    ) -> (r: ApiRequest)
        ensures
            r@.method == Method::Get,
            r@.url == self@.host + "/v1/projects/"@ + id@ + "/lists/"@ + list_id@ + "/tasks/"@
                + task_id@ + "/attachments/"@ + attachment_id@,
            r@.scope == "workflow"@,
            r@.query == Seq::<(Seq<char>, Seq<char>)>::empty(),
            r@.body is None,
    {
        let mut url = str_concat(self.host.as_str(), "/v1/projects/");
        url.append(id);
        url.append("/lists/");
        url.append(list_id);
        url.append("/tasks/");
        url.append(task_id);
        url.append("/attachments/");
        url.append(attachment_id);
        ApiRequest::new(Method::Get, url, "workflow")
    }

    /// The request that records a new attachment on a task. No file
    /// content is carried: the attachment endpoints list and delete
    /// entries, and the upload body is not part of this client's wire
    /// model.
    pub fn post_project_list_task_attachment(&self, id: &str, list_id: &str, task_id: &str) -> (r:
        ApiRequest)
        ensures
            r@.method == Method::Post,
            r@.url == self@.host + "/v1/projects/"@ + id@ + "/lists/"@ + list_id@ + "/tasks/"@
                + task_id@ + "/attachments"@,
            r@.scope == "workflow"@,
            r@.query == Seq::<(Seq<char>, Seq<char>)>::empty(),
            r@.body is None,
    {
        let mut url = str_concat(self.host.as_str(), "/v1/projects/");
        url.append(id);
        url.append("/lists/");
        url.append(list_id);
        url.append("/tasks/");
        url.append(task_id);
        url.append("/attachments");
        ApiRequest::new(Method::Post, url, "workflow")
    }

    /// The request that deletes one attachment of a task.
    pub fn delete_project_list_task_attachment(
        &self,
        id: &str,
        list_id: &str,
        task_id: &str,
        attachment_id: &str,
    ) -> (r: ApiRequest)
        ensures
            r@.method == Method::Delete,
            r@.url == self@.host + "/v1/projects/"@ + id@ + "/lists/"@ + list_id@ + "/tasks/"@
                + task_id@ + "/attachments/"@ + attachment_id@,
            r@.scope == "workflow"@,
            r@.query == Seq::<(Seq<char>, Seq<char>)>::empty(),
            r@.body is None,
    {
        let mut url = str_concat(self.host.as_str(), "/v1/projects/");
        url.append(id);
        url.append("/lists/");
        url.append(list_id);
        url.append("/tasks/");
        url.append(task_id);
        url.append("/attachments/");
        url.append(attachment_id);
        ApiRequest::new(Method::Delete, url, "workflow")
    }
}


/// Maps a response holding one record of this resource.
pub fn project_response(status: u16, body: &str) -> (r: Result<Project, DomoError>)
    ensures
        match r {
            Ok(x) => spec_check_response(status, body@) matches Ok(j) && spec_project_from(j)
                == Some(x@),
            Err(e) => match spec_check_response(status, body@) {
                Ok(j) => spec_project_from(j) is None && e@ == (DomoErrorV::Malformed {
                    status,
                }),
                Err(e2) => e@ == e2,
            },
        },
{
    match check_response(status, body) {
        Err(e) => Err(e),
        Ok(v) => match Project::from_json(&v) {
            Some(x) => Ok(x),
            None => Err(DomoError::Malformed { status }),
        },
    }
}

/// Maps a response holding a list of records of this resource.
pub fn projects_response(status: u16, body: &str) -> (r: Result<Vec<Project>, DomoError>)
    ensures
        match r {
            Ok(xs) => spec_check_response(status, body@) matches Ok(j) && j matches JVal::Arr(
                es,
            ) && spec_projects_from(es) == Some(vviews(xs@)),
            Err(e) => match spec_check_response(status, body@) {
                Ok(j) => e@ == (DomoErrorV::Malformed { status }) && !(j matches JVal::Arr(
                    es,
                ) && spec_projects_from(es) is Some),
                Err(e2) => e@ == e2,
            },
        },
{
    let v = match check_response(status, body) {
        Ok(v) => v,
        Err(e) => {
            return Err(e);
        },
    };
    proof {
        broadcast use lemma_jview_arr;

    }
    match &v {
        JsonValue::Arr(es) => match project_list_from_json(es) {
            Some(xs) => Ok(xs),
            None => Err(DomoError::Malformed { status }),
        },
        _ => Err(DomoError::Malformed { status }),
    }
}

/// Maps a response holding one record of this resource.
pub fn list_response(status: u16, body: &str) -> (r: Result<List, DomoError>)
    ensures
        match r {
            Ok(x) => spec_check_response(status, body@) matches Ok(j) && spec_list_from(j)
                == Some(x@),
            Err(e) => match spec_check_response(status, body@) {
                Ok(j) => spec_list_from(j) is None && e@ == (DomoErrorV::Malformed {
                    status,
                }),
                Err(e2) => e@ == e2,
            },
        },
{
    match check_response(status, body) {
        Err(e) => Err(e),
        Ok(v) => match List::from_json(&v) {
            Some(x) => Ok(x),
            None => Err(DomoError::Malformed { status }),
        },
    }
}

/// Maps a response holding a list of records of this resource.
pub fn lists_response(status: u16, body: &str) -> (r: Result<Vec<List>, DomoError>)
    ensures
        match r {
            Ok(xs) => spec_check_response(status, body@) matches Ok(j) && j matches JVal::Arr(
                es,
            ) && spec_lists_from(es) == Some(vviews(xs@)),
            Err(e) => match spec_check_response(status, body@) {
                Ok(j) => e@ == (DomoErrorV::Malformed { status }) && !(j matches JVal::Arr(
                    es,
                ) && spec_lists_from(es) is Some),
                Err(e2) => e@ == e2,
            },
        },
{
    let v = match check_response(status, body) {
        Ok(v) => v,
        Err(e) => {
            return Err(e);
        },
    };
    proof {
        broadcast use lemma_jview_arr;

    }
    match &v {
        JsonValue::Arr(es) => match list_list_from_json(es) {
            Some(xs) => Ok(xs),
            None => Err(DomoError::Malformed { status }),
        },
        _ => Err(DomoError::Malformed { status }),
    }
}

/// Maps a response holding one record of this resource.
pub fn task_response(status: u16, body: &str) -> (r: Result<Task, DomoError>)
    ensures
        match r {
            Ok(x) => spec_check_response(status, body@) matches Ok(j) && spec_task_from(j)
                == Some(x@),
            Err(e) => match spec_check_response(status, body@) {
                Ok(j) => spec_task_from(j) is None && e@ == (DomoErrorV::Malformed {
                    status,
                }),
                Err(e2) => e@ == e2,
            },
        },
{
    match check_response(status, body) {
        Err(e) => Err(e),
        Ok(v) => match Task::from_json(&v) {
            Some(x) => Ok(x),
            None => Err(DomoError::Malformed { status }),
        },
    }
}

/// Maps a response holding a list of records of this resource.
pub fn tasks_response(status: u16, body: &str) -> (r: Result<Vec<Task>, DomoError>)
    ensures
        match r {
            Ok(xs) => spec_check_response(status, body@) matches Ok(j) && j matches JVal::Arr(
                es,
            ) && spec_tasks_from(es) == Some(vviews(xs@)),
            Err(e) => match spec_check_response(status, body@) {
                Ok(j) => e@ == (DomoErrorV::Malformed { status }) && !(j matches JVal::Arr(
                    es,
                ) && spec_tasks_from(es) is Some),
                Err(e2) => e@ == e2,
            },
        },
{
    let v = match check_response(status, body) {
        Ok(v) => v,
        Err(e) => {
            return Err(e);
        },
    };
    proof {
        broadcast use lemma_jview_arr;

    }
    match &v {
        JsonValue::Arr(es) => match task_list_from_json(es) {
            Some(xs) => Ok(xs),
            None => Err(DomoError::Malformed { status }),
        },
        _ => Err(DomoError::Malformed { status }),
    }
}

/// Maps a response holding one record of this resource.
pub fn attachment_response(status: u16, body: &str) -> (r: Result<Attachment, DomoError>)
    ensures
        match r {
            Ok(x) => spec_check_response(status, body@) matches Ok(j) && spec_attachment_from(j)
                == Some(x@),
            Err(e) => match spec_check_response(status, body@) {
                Ok(j) => spec_attachment_from(j) is None && e@ == (DomoErrorV::Malformed {
                    status,
                }),
                Err(e2) => e@ == e2,
            },
        },
{
    match check_response(status, body) {
        Err(e) => Err(e),
        Ok(v) => match Attachment::from_json(&v) {
            Some(x) => Ok(x),
            None => Err(DomoError::Malformed { status }),
        },
    }
}

/// Maps a response holding a list of records of this resource.
pub fn attachments_response(status: u16, body: &str) -> (r: Result<Vec<Attachment>, DomoError>)
    ensures
        match r {
            Ok(xs) => spec_check_response(status, body@) matches Ok(j) && j matches JVal::Arr(
                es,
            ) && spec_attachments_from(es) == Some(vviews(xs@)),
            Err(e) => match spec_check_response(status, body@) {
                Ok(j) => e@ == (DomoErrorV::Malformed { status }) && !(j matches JVal::Arr(
                    es,
                ) && spec_attachments_from(es) is Some),
                Err(e2) => e@ == e2,
            },
        },
{
    let v = match check_response(status, body) {
        Ok(v) => v,
        Err(e) => {
            return Err(e);
        },
    };
    proof {
        broadcast use lemma_jview_arr;

    }
    match &v {
        JsonValue::Arr(es) => match attachment_list_from_json(es) {
            Some(xs) => Ok(xs),
            None => Err(DomoError::Malformed { status }),
        },
        _ => Err(DomoError::Malformed { status }),
    }
}

} // verus!
