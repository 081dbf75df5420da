//! Users: the user record, its constructors, and the user endpoints.

use crate::json::{
    JVal, JsonValue, field_opt_bool, field_opt_string, field_opt_u64, j_opt_bool,
    j_opt_string, j_opt_u64, jview, lemma_jview_arr, lemma_jview_obj, ostr, put_field,
    spec_elems, spec_field_opt_bool, spec_field_opt_str, spec_field_opt_u64, spec_fields,
    spec_j_opt_bool, spec_j_opt_num, spec_j_opt_str, spec_lookup, views_of_strings,
    vviews,
};
use crate::public::{
    ApiRequest, Client, DomoError, DomoErrorV, Method, ReqBody, ReqBodyV, check_response,
    spec_check_response,
};
use crate::strutil::str_concat;
use vstd::prelude::*;
use vstd::string::StringExecFns;

verus! {

/// A user: a person's profile and organisational attributes. Every field is
/// optional; a field the server did not send stays unset.
#[derive(Debug, PartialEq, Eq)]
pub struct User {
    pub id: Option<u64>,
    pub name: Option<String>,
    pub email: Option<String>,
    pub alternate_email: Option<String>,
    pub employee_id: Option<String>,
    pub employee_number: Option<u64>,
    pub title: Option<String>,
    pub phone: Option<String>,
    pub location: Option<String>,
    pub department: Option<String>,
    pub timezone: Option<String>,
    pub locale: Option<String>,
    pub role: Option<String>,
    pub role_id: Option<u64>,
    pub deleted: Option<bool>,
}

#[verifier::ext_equal]
pub struct UserV {
    pub id: Option<u64>,
    pub name: Option<Seq<char>>,
    pub email: Option<Seq<char>>,
    pub alternate_email: Option<Seq<char>>,
    pub employee_id: Option<Seq<char>>,
    pub employee_number: Option<u64>,
    pub title: Option<Seq<char>>,
    pub phone: Option<Seq<char>>,
    pub location: Option<Seq<char>>,
    pub department: Option<Seq<char>>,
    pub timezone: Option<Seq<char>>,
    pub locale: Option<Seq<char>>,
    pub role: Option<Seq<char>>,
    pub role_id: Option<u64>,
    pub deleted: Option<bool>,
}

impl View for User {
    type V = UserV;

    open spec fn view(&self) -> UserV {
        UserV {
            id: self.id,
            name: ostr(self.name),
            email: ostr(self.email),
            alternate_email: ostr(self.alternate_email),
            employee_id: ostr(self.employee_id),
            employee_number: self.employee_number,
            title: ostr(self.title),
            phone: ostr(self.phone),
            location: ostr(self.location),
            department: ostr(self.department),
            timezone: ostr(self.timezone),
            locale: ostr(self.locale),
            role: ostr(self.role),
            role_id: self.role_id,
            deleted: self.deleted,
        }
    }
}

pub open spec fn spec_user_json(v: UserV) -> JVal {
    JVal::Obj(
        seq![
            ("id"@, spec_j_opt_num(v.id)),
            ("name"@, spec_j_opt_str(v.name)),
            ("email"@, spec_j_opt_str(v.email)),
            ("alternateEmail"@, spec_j_opt_str(v.alternate_email)),
            ("employeeId"@, spec_j_opt_str(v.employee_id)),
            ("employeeNumber"@, spec_j_opt_num(v.employee_number)),
            ("title"@, spec_j_opt_str(v.title)),
            ("phone"@, spec_j_opt_str(v.phone)),
            ("location"@, spec_j_opt_str(v.location)),
            ("department"@, spec_j_opt_str(v.department)),
            ("timezone"@, spec_j_opt_str(v.timezone)),
            ("locale"@, spec_j_opt_str(v.locale)),
            ("role"@, spec_j_opt_str(v.role)),
            ("roleId"@, spec_j_opt_num(v.role_id)),
            ("deleted"@, spec_j_opt_bool(v.deleted)),
        ],
    )
}

pub open spec fn spec_user_from(j: JVal) -> Option<UserV> {
    match j {
        JVal::Obj(fields) => {
            let id = spec_field_opt_u64(fields, "id"@);
            let name = spec_field_opt_str(fields, "name"@);
            let email = spec_field_opt_str(fields, "email"@);
            let alternate_email = spec_field_opt_str(fields, "alternateEmail"@);
            let employee_id = spec_field_opt_str(fields, "employeeId"@);
            let employee_number = spec_field_opt_u64(fields, "employeeNumber"@);
            let title = spec_field_opt_str(fields, "title"@);
            let phone = spec_field_opt_str(fields, "phone"@);
            let location = spec_field_opt_str(fields, "location"@);
            let department = spec_field_opt_str(fields, "department"@);
            let timezone = spec_field_opt_str(fields, "timezone"@);
            let locale = spec_field_opt_str(fields, "locale"@);
            let role = spec_field_opt_str(fields, "role"@);
            let role_id = spec_field_opt_u64(fields, "roleId"@);
            let deleted = spec_field_opt_bool(fields, "deleted"@);
            if id is Err || name is Err || email is Err || alternate_email is Err || employee_id is Err || employee_number is Err || title is Err || phone is Err || location is Err || department is Err || timezone is Err || locale is Err || role is Err || role_id is Err || deleted is Err {
                None
            } else {
                Some(
                    UserV {
                        id: id->Ok_0,
                        name: name->Ok_0,
                        email: email->Ok_0,
                        alternate_email: alternate_email->Ok_0,
                        employee_id: employee_id->Ok_0,
                        employee_number: employee_number->Ok_0,
                        title: title->Ok_0,
                        phone: phone->Ok_0,
                        location: location->Ok_0,
                        department: department->Ok_0,
                        timezone: timezone->Ok_0,
                        locale: locale->Ok_0,
                        role: role->Ok_0,
                        role_id: role_id->Ok_0,
                        deleted: deleted->Ok_0,
                    },
                )
            }
        },
        _ => None,
    }
}

impl User {
    /// The record as a JSON document, with its wire field names; an unset
    /// field is sent as `null`.
    #[verifier::rlimit(100)]
    pub fn to_json(&self) -> (r: JsonValue)
        ensures
            r@ == spec_user_json(self@),
    {
        let mut f: Vec<(String, JsonValue)> = Vec::new();
        put_field(&mut f, "id", j_opt_u64(&self.id));
        put_field(&mut f, "name", j_opt_string(&self.name));
        put_field(&mut f, "email", j_opt_string(&self.email));
        put_field(&mut f, "alternateEmail", j_opt_string(&self.alternate_email));
        put_field(&mut f, "employeeId", j_opt_string(&self.employee_id));
        put_field(&mut f, "employeeNumber", j_opt_u64(&self.employee_number));
        put_field(&mut f, "title", j_opt_string(&self.title));
        put_field(&mut f, "phone", j_opt_string(&self.phone));
        put_field(&mut f, "location", j_opt_string(&self.location));
        put_field(&mut f, "department", j_opt_string(&self.department));
        put_field(&mut f, "timezone", j_opt_string(&self.timezone));
        put_field(&mut f, "locale", j_opt_string(&self.locale));
        put_field(&mut f, "role", j_opt_string(&self.role));
        put_field(&mut f, "roleId", j_opt_u64(&self.role_id));
        put_field(&mut f, "deleted", j_opt_bool(&self.deleted));
        let r = JsonValue::Obj(f);
        proof {
            broadcast use lemma_jview_obj;

            assert(jview(r) == JVal::Obj(spec_fields(r->Obj_0@)));
            assert(spec_fields(r->Obj_0@) =~= spec_user_json(self@)->Obj_0);
        }
        r
    }

    /// The record a well-formed body decodes to; `None` when a present
    /// field has the wrong shape.
    pub fn from_json(v: &JsonValue) -> (r: Option<User>)
        ensures
            match r {
                Some(x) => spec_user_from(v@) == Some(x@),
                None => spec_user_from(v@) is None,
            },
    {
        proof {
            broadcast use lemma_jview_obj;

        }
        match v {
            JsonValue::Obj(fields) => {
                let id = match field_opt_u64(fields, "id") {
                    Ok(x) => x,
                    Err(_) => {
                        return None;
                    },
                };
                let name = match field_opt_string(fields, "name") {
                    Ok(x) => x,
                    Err(_) => {
                        return None;
                    },
                };
                let email = match field_opt_string(fields, "email") {
                    Ok(x) => x,
                    Err(_) => {
                        return None;
                    },
                };
                let alternate_email = match field_opt_string(fields, "alternateEmail") {
                    Ok(x) => x,
                    Err(_) => {
                        return None;
                    },
                };
                let employee_id = match field_opt_string(fields, "employeeId") {
                    Ok(x) => x,
                    Err(_) => {
                        return None;
                    },
                };
                let employee_number = match field_opt_u64(fields, "employeeNumber") {
                    Ok(x) => x,
                    Err(_) => {
                        return None;
                    },
                };
                let title = match field_opt_string(fields, "title") {
                    Ok(x) => x,
                    Err(_) => {
                        return None;
                    },
                };
                let phone = match field_opt_string(fields, "phone") {
                    Ok(x) => x,
                    Err(_) => {
                        return None;
                    },
                };
                let location = match field_opt_string(fields, "location") {
                    Ok(x) => x,
                    Err(_) => {
                        return None;
                    },
                };
                let department = match field_opt_string(fields, "department") {
                    Ok(x) => x,
                    Err(_) => {
                        return None;
                    },
                };
                let timezone = match field_opt_string(fields, "timezone") {
                    Ok(x) => x,
                    Err(_) => {
                        return None;
                    },
                };
                let locale = match field_opt_string(fields, "locale") {
                    Ok(x) => x,
                    Err(_) => {
                        return None;
                    },
                };
                let role = match field_opt_string(fields, "role") {
                    Ok(x) => x,
                    Err(_) => {
                        return None;
                    },
                };
                let role_id = match field_opt_u64(fields, "roleId") {
                    Ok(x) => x,
                    Err(_) => {
                        return None;
                    },
                };
                let deleted = match field_opt_bool(fields, "deleted") {
                    Ok(x) => x,
                    Err(_) => {
                        return None;
                    },
                };
                Some(User { id, name, email, alternate_email, employee_id, employee_number, title, phone, location, department, timezone, locale, role, role_id, deleted })
            },
            _ => None,
        }
    }
}

/// Decoding an encoded record gives back the same record.
#[verifier::rlimit(100)]
pub proof fn lemma_user_roundtrip(g: UserV)
    ensures
        spec_user_from(spec_user_json(g)) == Some(g),
{
    reveal_strlit("id");
    reveal_strlit("name");
    reveal_strlit("email");
    reveal_strlit("alternateEmail");
    reveal_strlit("employeeId");
    reveal_strlit("employeeNumber");
    reveal_strlit("title");
    reveal_strlit("phone");
    reveal_strlit("location");
    reveal_strlit("department");
    reveal_strlit("timezone");
    reveal_strlit("locale");
    reveal_strlit("role");
    reveal_strlit("roleId");
    reveal_strlit("deleted");
    reveal_with_fuel(spec_lookup, 17);
    assert("id"@.len() == 2);
    assert("name"@.len() == 4);
    assert("email"@.len() == 5);
    assert("alternateEmail"@.len() == 14);
    assert("employeeId"@.len() == 10);
    assert("employeeNumber"@.len() == 14);
    assert("title"@.len() == 5);
    assert("phone"@.len() == 5);
    assert("location"@.len() == 8);
    assert("department"@.len() == 10);
    assert("timezone"@.len() == 8);
    assert("locale"@.len() == 6);
    assert("role"@.len() == 4);
    assert("roleId"@.len() == 6);
    assert("deleted"@.len() == 7);
    assert("name"@[0] == 'n');
    assert("role"@[0] == 'r');
    assert("name"@ != "role"@);
    assert("email"@[0] == 'e');
    assert("title"@[0] == 't');
    assert("email"@ != "title"@);
    assert("email"@[0] == 'e');
    assert("phone"@[0] == 'p');
    assert("email"@ != "phone"@);
    assert("alternateEmail"@[0] == 'a');
    assert("employeeNumber"@[0] == 'e');
    assert("alternateEmail"@ != "employeeNumber"@);
    assert("employeeId"@[0] == 'e');
    assert("department"@[0] == 'd');
    assert("employeeId"@ != "department"@);
    assert("title"@[0] == 't');
    assert("phone"@[0] == 'p');
    assert("title"@ != "phone"@);
    assert("location"@[0] == 'l');
    assert("timezone"@[0] == 't');
    assert("location"@ != "timezone"@);
    assert("locale"@[0] == 'l');
    assert("roleId"@[0] == 'r');
    assert("locale"@ != "roleId"@);
    assert(spec_user_from(spec_user_json(g)) matches Some(h) && h =~= g);
}

/// A field absent from a decoded body stays unset or takes its default.
pub proof fn lemma_user_absent_fields()
    ensures
        spec_user_from(JVal::Obj(Seq::empty())) == Some(
            UserV {
                id: None,
                name: None,
                email: None,
                alternate_email: None,
                employee_id: None,
                employee_number: None,
                title: None,
                phone: None,
                location: None,
                department: None,
                timezone: None,
                locale: None,
                role: None,
                role_id: None,
                deleted: None,
            },
        ),
{
    reveal_with_fuel(spec_lookup, 2);
}

/// The encoded form of a list of these records.
pub open spec fn spec_users_json(s: Seq<UserV>) -> Seq<JVal> {
    Seq::new(s.len(), |i: int| spec_user_json(s[i]))
}

pub open spec fn spec_opt_users_json(o: Option<Seq<UserV>>) -> JVal {
    match o {
        None => JVal::Null,
        Some(s) => JVal::Arr(spec_users_json(s)),
    }
}

/// The decoding of a list of these records: every element must decode.
pub open spec fn spec_users_from(es: Seq<JVal>) -> Option<Seq<UserV>> {
    if forall|i: int| 0 <= i < es.len() ==> (#[trigger] spec_user_from(es[i])) is Some {
        Some(Seq::new(es.len(), |i: int| spec_user_from(es[i]).unwrap()))
    } else {
        None
    }
}

pub open spec fn spec_field_opt_users(
    fields: Seq<(Seq<char>, JVal)>,
    key: Seq<char>,
) -> Result<Option<Seq<UserV>>, ()> {
    match spec_lookup(fields, key) {
        None => Ok(None),
        Some(j) => match j {
            JVal::Null => Ok(None),
            JVal::Arr(es) => match spec_users_from(es) {
                Some(s) => Ok(Some(s)),
                None => Err(()),
            },
            _ => Err(()),
        },
    }
}

pub fn user_list_to_json(v: &Vec<User>) -> (r: JsonValue)
    ensures
        r@ == JVal::Arr(spec_users_json(vviews(v@))),
{
    let mut a: Vec<JsonValue> = Vec::new();
    let mut i: usize = 0;
    while i < v.len()
        invariant
            i <= v.len(),
            a@.len() == i as int,
            forall|j: int| 0 <= j < i ==> jview(#[trigger] a@[j]) == spec_user_json(v@[j]@),
        decreases v.len() - i,
    {
        a.push(v[i].to_json());
        i = i + 1;
    }
    let r = JsonValue::Arr(a);
    proof {
        broadcast use lemma_jview_arr;

        assert forall|j: int| 0 <= j < v@.len() implies spec_elems(r->Arr_0@)[j]
            == spec_user_json(vviews(v@)[j]) by {
            assert(spec_elems(r->Arr_0@)[j] == jview(r->Arr_0@[j]));
        }
        assert(spec_elems(r->Arr_0@) =~= spec_users_json(vviews(v@)));
    }
    r
}

#[verifier::loop_isolation(false)]
pub fn user_list_from_json(es: &Vec<JsonValue>) -> (r: Option<Vec<User>>)
    ensures
        match r {
            Some(v) => spec_users_from(spec_elems(es@)) == Some(vviews(v@)),
            None => spec_users_from(spec_elems(es@)) is None,
        },
{
    let mut out: Vec<User> = Vec::new();
    let mut i: usize = 0;
    while i < es.len()
        invariant
            i <= es.len(),
            out@.len() == i as int,
            forall|j: int|
                0 <= j < i ==> spec_user_from(#[trigger] spec_elems(es@)[j]) == Some(
                    out@[j]@,
                ),
        decreases es.len() - i,
    {
        proof {
            assert(spec_elems(es@)[i as int] == jview(es@[i as int]));
        }
        match User::from_json(&es[i]) {
            Some(x) => out.push(x),
            None => {
                proof {
                    assert(spec_user_from(spec_elems(es@)[i as int]) is None);
                }
                return None;
            },
        }
        i = i + 1;
    }
    proof {
        assert(spec_users_from(spec_elems(es@)) == Some(vviews(out@))) by {
            assert(Seq::new(
                spec_elems(es@).len(),
                |j: int| spec_user_from(spec_elems(es@)[j]).unwrap(),
            ) =~= vviews(out@));
        }
    }
    Some(out)
}

pub open spec fn spec_opt_user_json(o: Option<UserV>) -> JVal {
    match o {
        None => JVal::Null,
        Some(x) => spec_user_json(x),
    }
}

pub open spec fn spec_field_opt_user(
    fields: Seq<(Seq<char>, JVal)>,
    key: Seq<char>,
) -> Result<Option<UserV>, ()> {
    match spec_lookup(fields, key) {
        None => Ok(None),
        Some(j) => match j {
            JVal::Null => Ok(None),
            _ => match spec_user_from(j) {
                Some(t) => Ok(Some(t)),
                None => Err(()),
            },
        },
    }
}

impl User {
    /// A user with every field unset.
    pub fn new() -> (r: Self)
        ensures
            r@ == (UserV {
                id: None,
                name: None,
                email: None,
                alternate_email: None,
                employee_id: None,
                employee_number: None,
                title: None,
                phone: None,
                location: None,
                department: None,
                timezone: None,
                locale: None,
                role: None,
                role_id: None,
                deleted: None,
            }),
    {
        User {
            id: None,
            name: None,
            email: None,
            alternate_email: None,
            employee_id: None,
            employee_number: None,
            title: None,
            phone: None,
            location: None,
            department: None,
            timezone: None,
            locale: None,
            role: None,
            role_id: None,
            deleted: None,
        }
    }

    /// A placeholder user for seeding an interactive edit buffer.
    pub fn template() -> (r: Self)
        ensures
            r@.id == Some(0u64),
            r@.name == Some("First Last"@),
            r@.email == Some("First.Last@company.com"@),
            r@.alternate_email == Some("first.last@gmail.com"@),
            r@.employee_id == Some("employee id"@),
            r@.employee_number == Some(0u64),
            r@.title == Some("Title"@),
            r@.phone == Some("+1 (800) 700-6000"@),
            r@.location == Some("CA"@),
            r@.department == Some("department"@),
            r@.timezone == Some("America/Los_Angeles"@),
            r@.locale == Some("en-US"@),
            r@.role == Some("Admin - Match roles defined in instance"@),
            r@.role_id == Some(0u64),
            r@.deleted == Some(false),
    {
        User {
            id: Some(0),
            name: Some("First Last".to_owned()),
            email: Some("First.Last@company.com".to_owned()),
            alternate_email: Some("first.last@gmail.com".to_owned()),
            employee_id: Some("employee id".to_owned()),
            employee_number: Some(0),
            title: Some("Title".to_owned()),
            phone: Some("+1 (800) 700-6000".to_owned()),
            location: Some("CA".to_owned()),
            department: Some("department".to_owned()),
            timezone: Some("America/Los_Angeles".to_owned()),
            locale: Some("en-US".to_owned()),
            role: Some("Admin - Match roles defined in instance".to_owned()),
            role_id: Some(0),
            deleted: Some(false),
        }
    }
}

impl Client {
    /// The request for a page of users, with optional paging parameters.
    pub fn get_users(&self, limit: Option<u32>, offset: Option<u32>) -> (r: ApiRequest)
        ensures
            r@.method == Method::Get,
            r@.url == self@.host + "/v1/users"@,
            r@.scope == "user"@,
            r@.body is None,
            r@.query == crate::public::spec_paging_query(limit, offset),
    {
        let mut r = ApiRequest::new(
            Method::Get,
            str_concat(self.host.as_str(), "/v1/users"),
            "user",
        );
        r.query = crate::public::paging_query(limit, offset);
        r
    }

    /// The request that looks users up by email in bulk; the body is the
    /// list of addresses.
    pub fn post_bulk_user_emails(&self, emails: &Vec<String>) -> (r: ApiRequest)
        ensures
            r@.method == Method::Post,
            r@.url == self@.host + "/v1/users/bulk/emails"@,
            r@.scope == "user"@,
            r@.query == Seq::<(Seq<char>, Seq<char>)>::empty(),
            r@.body == Some(ReqBodyV::Json(crate::json::spec_j_str_arr(
                views_of_strings(emails@),
            ))),
    {
        let mut r = ApiRequest::new(
            Method::Post,
            str_concat(self.host.as_str(), "/v1/users/bulk/emails"),
            "user",
        );
        r.body = Some(ReqBody::Json(crate::json::j_str_arr(emails)));
        r
    }

    /// The request that creates a user from the given record.
    pub fn post_user(&self, user: User) -> (r: ApiRequest)
        ensures
            r@.method == Method::Post,
            r@.url == self@.host + "/v1/users"@,
            r@.scope == "user"@,
            r@.query == Seq::<(Seq<char>, Seq<char>)>::empty(),
            r@.body == Some(ReqBodyV::Json(spec_user_json(user@))),
    {
        let mut r = ApiRequest::new(
            Method::Post,
            str_concat(self.host.as_str(), "/v1/users"),
            "user",
        );
        r.body = Some(ReqBody::Json(user.to_json()));
        r
    }

    /// The request for one user by id.
    pub fn get_user(&self, id: &str) -> (r: ApiRequest)
        ensures
            r@.method == Method::Get,
            r@.url == self@.host + "/v1/users/"@ + id@,
            r@.scope == "user"@,
            r@.query == Seq::<(Seq<char>, Seq<char>)>::empty(),
            r@.body is None,
    {
        let mut url = str_concat(self.host.as_str(), "/v1/users/");
        url.append(id);
        ApiRequest::new(Method::Get, url, "user")
    }

    /// The request that updates a user by id from the given record.
    pub fn put_user(&self, id: &str, user: User) -> (r: ApiRequest)
        ensures
            r@.method == Method::Put,
            r@.url == self@.host + "/v1/users/"@ + id@,
            r@.scope == "user"@,
            r@.query == Seq::<(Seq<char>, Seq<char>)>::empty(),
            r@.body == Some(ReqBodyV::Json(spec_user_json(user@))),
    {
        let mut url = str_concat(self.host.as_str(), "/v1/users/");
        url.append(id);
        let mut r = ApiRequest::new(Method::Put, url, "user");
        r.body = Some(ReqBody::Json(user.to_json()));
        r
    }

    /// The request that deletes a user by id.
    pub fn delete_user(&self, id: &str) -> (r: ApiRequest)
        ensures
            r@.method == Method::Delete,
            r@.url == self@.host + "/v1/users/"@ + id@,
            r@.scope == "user"@,
            r@.query == Seq::<(Seq<char>, Seq<char>)>::empty(),
            r@.body is None,
    {
        let mut url = str_concat(self.host.as_str(), "/v1/users/");
        url.append(id);
        ApiRequest::new(Method::Delete, url, "user")
    }
}

/// Maps a response holding one record of this resource.
pub fn user_response(status: u16, body: &str) -> (r: Result<User, DomoError>)
    ensures
        match r {
            Ok(x) => spec_check_response(status, body@) matches Ok(j) && spec_user_from(j)
                == Some(x@),
            Err(e) => match spec_check_response(status, body@) {
                Ok(j) => spec_user_from(j) is None && e@ == (DomoErrorV::Malformed {
                    status,
                }),
                Err(e2) => e@ == e2,
            },
        },
{
    match check_response(status, body) {
        Err(e) => Err(e),
        Ok(v) => match User::from_json(&v) {
            Some(x) => Ok(x),
            None => Err(DomoError::Malformed { status }),
        },
    }
}

/// Maps a response holding a list of records of this resource.
pub fn users_response(status: u16, body: &str) -> (r: Result<Vec<User>, DomoError>)
    ensures
        match r {
            Ok(xs) => spec_check_response(status, body@) matches Ok(j) && j matches JVal::Arr(
                es,
            ) && spec_users_from(es) == Some(vviews(xs@)),
            Err(e) => match spec_check_response(status, body@) {
                Ok(j) => e@ == (DomoErrorV::Malformed { status }) && !(j matches JVal::Arr(
                    es,
                ) && spec_users_from(es) is Some),
                Err(e2) => e@ == e2,
            },
        },
{
    let v = match check_response(status, body) {
        Ok(v) => v,
        Err(e) => {
            return Err(e);
        },
    };
    proof {
        broadcast use lemma_jview_arr;

    }
    match &v {
        JsonValue::Arr(es) => match user_list_from_json(es) {
            Some(xs) => Ok(xs),
            None => Err(DomoError::Malformed { status }),
        },
        _ => Err(DomoError::Malformed { status }),
    }
}

} // verus!
