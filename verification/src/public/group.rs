//! Groups: the group record, its constructors, and the group endpoints.

use crate::json::{
    JVal, JsonValue, field_opt_bool, field_opt_string, field_opt_u32, field_opt_u64,
    j_opt_bool, j_opt_string, j_opt_u32, j_opt_u64, jview, lemma_jview_arr,
    lemma_jview_obj, ostr, put_field, spec_elems, spec_field_opt_bool,
    spec_field_opt_str, spec_field_opt_u32, spec_field_opt_u64, spec_fields,
    spec_j_opt_bool, spec_j_opt_num, spec_j_opt_num32, spec_j_opt_str, spec_lookup,
    vviews,
};
use crate::public::{
    ApiRequest, Client, DomoError, DomoErrorV, Method, ReqBody, ReqBodyV, check_response,
    spec_check_response,
};
use crate::strutil::str_concat;
use vstd::prelude::*;
use vstd::string::StringExecFns;

verus! {

/// A group: a named set of users with access rights in common. Every field
/// is optional; a field the server did not send stays unset, and an unset
/// field is left out of the encoded record altogether.
#[derive(Debug, PartialEq, Eq)]
pub struct Group {
    pub id: Option<u64>,
    pub name: Option<String>,
    pub default: Option<bool>,
    pub active: Option<bool>,
    pub creator_id: Option<String>,
    pub member_count: Option<u32>,
}

#[verifier::ext_equal]
pub struct GroupV {
    pub id: Option<u64>,
    pub name: Option<Seq<char>>,
    pub default: Option<bool>,
    pub active: Option<bool>,
    pub creator_id: Option<Seq<char>>,
    pub member_count: Option<u32>,
}

impl View for Group {
    type V = GroupV;

    open spec fn view(&self) -> GroupV {
        GroupV {
            id: self.id,
            name: ostr(self.name),
            default: self.default,
            active: self.active,
            creator_id: ostr(self.creator_id),
            member_count: self.member_count,
        }
    }
}

/// The encoded group: unset fields are omitted, not sent as `null`.
pub open spec fn spec_group_json(g: GroupV) -> JVal {
    JVal::Obj(
        (if g.id is Some {
            seq![("id"@, spec_j_opt_num(g.id))]
        } else {
            Seq::empty()
        }) + (if g.name is Some {
            seq![("name"@, spec_j_opt_str(g.name))]
        } else {
            Seq::empty()
        }) + (if g.default is Some {
            seq![("default"@, spec_j_opt_bool(g.default))]
        } else {
            Seq::empty()
        }) + (if g.active is Some {
            seq![("active"@, spec_j_opt_bool(g.active))]
        } else {
            Seq::empty()
        }) + (if g.creator_id is Some {
            seq![("creatorId"@, spec_j_opt_str(g.creator_id))]
        } else {
            Seq::empty()
        }) + (if g.member_count is Some {
            seq![("memberCount"@, spec_j_opt_num32(g.member_count))]
        } else {
            Seq::empty()
        }),
    )
}

pub open spec fn spec_group_from(j: JVal) -> Option<GroupV> {
    match j {
        JVal::Obj(fields) => {
            let id = spec_field_opt_u64(fields, "id"@);
            let name = spec_field_opt_str(fields, "name"@);
            let default = spec_field_opt_bool(fields, "default"@);
            let active = spec_field_opt_bool(fields, "active"@);
            let creator_id = spec_field_opt_str(fields, "creatorId"@);
            let member_count = spec_field_opt_u32(fields, "memberCount"@);
            if id is Err || name is Err || default is Err || active is Err || creator_id
                is Err || member_count is Err {
                None
            } else {
                Some(
                    GroupV {
                        id: id->Ok_0,
                        name: name->Ok_0,
                        default: default->Ok_0,
                        active: active->Ok_0,
                        creator_id: creator_id->Ok_0,
                        member_count: member_count->Ok_0,
                    },
                )
            }
        },
        _ => None,
    }
}

impl Group {
    /// A group with every field unset.
    pub fn new() -> (r: Self)
        ensures
            r@ == (GroupV {
                id: None,
                name: None,
                default: None,
                active: None,
                creator_id: None,
                member_count: None,
            }),
    {
        Group {
            id: None,
            name: None,
            default: None,
            active: None,
            creator_id: None,
            member_count: None,
        }
    }

    /// A placeholder group for seeding an interactive edit buffer.
    pub fn template() -> (r: Self)
        ensures
            r@.id == Some(0u64),
            r@.name == Some("Group Name"@),
            r@.default == Some(false),
            r@.active == Some(true),
            r@.creator_id == Some("0"@),
            r@.member_count == Some(0u32),
    {
        Group {
            id: Some(0),
            name: Some("Group Name".to_owned()),
            default: Some(false),
            active: Some(true),
            creator_id: Some("0".to_owned()),
            member_count: Some(0),
        }
    }

    /// The group as a JSON document, with unset fields omitted.
    pub fn to_json(&self) -> (r: JsonValue)
        ensures
            r@ == spec_group_json(self@),
    {
        let mut f: Vec<(String, JsonValue)> = Vec::new();
        if self.id.is_some() {
            put_field(&mut f, "id", j_opt_u64(&self.id));
        }
        if self.name.is_some() {
            put_field(&mut f, "name", j_opt_string(&self.name));
        }
        if self.default.is_some() {
            put_field(&mut f, "default", j_opt_bool(&self.default));
        }
        if self.active.is_some() {
            put_field(&mut f, "active", j_opt_bool(&self.active));
        }
        if self.creator_id.is_some() {
            put_field(&mut f, "creatorId", j_opt_string(&self.creator_id));
        }
        if self.member_count.is_some() {
            put_field(&mut f, "memberCount", j_opt_u32(&self.member_count));
        }
        let r = JsonValue::Obj(f);
        proof {
            broadcast use lemma_jview_obj;

            assert(jview(r) == JVal::Obj(spec_fields(r->Obj_0@)));
            assert(spec_fields(r->Obj_0@) =~= spec_group_json(self@)->Obj_0);
        }
        r
    }

    /// The group a well-formed body decodes to.
    pub fn from_json(v: &JsonValue) -> (r: Option<Group>)
        ensures
            match r {
                Some(g) => spec_group_from(v@) == Some(g@),
                None => spec_group_from(v@) is None,
            },
    {
        proof {
            broadcast use lemma_jview_obj;

        }
        match v {
            JsonValue::Obj(fields) => {
                let id = match field_opt_u64(fields, "id") {
                    Ok(x) => x,
                    Err(_) => {
                        return None;
                    },
                };
                let name = match field_opt_string(fields, "name") {
                    Ok(x) => x,
                    Err(_) => {
                        return None;
                    },
                };
                let default = match field_opt_bool(fields, "default") {
                    Ok(x) => x,
                    Err(_) => {
                        return None;
                    },
                };
                let active = match field_opt_bool(fields, "active") {
                    Ok(x) => x,
                    Err(_) => {
                        return None;
                    },
                };
                let creator_id = match field_opt_string(fields, "creatorId") {
                    Ok(x) => x,
                    Err(_) => {
                        return None;
                    },
                };
                let member_count = match field_opt_u32(fields, "memberCount") {
                    Ok(x) => x,
                    Err(_) => {
                        return None;
                    },
                };
                Some(Group { id, name, default, active, creator_id, member_count })
            },
            _ => None,
        }
    }
}

/// Decoding an encoded group gives back the same group.
#[verifier::rlimit(100)]
pub proof fn lemma_group_roundtrip(g: GroupV)
    ensures
        spec_group_from(spec_group_json(g)) == Some(g),
{
    reveal_strlit("id");
    reveal_strlit("name");
    reveal_strlit("default");
    reveal_strlit("active");
    reveal_strlit("creatorId");
    reveal_strlit("memberCount");
    reveal_with_fuel(spec_lookup, 8);
    assert("id"@.len() == 2);
    assert("name"@.len() == 4);
    assert("default"@.len() == 7);
    assert("active"@.len() == 6);
    assert("creatorId"@.len() == 9);
    assert("memberCount"@.len() == 11);
    assert(spec_group_from(spec_group_json(g)) matches Some(h) && h =~= g);
}

/// A field absent from a decoded body stays unset: the empty document
/// decodes to the group with every field unset.
pub proof fn lemma_group_absent_fields()
    ensures
        spec_group_from(JVal::Obj(Seq::empty())) == Some(
            GroupV {
                id: None,
                name: None,
                default: None,
                active: None,
                creator_id: None,
                member_count: None,
            },
        ),
{
    reveal_with_fuel(spec_lookup, 2);
}

/// The decoding of a list of groups: every element must decode.
pub open spec fn spec_groups_from(es: Seq<JVal>) -> Option<Seq<GroupV>> {
    if forall|i: int| 0 <= i < es.len() ==> (#[trigger] spec_group_from(es[i])) is Some {
        Some(Seq::new(es.len(), |i: int| spec_group_from(es[i]).unwrap()))
    } else {
        None
    }
}

/// A list of groups, from a JSON array.
#[verifier::loop_isolation(false)]
pub fn groups_from_json(v: &JsonValue) -> (r: Option<Vec<Group>>)
    ensures
        match r {
            Some(gs) => v@ matches JVal::Arr(es) && spec_groups_from(es) == Some(
                vviews(gs@),
            ),
            None => !(v@ matches JVal::Arr(es) && spec_groups_from(es) is Some),
        },
{
    proof {
        broadcast use lemma_jview_arr;

    }
    match v {
        JsonValue::Arr(es) => {
            let mut out: Vec<Group> = Vec::new();
            let mut i: usize = 0;
            while i < es.len()
                invariant
                    i <= es.len(),
                    out@.len() == i as int,
                    forall|j: int|
                        0 <= j < i ==> spec_group_from(#[trigger] spec_elems(es@)[j])
                            == Some(out@[j]@),
                decreases es.len() - i,
            {
                proof {
                    assert(spec_elems(es@)[i as int] == jview(es@[i as int]));
                }
                match Group::from_json(&es[i]) {
                    Some(g) => out.push(g),
                    None => {
                        proof {
                            broadcast use lemma_jview_arr;

                            assert(spec_group_from(spec_elems(es@)[i as int]) is None);
                        }
                        return None;
                    },
                }
                i = i + 1;
            }
            proof {
                assert(spec_groups_from(spec_elems(es@)) == Some(vviews(out@))) by {
                    assert(Seq::new(
                        spec_elems(es@).len(),
                        |j: int| spec_group_from(spec_elems(es@)[j]).unwrap(),
                    ) =~= vviews(out@));
                }
            }
            Some(out)
        },
        _ => None,
    }
}

impl Client {
    /// The request for the list of groups, with optional paging parameters.
    pub fn get_groups(&self, limit: Option<u32>, offset: Option<u32>) -> (r: ApiRequest)
        ensures
            r@.method == Method::Get,
            r@.url == self@.host + "/v1/groups"@,
            r@.scope == "user"@,
            r@.body is None,
            r@.query == crate::public::spec_paging_query(limit, offset),
    {
        let mut r = ApiRequest::new(
            Method::Get,
            str_concat(self.host.as_str(), "/v1/groups"),
            "user",
        );
        r.query = crate::public::paging_query(limit, offset);
        r
    }

    /// The request that creates a group from the given record.
    pub fn post_group(&self, group: Group) -> (r: ApiRequest)
        ensures
            r@.method == Method::Post,
            r@.url == self@.host + "/v1/groups"@,
            r@.scope == "user"@,
            r@.query == Seq::<(Seq<char>, Seq<char>)>::empty(),
            r@.body == Some(ReqBodyV::Json(spec_group_json(group@))),
    {
        let mut r = ApiRequest::new(
            Method::Post,
            str_concat(self.host.as_str(), "/v1/groups"),
            "user",
        );
        r.body = Some(ReqBody::Json(group.to_json()));
        r
    }

    /// The request for one group by id.
    pub fn get_group(&self, id: &str) -> (r: ApiRequest)
        ensures
            r@.method == Method::Get,
            r@.url == self@.host + "/v1/groups/"@ + id@,
            r@.scope == "user"@,
            r@.query == Seq::<(Seq<char>, Seq<char>)>::empty(),
            r@.body is None,
    {
        let mut url = str_concat(self.host.as_str(), "/v1/groups/");
        url.append(id);
        ApiRequest::new(Method::Get, url, "user")
    }

    /// The request that updates a group by id from the given record.
    pub fn put_group(&self, id: &str, group: Group) -> (r: ApiRequest)
        ensures
            r@.method == Method::Put,
            r@.url == self@.host + "/v1/groups/"@ + id@,
            r@.scope == "user"@,
            r@.query == Seq::<(Seq<char>, Seq<char>)>::empty(),
            r@.body == Some(ReqBodyV::Json(spec_group_json(group@))),
    {
        let mut url = str_concat(self.host.as_str(), "/v1/groups/");
        url.append(id);
        let mut r = ApiRequest::new(Method::Put, url, "user");
        r.body = Some(ReqBody::Json(group.to_json()));
        r
    }

    /// The request that deletes a group by id.
    pub fn delete_group(&self, id: &str) -> (r: ApiRequest)
        ensures
            r@.method == Method::Delete,
            r@.url == self@.host + "/v1/groups/"@ + id@,
            r@.scope == "user"@,
            r@.query == Seq::<(Seq<char>, Seq<char>)>::empty(),
            r@.body is None,
    {
        let mut url = str_concat(self.host.as_str(), "/v1/groups/");
        url.append(id);
        ApiRequest::new(Method::Delete, url, "user")
    }

    /// The request for the user ids of a group's members.
    pub fn get_group_users(&self, id: &str) -> (r: ApiRequest)
        ensures
            r@.method == Method::Get,
            r@.url == self@.host + "/v1/groups/"@ + id@ + "/users"@,
            r@.scope == "user"@,
            r@.query == Seq::<(Seq<char>, Seq<char>)>::empty(),
            r@.body is None,
    {
        let mut url = str_concat(self.host.as_str(), "/v1/groups/");
        url.append(id);
        url.append("/users");
        ApiRequest::new(Method::Get, url, "user")
    }

    /// The request that adds a user to a group.
    pub fn put_group_user(&self, group_id: &str, user_id: &str) -> (r: ApiRequest)
        ensures
            r@.method == Method::Put,
            r@.url == self@.host + "/v1/groups/"@ + group_id@ + "/users/"@ + user_id@,
            r@.scope == "user"@,
            r@.query == Seq::<(Seq<char>, Seq<char>)>::empty(),
            r@.body is None,
    {
        let mut url = str_concat(self.host.as_str(), "/v1/groups/");
        url.append(group_id);
        url.append("/users/");
        url.append(user_id);
        ApiRequest::new(Method::Put, url, "user")
    }

    /// The request that removes a user from a group.
    pub fn delete_group_user(&self, group_id: &str, user_id: &str) -> (r: ApiRequest)
        ensures
            r@.method == Method::Delete,
            r@.url == self@.host + "/v1/groups/"@ + group_id@ + "/users/"@ + user_id@,
            r@.scope == "user"@,
            r@.query == Seq::<(Seq<char>, Seq<char>)>::empty(),
            r@.body is None,
    {
        let mut url = str_concat(self.host.as_str(), "/v1/groups/");
        url.append(group_id);
        url.append("/users/");
        url.append(user_id);
        ApiRequest::new(Method::Delete, url, "user")
    }
}

/// Maps a response holding one group.
pub fn group_response(status: u16, body: &str) -> (r: Result<Group, DomoError>)
    ensures
        match r {
            Ok(g) => spec_check_response(status, body@) matches Ok(j) && spec_group_from(j)
                == Some(g@),
            Err(e) => match spec_check_response(status, body@) {
                Ok(j) => spec_group_from(j) is None && e@ == (DomoErrorV::Malformed {
                    status,
                }),
                Err(e2) => e@ == e2,
            },
        },
{
    match check_response(status, body) {
        Err(e) => Err(e),
        Ok(v) => match Group::from_json(&v) {
            Some(g) => Ok(g),
            None => Err(DomoError::Malformed { status }),
        },
    }
}

/// Maps a response holding a list of groups.
pub fn groups_response(status: u16, body: &str) -> (r: Result<Vec<Group>, DomoError>)
    ensures
        match r {
            Ok(gs) => spec_check_response(status, body@) matches Ok(j) && j matches JVal::Arr(
                es,
            ) && spec_groups_from(es) == Some(vviews(gs@)),
            Err(e) => match spec_check_response(status, body@) {
                Ok(j) => e@ == (DomoErrorV::Malformed { status }) && !(j matches JVal::Arr(
                    es,
                ) && spec_groups_from(es) is Some),
                Err(e2) => e@ == e2,
            },
        },
{
    match check_response(status, body) {
        Err(e) => Err(e),
        Ok(v) => match groups_from_json(&v) {
            Some(gs) => Ok(gs),
            None => Err(DomoError::Malformed { status }),
        },
    }
}

/// Maps a response holding a list of user ids.
pub fn user_ids_response(status: u16, body: &str) -> (r: Result<Vec<u64>, DomoError>)
    ensures
        match r {
            Ok(ids) => spec_check_response(status, body@) matches Ok(j) && j matches JVal::Arr(
                es,
            ) && crate::json::spec_dec_num_list(es) == Some(ids@),
            Err(e) => match spec_check_response(status, body@) {
                Ok(j) => e@ == (DomoErrorV::Malformed { status }) && !(j matches JVal::Arr(
                    es,
                ) && crate::json::spec_dec_num_list(es) is Some),
                Err(e2) => e@ == e2,
            },
        },
{
    let v = match check_response(status, body) {
        Ok(v) => v,
        Err(e) => {
            return Err(e);
        },
    };
    proof {
        broadcast use lemma_jview_arr;

    }
    match &v {
        JsonValue::Arr(es) => match crate::json::dec_num_list(es) {
            Some(ids) => Ok(ids),
            None => Err(DomoError::Malformed { status }),
        },
        _ => Err(DomoError::Malformed { status }),
    }
}

} // verus!
