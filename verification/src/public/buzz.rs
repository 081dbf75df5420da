//! Buzz messaging: integrations, event subscriptions, and the inbound event
//! payload, with the buzz endpoints.

use crate::json::{
    JVal, JsonValue, field_opt_string, field_opt_str_arr, field_opt_u64,
    field_strmap_default, j_opt_string, j_opt_str_arr, j_opt_u64, j_strmap,
    jlookup, jview, lemma_jview_arr, lemma_jview_obj, ostr, ostrs, oview, ovviews,
    put_field, spec_elems, spec_field_opt_str,
    spec_field_opt_str_arr, spec_field_opt_u64, spec_field_strmap_default, spec_fields,
    spec_j_opt_num, spec_j_opt_str, spec_j_opt_str_arr, spec_j_strmap,
    spec_lookup, views_of_pairs, vviews,
};
use crate::public::{
    ApiRequest, Client, DomoError, DomoErrorV, Method, ReqBody, ReqBodyV, check_response,
    spec_check_response,
};
use crate::strutil::str_concat;
use vstd::prelude::*;
use vstd::string::StringExecFns;

verus! {


/// One HTTP header an integration call carries.
#[derive(Debug, PartialEq, Eq)]
pub struct Header {
    pub name: Option<String>,
    pub value: Option<String>,
}

#[verifier::ext_equal]
pub struct HeaderV {
    pub name: Option<Seq<char>>,
    pub value: Option<Seq<char>>,
}

impl View for Header {
    type V = HeaderV;

    open spec fn view(&self) -> HeaderV {
        HeaderV {
            name: ostr(self.name),
            value: ostr(self.value),
        }
    }
}

pub open spec fn spec_header_json(v: HeaderV) -> JVal {
    JVal::Obj(
        seq![
            ("name"@, spec_j_opt_str(v.name)),
            ("value"@, spec_j_opt_str(v.value)),
        ],
    )
}

pub open spec fn spec_header_from(j: JVal) -> Option<HeaderV> {
    match j {
        JVal::Obj(fields) => {
            let name = spec_field_opt_str(fields, "name"@);
            let value = spec_field_opt_str(fields, "value"@);
            if name is Err || value is Err {
                None
            } else {
                Some(
                    HeaderV {
                        name: name->Ok_0,
                        value: value->Ok_0,
                    },
                )
            }
        },
        _ => None,
    }
}

impl Header {
    /// The record as a JSON document, with its wire field names; an unset
    /// field is sent as `null`.
    #[verifier::rlimit(100)]
    pub fn to_json(&self) -> (r: JsonValue)
        ensures
            r@ == spec_header_json(self@),
    {
        let mut f: Vec<(String, JsonValue)> = Vec::new();
        put_field(&mut f, "name", j_opt_string(&self.name));
        put_field(&mut f, "value", j_opt_string(&self.value));
        let r = JsonValue::Obj(f);
        proof {
            broadcast use lemma_jview_obj;

            assert(jview(r) == JVal::Obj(spec_fields(r->Obj_0@)));
            assert(spec_fields(r->Obj_0@) =~= spec_header_json(self@)->Obj_0);
        }
        r
    }

    /// The record a well-formed body decodes to; `None` when a present
    /// field has the wrong shape.
    pub fn from_json(v: &JsonValue) -> (r: Option<Header>)
        ensures
            match r {
                Some(x) => spec_header_from(v@) == Some(x@),
                None => spec_header_from(v@) is None,
            },
    {
        proof {
            broadcast use lemma_jview_obj;
            broadcast use lemma_jview_arr;

        }
        match v {
            JsonValue::Obj(fields) => {
                let name = match field_opt_string(fields, "name") {
                    Ok(x) => x,
                    Err(_) => {
                        return None;
                    },
                };
                let value = match field_opt_string(fields, "value") {
                    Ok(x) => x,
                    Err(_) => {
                        return None;
                    },
                };
                Some(Header { name, value })
            },
            _ => None,
        }
    }
}

/// Decoding an encoded record gives back the same record.
#[verifier::rlimit(100)]
pub proof fn lemma_header_roundtrip(g: HeaderV)
    ensures
        spec_header_from(spec_header_json(g)) == Some(g),
{
    reveal_strlit("name");
    reveal_strlit("value");
    reveal_with_fuel(spec_lookup, 4);
    assert("name"@.len() == 4);
    assert("value"@.len() == 5);
    assert(spec_header_from(spec_header_json(g)) matches Some(h) && h =~= g);
}

/// A field absent from a decoded body stays unset or takes its default.
pub proof fn lemma_header_absent_fields()
    ensures
        spec_header_from(JVal::Obj(Seq::empty())) == Some(
            HeaderV {
                name: None,
                value: None,
            },
        ),
{
    reveal_with_fuel(spec_lookup, 2);
}

/// The encoded form of a list of these records.
pub open spec fn spec_headers_json(s: Seq<HeaderV>) -> Seq<JVal> {
    Seq::new(s.len(), |i: int| spec_header_json(s[i]))
}

pub open spec fn spec_opt_headers_json(o: Option<Seq<HeaderV>>) -> JVal {
    match o {
        None => JVal::Null,
        Some(s) => JVal::Arr(spec_headers_json(s)),
    }
}

/// The decoding of a list of these records: every element must decode.
pub open spec fn spec_headers_from(es: Seq<JVal>) -> Option<Seq<HeaderV>> {
    if forall|i: int| 0 <= i < es.len() ==> (#[trigger] spec_header_from(es[i])) is Some {
        Some(Seq::new(es.len(), |i: int| spec_header_from(es[i]).unwrap()))
    } else {
        None
    }
}

pub open spec fn spec_field_opt_headers(
    fields: Seq<(Seq<char>, JVal)>,
    key: Seq<char>,
) -> Result<Option<Seq<HeaderV>>, ()> {
    match spec_lookup(fields, key) {
        None => Ok(None),
        Some(j) => match j {
            JVal::Null => Ok(None),
            JVal::Arr(es) => match spec_headers_from(es) {
                Some(s) => Ok(Some(s)),
                None => Err(()),
            },
            _ => Err(()),
        },
    }
}

pub fn header_list_to_json(v: &Vec<Header>) -> (r: JsonValue)
    ensures
        r@ == JVal::Arr(spec_headers_json(vviews(v@))),
{
    let mut a: Vec<JsonValue> = Vec::new();
    let mut i: usize = 0;
    while i < v.len()
        invariant
            i <= v.len(),
            a@.len() == i as int,
            forall|j: int| 0 <= j < i ==> jview(#[trigger] a@[j]) == spec_header_json(v@[j]@),
        decreases v.len() - i,
    {
        a.push(v[i].to_json());
        i = i + 1;
    }
    let r = JsonValue::Arr(a);
    proof {
        broadcast use lemma_jview_arr;

        assert forall|j: int| 0 <= j < v@.len() implies spec_elems(r->Arr_0@)[j]
            == spec_header_json(vviews(v@)[j]) by {
            assert(spec_elems(r->Arr_0@)[j] == jview(r->Arr_0@[j]));
        }
        assert(spec_elems(r->Arr_0@) =~= spec_headers_json(vviews(v@)));
    }
    r
}

#[verifier::loop_isolation(false)]
pub fn header_list_from_json(es: &Vec<JsonValue>) -> (r: Option<Vec<Header>>)
    ensures
        match r {
            Some(v) => spec_headers_from(spec_elems(es@)) == Some(vviews(v@)),
            None => spec_headers_from(spec_elems(es@)) is None,
        },
{
    let mut out: Vec<Header> = Vec::new();
    let mut i: usize = 0;
    while i < es.len()
        invariant
            i <= es.len(),
            out@.len() == i as int,
            forall|j: int|
                0 <= j < i ==> spec_header_from(#[trigger] spec_elems(es@)[j]) == Some(
                    out@[j]@,
                ),
        decreases es.len() - i,
    {
        proof {
            assert(spec_elems(es@)[i as int] == jview(es@[i as int]));
        }
        match Header::from_json(&es[i]) {
            Some(x) => out.push(x),
            None => {
                proof {
                    assert(spec_header_from(spec_elems(es@)[i as int]) is None);
                }
                return None;
            },
        }
        i = i + 1;
    }
    proof {
        assert(spec_headers_from(spec_elems(es@)) == Some(vviews(out@))) by {
            assert(Seq::new(
                spec_elems(es@).len(),
                |j: int| spec_header_from(spec_elems(es@)[j]).unwrap(),
            ) =~= vviews(out@));
        }
    }
    Some(out)
}

pub open spec fn spec_opt_header_json(o: Option<HeaderV>) -> JVal {
    match o {
        None => JVal::Null,
        Some(x) => spec_header_json(x),
    }
}

pub open spec fn spec_field_opt_header(
    fields: Seq<(Seq<char>, JVal)>,
    key: Seq<char>,
) -> Result<Option<HeaderV>, ()> {
    match spec_lookup(fields, key) {
        None => Ok(None),
        Some(j) => match j {
            JVal::Null => Ok(None),
            _ => match spec_header_from(j) {
                Some(t) => Ok(Some(t)),
                None => Err(()),
            },
        },
    }
}

/// A buzz integration: an outside service that receives events from buzz
/// channels and may post messages back.
#[derive(Debug, PartialEq, Eq)]
pub struct Integration {
    pub id: Option<String>,
    pub name: Option<String>,
    pub description: Option<String>,
    pub scope: Option<String>,
    pub channel_ids: Option<Vec<String>>,
    pub headers: Option<Vec<Header>>,
}

#[verifier::ext_equal]
pub struct IntegrationV {
    pub id: Option<Seq<char>>,
    pub name: Option<Seq<char>>,
    pub description: Option<Seq<char>>,
    pub scope: Option<Seq<char>>,
    pub channel_ids: Option<Seq<Seq<char>>>,
    pub headers: Option<Seq<HeaderV>>,
}

impl View for Integration {
    type V = IntegrationV;

    open spec fn view(&self) -> IntegrationV {
        IntegrationV {
            id: ostr(self.id),
            name: ostr(self.name),
            description: ostr(self.description),
            scope: ostr(self.scope),
            channel_ids: ostrs(self.channel_ids),
            headers: ovviews(self.headers),
        }
    }
}

pub open spec fn spec_integration_json(v: IntegrationV) -> JVal {
    JVal::Obj(
        seq![
            ("id"@, spec_j_opt_str(v.id)),
            ("name"@, spec_j_opt_str(v.name)),
            ("description"@, spec_j_opt_str(v.description)),
            ("scope"@, spec_j_opt_str(v.scope)),
            ("channelIds"@, spec_j_opt_str_arr(v.channel_ids)),
            ("headers"@, spec_opt_headers_json(v.headers)),
        ],
    )
}

pub open spec fn spec_integration_from(j: JVal) -> Option<IntegrationV> {
    match j {
        JVal::Obj(fields) => {
            let id = spec_field_opt_str(fields, "id"@);
            let name = spec_field_opt_str(fields, "name"@);
            let description = spec_field_opt_str(fields, "description"@);
            let scope = spec_field_opt_str(fields, "scope"@);
            let channel_ids = spec_field_opt_str_arr(fields, "channelIds"@);
            let headers = spec_field_opt_headers(fields, "headers"@);
            if id is Err || name is Err || description is Err || scope is Err || channel_ids is Err || headers is Err {
                None
            } else {
                Some(
                    IntegrationV {
                        id: id->Ok_0,
                        name: name->Ok_0,
                        description: description->Ok_0,
                        scope: scope->Ok_0,
                        channel_ids: channel_ids->Ok_0,
                        headers: headers->Ok_0,
                    },
                )
            }
        },
        _ => None,
    }
}

impl Integration {
    /// The record as a JSON document, with its wire field names; an unset
    /// field is sent as `null`.
    #[verifier::rlimit(100)]
    pub fn to_json(&self) -> (r: JsonValue)
        ensures
            r@ == spec_integration_json(self@),
    {
        let mut f: Vec<(String, JsonValue)> = Vec::new();
        put_field(&mut f, "id", j_opt_string(&self.id));
        put_field(&mut f, "name", j_opt_string(&self.name));
        put_field(&mut f, "description", j_opt_string(&self.description));
        put_field(&mut f, "scope", j_opt_string(&self.scope));
        put_field(&mut f, "channelIds", j_opt_str_arr(&self.channel_ids));
        let headers_json = match &self.headers {
            None => JsonValue::Null,
            Some(x) => header_list_to_json(x),
        };
        put_field(&mut f, "headers", headers_json);
        let r = JsonValue::Obj(f);
        proof {
            broadcast use lemma_jview_obj;

            assert(jview(r) == JVal::Obj(spec_fields(r->Obj_0@)));
            assert(spec_fields(r->Obj_0@) =~= spec_integration_json(self@)->Obj_0);
        }
        r
    }

    /// The record a well-formed body decodes to; `None` when a present
    /// field has the wrong shape.
    pub fn from_json(v: &JsonValue) -> (r: Option<Integration>)
        ensures
            match r {
                Some(x) => spec_integration_from(v@) == Some(x@),
                None => spec_integration_from(v@) is None,
            },
    {
        proof {
            broadcast use lemma_jview_obj;
            broadcast use lemma_jview_arr;

        }
        match v {
            JsonValue::Obj(fields) => {
                let id = match field_opt_string(fields, "id") {
                    Ok(x) => x,
                    Err(_) => {
                        return None;
                    },
                };
                let name = match field_opt_string(fields, "name") {
                    Ok(x) => x,
                    Err(_) => {
                        return None;
                    },
                };
                let description = match field_opt_string(fields, "description") {
                    Ok(x) => x,
                    Err(_) => {
                        return None;
                    },
                };
                let scope = match field_opt_string(fields, "scope") {
                    Ok(x) => x,
                    Err(_) => {
                        return None;
                    },
                };
                let channel_ids = match field_opt_str_arr(fields, "channelIds") {
                    Ok(x) => x,
                    Err(_) => {
                        return None;
                    },
                };
                let headers = match jlookup(fields, "headers") {
                    None => None,
                    Some(w) => match w {
                        JsonValue::Null => None,
                        JsonValue::Arr(es) => match header_list_from_json(es) {
                            Some(x) => Some(x),
                            None => {
                                return None;
                            },
                        },
                        _ => {
                            return None;
                        },
                    },
                };
                Some(Integration { id, name, description, scope, channel_ids, headers })
            },
            _ => None,
        }
    }
}

/// Decoding an encoded record gives back the same record.
#[verifier::rlimit(100)]
pub proof fn lemma_integration_roundtrip(g: IntegrationV)
    ensures
        spec_integration_from(spec_integration_json(g)) == Some(g),
{
    reveal_strlit("id");
    reveal_strlit("name");
    reveal_strlit("description");
    reveal_strlit("scope");
    reveal_strlit("channelIds");
    reveal_strlit("headers");
    reveal_with_fuel(spec_lookup, 8);
    assert("id"@.len() == 2);
    assert("name"@.len() == 4);
    assert("description"@.len() == 11);
    assert("scope"@.len() == 5);
    assert("channelIds"@.len() == 10);
    assert("headers"@.len() == 7);
    if g.headers is Some {
        let s = g.headers.unwrap();
        assert forall|i: int| 0 <= i < s.len() implies spec_header_from(
            #[trigger] spec_headers_json(s)[i],
        ) == Some(s[i]) by {
            lemma_header_roundtrip(s[i]);
        }
        assert(spec_headers_from(spec_headers_json(s)) == Some(s)) by {
            assert(Seq::new(
                spec_headers_json(s).len(),
                |i: int| spec_header_from(spec_headers_json(s)[i]).unwrap(),
            ) =~= s);
        }
    }
    assert(spec_integration_from(spec_integration_json(g)) matches Some(h) && h =~= g);
}

/// A field absent from a decoded body stays unset or takes its default.
pub proof fn lemma_integration_absent_fields()
    ensures
        spec_integration_from(JVal::Obj(Seq::empty())) == Some(
            IntegrationV {
                id: None,
                name: None,
                description: None,
                scope: None,
                channel_ids: None,
                headers: None,
            },
        ),
{
    reveal_with_fuel(spec_lookup, 2);
}

/// The encoded form of a list of these records.
pub open spec fn spec_integrations_json(s: Seq<IntegrationV>) -> Seq<JVal> {
    Seq::new(s.len(), |i: int| spec_integration_json(s[i]))
}

pub open spec fn spec_opt_integrations_json(o: Option<Seq<IntegrationV>>) -> JVal {
    match o {
        None => JVal::Null,
        Some(s) => JVal::Arr(spec_integrations_json(s)),
    }
}

/// The decoding of a list of these records: every element must decode.
pub open spec fn spec_integrations_from(es: Seq<JVal>) -> Option<Seq<IntegrationV>> {
    if forall|i: int| 0 <= i < es.len() ==> (#[trigger] spec_integration_from(es[i])) is Some {
        Some(Seq::new(es.len(), |i: int| spec_integration_from(es[i]).unwrap()))
    } else {
        None
    }
}

pub open spec fn spec_field_opt_integrations(
    fields: Seq<(Seq<char>, JVal)>,
    key: Seq<char>,
) -> Result<Option<Seq<IntegrationV>>, ()> {
    match spec_lookup(fields, key) {
        None => Ok(None),
        Some(j) => match j {
            JVal::Null => Ok(None),
            JVal::Arr(es) => match spec_integrations_from(es) {
                Some(s) => Ok(Some(s)),
                None => Err(()),
            },
            _ => Err(()),
        },
    }
}

pub fn integration_list_to_json(v: &Vec<Integration>) -> (r: JsonValue)
    ensures
        r@ == JVal::Arr(spec_integrations_json(vviews(v@))),
{
    let mut a: Vec<JsonValue> = Vec::new();
    let mut i: usize = 0;
    while i < v.len()
        invariant
            i <= v.len(),
            a@.len() == i as int,
            forall|j: int| 0 <= j < i ==> jview(#[trigger] a@[j]) == spec_integration_json(v@[j]@),
        decreases v.len() - i,
    {
        a.push(v[i].to_json());
        i = i + 1;
    }
    let r = JsonValue::Arr(a);
    proof {
        broadcast use lemma_jview_arr;

        assert forall|j: int| 0 <= j < v@.len() implies spec_elems(r->Arr_0@)[j]
            == spec_integration_json(vviews(v@)[j]) by {
            assert(spec_elems(r->Arr_0@)[j] == jview(r->Arr_0@[j]));
        }
        assert(spec_elems(r->Arr_0@) =~= spec_integrations_json(vviews(v@)));
    }
    r
}

#[verifier::loop_isolation(false)]
pub fn integration_list_from_json(es: &Vec<JsonValue>) -> (r: Option<Vec<Integration>>)
    ensures
        match r {
            Some(v) => spec_integrations_from(spec_elems(es@)) == Some(vviews(v@)),
            None => spec_integrations_from(spec_elems(es@)) is None,
        },
{
    let mut out: Vec<Integration> = Vec::new();
    let mut i: usize = 0;
    while i < es.len()
        invariant
            i <= es.len(),
            out@.len() == i as int,
            forall|j: int|
                0 <= j < i ==> spec_integration_from(#[trigger] spec_elems(es@)[j]) == Some(
                    out@[j]@,
                ),
        decreases es.len() - i,
    {
        proof {
            assert(spec_elems(es@)[i as int] == jview(es@[i as int]));
        }
        match Integration::from_json(&es[i]) {
            Some(x) => out.push(x),
            None => {
                proof {
                    assert(spec_integration_from(spec_elems(es@)[i as int]) is None);
                }
                return None;
            },
        }
        i = i + 1;
    }
    proof {
        assert(spec_integrations_from(spec_elems(es@)) == Some(vviews(out@))) by {
            assert(Seq::new(
                spec_elems(es@).len(),
                |j: int| spec_integration_from(spec_elems(es@)[j]).unwrap(),
            ) =~= vviews(out@));
        }
    }
    Some(out)
}

pub open spec fn spec_opt_integration_json(o: Option<IntegrationV>) -> JVal {
    match o {
        None => JVal::Null,
        Some(x) => spec_integration_json(x),
    }
}

pub open spec fn spec_field_opt_integration(
    fields: Seq<(Seq<char>, JVal)>,
    key: Seq<char>,
) -> Result<Option<IntegrationV>, ()> {
    match spec_lookup(fields, key) {
        None => Ok(None),
        Some(j) => match j {
            JVal::Null => Ok(None),
            _ => match spec_integration_from(j) {
                Some(t) => Ok(Some(t)),
                None => Err(()),
            },
        },
    }
}

/// An event subscription of an integration: which event type is delivered,
/// and where.
#[derive(Debug, PartialEq, Eq)]
pub struct Subscription {
    pub id: Option<String>,
    pub event_type: Option<String>,
    pub url: Option<String>,
    pub slash_command: Option<String>,
}

#[verifier::ext_equal]
pub struct SubscriptionV {
    pub id: Option<Seq<char>>,
    pub event_type: Option<Seq<char>>,
    pub url: Option<Seq<char>>,
    pub slash_command: Option<Seq<char>>,
}

impl View for Subscription {
    type V = SubscriptionV;

    open spec fn view(&self) -> SubscriptionV {
        SubscriptionV {
            id: ostr(self.id),
            event_type: ostr(self.event_type),
            url: ostr(self.url),
            slash_command: ostr(self.slash_command),
        }
    }
}

pub open spec fn spec_subscription_json(v: SubscriptionV) -> JVal {
    JVal::Obj(
        seq![
            ("id"@, spec_j_opt_str(v.id)),
            ("eventType"@, spec_j_opt_str(v.event_type)),
            ("url"@, spec_j_opt_str(v.url)),
            ("slashCommand"@, spec_j_opt_str(v.slash_command)),
        ],
    )
}

pub open spec fn spec_subscription_from(j: JVal) -> Option<SubscriptionV> {
    match j {
        JVal::Obj(fields) => {
            let id = spec_field_opt_str(fields, "id"@);
            let event_type = spec_field_opt_str(fields, "eventType"@);
            let url = spec_field_opt_str(fields, "url"@);
            let slash_command = spec_field_opt_str(fields, "slashCommand"@);
            if id is Err || event_type is Err || url is Err || slash_command is Err {
                None
            } else {
                Some(
                    SubscriptionV {
                        id: id->Ok_0,
                        event_type: event_type->Ok_0,
                        url: url->Ok_0,
                        slash_command: slash_command->Ok_0,
                    },
                )
            }
        },
        _ => None,
    }
}

impl Subscription {
    /// The record as a JSON document, with its wire field names; an unset
    /// field is sent as `null`.
    #[verifier::rlimit(100)]
    pub fn to_json(&self) -> (r: JsonValue)
        ensures
            r@ == spec_subscription_json(self@),
    {
        let mut f: Vec<(String, JsonValue)> = Vec::new();
        put_field(&mut f, "id", j_opt_string(&self.id));
        put_field(&mut f, "eventType", j_opt_string(&self.event_type));
        put_field(&mut f, "url", j_opt_string(&self.url));
        put_field(&mut f, "slashCommand", j_opt_string(&self.slash_command));
        let r = JsonValue::Obj(f);
        proof {
            broadcast use lemma_jview_obj;

            assert(jview(r) == JVal::Obj(spec_fields(r->Obj_0@)));
            assert(spec_fields(r->Obj_0@) =~= spec_subscription_json(self@)->Obj_0);
        }
        r
    }

    /// The record a well-formed body decodes to; `None` when a present
    /// field has the wrong shape.
    pub fn from_json(v: &JsonValue) -> (r: Option<Subscription>)
        ensures
            match r {
                Some(x) => spec_subscription_from(v@) == Some(x@),
                None => spec_subscription_from(v@) is None,
            },
    {
        proof {
            broadcast use lemma_jview_obj;
            broadcast use lemma_jview_arr;

        }
        match v {
            JsonValue::Obj(fields) => {
                let id = match field_opt_string(fields, "id") {
                    Ok(x) => x,
                    Err(_) => {
                        return None;
                    },
                };
                let event_type = match field_opt_string(fields, "eventType") {
                    Ok(x) => x,
                    Err(_) => {
                        return None;
                    },
                };
                let url = match field_opt_string(fields, "url") {
                    Ok(x) => x,
                    Err(_) => {
                        return None;
                    },
                };
                let slash_command = match field_opt_string(fields, "slashCommand") {
                    Ok(x) => x,
                    Err(_) => {
                        return None;
                    },
                };
                Some(Subscription { id, event_type, url, slash_command })
            },
            _ => None,
        }
    }
}

/// Decoding an encoded record gives back the same record.
#[verifier::rlimit(100)]
pub proof fn lemma_subscription_roundtrip(g: SubscriptionV)
    ensures
        spec_subscription_from(spec_subscription_json(g)) == Some(g),
{
    reveal_strlit("id");
    reveal_strlit("eventType");
    reveal_strlit("url");
    reveal_strlit("slashCommand");
    reveal_with_fuel(spec_lookup, 6);
    assert("id"@.len() == 2);
    assert("eventType"@.len() == 9);
    assert("url"@.len() == 3);
    assert("slashCommand"@.len() == 12);
    assert(spec_subscription_from(spec_subscription_json(g)) matches Some(h) && h =~= g);
}

/// A field absent from a decoded body stays unset or takes its default.
pub proof fn lemma_subscription_absent_fields()
    ensures
        spec_subscription_from(JVal::Obj(Seq::empty())) == Some(
            SubscriptionV {
                id: None,
                event_type: None,
                url: None,
                slash_command: None,
            },
        ),
{
    reveal_with_fuel(spec_lookup, 2);
}

/// The encoded form of a list of these records.
pub open spec fn spec_subscriptions_json(s: Seq<SubscriptionV>) -> Seq<JVal> {
    Seq::new(s.len(), |i: int| spec_subscription_json(s[i]))
}

pub open spec fn spec_opt_subscriptions_json(o: Option<Seq<SubscriptionV>>) -> JVal {
    match o {
        None => JVal::Null,
        Some(s) => JVal::Arr(spec_subscriptions_json(s)),
    }
}

/// The decoding of a list of these records: every element must decode.
pub open spec fn spec_subscriptions_from(es: Seq<JVal>) -> Option<Seq<SubscriptionV>> {
    if forall|i: int| 0 <= i < es.len() ==> (#[trigger] spec_subscription_from(es[i])) is Some {
        Some(Seq::new(es.len(), |i: int| spec_subscription_from(es[i]).unwrap()))
    } else {
        None
    }
}

pub open spec fn spec_field_opt_subscriptions(
    fields: Seq<(Seq<char>, JVal)>,
    key: Seq<char>,
) -> Result<Option<Seq<SubscriptionV>>, ()> {
    match spec_lookup(fields, key) {
        None => Ok(None),
        Some(j) => match j {
            JVal::Null => Ok(None),
            JVal::Arr(es) => match spec_subscriptions_from(es) {
                Some(s) => Ok(Some(s)),
                None => Err(()),
            },
            _ => Err(()),
        },
    }
}

pub fn subscription_list_to_json(v: &Vec<Subscription>) -> (r: JsonValue)
    ensures
        r@ == JVal::Arr(spec_subscriptions_json(vviews(v@))),
{
    let mut a: Vec<JsonValue> = Vec::new();
    let mut i: usize = 0;
    while i < v.len()
        invariant
            i <= v.len(),
            a@.len() == i as int,
            forall|j: int| 0 <= j < i ==> jview(#[trigger] a@[j]) == spec_subscription_json(v@[j]@),
        decreases v.len() - i,
    {
        a.push(v[i].to_json());
        i = i + 1;
    }
    let r = JsonValue::Arr(a);
    proof {
        broadcast use lemma_jview_arr;

        assert forall|j: int| 0 <= j < v@.len() implies spec_elems(r->Arr_0@)[j]
            == spec_subscription_json(vviews(v@)[j]) by {
            assert(spec_elems(r->Arr_0@)[j] == jview(r->Arr_0@[j]));
        }
        assert(spec_elems(r->Arr_0@) =~= spec_subscriptions_json(vviews(v@)));
    }
    r
}

#[verifier::loop_isolation(false)]
pub fn subscription_list_from_json(es: &Vec<JsonValue>) -> (r: Option<Vec<Subscription>>)
    ensures
        match r {
            Some(v) => spec_subscriptions_from(spec_elems(es@)) == Some(vviews(v@)),
            None => spec_subscriptions_from(spec_elems(es@)) is None,
        },
{
    let mut out: Vec<Subscription> = Vec::new();
    let mut i: usize = 0;
    while i < es.len()
        invariant
            i <= es.len(),
            out@.len() == i as int,
            forall|j: int|
                0 <= j < i ==> spec_subscription_from(#[trigger] spec_elems(es@)[j]) == Some(
                    out@[j]@,
                ),
        decreases es.len() - i,
    {
        proof {
            assert(spec_elems(es@)[i as int] == jview(es@[i as int]));
        }
        match Subscription::from_json(&es[i]) {
            Some(x) => out.push(x),
            None => {
                proof {
                    assert(spec_subscription_from(spec_elems(es@)[i as int]) is None);
                }
                return None;
            },
        }
        i = i + 1;
    }
    proof {
        assert(spec_subscriptions_from(spec_elems(es@)) == Some(vviews(out@))) by {
            assert(Seq::new(
                spec_elems(es@).len(),
                |j: int| spec_subscription_from(spec_elems(es@)[j]).unwrap(),
            ) =~= vviews(out@));
        }
    }
    Some(out)
}

pub open spec fn spec_opt_subscription_json(o: Option<SubscriptionV>) -> JVal {
    match o {
        None => JVal::Null,
        Some(x) => spec_subscription_json(x),
    }
}

pub open spec fn spec_field_opt_subscription(
    fields: Seq<(Seq<char>, JVal)>,
    key: Seq<char>,
) -> Result<Option<SubscriptionV>, ()> {
    match spec_lookup(fields, key) {
        None => Ok(None),
        Some(j) => match j {
            JVal::Null => Ok(None),
            _ => match spec_subscription_from(j) {
                Some(t) => Ok(Some(t)),
                None => Err(()),
            },
        },
    }
}

/// The short user record buzz events carry.
#[derive(Debug, PartialEq, Eq)]
pub struct User {
    pub id: Option<u64>,
    pub display_name: Option<String>,
    pub email: Option<String>,
}

#[verifier::ext_equal]
pub struct UserV {
    pub id: Option<u64>,
    pub display_name: Option<Seq<char>>,
    pub email: Option<Seq<char>>,
}

impl View for User {
    type V = UserV;

    open spec fn view(&self) -> UserV {
        UserV {
            id: self.id,
            display_name: ostr(self.display_name),
            email: ostr(self.email),
        }
    }
}

pub open spec fn spec_user_json(v: UserV) -> JVal {
    JVal::Obj(
        seq![
            ("id"@, spec_j_opt_num(v.id)),
            ("displayName"@, spec_j_opt_str(v.display_name)),
            ("email"@, spec_j_opt_str(v.email)),
        ],
    )
}

pub open spec fn spec_user_from(j: JVal) -> Option<UserV> {
    match j {
        JVal::Obj(fields) => {
            let id = spec_field_opt_u64(fields, "id"@);
            let display_name = spec_field_opt_str(fields, "displayName"@);
            let email = spec_field_opt_str(fields, "email"@);
            if id is Err || display_name is Err || email is Err {
                None
            } else {
                Some(
                    UserV {
                        id: id->Ok_0,
                        display_name: display_name->Ok_0,
                        email: email->Ok_0,
                    },
                )
            }
        },
        _ => None,
    }
}

impl User {
    /// The record as a JSON document, with its wire field names; an unset
    /// field is sent as `null`.
    #[verifier::rlimit(100)]
    pub fn to_json(&self) -> (r: JsonValue)
        ensures
            r@ == spec_user_json(self@),
    {
        let mut f: Vec<(String, JsonValue)> = Vec::new();
        put_field(&mut f, "id", j_opt_u64(&self.id));
        put_field(&mut f, "displayName", j_opt_string(&self.display_name));
        put_field(&mut f, "email", j_opt_string(&self.email));
        let r = JsonValue::Obj(f);
        proof {
            broadcast use lemma_jview_obj;

            assert(jview(r) == JVal::Obj(spec_fields(r->Obj_0@)));
            assert(spec_fields(r->Obj_0@) =~= spec_user_json(self@)->Obj_0);
        }
        r
    }

    /// The record a well-formed body decodes to; `None` when a present
    /// field has the wrong shape.
    pub fn from_json(v: &JsonValue) -> (r: Option<User>)
        ensures
            match r {
                Some(x) => spec_user_from(v@) == Some(x@),
                None => spec_user_from(v@) is None,
            },
    {
        proof {
            broadcast use lemma_jview_obj;
            broadcast use lemma_jview_arr;

        }
        match v {
            JsonValue::Obj(fields) => {
                let id = match field_opt_u64(fields, "id") {
                    Ok(x) => x,
                    Err(_) => {
                        return None;
                    },
                };
                let display_name = match field_opt_string(fields, "displayName") {
                    Ok(x) => x,
                    Err(_) => {
                        return None;
                    },
                };
                let email = match field_opt_string(fields, "email") {
                    Ok(x) => x,
                    Err(_) => {
                        return None;
                    },
                };
                Some(User { id, display_name, email })
            },
            _ => None,
        }
    }
}

/// Decoding an encoded record gives back the same record.
#[verifier::rlimit(100)]
pub proof fn lemma_user_roundtrip(g: UserV)
    ensures
        spec_user_from(spec_user_json(g)) == Some(g),
{
    reveal_strlit("id");
    reveal_strlit("displayName");
    reveal_strlit("email");
    reveal_with_fuel(spec_lookup, 5);
    assert("id"@.len() == 2);
    assert("displayName"@.len() == 11);
    assert("email"@.len() == 5);
    assert(spec_user_from(spec_user_json(g)) matches Some(h) && h =~= g);
}

/// A field absent from a decoded body stays unset or takes its default.
pub proof fn lemma_user_absent_fields()
    ensures
        spec_user_from(JVal::Obj(Seq::empty())) == Some(
            UserV {
                id: None,
                display_name: None,
                email: None,
            },
        ),
{
    reveal_with_fuel(spec_lookup, 2);
}

/// The encoded form of a list of these records.
pub open spec fn spec_users_json(s: Seq<UserV>) -> Seq<JVal> {
    Seq::new(s.len(), |i: int| spec_user_json(s[i]))
}

pub open spec fn spec_opt_users_json(o: Option<Seq<UserV>>) -> JVal {
    match o {
        None => JVal::Null,
        Some(s) => JVal::Arr(spec_users_json(s)),
    }
}

/// The decoding of a list of these records: every element must decode.
pub open spec fn spec_users_from(es: Seq<JVal>) -> Option<Seq<UserV>> {
    if forall|i: int| 0 <= i < es.len() ==> (#[trigger] spec_user_from(es[i])) is Some {
        Some(Seq::new(es.len(), |i: int| spec_user_from(es[i]).unwrap()))
    } else {
        None
    }
}

pub open spec fn spec_field_opt_users(
    fields: Seq<(Seq<char>, JVal)>,
    key: Seq<char>,
) -> Result<Option<Seq<UserV>>, ()> {
    match spec_lookup(fields, key) {
        None => Ok(None),
        Some(j) => match j {
            JVal::Null => Ok(None),
            JVal::Arr(es) => match spec_users_from(es) {
                Some(s) => Ok(Some(s)),
                None => Err(()),
            },
            _ => Err(()),
        },
    }
}

pub fn user_list_to_json(v: &Vec<User>) -> (r: JsonValue)
    ensures
        r@ == JVal::Arr(spec_users_json(vviews(v@))),
{
    let mut a: Vec<JsonValue> = Vec::new();
    let mut i: usize = 0;
    while i < v.len()
        invariant
            i <= v.len(),
            a@.len() == i as int,
            forall|j: int| 0 <= j < i ==> jview(#[trigger] a@[j]) == spec_user_json(v@[j]@),
        decreases v.len() - i,
    {
        a.push(v[i].to_json());
        i = i + 1;
    }
    let r = JsonValue::Arr(a);
    proof {
        broadcast use lemma_jview_arr;

        assert forall|j: int| 0 <= j < v@.len() implies spec_elems(r->Arr_0@)[j]
            == spec_user_json(vviews(v@)[j]) by {
            assert(spec_elems(r->Arr_0@)[j] == jview(r->Arr_0@[j]));
        }
        assert(spec_elems(r->Arr_0@) =~= spec_users_json(vviews(v@)));
    }
    r
}

#[verifier::loop_isolation(false)]
pub fn user_list_from_json(es: &Vec<JsonValue>) -> (r: Option<Vec<User>>)
    ensures
        match r {
            Some(v) => spec_users_from(spec_elems(es@)) == Some(vviews(v@)),
            None => spec_users_from(spec_elems(es@)) is None,
        },
{
    let mut out: Vec<User> = Vec::new();
    let mut i: usize = 0;
    while i < es.len()
        invariant
            i <= es.len(),
            out@.len() == i as int,
            forall|j: int|
                0 <= j < i ==> spec_user_from(#[trigger] spec_elems(es@)[j]) == Some(
                    out@[j]@,
                ),
        decreases es.len() - i,
    {
        proof {
            assert(spec_elems(es@)[i as int] == jview(es@[i as int]));
        }
        match User::from_json(&es[i]) {
            Some(x) => out.push(x),
            None => {
                proof {
                    assert(spec_user_from(spec_elems(es@)[i as int]) is None);
                }
                return None;
            },
        }
        i = i + 1;
    }
    proof {
        assert(spec_users_from(spec_elems(es@)) == Some(vviews(out@))) by {
            assert(Seq::new(
                spec_elems(es@).len(),
                |j: int| spec_user_from(spec_elems(es@)[j]).unwrap(),
            ) =~= vviews(out@));
        }
    }
    Some(out)
}

pub open spec fn spec_opt_user_json(o: Option<UserV>) -> JVal {
    match o {
        None => JVal::Null,
        Some(x) => spec_user_json(x),
    }
}

pub open spec fn spec_field_opt_user(
    fields: Seq<(Seq<char>, JVal)>,
    key: Seq<char>,
) -> Result<Option<UserV>, ()> {
    match spec_lookup(fields, key) {
        None => Ok(None),
        Some(j) => match j {
            JVal::Null => Ok(None),
            _ => match spec_user_from(j) {
                Some(t) => Ok(Some(t)),
                None => Err(()),
            },
        },
    }
}

/// A buzz message.
#[derive(Debug, PartialEq, Eq)]
pub struct Message {
    pub id: Option<String>,
    pub text: Option<String>,
}

#[verifier::ext_equal]
pub struct MessageV {
    pub id: Option<Seq<char>>,
    pub text: Option<Seq<char>>,
}

impl View for Message {
    type V = MessageV;

    open spec fn view(&self) -> MessageV {
        MessageV {
            id: ostr(self.id),
            text: ostr(self.text),
        }
    }
}

pub open spec fn spec_message_json(v: MessageV) -> JVal {
    JVal::Obj(
        seq![
            ("id"@, spec_j_opt_str(v.id)),
            ("text"@, spec_j_opt_str(v.text)),
        ],
    )
}

pub open spec fn spec_message_from(j: JVal) -> Option<MessageV> {
    match j {
        JVal::Obj(fields) => {
            let id = spec_field_opt_str(fields, "id"@);
            let text = spec_field_opt_str(fields, "text"@);
            if id is Err || text is Err {
                None
            } else {
                Some(
                    MessageV {
                        id: id->Ok_0,
                        text: text->Ok_0,
                    },
                )
            }
        },
        _ => None,
    }
}

impl Message {
    /// The record as a JSON document, with its wire field names; an unset
    /// field is sent as `null`.
    #[verifier::rlimit(100)]
    pub fn to_json(&self) -> (r: JsonValue)
        ensures
            r@ == spec_message_json(self@),
    {
        let mut f: Vec<(String, JsonValue)> = Vec::new();
        put_field(&mut f, "id", j_opt_string(&self.id));
        put_field(&mut f, "text", j_opt_string(&self.text));
        let r = JsonValue::Obj(f);
        proof {
            broadcast use lemma_jview_obj;

            assert(jview(r) == JVal::Obj(spec_fields(r->Obj_0@)));
            assert(spec_fields(r->Obj_0@) =~= spec_message_json(self@)->Obj_0);
        }
        r
    }

    /// The record a well-formed body decodes to; `None` when a present
    /// field has the wrong shape.
    pub fn from_json(v: &JsonValue) -> (r: Option<Message>)
        ensures
            match r {
                Some(x) => spec_message_from(v@) == Some(x@),
                None => spec_message_from(v@) is None,
            },
    {
        proof {
            broadcast use lemma_jview_obj;
            broadcast use lemma_jview_arr;

        }
        match v {
            JsonValue::Obj(fields) => {
                let id = match field_opt_string(fields, "id") {
                    Ok(x) => x,
                    Err(_) => {
                        return None;
                    },
                };
                let text = match field_opt_string(fields, "text") {
                    Ok(x) => x,
                    Err(_) => {
                        return None;
                    },
                };
                Some(Message { id, text })
            },
            _ => None,
        }
    }
}

/// Decoding an encoded record gives back the same record.
#[verifier::rlimit(100)]
pub proof fn lemma_message_roundtrip(g: MessageV)
    ensures
        spec_message_from(spec_message_json(g)) == Some(g),
{
    reveal_strlit("id");
    reveal_strlit("text");
    reveal_with_fuel(spec_lookup, 4);
    assert("id"@.len() == 2);
    assert("text"@.len() == 4);
    assert(spec_message_from(spec_message_json(g)) matches Some(h) && h =~= g);
}

/// A field absent from a decoded body stays unset or takes its default.
pub proof fn lemma_message_absent_fields()
    ensures
        spec_message_from(JVal::Obj(Seq::empty())) == Some(
            MessageV {
                id: None,
                text: None,
            },
        ),
{
    reveal_with_fuel(spec_lookup, 2);
}

/// The encoded form of a list of these records.
pub open spec fn spec_messages_json(s: Seq<MessageV>) -> Seq<JVal> {
    Seq::new(s.len(), |i: int| spec_message_json(s[i]))
}

pub open spec fn spec_opt_messages_json(o: Option<Seq<MessageV>>) -> JVal {
    match o {
        None => JVal::Null,
        Some(s) => JVal::Arr(spec_messages_json(s)),
    }
}

/// The decoding of a list of these records: every element must decode.
pub open spec fn spec_messages_from(es: Seq<JVal>) -> Option<Seq<MessageV>> {
    if forall|i: int| 0 <= i < es.len() ==> (#[trigger] spec_message_from(es[i])) is Some {
        Some(Seq::new(es.len(), |i: int| spec_message_from(es[i]).unwrap()))
    } else {
        None
    }
}

pub open spec fn spec_field_opt_messages(
    fields: Seq<(Seq<char>, JVal)>,
    key: Seq<char>,
) -> Result<Option<Seq<MessageV>>, ()> {
    match spec_lookup(fields, key) {
        None => Ok(None),
        Some(j) => match j {
            JVal::Null => Ok(None),
            JVal::Arr(es) => match spec_messages_from(es) {
                Some(s) => Ok(Some(s)),
                None => Err(()),
            },
            _ => Err(()),
        },
    }
}

pub fn message_list_to_json(v: &Vec<Message>) -> (r: JsonValue)
    ensures
        r@ == JVal::Arr(spec_messages_json(vviews(v@))),
{
    let mut a: Vec<JsonValue> = Vec::new();
    let mut i: usize = 0;
    while i < v.len()
        invariant
            i <= v.len(),
            a@.len() == i as int,
            forall|j: int| 0 <= j < i ==> jview(#[trigger] a@[j]) == spec_message_json(v@[j]@),
        decreases v.len() - i,
    {
        a.push(v[i].to_json());
        i = i + 1;
    }
    let r = JsonValue::Arr(a);
    proof {
        broadcast use lemma_jview_arr;

        assert forall|j: int| 0 <= j < v@.len() implies spec_elems(r->Arr_0@)[j]
            == spec_message_json(vviews(v@)[j]) by {
            assert(spec_elems(r->Arr_0@)[j] == jview(r->Arr_0@[j]));
        }
        assert(spec_elems(r->Arr_0@) =~= spec_messages_json(vviews(v@)));
    }
    r
}

#[verifier::loop_isolation(false)]
pub fn message_list_from_json(es: &Vec<JsonValue>) -> (r: Option<Vec<Message>>)
    ensures
        match r {
            Some(v) => spec_messages_from(spec_elems(es@)) == Some(vviews(v@)),
            None => spec_messages_from(spec_elems(es@)) is None,
        },
{
    let mut out: Vec<Message> = Vec::new();
    let mut i: usize = 0;
    while i < es.len()
        invariant
            i <= es.len(),
            out@.len() == i as int,
            forall|j: int|
                0 <= j < i ==> spec_message_from(#[trigger] spec_elems(es@)[j]) == Some(
                    out@[j]@,
                ),
        decreases es.len() - i,
    {
        proof {
            assert(spec_elems(es@)[i as int] == jview(es@[i as int]));
        }
        match Message::from_json(&es[i]) {
            Some(x) => out.push(x),
            None => {
                proof {
                    assert(spec_message_from(spec_elems(es@)[i as int]) is None);
                }
                return None;
            },
        }
        i = i + 1;
    }
    proof {
        assert(spec_messages_from(spec_elems(es@)) == Some(vviews(out@))) by {
            assert(Seq::new(
                spec_elems(es@).len(),
                |j: int| spec_message_from(spec_elems(es@)[j]).unwrap(),
            ) =~= vviews(out@));
        }
    }
    Some(out)
}

pub open spec fn spec_opt_message_json(o: Option<MessageV>) -> JVal {
    match o {
        None => JVal::Null,
        Some(x) => spec_message_json(x),
    }
}

pub open spec fn spec_field_opt_message(
    fields: Seq<(Seq<char>, JVal)>,
    key: Seq<char>,
) -> Result<Option<MessageV>, ()> {
    match spec_lookup(fields, key) {
        None => Ok(None),
        Some(j) => match j {
            JVal::Null => Ok(None),
            _ => match spec_message_from(j) {
                Some(t) => Ok(Some(t)),
                None => Err(()),
            },
        },
    }
}

/// A buzz channel or thread.
#[derive(Debug, PartialEq, Eq)]
pub struct Channel {
    pub id: Option<String>,
    pub parent_id: Option<String>,
    pub title: Option<String>,
}

#[verifier::ext_equal]
pub struct ChannelV {
    pub id: Option<Seq<char>>,
    pub parent_id: Option<Seq<char>>,
    pub title: Option<Seq<char>>,
}

impl View for Channel {
    type V = ChannelV;

    open spec fn view(&self) -> ChannelV {
        ChannelV {
            id: ostr(self.id),
            parent_id: ostr(self.parent_id),
            title: ostr(self.title),
        }
    }
}

pub open spec fn spec_channel_json(v: ChannelV) -> JVal {
    JVal::Obj(
        seq![
            ("id"@, spec_j_opt_str(v.id)),
            ("parentId"@, spec_j_opt_str(v.parent_id)),
            ("title"@, spec_j_opt_str(v.title)),
        ],
    )
}

pub open spec fn spec_channel_from(j: JVal) -> Option<ChannelV> {
    match j {
        JVal::Obj(fields) => {
            let id = spec_field_opt_str(fields, "id"@);
            let parent_id = spec_field_opt_str(fields, "parentId"@);
            let title = spec_field_opt_str(fields, "title"@);
            if id is Err || parent_id is Err || title is Err {
                None
            } else {
                Some(
                    ChannelV {
                        id: id->Ok_0,
                        parent_id: parent_id->Ok_0,
                        title: title->Ok_0,
                    },
                )
            }
        },
        _ => None,
    }
}

impl Channel {
    /// The record as a JSON document, with its wire field names; an unset
    /// field is sent as `null`.
    #[verifier::rlimit(100)]
    pub fn to_json(&self) -> (r: JsonValue)
        ensures
            r@ == spec_channel_json(self@),
    {
        let mut f: Vec<(String, JsonValue)> = Vec::new();
        put_field(&mut f, "id", j_opt_string(&self.id));
        put_field(&mut f, "parentId", j_opt_string(&self.parent_id));
        put_field(&mut f, "title", j_opt_string(&self.title));
        let r = JsonValue::Obj(f);
        proof {
            broadcast use lemma_jview_obj;

            assert(jview(r) == JVal::Obj(spec_fields(r->Obj_0@)));
            assert(spec_fields(r->Obj_0@) =~= spec_channel_json(self@)->Obj_0);
        }
        r
    }

    /// The record a well-formed body decodes to; `None` when a present
    /// field has the wrong shape.
    pub fn from_json(v: &JsonValue) -> (r: Option<Channel>)
        ensures
            match r {
                Some(x) => spec_channel_from(v@) == Some(x@),
                None => spec_channel_from(v@) is None,
            },
    {
        proof {
            broadcast use lemma_jview_obj;
            broadcast use lemma_jview_arr;

        }
        match v {
            JsonValue::Obj(fields) => {
                let id = match field_opt_string(fields, "id") {
                    Ok(x) => x,
                    Err(_) => {
                        return None;
                    },
                };
                let parent_id = match field_opt_string(fields, "parentId") {
                    Ok(x) => x,
                    Err(_) => {
                        return None;
                    },
                };
                let title = match field_opt_string(fields, "title") {
                    Ok(x) => x,
                    Err(_) => {
                        return None;
                    },
                };
                Some(Channel { id, parent_id, title })
            },
            _ => None,
        }
    }
}

/// Decoding an encoded record gives back the same record.
#[verifier::rlimit(100)]
pub proof fn lemma_channel_roundtrip(g: ChannelV)
    ensures
        spec_channel_from(spec_channel_json(g)) == Some(g),
{
    reveal_strlit("id");
    reveal_strlit("parentId");
    reveal_strlit("title");
    reveal_with_fuel(spec_lookup, 5);
    assert("id"@.len() == 2);
    assert("parentId"@.len() == 8);
    assert("title"@.len() == 5);
    assert(spec_channel_from(spec_channel_json(g)) matches Some(h) && h =~= g);
}

/// A field absent from a decoded body stays unset or takes its default.
pub proof fn lemma_channel_absent_fields()
    ensures
        spec_channel_from(JVal::Obj(Seq::empty())) == Some(
            ChannelV {
                id: None,
                parent_id: None,
                title: None,
            },
        ),
{
    reveal_with_fuel(spec_lookup, 2);
}

/// The encoded form of a list of these records.
pub open spec fn spec_channels_json(s: Seq<ChannelV>) -> Seq<JVal> {
    Seq::new(s.len(), |i: int| spec_channel_json(s[i]))
}

pub open spec fn spec_opt_channels_json(o: Option<Seq<ChannelV>>) -> JVal {
    match o {
        None => JVal::Null,
        Some(s) => JVal::Arr(spec_channels_json(s)),
    }
}

/// The decoding of a list of these records: every element must decode.
pub open spec fn spec_channels_from(es: Seq<JVal>) -> Option<Seq<ChannelV>> {
    if forall|i: int| 0 <= i < es.len() ==> (#[trigger] spec_channel_from(es[i])) is Some {
        Some(Seq::new(es.len(), |i: int| spec_channel_from(es[i]).unwrap()))
    } else {
        None
    }
}

pub open spec fn spec_field_opt_channels(
    fields: Seq<(Seq<char>, JVal)>,
    key: Seq<char>,
) -> Result<Option<Seq<ChannelV>>, ()> {
    match spec_lookup(fields, key) {
        None => Ok(None),
        Some(j) => match j {
            JVal::Null => Ok(None),
            JVal::Arr(es) => match spec_channels_from(es) {
                Some(s) => Ok(Some(s)),
                None => Err(()),
            },
            _ => Err(()),
        },
    }
}

pub fn channel_list_to_json(v: &Vec<Channel>) -> (r: JsonValue)
    ensures
        r@ == JVal::Arr(spec_channels_json(vviews(v@))),
{
    let mut a: Vec<JsonValue> = Vec::new();
    let mut i: usize = 0;
    while i < v.len()
        invariant
            i <= v.len(),
            a@.len() == i as int,
            forall|j: int| 0 <= j < i ==> jview(#[trigger] a@[j]) == spec_channel_json(v@[j]@),
        decreases v.len() - i,
    {
        a.push(v[i].to_json());
        i = i + 1;
    }
    let r = JsonValue::Arr(a);
    proof {
        broadcast use lemma_jview_arr;

        assert forall|j: int| 0 <= j < v@.len() implies spec_elems(r->Arr_0@)[j]
            == spec_channel_json(vviews(v@)[j]) by {
            assert(spec_elems(r->Arr_0@)[j] == jview(r->Arr_0@[j]));
        }
        assert(spec_elems(r->Arr_0@) =~= spec_channels_json(vviews(v@)));
    }
    r
}

#[verifier::loop_isolation(false)]
pub fn channel_list_from_json(es: &Vec<JsonValue>) -> (r: Option<Vec<Channel>>)
    ensures
        match r {
            Some(v) => spec_channels_from(spec_elems(es@)) == Some(vviews(v@)),
            None => spec_channels_from(spec_elems(es@)) is None,
        },
{
    let mut out: Vec<Channel> = Vec::new();
    let mut i: usize = 0;
    while i < es.len()
        invariant
            i <= es.len(),
            out@.len() == i as int,
            forall|j: int|
                0 <= j < i ==> spec_channel_from(#[trigger] spec_elems(es@)[j]) == Some(
                    out@[j]@,
                ),
        decreases es.len() - i,
    {
        proof {
            assert(spec_elems(es@)[i as int] == jview(es@[i as int]));
        }
        match Channel::from_json(&es[i]) {
            Some(x) => out.push(x),
            None => {
                proof {
                    assert(spec_channel_from(spec_elems(es@)[i as int]) is None);
                }
                return None;
            },
        }
        i = i + 1;
    }
    proof {
        assert(spec_channels_from(spec_elems(es@)) == Some(vviews(out@))) by {
            assert(Seq::new(
                spec_elems(es@).len(),
                |j: int| spec_channel_from(spec_elems(es@)[j]).unwrap(),
            ) =~= vviews(out@));
        }
    }
    Some(out)
}

pub open spec fn spec_opt_channel_json(o: Option<ChannelV>) -> JVal {
    match o {
        None => JVal::Null,
        Some(x) => spec_channel_json(x),
    }
}

pub open spec fn spec_field_opt_channel(
    fields: Seq<(Seq<char>, JVal)>,
    key: Seq<char>,
) -> Result<Option<ChannelV>, ()> {
    match spec_lookup(fields, key) {
        None => Ok(None),
        Some(j) => match j {
            JVal::Null => Ok(None),
            _ => match spec_channel_from(j) {
                Some(t) => Ok(Some(t)),
                None => Err(()),
            },
        },
    }
}

/// The kind of an inbound event.
#[derive(Debug, PartialEq, Eq)]
pub struct EventT {
    pub event_type: Option<String>,
}

#[verifier::ext_equal]
pub struct EventTV {
    pub event_type: Option<Seq<char>>,
}

impl View for EventT {
    type V = EventTV;

    open spec fn view(&self) -> EventTV {
        EventTV {
            event_type: ostr(self.event_type),
        }
    }
}

pub open spec fn spec_event_t_json(v: EventTV) -> JVal {
    JVal::Obj(
        seq![
            ("type"@, spec_j_opt_str(v.event_type)),
        ],
    )
}

pub open spec fn spec_event_t_from(j: JVal) -> Option<EventTV> {
    match j {
        JVal::Obj(fields) => {
            let event_type = spec_field_opt_str(fields, "type"@);
            if event_type is Err {
                None
            } else {
                Some(
                    EventTV {
                        event_type: event_type->Ok_0,
                    },
                )
            }
        },
        _ => None,
    }
}

impl EventT {
    /// The record as a JSON document, with its wire field names; an unset
    /// field is sent as `null`.
    #[verifier::rlimit(100)]
    pub fn to_json(&self) -> (r: JsonValue)
        ensures
            r@ == spec_event_t_json(self@),
    {
        let mut f: Vec<(String, JsonValue)> = Vec::new();
        put_field(&mut f, "type", j_opt_string(&self.event_type));
        let r = JsonValue::Obj(f);
        proof {
            broadcast use lemma_jview_obj;

            assert(jview(r) == JVal::Obj(spec_fields(r->Obj_0@)));
            assert(spec_fields(r->Obj_0@) =~= spec_event_t_json(self@)->Obj_0);
        }
        r
    }

    /// The record a well-formed body decodes to; `None` when a present
    /// field has the wrong shape.
    pub fn from_json(v: &JsonValue) -> (r: Option<EventT>)
        ensures
            match r {
                Some(x) => spec_event_t_from(v@) == Some(x@),
                None => spec_event_t_from(v@) is None,
            },
    {
        proof {
            broadcast use lemma_jview_obj;
            broadcast use lemma_jview_arr;

        }
        match v {
            JsonValue::Obj(fields) => {
                let event_type = match field_opt_string(fields, "type") {
                    Ok(x) => x,
                    Err(_) => {
                        return None;
                    },
                };
                Some(EventT { event_type })
            },
            _ => None,
        }
    }
}

/// Decoding an encoded record gives back the same record.
#[verifier::rlimit(100)]
pub proof fn lemma_event_t_roundtrip(g: EventTV)
    ensures
        spec_event_t_from(spec_event_t_json(g)) == Some(g),
{
    reveal_strlit("type");
    reveal_with_fuel(spec_lookup, 3);
    assert("type"@.len() == 4);
    assert(spec_event_t_from(spec_event_t_json(g)) matches Some(h) && h =~= g);
}

/// A field absent from a decoded body stays unset or takes its default.
pub proof fn lemma_event_t_absent_fields()
    ensures
        spec_event_t_from(JVal::Obj(Seq::empty())) == Some(
            EventTV {
                event_type: None,
            },
        ),
{
    reveal_with_fuel(spec_lookup, 2);
}

/// The encoded form of a list of these records.
pub open spec fn spec_event_ts_json(s: Seq<EventTV>) -> Seq<JVal> {
    Seq::new(s.len(), |i: int| spec_event_t_json(s[i]))
}

pub open spec fn spec_opt_event_ts_json(o: Option<Seq<EventTV>>) -> JVal {
    match o {
        None => JVal::Null,
        Some(s) => JVal::Arr(spec_event_ts_json(s)),
    }
}

/// The decoding of a list of these records: every element must decode.
pub open spec fn spec_event_ts_from(es: Seq<JVal>) -> Option<Seq<EventTV>> {
    if forall|i: int| 0 <= i < es.len() ==> (#[trigger] spec_event_t_from(es[i])) is Some {
        Some(Seq::new(es.len(), |i: int| spec_event_t_from(es[i]).unwrap()))
    } else {
        None
    }
}

pub open spec fn spec_field_opt_event_ts(
    fields: Seq<(Seq<char>, JVal)>,
    key: Seq<char>,
) -> Result<Option<Seq<EventTV>>, ()> {
    match spec_lookup(fields, key) {
        None => Ok(None),
        Some(j) => match j {
            JVal::Null => Ok(None),
            JVal::Arr(es) => match spec_event_ts_from(es) {
                Some(s) => Ok(Some(s)),
                None => Err(()),
            },
            _ => Err(()),
        },
    }
}

pub fn event_t_list_to_json(v: &Vec<EventT>) -> (r: JsonValue)
    ensures
        r@ == JVal::Arr(spec_event_ts_json(vviews(v@))),
{
    let mut a: Vec<JsonValue> = Vec::new();
    let mut i: usize = 0;
    while i < v.len()
        invariant
            i <= v.len(),
            a@.len() == i as int,
            forall|j: int| 0 <= j < i ==> jview(#[trigger] a@[j]) == spec_event_t_json(v@[j]@),
        decreases v.len() - i,
    {
        a.push(v[i].to_json());
        i = i + 1;
    }
    let r = JsonValue::Arr(a);
    proof {
        broadcast use lemma_jview_arr;

        assert forall|j: int| 0 <= j < v@.len() implies spec_elems(r->Arr_0@)[j]
            == spec_event_t_json(vviews(v@)[j]) by {
            assert(spec_elems(r->Arr_0@)[j] == jview(r->Arr_0@[j]));
        }
        assert(spec_elems(r->Arr_0@) =~= spec_event_ts_json(vviews(v@)));
    }
    r
}

#[verifier::loop_isolation(false)]
pub fn event_t_list_from_json(es: &Vec<JsonValue>) -> (r: Option<Vec<EventT>>)
    ensures
        match r {
            Some(v) => spec_event_ts_from(spec_elems(es@)) == Some(vviews(v@)),
            None => spec_event_ts_from(spec_elems(es@)) is None,
        },
{
    let mut out: Vec<EventT> = Vec::new();
    let mut i: usize = 0;
    while i < es.len()
        invariant
            i <= es.len(),
            out@.len() == i as int,
            forall|j: int|
                0 <= j < i ==> spec_event_t_from(#[trigger] spec_elems(es@)[j]) == Some(
                    out@[j]@,
                ),
        decreases es.len() - i,
    {
        proof {
            assert(spec_elems(es@)[i as int] == jview(es@[i as int]));
        }
        match EventT::from_json(&es[i]) {
            Some(x) => out.push(x),
            None => {
                proof {
                    assert(spec_event_t_from(spec_elems(es@)[i as int]) is None);
                }
                return None;
            },
        }
        i = i + 1;
    }
    proof {
        assert(spec_event_ts_from(spec_elems(es@)) == Some(vviews(out@))) by {
            assert(Seq::new(
                spec_elems(es@).len(),
                |j: int| spec_event_t_from(spec_elems(es@)[j]).unwrap(),
            ) =~= vviews(out@));
        }
    }
    Some(out)
}

pub open spec fn spec_opt_event_t_json(o: Option<EventTV>) -> JVal {
    match o {
        None => JVal::Null,
        Some(x) => spec_event_t_json(x),
    }
}

pub open spec fn spec_field_opt_event_t(
    fields: Seq<(Seq<char>, JVal)>,
    key: Seq<char>,
) -> Result<Option<EventTV>, ()> {
    match spec_lookup(fields, key) {
        None => Ok(None),
        Some(j) => match j {
            JVal::Null => Ok(None),
            _ => match spec_event_t_from(j) {
                Some(t) => Ok(Some(t)),
                None => Err(()),
            },
        },
    }
}

/// The organisation hosting the channel an event came from.
#[derive(Debug, PartialEq, Eq)]
pub struct Organization {
    pub domain: Option<String>,
}

#[verifier::ext_equal]
pub struct OrganizationV {
    pub domain: Option<Seq<char>>,
}

impl View for Organization {
    type V = OrganizationV;

    open spec fn view(&self) -> OrganizationV {
        OrganizationV {
            domain: ostr(self.domain),
        }
    }
}

pub open spec fn spec_organization_json(v: OrganizationV) -> JVal {
    JVal::Obj(
        seq![
            ("domain"@, spec_j_opt_str(v.domain)),
        ],
    )
}

pub open spec fn spec_organization_from(j: JVal) -> Option<OrganizationV> {
    match j {
        JVal::Obj(fields) => {
            let domain = spec_field_opt_str(fields, "domain"@);
            if domain is Err {
                None
            } else {
                Some(
                    OrganizationV {
                        domain: domain->Ok_0,
                    },
                )
            }
        },
        _ => None,
    }
}

impl Organization {
    /// The record as a JSON document, with its wire field names; an unset
    /// field is sent as `null`.
    #[verifier::rlimit(100)]
    pub fn to_json(&self) -> (r: JsonValue)
        ensures
            r@ == spec_organization_json(self@),
    {
        let mut f: Vec<(String, JsonValue)> = Vec::new();
        put_field(&mut f, "domain", j_opt_string(&self.domain));
        let r = JsonValue::Obj(f);
        proof {
            broadcast use lemma_jview_obj;

            assert(jview(r) == JVal::Obj(spec_fields(r->Obj_0@)));
            assert(spec_fields(r->Obj_0@) =~= spec_organization_json(self@)->Obj_0);
        }
        r
    }

    /// The record a well-formed body decodes to; `None` when a present
    /// field has the wrong shape.
    pub fn from_json(v: &JsonValue) -> (r: Option<Organization>)
        ensures
            match r {
                Some(x) => spec_organization_from(v@) == Some(x@),
                None => spec_organization_from(v@) is None,
            },
    {
        proof {
            broadcast use lemma_jview_obj;
            broadcast use lemma_jview_arr;

        }
        match v {
            JsonValue::Obj(fields) => {
                let domain = match field_opt_string(fields, "domain") {
                    Ok(x) => x,
                    Err(_) => {
                        return None;
                    },
                };
                Some(Organization { domain })
            },
            _ => None,
        }
    }
}

/// Decoding an encoded record gives back the same record.
#[verifier::rlimit(100)]
pub proof fn lemma_organization_roundtrip(g: OrganizationV)
    ensures
        spec_organization_from(spec_organization_json(g)) == Some(g),
{
    reveal_strlit("domain");
    reveal_with_fuel(spec_lookup, 3);
    assert("domain"@.len() == 6);
    assert(spec_organization_from(spec_organization_json(g)) matches Some(h) && h =~= g);
}

/// A field absent from a decoded body stays unset or takes its default.
pub proof fn lemma_organization_absent_fields()
    ensures
        spec_organization_from(JVal::Obj(Seq::empty())) == Some(
            OrganizationV {
                domain: None,
            },
        ),
{
    reveal_with_fuel(spec_lookup, 2);
}

/// The encoded form of a list of these records.
pub open spec fn spec_organizations_json(s: Seq<OrganizationV>) -> Seq<JVal> {
    Seq::new(s.len(), |i: int| spec_organization_json(s[i]))
}

pub open spec fn spec_opt_organizations_json(o: Option<Seq<OrganizationV>>) -> JVal {
    match o {
        None => JVal::Null,
        Some(s) => JVal::Arr(spec_organizations_json(s)),
    }
}

/// The decoding of a list of these records: every element must decode.
pub open spec fn spec_organizations_from(es: Seq<JVal>) -> Option<Seq<OrganizationV>> {
    if forall|i: int| 0 <= i < es.len() ==> (#[trigger] spec_organization_from(es[i])) is Some {
        Some(Seq::new(es.len(), |i: int| spec_organization_from(es[i]).unwrap()))
    } else {
        None
    }
}

pub open spec fn spec_field_opt_organizations(
    fields: Seq<(Seq<char>, JVal)>,
    key: Seq<char>,
) -> Result<Option<Seq<OrganizationV>>, ()> {
    match spec_lookup(fields, key) {
        None => Ok(None),
        Some(j) => match j {
            JVal::Null => Ok(None),
            JVal::Arr(es) => match spec_organizations_from(es) {
                Some(s) => Ok(Some(s)),
                None => Err(()),
            },
            _ => Err(()),
        },
    }
}

pub fn organization_list_to_json(v: &Vec<Organization>) -> (r: JsonValue)
    ensures
        r@ == JVal::Arr(spec_organizations_json(vviews(v@))),
{
    let mut a: Vec<JsonValue> = Vec::new();
    let mut i: usize = 0;
    while i < v.len()
        invariant
            i <= v.len(),
            a@.len() == i as int,
            forall|j: int| 0 <= j < i ==> jview(#[trigger] a@[j]) == spec_organization_json(v@[j]@),
        decreases v.len() - i,
    {
        a.push(v[i].to_json());
        i = i + 1;
    }
    let r = JsonValue::Arr(a);
    proof {
        broadcast use lemma_jview_arr;

        assert forall|j: int| 0 <= j < v@.len() implies spec_elems(r->Arr_0@)[j]
            == spec_organization_json(vviews(v@)[j]) by {
            assert(spec_elems(r->Arr_0@)[j] == jview(r->Arr_0@[j]));
        }
        assert(spec_elems(r->Arr_0@) =~= spec_organizations_json(vviews(v@)));
    }
    r
}

#[verifier::loop_isolation(false)]
pub fn organization_list_from_json(es: &Vec<JsonValue>) -> (r: Option<Vec<Organization>>)
    ensures
        match r {
            Some(v) => spec_organizations_from(spec_elems(es@)) == Some(vviews(v@)),
            None => spec_organizations_from(spec_elems(es@)) is None,
        },
{
    let mut out: Vec<Organization> = Vec::new();
    let mut i: usize = 0;
    while i < es.len()
        invariant
            i <= es.len(),
            out@.len() == i as int,
            forall|j: int|
                0 <= j < i ==> spec_organization_from(#[trigger] spec_elems(es@)[j]) == Some(
                    out@[j]@,
                ),
        decreases es.len() - i,
    {
        proof {
            assert(spec_elems(es@)[i as int] == jview(es@[i as int]));
        }
        match Organization::from_json(&es[i]) {
            Some(x) => out.push(x),
            None => {
                proof {
                    assert(spec_organization_from(spec_elems(es@)[i as int]) is None);
                }
                return None;
            },
        }
        i = i + 1;
    }
    proof {
        assert(spec_organizations_from(spec_elems(es@)) == Some(vviews(out@))) by {
            assert(Seq::new(
                spec_elems(es@).len(),
                |j: int| spec_organization_from(spec_elems(es@)[j]).unwrap(),
            ) =~= vviews(out@));
        }
    }
    Some(out)
}

pub open spec fn spec_opt_organization_json(o: Option<OrganizationV>) -> JVal {
    match o {
        None => JVal::Null,
        Some(x) => spec_organization_json(x),
    }
}

pub open spec fn spec_field_opt_organization(
    fields: Seq<(Seq<char>, JVal)>,
    key: Seq<char>,
) -> Result<Option<OrganizationV>, ()> {
    match spec_lookup(fields, key) {
        None => Ok(None),
        Some(j) => match j {
            JVal::Null => Ok(None),
            _ => match spec_organization_from(j) {
                Some(t) => Ok(Some(t)),
                None => Err(()),
            },
        },
    }
}

/// Where an integration may post a reply to an event, with the headers to
/// send; the address expires shortly after the event.
#[derive(Debug, PartialEq, Eq)]
pub struct Callback {
    pub url: Option<String>,
    pub headers: Vec<(String, String)>,
}

#[verifier::ext_equal]
pub struct CallbackV {
    pub url: Option<Seq<char>>,
    pub headers: Seq<(Seq<char>, Seq<char>)>,
}

impl View for Callback {
    type V = CallbackV;

    open spec fn view(&self) -> CallbackV {
        CallbackV {
            url: ostr(self.url),
            headers: views_of_pairs(self.headers@),
        }
    }
}

pub open spec fn spec_callback_json(v: CallbackV) -> JVal {
    JVal::Obj(
        seq![
            ("url"@, spec_j_opt_str(v.url)),
            ("headers"@, spec_j_strmap(v.headers)),
        ],
    )
}

pub open spec fn spec_callback_from(j: JVal) -> Option<CallbackV> {
    match j {
        JVal::Obj(fields) => {
            let url = spec_field_opt_str(fields, "url"@);
            let headers = spec_field_strmap_default(fields, "headers"@);
            if url is Err || headers is Err {
                None
            } else {
                Some(
                    CallbackV {
                        url: url->Ok_0,
                        headers: headers->Ok_0,
                    },
                )
            }
        },
        _ => None,
    }
}

impl Callback {
    /// The record as a JSON document, with its wire field names; an unset
    /// field is sent as `null`.
    #[verifier::rlimit(100)]
    pub fn to_json(&self) -> (r: JsonValue)
        ensures
            r@ == spec_callback_json(self@),
    {
        let mut f: Vec<(String, JsonValue)> = Vec::new();
        put_field(&mut f, "url", j_opt_string(&self.url));
        put_field(&mut f, "headers", j_strmap(&self.headers));
        let r = JsonValue::Obj(f);
        proof {
            broadcast use lemma_jview_obj;

            assert(jview(r) == JVal::Obj(spec_fields(r->Obj_0@)));
            assert(spec_fields(r->Obj_0@) =~= spec_callback_json(self@)->Obj_0);
        }
        r
    }

    /// The record a well-formed body decodes to; `None` when a present
    /// field has the wrong shape.
    pub fn from_json(v: &JsonValue) -> (r: Option<Callback>)
        ensures
            match r {
                Some(x) => spec_callback_from(v@) == Some(x@),
                None => spec_callback_from(v@) is None,
            },
    {
        proof {
            broadcast use lemma_jview_obj;
            broadcast use lemma_jview_arr;

        }
        match v {
            JsonValue::Obj(fields) => {
                let url = match field_opt_string(fields, "url") {
                    Ok(x) => x,
                    Err(_) => {
                        return None;
                    },
                };
                let headers = match field_strmap_default(fields, "headers") {
                    Ok(x) => x,
                    Err(_) => {
                        return None;
                    },
                };
                Some(Callback { url, headers })
            },
            _ => None,
        }
    }
}

/// Decoding an encoded record gives back the same record.
#[verifier::rlimit(100)]
pub proof fn lemma_callback_roundtrip(g: CallbackV)
    ensures
        spec_callback_from(spec_callback_json(g)) == Some(g),
{
    reveal_strlit("url");
    reveal_strlit("headers");
    reveal_with_fuel(spec_lookup, 4);
    assert("url"@.len() == 3);
    assert("headers"@.len() == 7);
    assert(spec_callback_from(spec_callback_json(g)) matches Some(h) && h =~= g);
}

/// A field absent from a decoded body stays unset or takes its default.
pub proof fn lemma_callback_absent_fields()
    ensures
        spec_callback_from(JVal::Obj(Seq::empty())) == Some(
            CallbackV {
                url: None,
                headers: Seq::empty(),
            },
        ),
{
    reveal_with_fuel(spec_lookup, 2);
}

/// The encoded form of a list of these records.
pub open spec fn spec_callbacks_json(s: Seq<CallbackV>) -> Seq<JVal> {
    Seq::new(s.len(), |i: int| spec_callback_json(s[i]))
}

pub open spec fn spec_opt_callbacks_json(o: Option<Seq<CallbackV>>) -> JVal {
    match o {
        None => JVal::Null,
        Some(s) => JVal::Arr(spec_callbacks_json(s)),
    }
}

/// The decoding of a list of these records: every element must decode.
pub open spec fn spec_callbacks_from(es: Seq<JVal>) -> Option<Seq<CallbackV>> {
    if forall|i: int| 0 <= i < es.len() ==> (#[trigger] spec_callback_from(es[i])) is Some {
        Some(Seq::new(es.len(), |i: int| spec_callback_from(es[i]).unwrap()))
    } else {
        None
    }
}

pub open spec fn spec_field_opt_callbacks(
    fields: Seq<(Seq<char>, JVal)>,
    key: Seq<char>,
) -> Result<Option<Seq<CallbackV>>, ()> {
    match spec_lookup(fields, key) {
        None => Ok(None),
        Some(j) => match j {
            JVal::Null => Ok(None),
            JVal::Arr(es) => match spec_callbacks_from(es) {
                Some(s) => Ok(Some(s)),
                None => Err(()),
            },
            _ => Err(()),
        },
    }
}

pub fn callback_list_to_json(v: &Vec<Callback>) -> (r: JsonValue)
    ensures
        r@ == JVal::Arr(spec_callbacks_json(vviews(v@))),
{
    let mut a: Vec<JsonValue> = Vec::new();
    let mut i: usize = 0;
    while i < v.len()
        invariant
            i <= v.len(),
            a@.len() == i as int,
            forall|j: int| 0 <= j < i ==> jview(#[trigger] a@[j]) == spec_callback_json(v@[j]@),
        decreases v.len() - i,
    {
        a.push(v[i].to_json());
        i = i + 1;
    }
    let r = JsonValue::Arr(a);
    proof {
        broadcast use lemma_jview_arr;

        assert forall|j: int| 0 <= j < v@.len() implies spec_elems(r->Arr_0@)[j]
            == spec_callback_json(vviews(v@)[j]) by {
            assert(spec_elems(r->Arr_0@)[j] == jview(r->Arr_0@[j]));
        }
        assert(spec_elems(r->Arr_0@) =~= spec_callbacks_json(vviews(v@)));
    }
    r
}

#[verifier::loop_isolation(false)]
pub fn callback_list_from_json(es: &Vec<JsonValue>) -> (r: Option<Vec<Callback>>)
    ensures
        match r {
            Some(v) => spec_callbacks_from(spec_elems(es@)) == Some(vviews(v@)),
            None => spec_callbacks_from(spec_elems(es@)) is None,
        },
{
    let mut out: Vec<Callback> = Vec::new();
    let mut i: usize = 0;
    while i < es.len()
        invariant
            i <= es.len(),
            out@.len() == i as int,
            forall|j: int|
                0 <= j < i ==> spec_callback_from(#[trigger] spec_elems(es@)[j]) == Some(
                    out@[j]@,
                ),
        decreases es.len() - i,
    {
        proof {
            assert(spec_elems(es@)[i as int] == jview(es@[i as int]));
        }
        match Callback::from_json(&es[i]) {
            Some(x) => out.push(x),
            None => {
                proof {
                    assert(spec_callback_from(spec_elems(es@)[i as int]) is None);
                }
                return None;
            },
        }
        i = i + 1;
    }
    proof {
        assert(spec_callbacks_from(spec_elems(es@)) == Some(vviews(out@))) by {
            assert(Seq::new(
                spec_elems(es@).len(),
                |j: int| spec_callback_from(spec_elems(es@)[j]).unwrap(),
            ) =~= vviews(out@));
        }
    }
    Some(out)
}

pub open spec fn spec_opt_callback_json(o: Option<CallbackV>) -> JVal {
    match o {
        None => JVal::Null,
        Some(x) => spec_callback_json(x),
    }
}

pub open spec fn spec_field_opt_callback(
    fields: Seq<(Seq<char>, JVal)>,
    key: Seq<char>,
) -> Result<Option<CallbackV>, ()> {
    match spec_lookup(fields, key) {
        None => Ok(None),
        Some(j) => match j {
            JVal::Null => Ok(None),
            _ => match spec_callback_from(j) {
                Some(t) => Ok(Some(t)),
                None => Err(()),
            },
        },
    }
}

/// An inbound webhook payload describing something that happened in buzz:
/// the author and message when there is one, the users that joined or left,
/// and the channel, organisation and callback details.
#[derive(Debug, PartialEq, Eq)]
pub struct Event {
    pub author: Option<User>,
    pub thread: Option<Channel>,
    pub message: Option<Message>,
    pub users: Option<Vec<User>>,
    pub event: Option<EventT>,
    pub owner: Option<User>,
    pub organization: Option<Organization>,
    pub channel: Option<Channel>,
    pub callback: Option<Callback>,
}

#[verifier::ext_equal]
pub struct EventV {
    pub author: Option<UserV>,
    pub thread: Option<ChannelV>,
    pub message: Option<MessageV>,
    pub users: Option<Seq<UserV>>,
    pub event: Option<EventTV>,
    pub owner: Option<UserV>,
    pub organization: Option<OrganizationV>,
    pub channel: Option<ChannelV>,
    pub callback: Option<CallbackV>,
}

impl View for Event {
    type V = EventV;

    open spec fn view(&self) -> EventV {
        EventV {
            author: oview(self.author),
            thread: oview(self.thread),
            message: oview(self.message),
            users: ovviews(self.users),
            event: oview(self.event),
            owner: oview(self.owner),
            organization: oview(self.organization),
            channel: oview(self.channel),
            callback: oview(self.callback),
        }
    }
}

pub open spec fn spec_event_json(v: EventV) -> JVal {
    JVal::Obj(
        seq![
            ("author"@, spec_opt_user_json(v.author)),
            ("thread"@, spec_opt_channel_json(v.thread)),
            ("message"@, spec_opt_message_json(v.message)),
            ("users"@, spec_opt_users_json(v.users)),
            ("event"@, spec_opt_event_t_json(v.event)),
            ("owner"@, spec_opt_user_json(v.owner)),
            ("organization"@, spec_opt_organization_json(v.organization)),
            ("channel"@, spec_opt_channel_json(v.channel)),
            ("callback"@, spec_opt_callback_json(v.callback)),
        ],
    )
}

pub open spec fn spec_event_from(j: JVal) -> Option<EventV> {
    match j {
        JVal::Obj(fields) => {
            let author = spec_field_opt_user(fields, "author"@);
            let thread = spec_field_opt_channel(fields, "thread"@);
            let message = spec_field_opt_message(fields, "message"@);
            let users = spec_field_opt_users(fields, "users"@);
            let event = spec_field_opt_event_t(fields, "event"@);
            let owner = spec_field_opt_user(fields, "owner"@);
            let organization = spec_field_opt_organization(fields, "organization"@);
            let channel = spec_field_opt_channel(fields, "channel"@);
            let callback = spec_field_opt_callback(fields, "callback"@);
            if author is Err || thread is Err || message is Err || users is Err || event is Err || owner is Err || organization is Err || channel is Err || callback is Err {
                None
            } else {
                Some(
                    EventV {
                        author: author->Ok_0,
                        thread: thread->Ok_0,
                        message: message->Ok_0,
                        users: users->Ok_0,
                        event: event->Ok_0,
                        owner: owner->Ok_0,
                        organization: organization->Ok_0,
                        channel: channel->Ok_0,
                        callback: callback->Ok_0,
                    },
                )
            }
        },
        _ => None,
    }
}

impl Event {
    /// The record as a JSON document, with its wire field names; an unset
    /// field is sent as `null`.
    #[verifier::rlimit(100)]
    pub fn to_json(&self) -> (r: JsonValue)
        ensures
            r@ == spec_event_json(self@),
    {
        let mut f: Vec<(String, JsonValue)> = Vec::new();
        let author_json = match &self.author {
            None => JsonValue::Null,
            Some(x) => x.to_json(),
        };
        put_field(&mut f, "author", author_json);
        let thread_json = match &self.thread {
            None => JsonValue::Null,
            Some(x) => x.to_json(),
        };
        put_field(&mut f, "thread", thread_json);
        let message_json = match &self.message {
            None => JsonValue::Null,
            Some(x) => x.to_json(),
        };
        put_field(&mut f, "message", message_json);
        let users_json = match &self.users {
            None => JsonValue::Null,
            Some(x) => user_list_to_json(x),
        };
        put_field(&mut f, "users", users_json);
        let event_json = match &self.event {
            None => JsonValue::Null,
            Some(x) => x.to_json(),
        };
        put_field(&mut f, "event", event_json);
        let owner_json = match &self.owner {
            None => JsonValue::Null,
            Some(x) => x.to_json(),
        };
        put_field(&mut f, "owner", owner_json);
        let organization_json = match &self.organization {
            None => JsonValue::Null,
            Some(x) => x.to_json(),
        };
        put_field(&mut f, "organization", organization_json);
        let channel_json = match &self.channel {
            None => JsonValue::Null,
            Some(x) => x.to_json(),
        };
        put_field(&mut f, "channel", channel_json);
        let callback_json = match &self.callback {
            None => JsonValue::Null,
            Some(x) => x.to_json(),
        };
        put_field(&mut f, "callback", callback_json);
        let r = JsonValue::Obj(f);
        proof {
            broadcast use lemma_jview_obj;

            assert(jview(r) == JVal::Obj(spec_fields(r->Obj_0@)));
            assert(spec_fields(r->Obj_0@) =~= spec_event_json(self@)->Obj_0);
        }
        r
    }

    /// The record a well-formed body decodes to; `None` when a present
    /// field has the wrong shape.
    pub fn from_json(v: &JsonValue) -> (r: Option<Event>)
        ensures
            match r {
                Some(x) => spec_event_from(v@) == Some(x@),
                None => spec_event_from(v@) is None,
            },
    {
        proof {
            broadcast use lemma_jview_obj;
            broadcast use lemma_jview_arr;

        }
        match v {
            JsonValue::Obj(fields) => {
                let author = match jlookup(fields, "author") {
                    None => None,
                    Some(w) => match w {
                        JsonValue::Null => None,
                        _ => match User::from_json(w) {
                            Some(x) => Some(x),
                            None => {
                                return None;
                            },
                        },
                    },
                };
                let thread = match jlookup(fields, "thread") {
                    None => None,
                    Some(w) => match w {
                        JsonValue::Null => None,
                        _ => match Channel::from_json(w) {
                            Some(x) => Some(x),
                            None => {
                                return None;
                            },
                        },
                    },
                };
                let message = match jlookup(fields, "message") {
                    None => None,
                    Some(w) => match w {
                        JsonValue::Null => None,
                        _ => match Message::from_json(w) {
                            Some(x) => Some(x),
                            None => {
                                return None;
                            },
                        },
                    },
                };
                let users = match jlookup(fields, "users") {
                    None => None,
                    Some(w) => match w {
                        JsonValue::Null => None,
                        JsonValue::Arr(es) => match user_list_from_json(es) {
                            Some(x) => Some(x),
                            None => {
                                return None;
                            },
                        },
                        _ => {
                            return None;
                        },
                    },
                };
                let event = match jlookup(fields, "event") {
                    None => None,
                    Some(w) => match w {
                        JsonValue::Null => None,
                        _ => match EventT::from_json(w) {
                            Some(x) => Some(x),
                            None => {
                                return None;
                            },
                        },
                    },
                };
                let owner = match jlookup(fields, "owner") {
                    None => None,
                    Some(w) => match w {
                        JsonValue::Null => None,
                        _ => match User::from_json(w) {
                            Some(x) => Some(x),
                            None => {
                                return None;
                            },
                        },
                    },
                };
                let organization = match jlookup(fields, "organization") {
                    None => None,
                    Some(w) => match w {
                        JsonValue::Null => None,
                        _ => match Organization::from_json(w) {
                            Some(x) => Some(x),
                            None => {
                                return None;
                            },
                        },
                    },
                };
                let channel = match jlookup(fields, "channel") {
                    None => None,
                    Some(w) => match w {
                        JsonValue::Null => None,
                        _ => match Channel::from_json(w) {
                            Some(x) => Some(x),
                            None => {
                                return None;
                            },
                        },
                    },
                };
                let callback = match jlookup(fields, "callback") {
                    None => None,
                    Some(w) => match w {
                        JsonValue::Null => None,
                        _ => match Callback::from_json(w) {
                            Some(x) => Some(x),
                            None => {
                                return None;
                            },
                        },
                    },
                };
                Some(Event { author, thread, message, users, event, owner, organization, channel, callback })
            },
            _ => None,
        }
    }
}

/// Decoding an encoded record gives back the same record.
#[verifier::rlimit(100)]
pub proof fn lemma_event_roundtrip(g: EventV)
    ensures
        spec_event_from(spec_event_json(g)) == Some(g),
{
    reveal_strlit("author");
    reveal_strlit("thread");
    reveal_strlit("message");
    reveal_strlit("users");
    reveal_strlit("event");
    reveal_strlit("owner");
    reveal_strlit("organization");
    reveal_strlit("channel");
    reveal_strlit("callback");
    reveal_with_fuel(spec_lookup, 11);
    assert("author"@.len() == 6);
    assert("thread"@.len() == 6);
    assert("message"@.len() == 7);
    assert("users"@.len() == 5);
    assert("event"@.len() == 5);
    assert("owner"@.len() == 5);
    assert("organization"@.len() == 12);
    assert("channel"@.len() == 7);
    assert("callback"@.len() == 8);
    assert("author"@[0] == 'a');
    assert("thread"@[0] == 't');
    assert("author"@ != "thread"@);
    assert("message"@[0] == 'm');
    assert("channel"@[0] == 'c');
    assert("message"@ != "channel"@);
    assert("users"@[0] == 'u');
    assert("event"@[0] == 'e');
    assert("users"@ != "event"@);
    assert("users"@[0] == 'u');
    assert("owner"@[0] == 'o');
    assert("users"@ != "owner"@);
    assert("event"@[0] == 'e');
    assert("owner"@[0] == 'o');
    assert("event"@ != "owner"@);
    if g.author is Some {
        lemma_user_roundtrip(g.author.unwrap());
    }
    if g.thread is Some {
        lemma_channel_roundtrip(g.thread.unwrap());
    }
    if g.message is Some {
        lemma_message_roundtrip(g.message.unwrap());
    }
    if g.users is Some {
        let s = g.users.unwrap();
        assert forall|i: int| 0 <= i < s.len() implies spec_user_from(
            #[trigger] spec_users_json(s)[i],
        ) == Some(s[i]) by {
            lemma_user_roundtrip(s[i]);
        }
        assert(spec_users_from(spec_users_json(s)) == Some(s)) by {
            assert(Seq::new(
                spec_users_json(s).len(),
                |i: int| spec_user_from(spec_users_json(s)[i]).unwrap(),
            ) =~= s);
        }
    }
    if g.event is Some {
        lemma_event_t_roundtrip(g.event.unwrap());
    }
    if g.owner is Some {
        lemma_user_roundtrip(g.owner.unwrap());
    }
    if g.organization is Some {
        lemma_organization_roundtrip(g.organization.unwrap());
    }
    if g.channel is Some {
        lemma_channel_roundtrip(g.channel.unwrap());
    }
    if g.callback is Some {
        lemma_callback_roundtrip(g.callback.unwrap());
    }
    assert(spec_event_from(spec_event_json(g)) matches Some(h) && h =~= g);
}

/// A field absent from a decoded body stays unset or takes its default.
pub proof fn lemma_event_absent_fields()
    ensures
        spec_event_from(JVal::Obj(Seq::empty())) == Some(
            EventV {
                author: None,
                thread: None,
                message: None,
                users: None,
                event: None,
                owner: None,
                organization: None,
                channel: None,
                callback: None,
            },
        ),
{
    reveal_with_fuel(spec_lookup, 2);
}

/// The placeholder integration the template constructor builds.
pub open spec fn spec_integration_template() -> IntegrationV {
    IntegrationV {
        id: Some("UUID"@),
        name: Some("Integration Name"@),
        description: Some("Integration Description"@),
        scope: Some("PUBLIC_CHANNELS | OWNER_ACCESS | CHANNEL_LIST"@),
        channel_ids: Some(
            seq![
                "CHANNEL-A ID for CHANNEL_LIST scope"@,
                "CHANNEL-B ID for CHANNEL_LIST scope"@,
                "CHANNEL-C ID for CHANNEL_LIST scope"@,
            ],
        ),
        headers: Some(
            seq![
                HeaderV { name: Some("HeaderName"@), value: Some("HeaderValue"@) },
                HeaderV { name: Some("x-my-api-key"@), value: Some("ABC123"@) },
            ],
        ),
    }
}

impl Integration {
    /// An integration with every field unset.
    pub fn new() -> (r: Self)
        ensures
            r@ == (IntegrationV {
                id: None,
                name: None,
                description: None,
                scope: None,
                channel_ids: None,
                headers: None,
            }),
    {
        Integration {
            id: None,
            name: None,
            description: None,
            scope: None,
            channel_ids: None,
            headers: None,
        }
    }

    /// A placeholder integration for seeding an interactive edit buffer.
    pub fn template() -> (r: Self)
        ensures
            r@ == spec_integration_template(),
    {
        let mut channel_ids: Vec<String> = Vec::new();
        channel_ids.push("CHANNEL-A ID for CHANNEL_LIST scope".to_owned());
        channel_ids.push("CHANNEL-B ID for CHANNEL_LIST scope".to_owned());
        channel_ids.push("CHANNEL-C ID for CHANNEL_LIST scope".to_owned());
        let mut headers: Vec<Header> = Vec::new();
        headers.push(
            Header { name: Some("HeaderName".to_owned()), value: Some("HeaderValue".to_owned()) },
        );
        headers.push(
            Header { name: Some("x-my-api-key".to_owned()), value: Some("ABC123".to_owned()) },
        );
        let r = Integration {
            id: Some("UUID".to_owned()),
            name: Some("Integration Name".to_owned()),
            description: Some("Integration Description".to_owned()),
            scope: Some("PUBLIC_CHANNELS | OWNER_ACCESS | CHANNEL_LIST".to_owned()),
            channel_ids: Some(channel_ids),
            headers: Some(headers),
        };
        proof {
            assert(r@ =~~= spec_integration_template());
        }
        r
    }
}

impl Subscription {
    /// A subscription with every field unset.
    pub fn new() -> (r: Self)
        ensures
            r@ == (SubscriptionV {
                id: None,
                event_type: None,
                url: None,
                slash_command: None,
            }),
    {
        Subscription { id: None, event_type: None, url: None, slash_command: None }
    }

    /// A placeholder subscription for seeding an interactive edit buffer.
    pub fn template() -> (r: Self)
        ensures
            r@.id == Some("UUID"@),
            r@.event_type == Some(
                "MESSAGE_POSTED | SLASH_COMMAND | THREAD_CREATED | USERS_JOINED_CHANNEL | USERS_LEFT_CHANNEL"@,
            ),
            r@.url == Some("The integration will post to this URL when an event occurs"@),
            r@.slash_command == Some("Required if and only if eventType is SLASH_COMMAND"@),
    {
        Subscription {
            id: Some("UUID".to_owned()),
            event_type: Some(
                "MESSAGE_POSTED | SLASH_COMMAND | THREAD_CREATED | USERS_JOINED_CHANNEL | USERS_LEFT_CHANNEL".to_owned(),
            ),
            url: Some(
                "The integration will post to this URL when an event occurs".to_owned(),
            ),
            slash_command: Some(
                "Required if and only if eventType is SLASH_COMMAND".to_owned(),
            ),
        }
    }
}


impl Client {
    /// The request for every integration active on a channel the caller can
    /// see. The response wraps the list under an `integrations` field.
    pub fn get_integrations(&self) -> (r: ApiRequest)
        ensures
            r@.method == Method::Get,
            r@.url == self@.host + "/v1/buzz/integrations"@,
            r@.scope == "buzz"@,
            r@.query == Seq::<(Seq<char>, Seq<char>)>::empty(),
            r@.body is None,
    {
        ApiRequest::new(
            Method::Get,
            str_concat(self.host.as_str(), "/v1/buzz/integrations"),
            "buzz",
        )
    }

    /// The request that registers an integration from the given record.
    pub fn post_integration(&self, integration: Integration) -> (r: ApiRequest)
        ensures
            r@.method == Method::Post,
            r@.url == self@.host + "/v1/buzz/integrations"@,
            r@.scope == "buzz"@,
            r@.query == Seq::<(Seq<char>, Seq<char>)>::empty(),
            r@.body == Some(ReqBodyV::Json(spec_integration_json(integration@))),
    {
        let mut r = ApiRequest::new(
            Method::Post,
            str_concat(self.host.as_str(), "/v1/buzz/integrations"),
            "buzz",
        );
        r.body = Some(ReqBody::Json(integration.to_json()));
        r
    }

    /// The request for one integration by id.
    pub fn get_integration(&self, id: &str) -> (r: ApiRequest)
        ensures
            r@.method == Method::Get,
            r@.url == self@.host + "/v1/buzz/integrations/"@ + id@,
            r@.scope == "buzz"@,
            r@.query == Seq::<(Seq<char>, Seq<char>)>::empty(),
            r@.body is None,
    {
        let mut url = str_concat(self.host.as_str(), "/v1/buzz/integrations/");
        url.append(id);
        ApiRequest::new(Method::Get, url, "buzz")
    }

    /// The request that deletes an integration by id.
    pub fn delete_integration(&self, id: &str) -> (r: ApiRequest)
        ensures
            r@.method == Method::Delete,
            r@.url == self@.host + "/v1/buzz/integrations/"@ + id@,
            r@.scope == "buzz"@,
            r@.query == Seq::<(Seq<char>, Seq<char>)>::empty(),
            r@.body is None,
    {
        let mut url = str_concat(self.host.as_str(), "/v1/buzz/integrations/");
        url.append(id);
        ApiRequest::new(Method::Delete, url, "buzz")
    }

    /// The request for an integration's event subscriptions. The response
    /// wraps the list under a `subscriptions` field.
    pub fn get_integration_subscriptions(&self, id: &str) -> (r: ApiRequest)
        ensures
            r@.method == Method::Get,
            r@.url == self@.host + "/v1/buzz/integrations/"@ + id@ + "/subscriptions"@,
            r@.scope == "buzz"@,
            r@.query == Seq::<(Seq<char>, Seq<char>)>::empty(),
            r@.body is None,
    {
        let mut url = str_concat(self.host.as_str(), "/v1/buzz/integrations/");
        url.append(id);
        url.append("/subscriptions");
        ApiRequest::new(Method::Get, url, "buzz")
    }

    /// The request that adds an event subscription to an integration.
    pub fn post_integration_subscription(&self, id: &str, subscription: Subscription) -> (r:
        ApiRequest)
        ensures
            r@.method == Method::Post,
            r@.url == self@.host + "/v1/buzz/integrations/"@ + id@ + "/subscriptions"@,
            r@.scope == "buzz"@,
            r@.query == Seq::<(Seq<char>, Seq<char>)>::empty(),
            r@.body == Some(ReqBodyV::Json(spec_subscription_json(subscription@))),
    {
        let mut url = str_concat(self.host.as_str(), "/v1/buzz/integrations/");
        url.append(id);
        url.append("/subscriptions");
        let mut r = ApiRequest::new(Method::Post, url, "buzz");
        r.body = Some(ReqBody::Json(subscription.to_json()));
        r
    }

    /// The request that removes an event subscription from an integration.
    pub fn delete_integration_subscription(&self, id: &str, subscription_id: &str) -> (r:
        ApiRequest)
        ensures
            r@.method == Method::Delete,
            r@.url == self@.host + "/v1/buzz/integrations/"@ + id@ + "/subscriptions/"@
                + subscription_id@,
            r@.scope == "buzz"@,
            r@.query == Seq::<(Seq<char>, Seq<char>)>::empty(),
            r@.body is None,
    {
        let mut url = str_concat(self.host.as_str(), "/v1/buzz/integrations/");
        url.append(id);
        url.append("/subscriptions/");
        url.append(subscription_id);
        ApiRequest::new(Method::Delete, url, "buzz")
    }
}


/// Maps a response holding one record of this resource.
pub fn integration_response(status: u16, body: &str) -> (r: Result<Integration, DomoError>)
    ensures
        match r {
            Ok(x) => spec_check_response(status, body@) matches Ok(j) && spec_integration_from(j)
                == Some(x@),
            Err(e) => match spec_check_response(status, body@) {
                Ok(j) => spec_integration_from(j) is None && e@ == (DomoErrorV::Malformed {
                    status,
                }),
                Err(e2) => e@ == e2,
            },
        },
{
    match check_response(status, body) {
        Err(e) => Err(e),
        Ok(v) => match Integration::from_json(&v) {
            Some(x) => Ok(x),
            None => Err(DomoError::Malformed { status }),
        },
    }
}

/// Maps a response holding one record of this resource.
pub fn subscription_response(status: u16, body: &str) -> (r: Result<Subscription, DomoError>)
    ensures
        match r {
            Ok(x) => spec_check_response(status, body@) matches Ok(j) && spec_subscription_from(j)
                == Some(x@),
            Err(e) => match spec_check_response(status, body@) {
                Ok(j) => spec_subscription_from(j) is None && e@ == (DomoErrorV::Malformed {
                    status,
                }),
                Err(e2) => e@ == e2,
            },
        },
{
    match check_response(status, body) {
        Err(e) => Err(e),
        Ok(v) => match Subscription::from_json(&v) {
            Some(x) => Ok(x),
            None => Err(DomoError::Malformed { status }),
        },
    }
}

/// Maps a response whose body wraps a list of integrations under an
/// `integrations` field.
pub fn integrations_response(status: u16, body: &str) -> (r: Result<
    Vec<Integration>,
    DomoError,
>)
    ensures
        match r {
            Ok(xs) => spec_check_response(status, body@) matches Ok(j) && j matches JVal::Obj(
                fields,
            ) && spec_lookup(fields, "integrations"@) matches Some(w) && w matches JVal::Arr(
                es,
            ) && spec_integrations_from(es) == Some(vviews(xs@)),
            Err(e) => match spec_check_response(status, body@) {
                Ok(j) => e@ == (DomoErrorV::Malformed { status }) && !(j matches JVal::Obj(
                    fields,
                ) && spec_lookup(fields, "integrations"@) matches Some(w) && w matches JVal::Arr(
                    es,
                ) && spec_integrations_from(es) is Some),
                Err(e2) => e@ == e2,
            },
        },
{
    let v = match check_response(status, body) {
        Ok(v) => v,
        Err(e) => {
            return Err(e);
        },
    };
    proof {
        broadcast use lemma_jview_obj;
        broadcast use lemma_jview_arr;

    }
    match &v {
        JsonValue::Obj(fields) => match jlookup(fields, "integrations") {
            Some(w) => match w {
                JsonValue::Arr(es) => match integration_list_from_json(es) {
                    Some(xs) => Ok(xs),
                    None => Err(DomoError::Malformed { status }),
                },
                _ => Err(DomoError::Malformed { status }),
            },
            None => Err(DomoError::Malformed { status }),
        },
        _ => Err(DomoError::Malformed { status }),
    }
}

/// Maps a response whose body wraps a list of subscriptions under a
/// `subscriptions` field.
pub fn subscriptions_response(status: u16, body: &str) -> (r: Result<
    Vec<Subscription>,
    DomoError,
>)
    ensures
        match r {
            Ok(xs) => spec_check_response(status, body@) matches Ok(j) && j matches JVal::Obj(
                fields,
            ) && spec_lookup(fields, "subscriptions"@) matches Some(w) && w matches JVal::Arr(
                es,
            ) && spec_subscriptions_from(es) == Some(vviews(xs@)),
            Err(e) => match spec_check_response(status, body@) {
                Ok(j) => e@ == (DomoErrorV::Malformed { status }) && !(j matches JVal::Obj(
                    fields,
                ) && spec_lookup(fields, "subscriptions"@) matches Some(w) && w matches JVal::Arr(
                    es,
                ) && spec_subscriptions_from(es) is Some),
                Err(e2) => e@ == e2,
            },
        },
{
    let v = match check_response(status, body) {
        Ok(v) => v,
        Err(e) => {
            return Err(e);
        },
    };
    proof {
        broadcast use lemma_jview_obj;
        broadcast use lemma_jview_arr;

    }
    match &v {
        JsonValue::Obj(fields) => match jlookup(fields, "subscriptions") {
            Some(w) => match w {
                JsonValue::Arr(es) => match subscription_list_from_json(es) {
                    Some(xs) => Ok(xs),
                    None => Err(DomoError::Malformed { status }),
                },
                _ => Err(DomoError::Malformed { status }),
            },
            None => Err(DomoError::Malformed { status }),
        },
        _ => Err(DomoError::Malformed { status }),
    }
}


} // verus!
