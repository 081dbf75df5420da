//! The activity log: one entry per audited event, and the audit endpoint.

use crate::json::{
    JVal, JsonValue, field_opt_string, field_opt_u64, j_opt_string, j_opt_u64, jview,
    lemma_jview_arr, lemma_jview_obj, ostr, put_field, spec_elems, spec_field_opt_str,
    spec_field_opt_u64, spec_fields, spec_j_opt_num, spec_j_opt_str, spec_lookup, vviews,
};
use crate::public::{
    ApiRequest, Client, DomoError, DomoErrorV, Method, check_response,
    spec_check_response,
};
use crate::strutil::{spec_u64_chars, str_concat, u32_string, u64_string};
use vstd::prelude::*;
use vstd::string::StringExecFns;

verus! {


/// One activity-log entry: who acted, what was affected, and from where.
/// The event time is carried as the wire's timestamp text.
#[derive(Debug, PartialEq, Eq)]
pub struct LogEntry {
    pub user_name: Option<String>,
    pub user_id: Option<String>,
    pub user_type: Option<String>,
    pub actor_id: Option<u64>,
    pub actor_type: Option<String>,
    pub object_name: Option<String>,
    pub object_id: Option<String>,
    pub object_type: Option<String>,
    pub additional_comment: Option<String>,
    pub time: Option<String>,
    pub event_text: Option<String>,
    pub device: Option<String>,
    pub browser_details: Option<String>,
    pub ip_address: Option<String>,
}

#[verifier::ext_equal]
pub struct LogEntryV {
    pub user_name: Option<Seq<char>>,
    pub user_id: Option<Seq<char>>,
    pub user_type: Option<Seq<char>>,
    pub actor_id: Option<u64>,
    pub actor_type: Option<Seq<char>>,
    pub object_name: Option<Seq<char>>,
    pub object_id: Option<Seq<char>>,
    pub object_type: Option<Seq<char>>,
    pub additional_comment: Option<Seq<char>>,
    pub time: Option<Seq<char>>,
    pub event_text: Option<Seq<char>>,
    pub device: Option<Seq<char>>,
    pub browser_details: Option<Seq<char>>,
    pub ip_address: Option<Seq<char>>,
}

impl View for LogEntry {
    type V = LogEntryV;

    open spec fn view(&self) -> LogEntryV {
        LogEntryV {
            user_name: ostr(self.user_name),
            user_id: ostr(self.user_id),
            user_type: ostr(self.user_type),
            actor_id: self.actor_id,
            actor_type: ostr(self.actor_type),
            object_name: ostr(self.object_name),
            object_id: ostr(self.object_id),
            object_type: ostr(self.object_type),
            additional_comment: ostr(self.additional_comment),
            time: ostr(self.time),
            event_text: ostr(self.event_text),
            device: ostr(self.device),
            browser_details: ostr(self.browser_details),
            ip_address: ostr(self.ip_address),
        }
    }
}

pub open spec fn spec_log_entry_json(v: LogEntryV) -> JVal {
    JVal::Obj(
        seq![
            ("userName"@, spec_j_opt_str(v.user_name)),
            ("userId"@, spec_j_opt_str(v.user_id)),
            ("userType"@, spec_j_opt_str(v.user_type)),
            ("actorId"@, spec_j_opt_num(v.actor_id)),
            ("actorType"@, spec_j_opt_str(v.actor_type)),
            ("objectName"@, spec_j_opt_str(v.object_name)),
            ("objectId"@, spec_j_opt_str(v.object_id)),
            ("objectType"@, spec_j_opt_str(v.object_type)),
            ("additionalComment"@, spec_j_opt_str(v.additional_comment)),
            ("time"@, spec_j_opt_str(v.time)),
            ("eventText"@, spec_j_opt_str(v.event_text)),
            ("device"@, spec_j_opt_str(v.device)),
            ("browserDetails"@, spec_j_opt_str(v.browser_details)),
            ("ipAddress"@, spec_j_opt_str(v.ip_address)),
        ],
    )
}

pub open spec fn spec_log_entry_from(j: JVal) -> Option<LogEntryV> {
    match j {
        JVal::Obj(fields) => {
            let user_name = spec_field_opt_str(fields, "userName"@);
            let user_id = spec_field_opt_str(fields, "userId"@);
            let user_type = spec_field_opt_str(fields, "userType"@);
            let actor_id = spec_field_opt_u64(fields, "actorId"@);
            let actor_type = spec_field_opt_str(fields, "actorType"@);
            let object_name = spec_field_opt_str(fields, "objectName"@);
            let object_id = spec_field_opt_str(fields, "objectId"@);
            let object_type = spec_field_opt_str(fields, "objectType"@);
            let additional_comment = spec_field_opt_str(fields, "additionalComment"@);
            let time = spec_field_opt_str(fields, "time"@);
            let event_text = spec_field_opt_str(fields, "eventText"@);
            let device = spec_field_opt_str(fields, "device"@);
            let browser_details = spec_field_opt_str(fields, "browserDetails"@);
            let ip_address = spec_field_opt_str(fields, "ipAddress"@);
            if user_name is Err || user_id is Err || user_type is Err || actor_id is Err || actor_type is Err || object_name is Err || object_id is Err || object_type is Err || additional_comment is Err || time is Err || event_text is Err || device is Err || browser_details is Err || ip_address is Err {
                None
            } else {
                Some(
                    LogEntryV {
                        user_name: user_name->Ok_0,
                        user_id: user_id->Ok_0,
                        user_type: user_type->Ok_0,
                        actor_id: actor_id->Ok_0,
                        actor_type: actor_type->Ok_0,
                        object_name: object_name->Ok_0,
                        object_id: object_id->Ok_0,
                        object_type: object_type->Ok_0,
                        additional_comment: additional_comment->Ok_0,
                        time: time->Ok_0,
                        event_text: event_text->Ok_0,
                        device: device->Ok_0,
                        browser_details: browser_details->Ok_0,
                        ip_address: ip_address->Ok_0,
                    },
                )
            }
        },
        _ => None,
    }
}

impl LogEntry {
    /// The record as a JSON document, with its wire field names; an unset
    /// field is sent as `null`.
    #[verifier::rlimit(100)]
    pub fn to_json(&self) -> (r: JsonValue)
        ensures
            r@ == spec_log_entry_json(self@),
    {
        let mut f: Vec<(String, JsonValue)> = Vec::new();
        put_field(&mut f, "userName", j_opt_string(&self.user_name));
        put_field(&mut f, "userId", j_opt_string(&self.user_id));
        put_field(&mut f, "userType", j_opt_string(&self.user_type));
        put_field(&mut f, "actorId", j_opt_u64(&self.actor_id));
        put_field(&mut f, "actorType", j_opt_string(&self.actor_type));
        put_field(&mut f, "objectName", j_opt_string(&self.object_name));
        put_field(&mut f, "objectId", j_opt_string(&self.object_id));
        put_field(&mut f, "objectType", j_opt_string(&self.object_type));
        put_field(&mut f, "additionalComment", j_opt_string(&self.additional_comment));
        proof {
            assert(spec_fields(f@) =~= seq![
                ("userName"@, spec_j_opt_str(self@.user_name)),
                ("userId"@, spec_j_opt_str(self@.user_id)),
                ("userType"@, spec_j_opt_str(self@.user_type)),
                ("actorId"@, spec_j_opt_num(self@.actor_id)),
                ("actorType"@, spec_j_opt_str(self@.actor_type)),
                ("objectName"@, spec_j_opt_str(self@.object_name)),
                ("objectId"@, spec_j_opt_str(self@.object_id)),
                ("objectType"@, spec_j_opt_str(self@.object_type)),
                ("additionalComment"@, spec_j_opt_str(self@.additional_comment)),
            ]);
        }
        put_field(&mut f, "time", j_opt_string(&self.time));
        put_field(&mut f, "eventText", j_opt_string(&self.event_text));
        put_field(&mut f, "device", j_opt_string(&self.device));
        put_field(&mut f, "browserDetails", j_opt_string(&self.browser_details));
        put_field(&mut f, "ipAddress", j_opt_string(&self.ip_address));
        let r = JsonValue::Obj(f);
        proof {
            broadcast use lemma_jview_obj;

            assert(jview(r) == JVal::Obj(spec_fields(r->Obj_0@)));
            assert(spec_fields(r->Obj_0@) =~= spec_log_entry_json(self@)->Obj_0);
        }
        r
    }

    /// The record a well-formed body decodes to; `None` when a present
    /// field has the wrong shape.
    pub fn from_json(v: &JsonValue) -> (r: Option<LogEntry>)
        ensures
            match r {
                Some(x) => spec_log_entry_from(v@) == Some(x@),
                None => spec_log_entry_from(v@) is None,
            },
    {
        proof {
            broadcast use lemma_jview_obj;
            broadcast use lemma_jview_arr;

        }
        match v {
            JsonValue::Obj(fields) => {
                let user_name = match field_opt_string(fields, "userName") {
                    Ok(x) => x,
                    Err(_) => {
                        return None;
                    },
                };
                let user_id = match field_opt_string(fields, "userId") {
                    Ok(x) => x,
                    Err(_) => {
                        return None;
                    },
                };
                let user_type = match field_opt_string(fields, "userType") {
                    Ok(x) => x,
                    Err(_) => {
                        return None;
                    },
                };
                let actor_id = match field_opt_u64(fields, "actorId") {
                    Ok(x) => x,
                    Err(_) => {
                        return None;
                    },
                };
                let actor_type = match field_opt_string(fields, "actorType") {
                    Ok(x) => x,
                    Err(_) => {
                        return None;
                    },
                };
                let object_name = match field_opt_string(fields, "objectName") {
                    Ok(x) => x,
                    Err(_) => {
                        return None;
                    },
                };
                let object_id = match field_opt_string(fields, "objectId") {
                    Ok(x) => x,
                    Err(_) => {
                        return None;
                    },
                };
                let object_type = match field_opt_string(fields, "objectType") {
                    Ok(x) => x,
                    Err(_) => {
                        return None;
                    },
                };
                let additional_comment = match field_opt_string(fields, "additionalComment") {
                    Ok(x) => x,
                    Err(_) => {
                        return None;
                    },
                };
                let time = match field_opt_string(fields, "time") {
                    Ok(x) => x,
                    Err(_) => {
                        return None;
                    },
                };
                let event_text = match field_opt_string(fields, "eventText") {
                    Ok(x) => x,
                    Err(_) => {
                        return None;
                    },
                };
                let device = match field_opt_string(fields, "device") {
                    Ok(x) => x,
                    Err(_) => {
                        return None;
                    },
                };
                let browser_details = match field_opt_string(fields, "browserDetails") {
                    Ok(x) => x,
                    Err(_) => {
                        return None;
                    },
                };
                let ip_address = match field_opt_string(fields, "ipAddress") {
                    Ok(x) => x,
                    Err(_) => {
                        return None;
                    },
                };
                Some(LogEntry { user_name, user_id, user_type, actor_id, actor_type, object_name, object_id, object_type, additional_comment, time, event_text, device, browser_details, ip_address })
            },
            _ => None,
        }
    }
}

/// Decoding an encoded record gives back the same record.
#[verifier::rlimit(100)]
pub proof fn lemma_log_entry_roundtrip(g: LogEntryV)
    ensures
        spec_log_entry_from(spec_log_entry_json(g)) == Some(g),
{
    reveal_strlit("userName");
    reveal_strlit("userId");
    reveal_strlit("userType");
    reveal_strlit("actorId");
    reveal_strlit("actorType");
    reveal_strlit("objectName");
    reveal_strlit("objectId");
    reveal_strlit("objectType");
    reveal_strlit("additionalComment");
    reveal_strlit("time");
    reveal_strlit("eventText");
    reveal_strlit("device");
    reveal_strlit("browserDetails");
    reveal_strlit("ipAddress");
    reveal_with_fuel(spec_lookup, 16);
    assert("userName"@.len() == 8);
    assert("userId"@.len() == 6);
    assert("userType"@.len() == 8);
    assert("actorId"@.len() == 7);
    assert("actorType"@.len() == 9);
    assert("objectName"@.len() == 10);
    assert("objectId"@.len() == 8);
    assert("objectType"@.len() == 10);
    assert("additionalComment"@.len() == 17);
    assert("time"@.len() == 4);
    assert("eventText"@.len() == 9);
    assert("device"@.len() == 6);
    assert("browserDetails"@.len() == 14);
    assert("ipAddress"@.len() == 9);
    assert("userName"@[4] == 'N');
    assert("userType"@[4] == 'T');
    assert("userName"@ != "userType"@);
    assert("userName"@[0] == 'u');
    assert("objectId"@[0] == 'o');
    assert("userName"@ != "objectId"@);
    assert("userId"@[0] == 'u');
    assert("device"@[0] == 'd');
    assert("userId"@ != "device"@);
    assert("userType"@[0] == 'u');
    assert("objectId"@[0] == 'o');
    assert("userType"@ != "objectId"@);
    assert("actorType"@[0] == 'a');
    assert("eventText"@[0] == 'e');
    assert("actorType"@ != "eventText"@);
    assert("actorType"@[0] == 'a');
    assert("ipAddress"@[0] == 'i');
    assert("actorType"@ != "ipAddress"@);
    assert("objectName"@[6] == 'N');
    assert("objectType"@[6] == 'T');
    assert("objectName"@ != "objectType"@);
    assert("eventText"@[0] == 'e');
    assert("ipAddress"@[0] == 'i');
    assert("eventText"@ != "ipAddress"@);
    assert(spec_log_entry_from(spec_log_entry_json(g)) matches Some(h) && h =~= g);
}

/// A field absent from a decoded body stays unset or takes its default.
pub proof fn lemma_log_entry_absent_fields()
    ensures
        spec_log_entry_from(JVal::Obj(Seq::empty())) == Some(
            LogEntryV {
                user_name: None,
                user_id: None,
                user_type: None,
                actor_id: None,
                actor_type: None,
                object_name: None,
                object_id: None,
                object_type: None,
                additional_comment: None,
                time: None,
                event_text: None,
                device: None,
                browser_details: None,
                ip_address: None,
            },
        ),
{
    reveal_with_fuel(spec_lookup, 2);
}

/// The encoded form of a list of these records.
pub open spec fn spec_log_entries_json(s: Seq<LogEntryV>) -> Seq<JVal> {
    Seq::new(s.len(), |i: int| spec_log_entry_json(s[i]))
}

pub open spec fn spec_opt_log_entries_json(o: Option<Seq<LogEntryV>>) -> JVal {
    match o {
        None => JVal::Null,
        Some(s) => JVal::Arr(spec_log_entries_json(s)),
    }
}

/// The decoding of a list of these records: every element must decode.
pub open spec fn spec_log_entries_from(es: Seq<JVal>) -> Option<Seq<LogEntryV>> {
    if forall|i: int| 0 <= i < es.len() ==> (#[trigger] spec_log_entry_from(es[i])) is Some {
        Some(Seq::new(es.len(), |i: int| spec_log_entry_from(es[i]).unwrap()))
    } else {
        None
    }
}

pub open spec fn spec_field_opt_log_entries(
    fields: Seq<(Seq<char>, JVal)>,
    key: Seq<char>,
) -> Result<Option<Seq<LogEntryV>>, ()> {
    match spec_lookup(fields, key) {
        None => Ok(None),
        Some(j) => match j {
            JVal::Null => Ok(None),
            JVal::Arr(es) => match spec_log_entries_from(es) {
                Some(s) => Ok(Some(s)),
                None => Err(()),
            },
            _ => Err(()),
        },
    }
}

pub fn log_entry_list_to_json(v: &Vec<LogEntry>) -> (r: JsonValue)
    ensures
        r@ == JVal::Arr(spec_log_entries_json(vviews(v@))),
{
    let mut a: Vec<JsonValue> = Vec::new();
    let mut i: usize = 0;
    while i < v.len()
        invariant
            i <= v.len(),
            a@.len() == i as int,
            forall|j: int| 0 <= j < i ==> jview(#[trigger] a@[j]) == spec_log_entry_json(v@[j]@),
        decreases v.len() - i,
    {
        a.push(v[i].to_json());
        i = i + 1;
    }
    let r = JsonValue::Arr(a);
    proof {
        broadcast use lemma_jview_arr;

        assert forall|j: int| 0 <= j < v@.len() implies spec_elems(r->Arr_0@)[j]
            == spec_log_entry_json(vviews(v@)[j]) by {
            assert(spec_elems(r->Arr_0@)[j] == jview(r->Arr_0@[j]));
        }
        assert(spec_elems(r->Arr_0@) =~= spec_log_entries_json(vviews(v@)));
    }
    r
}

#[verifier::loop_isolation(false)]
pub fn log_entry_list_from_json(es: &Vec<JsonValue>) -> (r: Option<Vec<LogEntry>>)
    ensures
        match r {
            Some(v) => spec_log_entries_from(spec_elems(es@)) == Some(vviews(v@)),
            None => spec_log_entries_from(spec_elems(es@)) is None,
        },
{
    let mut out: Vec<LogEntry> = Vec::new();
    let mut i: usize = 0;
    while i < es.len()
        invariant
            i <= es.len(),
            out@.len() == i as int,
            forall|j: int|
                0 <= j < i ==> spec_log_entry_from(#[trigger] spec_elems(es@)[j]) == Some(
                    out@[j]@,
                ),
        decreases es.len() - i,
    {
        proof {
            assert(spec_elems(es@)[i as int] == jview(es@[i as int]));
        }
        match LogEntry::from_json(&es[i]) {
            Some(x) => out.push(x),
            None => {
                proof {
                    assert(spec_log_entry_from(spec_elems(es@)[i as int]) is None);
                }
                return None;
            },
        }
        i = i + 1;
    }
    proof {
        assert(spec_log_entries_from(spec_elems(es@)) == Some(vviews(out@))) by {
            assert(Seq::new(
                spec_elems(es@).len(),
                |j: int| spec_log_entry_from(spec_elems(es@)[j]).unwrap(),
            ) =~= vviews(out@));
        }
    }
    Some(out)
}

pub open spec fn spec_opt_log_entry_json(o: Option<LogEntryV>) -> JVal {
    match o {
        None => JVal::Null,
        Some(x) => spec_log_entry_json(x),
    }
}

pub open spec fn spec_field_opt_log_entry(
    fields: Seq<(Seq<char>, JVal)>,
    key: Seq<char>,
) -> Result<Option<LogEntryV>, ()> {
    match spec_lookup(fields, key) {
        None => Ok(None),
        Some(j) => match j {
            JVal::Null => Ok(None),
            _ => match spec_log_entry_from(j) {
                Some(t) => Ok(Some(t)),
                None => Err(()),
            },
        },
    }
}

/// The query parameters of an audit request: the required start instant,
/// then each optional parameter that was given, in a fixed order.
pub open spec fn spec_audit_query(
    user_id: Option<u64>,
    start: u64,
    end: Option<u64>,
    limit: Option<u32>,
    offset: Option<u32>,
) -> Seq<(Seq<char>, Seq<char>)> {
    (if user_id is Some {
        seq![("user"@, spec_u64_chars(user_id.unwrap() as int))]
    } else {
        Seq::empty()
    }) + seq![("start"@, spec_u64_chars(start as int))] + (if end is Some {
        seq![("end"@, spec_u64_chars(end.unwrap() as int))]
    } else {
        Seq::empty()
    }) + crate::public::spec_paging_query(limit, offset)
}

impl Client {
    /// The request for a window of activity-log entries: an optional user
    /// filter, the start and optional end instants in milliseconds, and
    /// optional paging parameters.
    pub fn get_entries(
        &self,
        user_id: Option<u64>,
        start: u64,
        end: Option<u64>,
        limit: Option<u32>,
        offset: Option<u32>,
    ) -> (r: ApiRequest)
        ensures
            r@.method == Method::Get,
            r@.url == self@.host + "/v1/audit"@,
            r@.scope == "audit"@,
            r@.query == spec_audit_query(user_id, start, end, limit, offset),
            r@.body is None,
    {
        let mut r = ApiRequest::new(
            Method::Get,
            str_concat(self.host.as_str(), "/v1/audit"),
            "audit",
        );
        let mut q: Vec<(String, String)> = Vec::new();
        if let Some(v) = user_id {
            q.push(("user".to_owned(), u64_string(v)));
        }
        q.push(("start".to_owned(), u64_string(start)));
        if let Some(v) = end {
            q.push(("end".to_owned(), u64_string(v)));
        }
        if let Some(v) = limit {
            q.push(("limit".to_owned(), u32_string(v)));
        }
        if let Some(v) = offset {
            q.push(("offset".to_owned(), u32_string(v)));
        }
        r.query = q;
        proof {
            assert(crate::json::views_of_pairs(r.query@) =~= spec_audit_query(
                user_id,
                start,
                end,
                limit,
                offset,
            ));
        }
        r
    }
}


/// Maps a response holding a list of records of this resource.
pub fn log_entries_response(status: u16, body: &str) -> (r: Result<Vec<LogEntry>, DomoError>)
    ensures
        match r {
            Ok(xs) => spec_check_response(status, body@) matches Ok(j) && j matches JVal::Arr(
                es,
            ) && spec_log_entries_from(es) == Some(vviews(xs@)),
            Err(e) => match spec_check_response(status, body@) {
                Ok(j) => e@ == (DomoErrorV::Malformed { status }) && !(j matches JVal::Arr(
                    es,
                ) && spec_log_entries_from(es) is Some),
                Err(e2) => e@ == e2,
            },
        },
{
    let v = match check_response(status, body) {
        Ok(v) => v,
        Err(e) => {
            return Err(e);
        },
    };
    proof {
        broadcast use lemma_jview_arr;

    }
    match &v {
        JsonValue::Arr(es) => match log_entry_list_from_json(es) {
            Some(xs) => Ok(xs),
            None => Err(DomoError::Malformed { status }),
        },
        _ => Err(DomoError::Malformed { status }),
    }
}

} // verus!
