//! The API client core: the client configuration, the request descriptions
//! that every endpoint method builds, the token exchange, and the mapping of
//! responses to typed values or to the structured API error.
//!
//! The network transport lives outside this crate. A caller takes the
//! [`ApiRequest`] an endpoint method returns, obtains a token with
//! [`Client::token_request`] and [`Client::parse_token_response`], performs
//! the round trip, and hands the status and body text back to the resource's
//! response function.

pub mod account;
pub mod activity;
pub mod buzz;
pub mod dataset;
pub mod group;
pub mod page;
pub mod stream;
pub mod user;
pub mod workflow;

use crate::json::{
    JVal, JsonValue, field_opt_string, field_req_string, field_req_u16, j_opt_string,
    jlookup, jview, lemma_jview_obj, ostr, put_field, spec_field_opt_str,
    spec_field_req_str, spec_field_req_u16, spec_fields, spec_j_opt_str, spec_lookup,
};
use crate::jsontext::{parse_json, spec_parse_json};
use crate::strutil::str_concat;
use vstd::prelude::*;
use vstd::string::StringExecFns;

verus! {

/// The error body every endpoint returns on a non-success status: a numeric
/// status, an optional status reason, a message, an optional request path and
/// an optional secondary error code.
#[derive(Debug, PartialEq, Eq)]
pub struct PubAPIError {
    pub status: u16,
    pub status_reason: Option<String>,
    pub message: String,
    pub path: Option<String>,
    pub toe: Option<String>,
}

#[verifier::ext_equal]
pub struct PubAPIErrorV {
    pub status: u16,
    pub status_reason: Option<Seq<char>>,
    pub message: Seq<char>,
    pub path: Option<Seq<char>>,
    pub toe: Option<Seq<char>>,
}

impl View for PubAPIError {
    type V = PubAPIErrorV;

    open spec fn view(&self) -> PubAPIErrorV {
        PubAPIErrorV {
            status: self.status,
            status_reason: ostr(self.status_reason),
            message: self.message@,
            path: ostr(self.path),
            toe: ostr(self.toe),
        }
    }
}

pub open spec fn spec_pubapierror_json(e: PubAPIErrorV) -> JVal {
    JVal::Obj(
        seq![
            ("status"@, JVal::Num(e.status as int)),
            ("statusReason"@, spec_j_opt_str(e.status_reason)),
            ("message"@, JVal::Str(e.message)),
            ("path"@, spec_j_opt_str(e.path)),
            ("toe"@, spec_j_opt_str(e.toe)),
        ],
    )
}

/// The decoding of an error body. The status and the message are required;
/// the other fields are optional.
pub open spec fn spec_pubapierror_from(j: JVal) -> Option<PubAPIErrorV> {
    match j {
        JVal::Obj(fields) => {
            let status = spec_field_req_u16(fields, "status"@);
            let status_reason = spec_field_opt_str(fields, "statusReason"@);
            let message = spec_field_req_str(fields, "message"@);
            let path = spec_field_opt_str(fields, "path"@);
            let toe = spec_field_opt_str(fields, "toe"@);
            if status is Err || status_reason is Err || message is Err || path is Err
                || toe is Err {
                None
            } else {
                Some(
                    PubAPIErrorV {
                        status: status->Ok_0,
                        status_reason: status_reason->Ok_0,
                        message: message->Ok_0,
                        path: path->Ok_0,
                        toe: toe->Ok_0,
                    },
                )
            }
        },
        _ => None,
    }
}

impl PubAPIError {
    /// The error body as a JSON document, with its wire field names.
    pub fn to_json(&self) -> (r: JsonValue)
        ensures
            r@ == spec_pubapierror_json(self@),
    {
        let mut f: Vec<(String, JsonValue)> = Vec::new();
        put_field(&mut f, "status", JsonValue::UInt(self.status as u64));
        put_field(&mut f, "statusReason", j_opt_string(&self.status_reason));
        put_field(&mut f, "message", JsonValue::Str(self.message.clone()));
        put_field(&mut f, "path", j_opt_string(&self.path));
        put_field(&mut f, "toe", j_opt_string(&self.toe));
        let r = JsonValue::Obj(f);
        proof {
            broadcast use lemma_jview_obj;

            assert(jview(r) == JVal::Obj(spec_fields(r->Obj_0@)));
            assert(spec_fields(r->Obj_0@) =~= spec_pubapierror_json(self@)->Obj_0);
        }
        r
    }

    /// The typed error a well-formed error body decodes to.
    pub fn from_json(v: &JsonValue) -> (r: Option<PubAPIError>)
        ensures
            match r {
                Some(e) => spec_pubapierror_from(v@) == Some(e@),
                None => spec_pubapierror_from(v@) is None,
            },
    {
        proof {
            broadcast use lemma_jview_obj;

        }
        match v {
            JsonValue::Obj(fields) => {
                let status = match field_req_u16(fields, "status") {
                    Ok(x) => x,
                    Err(_) => {
                        return None;
                    },
                };
                let status_reason = match field_opt_string(fields, "statusReason") {
                    Ok(x) => x,
                    Err(_) => {
                        return None;
                    },
                };
                let message = match field_req_string(fields, "message") {
                    Ok(x) => x,
                    Err(_) => {
                        return None;
                    },
                };
                let path = match field_opt_string(fields, "path") {
                    Ok(x) => x,
                    Err(_) => {
                        return None;
                    },
                };
                let toe = match field_opt_string(fields, "toe") {
                    Ok(x) => x,
                    Err(_) => {
                        return None;
                    },
                };
                Some(PubAPIError { status, status_reason, message, path, toe })
            },
            _ => None,
        }
    }
}

/// Decoding an encoded error body gives back the same error.
pub proof fn lemma_pubapierror_roundtrip(e: PubAPIErrorV)
    ensures
        spec_pubapierror_from(spec_pubapierror_json(e)) == Some(e),
{
    reveal_strlit("status");
    reveal_strlit("statusReason");
    reveal_strlit("message");
    reveal_strlit("path");
    reveal_strlit("toe");
    reveal_with_fuel(spec_lookup, 7);
    assert("status"@.len() == 6);
    assert("statusReason"@.len() == 12);
    assert("message"@.len() == 7);
    assert("path"@.len() == 4);
    assert("toe"@.len() == 3);
    assert(spec_pubapierror_from(spec_pubapierror_json(e)) matches Some(g) && g =~= e);
}

/// The failure value of every operation: the platform's structured error when
/// the response carried one, a malformed-response error wrapping the HTTP
/// status otherwise, or a local precondition failure raised before any
/// request is sent.
#[derive(Debug, PartialEq, Eq)]
pub enum DomoError {
    /// The structured error decoded from a non-success response body.
    Api(PubAPIError),
    /// A response whose body could not be decoded as expected, success or
    /// not; carries the HTTP status it came with.
    Malformed { status: u16 },
    /// No collection on the page carries the requested id.
    InvalidCollectionId,
}

#[verifier::ext_equal]
pub enum DomoErrorV {
    Api(PubAPIErrorV),
    Malformed { status: u16 },
    InvalidCollectionId,
}

impl View for DomoError {
    type V = DomoErrorV;

    open spec fn view(&self) -> DomoErrorV {
        match self {
            DomoError::Api(e) => DomoErrorV::Api(e@),
            DomoError::Malformed { status } => DomoErrorV::Malformed { status: *status },
            DomoError::InvalidCollectionId => DomoErrorV::InvalidCollectionId,
        }
    }
}

/// An HTTP method of the API.
#[derive(Clone, Copy, Debug, PartialEq, Eq, Structural)]
pub enum Method {
    Get,
    Post,
    Put,
    Patch,
    Delete,
}

/// A request body: a JSON document, or raw CSV text.
#[derive(Debug, PartialEq, Eq)]
pub enum ReqBody {
    Json(JsonValue),
    Csv(String),
}

#[verifier::ext_equal]
pub enum ReqBodyV {
    Json(JVal),
    Csv(Seq<char>),
}

impl View for ReqBody {
    type V = ReqBodyV;

    open spec fn view(&self) -> ReqBodyV {
        match self {
            ReqBody::Json(v) => ReqBodyV::Json(jview(*v)),
            ReqBody::Csv(s) => ReqBodyV::Csv(s@),
        }
    }
}

/// One endpoint operation, described as plain values: the method, the full
/// URL, the query parameters, the token scope the operation needs, and the
/// body, if any. The transport sends it after attaching a bearer token
/// obtained for `scope`.
#[derive(Debug, PartialEq, Eq)]
pub struct ApiRequest {
    pub method: Method,
    pub url: String,
    pub query: Vec<(String, String)>,
    pub scope: String,
    pub body: Option<ReqBody>,
}

#[verifier::ext_equal]
pub struct ApiRequestV {
    pub method: Method,
    pub url: Seq<char>,
    pub query: Seq<(Seq<char>, Seq<char>)>,
    pub scope: Seq<char>,
    pub body: Option<ReqBodyV>,
}

impl View for ApiRequest {
    type V = ApiRequestV;

    open spec fn view(&self) -> ApiRequestV {
        ApiRequestV {
            method: self.method,
            url: self.url@,
            query: crate::json::views_of_pairs(self.query@),
            scope: self.scope@,
            body: crate::json::oview(self.body),
        }
    }
}

impl ApiRequest {
    /// A request with no query and no body.
    pub fn new(method: Method, url: String, scope: &str) -> (r: ApiRequest)
        ensures
            r@.method == method,
            r@.url == url@,
            r@.query == Seq::<(Seq<char>, Seq<char>)>::empty(),
            r@.scope == scope@,
            r@.body is None,
    {
        let r = ApiRequest {
            method,
            url,
            query: Vec::new(),
            scope: scope.to_owned(),
            body: None,
        };
        proof {
            assert(crate::json::views_of_pairs(r.query@) =~= Seq::<
                (Seq<char>, Seq<char>),
            >::empty());
        }
        r
    }
}

/// The token exchange request: HTTP basic authentication against the fixed
/// token endpoint, asking for one permission scope.
#[derive(Debug, PartialEq, Eq)]
pub struct TokenRequest {
    pub url: String,
    pub query: Vec<(String, String)>,
    pub authorization: String,
}

#[verifier::ext_equal]
pub struct TokenRequestV {
    pub url: Seq<char>,
    pub query: Seq<(Seq<char>, Seq<char>)>,
    pub authorization: Seq<char>,
}

impl View for TokenRequest {
    type V = TokenRequestV;

    open spec fn view(&self) -> TokenRequestV {
        TokenRequestV {
            url: self.url@,
            query: crate::json::views_of_pairs(self.query@),
            authorization: self.authorization@,
        }
    }
}

/// The base64 rendering of a character string's bytes, as `base64::encode`
/// computes it: a function of the input alone.
pub uninterp spec fn base64_of(s: Seq<char>) -> Seq<char>;

/// Relies on `base64::encode`: the standard base64 alphabet with padding,
/// a function of the input bytes alone.
#[verifier::external_body]
fn base64_encode(s: &str) -> (r: String)
    ensures
        r@ == base64_of(s@),
{
    base64::encode(s)
}

/// The public API client: the host and the credentials every operation uses.
pub struct Client {
    pub host: String,
    pub client_id: String,
    pub client_secret: String,
}

pub struct ClientV {
    pub host: Seq<char>,
    pub client_id: Seq<char>,
    pub client_secret: Seq<char>,
}

impl View for Client {
    type V = ClientV;

    open spec fn view(&self) -> ClientV {
        ClientV {
            host: self.host@,
            client_id: self.client_id@,
            client_secret: self.client_secret@,
        }
    }
}

impl Client {
    /// A client bound to one host and one credential pair.
    pub fn new(host: &str, client_id: &str, client_secret: &str) -> (r: Self)
        ensures
            r@.host == host@,
            r@.client_id == client_id@,
            r@.client_secret == client_secret@,
    {
        Self {
            host: host.to_owned(),
            client_id: client_id.to_owned(),
            client_secret: client_secret.to_owned(),
        }
    }

    /// The basic-authentication header value for the token exchange:
    /// `Basic` and the base64 rendering of `client_id:client_secret`.
    pub fn basic_auth(&self) -> (r: String)
        ensures
            r@ == "Basic "@ + base64_of(
                self@.client_id + ":"@ + self@.client_secret,
            ),
    {
        let mut credentials = str_concat(self.client_id.as_str(), ":");
        credentials.append(self.client_secret.as_str());
        str_concat("Basic ", base64_encode(credentials.as_str()).as_str())
    }

    /// The token exchange request for one scope: a GET against the fixed
    /// token endpoint with the client-credentials grant.
    pub fn token_request(&self, scope: &str) -> (r: TokenRequest)
        ensures
            r@.url == self@.host + "/oauth/token"@,
            r@.query == seq![
                ("grant_type"@, "client_credentials"@),
                ("scope"@, scope@),
            ],
            r@.authorization == "Basic "@ + base64_of(
                self@.client_id + ":"@ + self@.client_secret,
            ),
    {
        let url = str_concat(self.host.as_str(), "/oauth/token");
        let mut query: Vec<(String, String)> = Vec::new();
        query.push(("grant_type".to_owned(), "client_credentials".to_owned()));
        query.push(("scope".to_owned(), scope.to_owned()));
        let r = TokenRequest { url, query, authorization: self.basic_auth() };
        proof {
            assert(crate::json::views_of_pairs(r.query@) =~= seq![
                ("grant_type"@, "client_credentials"@),
                ("scope"@, scope@),
            ]);
        }
        r
    }
}

/// Whether a status is in the success range.
pub open spec fn spec_success(status: u16) -> bool {
    200 <= status < 300
}

/// The error a non-success response maps to: the decoded structured error
/// when the body holds one, else a malformed-response error wrapping the
/// status.
pub open spec fn spec_error_from(status: u16, body: Seq<char>) -> DomoErrorV {
    match spec_parse_json(body) {
        Some(j) => match spec_pubapierror_from(j) {
            Some(e) => DomoErrorV::Api(e),
            None => DomoErrorV::Malformed { status },
        },
        None => DomoErrorV::Malformed { status },
    }
}

/// The uniform mapping of a response: a non-success status maps to the error
/// of [`spec_error_from`], whatever its body; a success status yields the
/// body's JSON document, or a malformed-response error when the body is not
/// JSON.
pub open spec fn spec_check_response(status: u16, body: Seq<char>) -> Result<
    JVal,
    DomoErrorV,
> {
    if !spec_success(status) {
        Err(spec_error_from(status, body))
    } else {
        match spec_parse_json(body) {
            Some(j) => Ok(j),
            None => Err(DomoErrorV::Malformed { status }),
        }
    }
}

/// The uniform error mapping, stated as a law: every non-success response
/// fails, whatever its specific status code; when its body decodes as the
/// structured error, that error is the failure value, and when the body
/// does not decode, the failure is the distinct malformed-response value
/// wrapping the status.
pub proof fn lemma_error_mapping(status: u16, body: Seq<char>)
    requires
        !spec_success(status),
    ensures
        spec_check_response(status, body) == Err::<JVal, DomoErrorV>(
            spec_error_from(status, body),
        ),
        match spec_parse_json(body) {
            Some(j) => match spec_pubapierror_from(j) {
                Some(e) => spec_error_from(status, body) == DomoErrorV::Api(e),
                None => spec_error_from(status, body) == (DomoErrorV::Malformed { status }),
            },
            None => spec_error_from(status, body) == (DomoErrorV::Malformed { status }),
        },
{
}

/// Maps a non-success response body to the operation's failure value.
pub fn error_from_response(status: u16, body: &str) -> (r: DomoError)
    ensures
        r@ == spec_error_from(status, body@),
{
    match parse_json(body) {
        Some(v) => match PubAPIError::from_json(&v) {
            Some(e) => DomoError::Api(e),
            None => DomoError::Malformed { status },
        },
        None => DomoError::Malformed { status },
    }
}

/// Splits a response into its JSON document or its failure value.
pub fn check_response(status: u16, body: &str) -> (r: Result<JsonValue, DomoError>)
    ensures
        match r {
            Ok(v) => spec_check_response(status, body@) == Ok::<JVal, DomoErrorV>(v@),
            Err(e) => spec_check_response(status, body@) == Err::<JVal, DomoErrorV>(e@),
        },
{
    if !(200 <= status && status < 300) {
        return Err(error_from_response(status, body));
    }
    match parse_json(body) {
        Some(v) => Ok(v),
        None => Err(DomoError::Malformed { status }),
    }
}

/// The token a successful token-exchange body yields.
pub open spec fn spec_token_from(j: JVal) -> Option<Seq<char>> {
    match j {
        JVal::Obj(fields) => match spec_lookup(fields, "access_token"@) {
            Some(t) => match t {
                JVal::Str(s) => Some(s),
                _ => None,
            },
            None => None,
        },
        _ => None,
    }
}

impl Client {
    /// Maps the token endpoint's response: on success, the bearer header
    /// value built from the body's `access_token` field; a success body
    /// without that field is a malformed response, and a non-success
    /// response maps to the shared failure value.
    pub fn parse_token_response(&self, status: u16, body: &str) -> (r: Result<
        String,
        DomoError,
    >)
        ensures
            match r {
                Ok(tok) => spec_check_response(status, body@) matches Ok(j)
                    && spec_token_from(j) matches Some(t) && tok@ == "Bearer "@ + t,
                Err(e) => match spec_check_response(status, body@) {
                    Ok(j) => spec_token_from(j) is None && e@ == (DomoErrorV::Malformed {
                        status,
                    }),
                    Err(e2) => e@ == e2,
                },
            },
    {
        let v = match check_response(status, body) {
            Ok(v) => v,
            Err(e) => {
                return Err(e);
            },
        };
        proof {
            broadcast use lemma_jview_obj;

        }
        match &v {
            JsonValue::Obj(fields) => match jlookup(fields, "access_token") {
                Some(t) => match t {
                    JsonValue::Str(s) => Ok(str_concat("Bearer ", s.as_str())),
                    _ => Err(DomoError::Malformed { status }),
                },
                None => Err(DomoError::Malformed { status }),
            },
            _ => Err(DomoError::Malformed { status }),
        }
    }
}

/// The optional paging parameters of a list request, in a fixed order.
pub open spec fn spec_paging_query(limit: Option<u32>, offset: Option<u32>) -> Seq<
    (Seq<char>, Seq<char>),
> {
    (if limit is Some {
        seq![("limit"@, crate::strutil::spec_u64_chars(limit.unwrap() as int))]
    } else {
        Seq::empty()
    }) + (if offset is Some {
        seq![("offset"@, crate::strutil::spec_u64_chars(offset.unwrap() as int))]
    } else {
        Seq::empty()
    })
}

/// Builds the paging parameters of a list request.
pub fn paging_query(limit: Option<u32>, offset: Option<u32>) -> (r: Vec<(String, String)>)
    ensures
        crate::json::views_of_pairs(r@) == spec_paging_query(limit, offset),
{
    let mut q: Vec<(String, String)> = Vec::new();
    if let Some(v) = limit {
        q.push(("limit".to_owned(), crate::strutil::u32_string(v)));
    }
    if let Some(v) = offset {
        q.push(("offset".to_owned(), crate::strutil::u32_string(v)));
    }
    proof {
        assert(crate::json::views_of_pairs(q@) =~= spec_paging_query(limit, offset));
    }
    q
}

/// Maps a response carrying no value: success yields the unit value, and a
/// non-success response maps to the shared failure value.
pub fn unit_response(status: u16, body: &str) -> (r: Result<(), DomoError>)
    ensures
        match r {
            Ok(u) => spec_success(status),
            Err(e) => !spec_success(status) && e@ == spec_error_from(status, body@),
        },
{
    if 200 <= status && status < 300 {
        Ok(())
    } else {
        Err(error_from_response(status, body))
    }
}

/// Maps a response whose body is plain text, such as exported CSV data:
/// success yields the body unchanged.
pub fn text_response(status: u16, body: &str) -> (r: Result<String, DomoError>)
    ensures
        match r {
            Ok(t) => spec_success(status) && t@ == body@,
            Err(e) => !spec_success(status) && e@ == spec_error_from(status, body@),
        },
{
    if 200 <= status && status < 300 {
        Ok(body.to_owned())
    } else {
        Err(error_from_response(status, body))
    }
}

} // verus!
