//! Accounts: the account record, its type with the property templates that
//! drive account creation, and the account endpoints.

use crate::json::{
    JVal, JsonValue, field_opt_bool, field_opt_string, field_opt_strmap, j_opt_bool,
    j_opt_string, j_opt_strmap, jlookup, jview, lemma_jview_arr, lemma_jview_obj, opairs,
    ostr, oview, ovviews, put_field, spec_elems, spec_field_opt_bool, spec_field_opt_str,
    spec_field_opt_strmap, spec_fields, spec_j_opt_bool, spec_j_opt_str,
    spec_j_opt_strmap, spec_lookup, views_of_pairs, vviews,
};
use crate::public::{
    ApiRequest, Client, DomoError, DomoErrorV, Method, ReqBody, ReqBodyV, check_response,
    spec_check_response,
};
use crate::strutil::str_concat;
use vstd::prelude::*;
use vstd::string::StringExecFns;

verus! {


/// One property an account type asks for when an account is created: its
/// name, the prompt shown when filling it in, a validation pattern, and
/// whether it is required.
#[derive(Debug, PartialEq, Eq)]
pub struct Property {
    pub name: Option<String>,
    pub prompt: Option<String>,
    pub regex: Option<String>,
    pub required: Option<bool>,
}

#[verifier::ext_equal]
pub struct PropertyV {
    pub name: Option<Seq<char>>,
    pub prompt: Option<Seq<char>>,
    pub regex: Option<Seq<char>>,
    pub required: Option<bool>,
}

impl View for Property {
    type V = PropertyV;

    open spec fn view(&self) -> PropertyV {
        PropertyV {
            name: ostr(self.name),
            prompt: ostr(self.prompt),
            regex: ostr(self.regex),
            required: self.required,
        }
    }
}

pub open spec fn spec_property_json(v: PropertyV) -> JVal {
    JVal::Obj(
        seq![
            ("name"@, spec_j_opt_str(v.name)),
            ("prompt"@, spec_j_opt_str(v.prompt)),
            ("regex"@, spec_j_opt_str(v.regex)),
            ("required"@, spec_j_opt_bool(v.required)),
        ],
    )
}

pub open spec fn spec_property_from(j: JVal) -> Option<PropertyV> {
    match j {
        JVal::Obj(fields) => {
            let name = spec_field_opt_str(fields, "name"@);
            let prompt = spec_field_opt_str(fields, "prompt"@);
            let regex = spec_field_opt_str(fields, "regex"@);
            let required = spec_field_opt_bool(fields, "required"@);
            if name is Err || prompt is Err || regex is Err || required is Err {
                None
            } else {
                Some(
                    PropertyV {
                        name: name->Ok_0,
                        prompt: prompt->Ok_0,
                        regex: regex->Ok_0,
                        required: required->Ok_0,
                    },
                )
            }
        },
        _ => None,
    }
}

impl Property {
    /// The record as a JSON document, with its wire field names; an unset
    /// field is sent as `null`.
    #[verifier::rlimit(100)]
    pub fn to_json(&self) -> (r: JsonValue)
        ensures
            r@ == spec_property_json(self@),
    {
        let mut f: Vec<(String, JsonValue)> = Vec::new();
        put_field(&mut f, "name", j_opt_string(&self.name));
        put_field(&mut f, "prompt", j_opt_string(&self.prompt));
        put_field(&mut f, "regex", j_opt_string(&self.regex));
        put_field(&mut f, "required", j_opt_bool(&self.required));
        let r = JsonValue::Obj(f);
        proof {
            broadcast use lemma_jview_obj;

            assert(jview(r) == JVal::Obj(spec_fields(r->Obj_0@)));
            assert(spec_fields(r->Obj_0@) =~= spec_property_json(self@)->Obj_0);
        }
        r
    }

    /// The record a well-formed body decodes to; `None` when a present
    /// field has the wrong shape.
    pub fn from_json(v: &JsonValue) -> (r: Option<Property>)
        ensures
            match r {
                Some(x) => spec_property_from(v@) == Some(x@),
                None => spec_property_from(v@) is None,
            },
    {
        proof {
            broadcast use lemma_jview_obj;
            broadcast use lemma_jview_arr;

        }
        match v {
            JsonValue::Obj(fields) => {
                let name = match field_opt_string(fields, "name") {
                    Ok(x) => x,
                    Err(_) => {
                        return None;
                    },
                };
                let prompt = match field_opt_string(fields, "prompt") {
                    Ok(x) => x,
                    Err(_) => {
                        return None;
                    },
                };
                let regex = match field_opt_string(fields, "regex") {
                    Ok(x) => x,
                    Err(_) => {
                        return None;
                    },
                };
                let required = match field_opt_bool(fields, "required") {
                    Ok(x) => x,
                    Err(_) => {
                        return None;
                    },
                };
                Some(Property { name, prompt, regex, required })
            },
            _ => None,
        }
    }
}

/// Decoding an encoded record gives back the same record.
#[verifier::rlimit(100)]
pub proof fn lemma_property_roundtrip(g: PropertyV)
    ensures
        spec_property_from(spec_property_json(g)) == Some(g),
{
    reveal_strlit("name");
    reveal_strlit("prompt");
    reveal_strlit("regex");
    reveal_strlit("required");
    reveal_with_fuel(spec_lookup, 6);
    assert("name"@.len() == 4);
    assert("prompt"@.len() == 6);
    assert("regex"@.len() == 5);
    assert("required"@.len() == 8);
    assert(spec_property_from(spec_property_json(g)) matches Some(h) && h =~= g);
}

/// A field absent from a decoded body stays unset or takes its default.
pub proof fn lemma_property_absent_fields()
    ensures
        spec_property_from(JVal::Obj(Seq::empty())) == Some(
            PropertyV {
                name: None,
                prompt: None,
                regex: None,
                required: None,
            },
        ),
{
    reveal_with_fuel(spec_lookup, 2);
}

/// The encoded form of a list of these records.
pub open spec fn spec_propertys_json(s: Seq<PropertyV>) -> Seq<JVal> {
    Seq::new(s.len(), |i: int| spec_property_json(s[i]))
}

pub open spec fn spec_opt_propertys_json(o: Option<Seq<PropertyV>>) -> JVal {
    match o {
        None => JVal::Null,
        Some(s) => JVal::Arr(spec_propertys_json(s)),
    }
}

/// The decoding of a list of these records: every element must decode.
pub open spec fn spec_propertys_from(es: Seq<JVal>) -> Option<Seq<PropertyV>> {
    if forall|i: int| 0 <= i < es.len() ==> (#[trigger] spec_property_from(es[i])) is Some {
        Some(Seq::new(es.len(), |i: int| spec_property_from(es[i]).unwrap()))
    } else {
        None
    }
}

pub open spec fn spec_field_opt_propertys(
    fields: Seq<(Seq<char>, JVal)>,
    key: Seq<char>,
) -> Result<Option<Seq<PropertyV>>, ()> {
    match spec_lookup(fields, key) {
        None => Ok(None),
        Some(j) => match j {
            JVal::Null => Ok(None),
            JVal::Arr(es) => match spec_propertys_from(es) {
                Some(s) => Ok(Some(s)),
                None => Err(()),
            },
            _ => Err(()),
        },
    }
}

pub fn property_list_to_json(v: &Vec<Property>) -> (r: JsonValue)
    ensures
        r@ == JVal::Arr(spec_propertys_json(vviews(v@))),
{
    let mut a: Vec<JsonValue> = Vec::new();
    let mut i: usize = 0;
    while i < v.len()
        invariant
            i <= v.len(),
            a@.len() == i as int,
            forall|j: int| 0 <= j < i ==> jview(#[trigger] a@[j]) == spec_property_json(v@[j]@),
        decreases v.len() - i,
    {
        a.push(v[i].to_json());
        i = i + 1;
    }
    let r = JsonValue::Arr(a);
    proof {
        broadcast use lemma_jview_arr;

        assert forall|j: int| 0 <= j < v@.len() implies spec_elems(r->Arr_0@)[j]
            == spec_property_json(vviews(v@)[j]) by {
            assert(spec_elems(r->Arr_0@)[j] == jview(r->Arr_0@[j]));
        }
        assert(spec_elems(r->Arr_0@) =~= spec_propertys_json(vviews(v@)));
    }
    r
}

#[verifier::loop_isolation(false)]
pub fn property_list_from_json(es: &Vec<JsonValue>) -> (r: Option<Vec<Property>>)
    ensures
        match r {
            Some(v) => spec_propertys_from(spec_elems(es@)) == Some(vviews(v@)),
            None => spec_propertys_from(spec_elems(es@)) is None,
        },
{
    let mut out: Vec<Property> = Vec::new();
    let mut i: usize = 0;
    while i < es.len()
        invariant
            i <= es.len(),
            out@.len() == i as int,
            forall|j: int|
                0 <= j < i ==> spec_property_from(#[trigger] spec_elems(es@)[j]) == Some(
                    out@[j]@,
                ),
        decreases es.len() - i,
    {
        proof {
            assert(spec_elems(es@)[i as int] == jview(es@[i as int]));
        }
        match Property::from_json(&es[i]) {
            Some(x) => out.push(x),
            None => {
                proof {
                    assert(spec_property_from(spec_elems(es@)[i as int]) is None);
                }
                return None;
            },
        }
        i = i + 1;
    }
    proof {
        assert(spec_propertys_from(spec_elems(es@)) == Some(vviews(out@))) by {
            assert(Seq::new(
                spec_elems(es@).len(),
                |j: int| spec_property_from(spec_elems(es@)[j]).unwrap(),
            ) =~= vviews(out@));
        }
    }
    Some(out)
}

pub open spec fn spec_opt_property_json(o: Option<PropertyV>) -> JVal {
    match o {
        None => JVal::Null,
        Some(x) => spec_property_json(x),
    }
}

pub open spec fn spec_field_opt_property(
    fields: Seq<(Seq<char>, JVal)>,
    key: Seq<char>,
) -> Result<Option<PropertyV>, ()> {
    match spec_lookup(fields, key) {
        None => Ok(None),
        Some(j) => match j {
            JVal::Null => Ok(None),
            _ => match spec_property_from(j) {
                Some(t) => Ok(Some(t)),
                None => Err(()),
            },
        },
    }
}

/// A named template of an account type: how to create an account of that
/// type, and the properties to supply.
#[derive(Debug, PartialEq, Eq)]
pub struct AccountTemplate {
    pub name: Option<String>,
    pub title: Option<String>,
    pub content_type: Option<String>,
    pub method: Option<String>,
    pub properties: Option<Vec<Property>>,
}

#[verifier::ext_equal]
pub struct AccountTemplateV {
    pub name: Option<Seq<char>>,
    pub title: Option<Seq<char>>,
    pub content_type: Option<Seq<char>>,
    pub method: Option<Seq<char>>,
    pub properties: Option<Seq<PropertyV>>,
}

impl View for AccountTemplate {
    type V = AccountTemplateV;

    open spec fn view(&self) -> AccountTemplateV {
        AccountTemplateV {
            name: ostr(self.name),
            title: ostr(self.title),
            content_type: ostr(self.content_type),
            method: ostr(self.method),
            properties: ovviews(self.properties),
        }
    }
}

pub open spec fn spec_account_template_json(v: AccountTemplateV) -> JVal {
    JVal::Obj(
        seq![
            ("name"@, spec_j_opt_str(v.name)),
            ("title"@, spec_j_opt_str(v.title)),
            ("contentType"@, spec_j_opt_str(v.content_type)),
            ("method"@, spec_j_opt_str(v.method)),
            ("properties"@, spec_opt_propertys_json(v.properties)),
        ],
    )
}

pub open spec fn spec_account_template_from(j: JVal) -> Option<AccountTemplateV> {
    match j {
        JVal::Obj(fields) => {
            let name = spec_field_opt_str(fields, "name"@);
            let title = spec_field_opt_str(fields, "title"@);
            let content_type = spec_field_opt_str(fields, "contentType"@);
            let method = spec_field_opt_str(fields, "method"@);
            let properties = spec_field_opt_propertys(fields, "properties"@);
            if name is Err || title is Err || content_type is Err || method is Err || properties is Err {
                None
            } else {
                Some(
                    AccountTemplateV {
                        name: name->Ok_0,
                        title: title->Ok_0,
                        content_type: content_type->Ok_0,
                        method: method->Ok_0,
                        properties: properties->Ok_0,
                    },
                )
            }
        },
        _ => None,
    }
}

impl AccountTemplate {
    /// The record as a JSON document, with its wire field names; an unset
    /// field is sent as `null`.
    #[verifier::rlimit(100)]
    pub fn to_json(&self) -> (r: JsonValue)
        ensures
            r@ == spec_account_template_json(self@),
    {
        let mut f: Vec<(String, JsonValue)> = Vec::new();
        put_field(&mut f, "name", j_opt_string(&self.name));
        put_field(&mut f, "title", j_opt_string(&self.title));
        put_field(&mut f, "contentType", j_opt_string(&self.content_type));
        put_field(&mut f, "method", j_opt_string(&self.method));
        let properties_json = match &self.properties {
            None => JsonValue::Null,
            Some(x) => property_list_to_json(x),
        };
        put_field(&mut f, "properties", properties_json);
        let r = JsonValue::Obj(f);
        proof {
            broadcast use lemma_jview_obj;

            assert(jview(r) == JVal::Obj(spec_fields(r->Obj_0@)));
            assert(spec_fields(r->Obj_0@) =~= spec_account_template_json(self@)->Obj_0);
        }
        r
    }

    /// The record a well-formed body decodes to; `None` when a present
    /// field has the wrong shape.
    pub fn from_json(v: &JsonValue) -> (r: Option<AccountTemplate>)
        ensures
            match r {
                Some(x) => spec_account_template_from(v@) == Some(x@),
                None => spec_account_template_from(v@) is None,
            },
    {
        proof {
            broadcast use lemma_jview_obj;
            broadcast use lemma_jview_arr;

        }
        match v {
            JsonValue::Obj(fields) => {
                let name = match field_opt_string(fields, "name") {
                    Ok(x) => x,
                    Err(_) => {
                        return None;
                    },
                };
                let title = match field_opt_string(fields, "title") {
                    Ok(x) => x,
                    Err(_) => {
                        return None;
                    },
                };
                let content_type = match field_opt_string(fields, "contentType") {
                    Ok(x) => x,
                    Err(_) => {
                        return None;
                    },
                };
                let method = match field_opt_string(fields, "method") {
                    Ok(x) => x,
                    Err(_) => {
                        return None;
                    },
                };
                let properties = match jlookup(fields, "properties") {
                    None => None,
                    Some(w) => match w {
                        JsonValue::Null => None,
                        JsonValue::Arr(es) => match property_list_from_json(es) {
                            Some(x) => Some(x),
                            None => {
                                return None;
                            },
                        },
                        _ => {
                            return None;
                        },
                    },
                };
                Some(AccountTemplate { name, title, content_type, method, properties })
            },
            _ => None,
        }
    }
}

/// Decoding an encoded record gives back the same record.
#[verifier::rlimit(100)]
pub proof fn lemma_account_template_roundtrip(g: AccountTemplateV)
    ensures
        spec_account_template_from(spec_account_template_json(g)) == Some(g),
{
    reveal_strlit("name");
    reveal_strlit("title");
    reveal_strlit("contentType");
    reveal_strlit("method");
    reveal_strlit("properties");
    reveal_with_fuel(spec_lookup, 7);
    assert("name"@.len() == 4);
    assert("title"@.len() == 5);
    assert("contentType"@.len() == 11);
    assert("method"@.len() == 6);
    assert("properties"@.len() == 10);
    if g.properties is Some {
        let s = g.properties.unwrap();
        assert forall|i: int| 0 <= i < s.len() implies spec_property_from(
            #[trigger] spec_propertys_json(s)[i],
        ) == Some(s[i]) by {
            lemma_property_roundtrip(s[i]);
        }
        assert(spec_propertys_from(spec_propertys_json(s)) == Some(s)) by {
            assert(Seq::new(
                spec_propertys_json(s).len(),
                |i: int| spec_property_from(spec_propertys_json(s)[i]).unwrap(),
            ) =~= s);
        }
    }
    assert(spec_account_template_from(spec_account_template_json(g)) matches Some(h) && h =~= g);
}

/// A field absent from a decoded body stays unset or takes its default.
pub proof fn lemma_account_template_absent_fields()
    ensures
        spec_account_template_from(JVal::Obj(Seq::empty())) == Some(
            AccountTemplateV {
                name: None,
                title: None,
                content_type: None,
                method: None,
                properties: None,
            },
        ),
{
    reveal_with_fuel(spec_lookup, 2);
}

/// The encoded form of a list of these records.
pub open spec fn spec_account_templates_json(s: Seq<AccountTemplateV>) -> Seq<JVal> {
    Seq::new(s.len(), |i: int| spec_account_template_json(s[i]))
}

pub open spec fn spec_opt_account_templates_json(o: Option<Seq<AccountTemplateV>>) -> JVal {
    match o {
        None => JVal::Null,
        Some(s) => JVal::Arr(spec_account_templates_json(s)),
    }
}

/// The decoding of a list of these records: every element must decode.
pub open spec fn spec_account_templates_from(es: Seq<JVal>) -> Option<Seq<AccountTemplateV>> {
    if forall|i: int| 0 <= i < es.len() ==> (#[trigger] spec_account_template_from(es[i])) is Some {
        Some(Seq::new(es.len(), |i: int| spec_account_template_from(es[i]).unwrap()))
    } else {
        None
    }
}

pub open spec fn spec_field_opt_account_templates(
    fields: Seq<(Seq<char>, JVal)>,
    key: Seq<char>,
) -> Result<Option<Seq<AccountTemplateV>>, ()> {
    match spec_lookup(fields, key) {
        None => Ok(None),
        Some(j) => match j {
            JVal::Null => Ok(None),
            JVal::Arr(es) => match spec_account_templates_from(es) {
                Some(s) => Ok(Some(s)),
                None => Err(()),
            },
            _ => Err(()),
        },
    }
}

pub fn account_template_list_to_json(v: &Vec<AccountTemplate>) -> (r: JsonValue)
    ensures
        r@ == JVal::Arr(spec_account_templates_json(vviews(v@))),
{
    let mut a: Vec<JsonValue> = Vec::new();
    let mut i: usize = 0;
    while i < v.len()
        invariant
            i <= v.len(),
            a@.len() == i as int,
            forall|j: int| 0 <= j < i ==> jview(#[trigger] a@[j]) == spec_account_template_json(v@[j]@),
        decreases v.len() - i,
    {
        a.push(v[i].to_json());
        i = i + 1;
    }
    let r = JsonValue::Arr(a);
    proof {
        broadcast use lemma_jview_arr;

        assert forall|j: int| 0 <= j < v@.len() implies spec_elems(r->Arr_0@)[j]
            == spec_account_template_json(vviews(v@)[j]) by {
            assert(spec_elems(r->Arr_0@)[j] == jview(r->Arr_0@[j]));
        }
        assert(spec_elems(r->Arr_0@) =~= spec_account_templates_json(vviews(v@)));
    }
    r
}

#[verifier::loop_isolation(false)]
pub fn account_template_list_from_json(es: &Vec<JsonValue>) -> (r: Option<Vec<AccountTemplate>>)
    ensures
        match r {
            Some(v) => spec_account_templates_from(spec_elems(es@)) == Some(vviews(v@)),
            None => spec_account_templates_from(spec_elems(es@)) is None,
        },
{
    let mut out: Vec<AccountTemplate> = Vec::new();
    let mut i: usize = 0;
    while i < es.len()
        invariant
            i <= es.len(),
            out@.len() == i as int,
            forall|j: int|
                0 <= j < i ==> spec_account_template_from(#[trigger] spec_elems(es@)[j]) == Some(
                    out@[j]@,
                ),
        decreases es.len() - i,
    {
        proof {
            assert(spec_elems(es@)[i as int] == jview(es@[i as int]));
        }
        match AccountTemplate::from_json(&es[i]) {
            Some(x) => out.push(x),
            None => {
                proof {
                    assert(spec_account_template_from(spec_elems(es@)[i as int]) is None);
                }
                return None;
            },
        }
        i = i + 1;
    }
    proof {
        assert(spec_account_templates_from(spec_elems(es@)) == Some(vviews(out@))) by {
            assert(Seq::new(
                spec_elems(es@).len(),
                |j: int| spec_account_template_from(spec_elems(es@)[j]).unwrap(),
            ) =~= vviews(out@));
        }
    }
    Some(out)
}

pub open spec fn spec_opt_account_template_json(o: Option<AccountTemplateV>) -> JVal {
    match o {
        None => JVal::Null,
        Some(x) => spec_account_template_json(x),
    }
}

pub open spec fn spec_field_opt_account_template(
    fields: Seq<(Seq<char>, JVal)>,
    key: Seq<char>,
) -> Result<Option<AccountTemplateV>, ()> {
    match spec_lookup(fields, key) {
        None => Ok(None),
        Some(j) => match j {
            JVal::Null => Ok(None),
            _ => match spec_account_template_from(j) {
                Some(t) => Ok(Some(t)),
                None => Err(()),
            },
        },
    }
}

/// The named templates of an account type, kept as an ordered entry list.
pub open spec fn spec_template_map_json(s: Seq<(Seq<char>, AccountTemplateV)>) -> JVal {
    JVal::Obj(Seq::new(s.len(), |i: int| (s[i].0, spec_account_template_json(s[i].1))))
}

/// The decoding of the template map: every value must decode.
pub open spec fn spec_template_map_from(fs: Seq<(Seq<char>, JVal)>) -> Option<
    Seq<(Seq<char>, AccountTemplateV)>,
> {
    if forall|i: int|
        0 <= i < fs.len() ==> (#[trigger] spec_account_template_from(fs[i].1)) is Some {
        Some(Seq::new(fs.len(), |i: int| (fs[i].0, spec_account_template_from(fs[i].1).unwrap())))
    } else {
        None
    }
}

/// The character-sequence view of a template entry list.
pub open spec fn template_map_view(v: Seq<(String, AccountTemplate)>) -> Seq<
    (Seq<char>, AccountTemplateV),
> {
    Seq::new(v.len(), |i: int| (v[i].0@, v[i].1@))
}

/// An account type: which properties an account of this type carries, and
/// the named templates that drive creating one.
#[derive(Debug, PartialEq, Eq)]
pub struct AccountType {
    pub id: Option<String>,
    pub name: Option<String>,
    pub properties: Option<Vec<(String, String)>>,
    pub templates: Option<Vec<(String, AccountTemplate)>>,
}

#[verifier::ext_equal]
pub struct AccountTypeV {
    pub id: Option<Seq<char>>,
    pub name: Option<Seq<char>>,
    pub properties: Option<Seq<(Seq<char>, Seq<char>)>>,
    pub templates: Option<Seq<(Seq<char>, AccountTemplateV)>>,
}

impl View for AccountType {
    type V = AccountTypeV;

    open spec fn view(&self) -> AccountTypeV {
        AccountTypeV {
            id: ostr(self.id),
            name: ostr(self.name),
            properties: opairs(self.properties),
            templates: match self.templates {
                None => None,
                Some(v) => Some(template_map_view(v@)),
            },
        }
    }
}

pub open spec fn spec_account_type_json(v: AccountTypeV) -> JVal {
    JVal::Obj(
        seq![
            ("id"@, spec_j_opt_str(v.id)),
            ("name"@, spec_j_opt_str(v.name)),
            ("properties"@, spec_j_opt_strmap(v.properties)),
            (
                "_templates"@,
                match v.templates {
                    None => JVal::Null,
                    Some(s) => spec_template_map_json(s),
                },
            ),
        ],
    )
}

pub open spec fn spec_account_type_from(j: JVal) -> Option<AccountTypeV> {
    match j {
        JVal::Obj(fields) => {
            let id = spec_field_opt_str(fields, "id"@);
            let name = spec_field_opt_str(fields, "name"@);
            let properties = spec_field_opt_strmap(fields, "properties"@);
            let templates = (match spec_lookup(fields, "_templates"@) {
                None => Ok::<Option<Seq<(Seq<char>, AccountTemplateV)>>, ()>(None),
                Some(w) => match w {
                    JVal::Null => Ok(None),
                    JVal::Obj(fs) => match spec_template_map_from(fs) {
                        Some(s) => Ok(Some(s)),
                        None => Err(()),
                    },
                    _ => Err(()),
                },
            });
            if id is Err || name is Err || properties is Err || templates is Err {
                None
            } else {
                Some(
                    AccountTypeV {
                        id: id->Ok_0,
                        name: name->Ok_0,
                        properties: properties->Ok_0,
                        templates: templates->Ok_0,
                    },
                )
            }
        },
        _ => None,
    }
}

/// Encodes the template map.
fn template_map_to_json(v: &Vec<(String, AccountTemplate)>) -> (r: JsonValue)
    ensures
        r@ == spec_template_map_json(template_map_view(v@)),
{
    let mut f: Vec<(String, JsonValue)> = Vec::new();
    let mut i: usize = 0;
    while i < v.len()
        invariant
            i <= v.len(),
            f@.len() == i as int,
            forall|j: int|
                0 <= j < i ==> (#[trigger] f@[j]).0@ == v@[j].0@ && jview(f@[j].1)
                    == spec_account_template_json(v@[j].1@),
        decreases v.len() - i,
    {
        f.push((v[i].0.clone(), v[i].1.to_json()));
        i = i + 1;
    }
    let r = JsonValue::Obj(f);
    proof {
        broadcast use lemma_jview_obj;

        assert forall|j: int| 0 <= j < v@.len() implies spec_fields(r->Obj_0@)[j] == (
            template_map_view(v@)[j].0,
            spec_account_template_json(template_map_view(v@)[j].1),
        ) by {
            assert(spec_fields(r->Obj_0@)[j] == (r->Obj_0@[j].0@, jview(r->Obj_0@[j].1)));
        }
        assert(spec_fields(r->Obj_0@) =~= spec_template_map_json(template_map_view(v@))->Obj_0);
    }
    r
}

/// Decodes the template map.
#[verifier::loop_isolation(false)]
fn template_map_from_json(fs: &Vec<(String, JsonValue)>) -> (r: Option<
    Vec<(String, AccountTemplate)>,
>)
    ensures
        match r {
            Some(v) => spec_template_map_from(spec_fields(fs@)) == Some(template_map_view(v@)),
            None => spec_template_map_from(spec_fields(fs@)) is None,
        },
{
    let mut out: Vec<(String, AccountTemplate)> = Vec::new();
    let mut i: usize = 0;
    while i < fs.len()
        invariant
            i <= fs.len(),
            out@.len() == i as int,
            forall|j: int|
                0 <= j < i ==> spec_account_template_from(
                    (#[trigger] spec_fields(fs@)[j]).1,
                ) == Some(out@[j].1@) && spec_fields(fs@)[j].0 == out@[j].0@,
        decreases fs.len() - i,
    {
        proof {
            assert(spec_fields(fs@)[i as int] == (fs@[i as int].0@, jview(fs@[i as int].1)));
        }
        match AccountTemplate::from_json(&fs[i].1) {
            Some(t) => out.push((fs[i].0.clone(), t)),
            None => {
                proof {
                    assert(spec_account_template_from(spec_fields(fs@)[i as int].1) is None);
                }
                return None;
            },
        }
        i = i + 1;
    }
    proof {
        assert(spec_template_map_from(spec_fields(fs@)) == Some(template_map_view(out@))) by {
            assert(Seq::new(
                spec_fields(fs@).len(),
                |i: int| (spec_fields(fs@)[i].0, spec_account_template_from(
                    spec_fields(fs@)[i].1,
                ).unwrap()),
            ) =~= template_map_view(out@));
        }
    }
    Some(out)
}

impl AccountType {
    /// The account type as a JSON document, with its wire field names.
    pub fn to_json(&self) -> (r: JsonValue)
        ensures
            r@ == spec_account_type_json(self@),
    {
        let mut f: Vec<(String, JsonValue)> = Vec::new();
        put_field(&mut f, "id", j_opt_string(&self.id));
        put_field(&mut f, "name", j_opt_string(&self.name));
        put_field(&mut f, "properties", j_opt_strmap(&self.properties));
        let templates_json = match &self.templates {
            None => JsonValue::Null,
            Some(v) => template_map_to_json(v),
        };
        put_field(&mut f, "_templates", templates_json);
        let r = JsonValue::Obj(f);
        proof {
            broadcast use lemma_jview_obj;

            assert(jview(r) == JVal::Obj(spec_fields(r->Obj_0@)));
            assert(spec_fields(r->Obj_0@) =~= spec_account_type_json(self@)->Obj_0);
        }
        r
    }

    /// The account type a well-formed body decodes to.
    pub fn from_json(v: &JsonValue) -> (r: Option<AccountType>)
        ensures
            match r {
                Some(x) => spec_account_type_from(v@) == Some(x@),
                None => spec_account_type_from(v@) is None,
            },
    {
        proof {
            broadcast use lemma_jview_obj;
            broadcast use lemma_jview_arr;

        }
        match v {
            JsonValue::Obj(fields) => {
                let id = match field_opt_string(fields, "id") {
                    Ok(x) => x,
                    Err(_) => {
                        return None;
                    },
                };
                let name = match field_opt_string(fields, "name") {
                    Ok(x) => x,
                    Err(_) => {
                        return None;
                    },
                };
                let properties = match field_opt_strmap(fields, "properties") {
                    Ok(x) => x,
                    Err(_) => {
                        return None;
                    },
                };
                let templates = match jlookup(fields, "_templates") {
                    None => None,
                    Some(w) => match w {
                        JsonValue::Null => None,
                        JsonValue::Obj(fs) => match template_map_from_json(fs) {
                            Some(x) => Some(x),
                            None => {
                                return None;
                            },
                        },
                        _ => {
                            return None;
                        },
                    },
                };
                Some(AccountType { id, name, properties, templates })
            },
            _ => None,
        }
    }
}

/// Decoding an encoded account type gives back the same account type.
#[verifier::rlimit(100)]
pub proof fn lemma_account_type_roundtrip(g: AccountTypeV)
    ensures
        spec_account_type_from(spec_account_type_json(g)) == Some(g),
{
    reveal_strlit("id");
    reveal_strlit("name");
    reveal_strlit("properties");
    reveal_strlit("_templates");
    reveal_with_fuel(spec_lookup, 6);
    assert("id"@.len() == 2);
    assert("name"@.len() == 4);
    assert("properties"@.len() == 10);
    assert("_templates"@.len() == 10);
    assert("properties"@[0] == 'p');
    assert("_templates"@[0] == '_');
    assert("properties"@ != "_templates"@);
    if g.templates is Some {
        let s = g.templates.unwrap();
        assert forall|i: int| 0 <= i < s.len() implies spec_account_template_from(
            #[trigger] spec_template_map_json(s)->Obj_0[i].1,
        ) == Some(s[i].1) by {
            lemma_account_template_roundtrip(s[i].1);
        }
        assert(spec_template_map_from(spec_template_map_json(s)->Obj_0) == Some(s)) by {
            assert(Seq::new(
                spec_template_map_json(s)->Obj_0.len(),
                |i: int| (spec_template_map_json(s)->Obj_0[i].0, spec_account_template_from(
                    spec_template_map_json(s)->Obj_0[i].1,
                ).unwrap()),
            ) =~= s);
        }
    }
    assert(spec_account_type_from(spec_account_type_json(g)) matches Some(h) && h =~= g);
}


/// The encoded form of a list of these records.
pub open spec fn spec_account_types_json(s: Seq<AccountTypeV>) -> Seq<JVal> {
    Seq::new(s.len(), |i: int| spec_account_type_json(s[i]))
}

pub open spec fn spec_opt_account_types_json(o: Option<Seq<AccountTypeV>>) -> JVal {
    match o {
        None => JVal::Null,
        Some(s) => JVal::Arr(spec_account_types_json(s)),
    }
}

/// The decoding of a list of these records: every element must decode.
pub open spec fn spec_account_types_from(es: Seq<JVal>) -> Option<Seq<AccountTypeV>> {
    if forall|i: int| 0 <= i < es.len() ==> (#[trigger] spec_account_type_from(es[i])) is Some {
        Some(Seq::new(es.len(), |i: int| spec_account_type_from(es[i]).unwrap()))
    } else {
        None
    }
}

pub open spec fn spec_field_opt_account_types(
    fields: Seq<(Seq<char>, JVal)>,
    key: Seq<char>,
) -> Result<Option<Seq<AccountTypeV>>, ()> {
    match spec_lookup(fields, key) {
        None => Ok(None),
        Some(j) => match j {
            JVal::Null => Ok(None),
            JVal::Arr(es) => match spec_account_types_from(es) {
                Some(s) => Ok(Some(s)),
                None => Err(()),
            },
            _ => Err(()),
        },
    }
}

pub fn account_type_list_to_json(v: &Vec<AccountType>) -> (r: JsonValue)
    ensures
        r@ == JVal::Arr(spec_account_types_json(vviews(v@))),
{
    let mut a: Vec<JsonValue> = Vec::new();
    let mut i: usize = 0;
    while i < v.len()
        invariant
            i <= v.len(),
            a@.len() == i as int,
            forall|j: int| 0 <= j < i ==> jview(#[trigger] a@[j]) == spec_account_type_json(v@[j]@),
        decreases v.len() - i,
    {
        a.push(v[i].to_json());
        i = i + 1;
    }
    let r = JsonValue::Arr(a);
    proof {
        broadcast use lemma_jview_arr;

        assert forall|j: int| 0 <= j < v@.len() implies spec_elems(r->Arr_0@)[j]
            == spec_account_type_json(vviews(v@)[j]) by {
            assert(spec_elems(r->Arr_0@)[j] == jview(r->Arr_0@[j]));
        }
        assert(spec_elems(r->Arr_0@) =~= spec_account_types_json(vviews(v@)));
    }
    r
}

#[verifier::loop_isolation(false)]
pub fn account_type_list_from_json(es: &Vec<JsonValue>) -> (r: Option<Vec<AccountType>>)
    ensures
        match r {
            Some(v) => spec_account_types_from(spec_elems(es@)) == Some(vviews(v@)),
            None => spec_account_types_from(spec_elems(es@)) is None,
        },
{
    let mut out: Vec<AccountType> = Vec::new();
    let mut i: usize = 0;
    while i < es.len()
        invariant
            i <= es.len(),
            out@.len() == i as int,
            forall|j: int|
                0 <= j < i ==> spec_account_type_from(#[trigger] spec_elems(es@)[j]) == Some(
                    out@[j]@,
                ),
        decreases es.len() - i,
    {
        proof {
            assert(spec_elems(es@)[i as int] == jview(es@[i as int]));
        }
        match AccountType::from_json(&es[i]) {
            Some(x) => out.push(x),
            None => {
                proof {
                    assert(spec_account_type_from(spec_elems(es@)[i as int]) is None);
                }
                return None;
            },
        }
        i = i + 1;
    }
    proof {
        assert(spec_account_types_from(spec_elems(es@)) == Some(vviews(out@))) by {
            assert(Seq::new(
                spec_elems(es@).len(),
                |j: int| spec_account_type_from(spec_elems(es@)[j]).unwrap(),
            ) =~= vviews(out@));
        }
    }
    Some(out)
}

pub open spec fn spec_opt_account_type_json(o: Option<AccountTypeV>) -> JVal {
    match o {
        None => JVal::Null,
        Some(x) => spec_account_type_json(x),
    }
}

pub open spec fn spec_field_opt_account_type(
    fields: Seq<(Seq<char>, JVal)>,
    key: Seq<char>,
) -> Result<Option<AccountTypeV>, ()> {
    match spec_lookup(fields, key) {
        None => Ok(None),
        Some(j) => match j {
            JVal::Null => Ok(None),
            _ => match spec_account_type_from(j) {
                Some(t) => Ok(Some(t)),
                None => Err(()),
            },
        },
    }
}

/// An account: a credential bound to an account type. The type's property
/// data is absent unless it was separately fetched and attached.
#[derive(Debug, PartialEq, Eq)]
pub struct Account {
    pub id: Option<String>,
    pub name: Option<String>,
    pub valid: Option<bool>,
    pub account_type: Option<AccountType>,
}

#[verifier::ext_equal]
pub struct AccountV {
    pub id: Option<Seq<char>>,
    pub name: Option<Seq<char>>,
    pub valid: Option<bool>,
    pub account_type: Option<AccountTypeV>,
}

impl View for Account {
    type V = AccountV;

    open spec fn view(&self) -> AccountV {
        AccountV {
            id: ostr(self.id),
            name: ostr(self.name),
            valid: self.valid,
            account_type: oview(self.account_type),
        }
    }
}

pub open spec fn spec_account_json(v: AccountV) -> JVal {
    JVal::Obj(
        seq![
            ("id"@, spec_j_opt_str(v.id)),
            ("name"@, spec_j_opt_str(v.name)),
            ("valid"@, spec_j_opt_bool(v.valid)),
            ("type"@, spec_opt_account_type_json(v.account_type)),
        ],
    )
}

pub open spec fn spec_account_from(j: JVal) -> Option<AccountV> {
    match j {
        JVal::Obj(fields) => {
            let id = spec_field_opt_str(fields, "id"@);
            let name = spec_field_opt_str(fields, "name"@);
            let valid = spec_field_opt_bool(fields, "valid"@);
            let account_type = spec_field_opt_account_type(fields, "type"@);
            if id is Err || name is Err || valid is Err || account_type is Err {
                None
            } else {
                Some(
                    AccountV {
                        id: id->Ok_0,
                        name: name->Ok_0,
                        valid: valid->Ok_0,
                        account_type: account_type->Ok_0,
                    },
                )
            }
        },
        _ => None,
    }
}

impl Account {
    /// The record as a JSON document, with its wire field names; an unset
    /// field is sent as `null`.
    #[verifier::rlimit(100)]
    pub fn to_json(&self) -> (r: JsonValue)
        ensures
            r@ == spec_account_json(self@),
    {
        let mut f: Vec<(String, JsonValue)> = Vec::new();
        put_field(&mut f, "id", j_opt_string(&self.id));
        put_field(&mut f, "name", j_opt_string(&self.name));
        put_field(&mut f, "valid", j_opt_bool(&self.valid));
        let account_type_json = match &self.account_type {
            None => JsonValue::Null,
            Some(x) => x.to_json(),
        };
        put_field(&mut f, "type", account_type_json);
        let r = JsonValue::Obj(f);
        proof {
            broadcast use lemma_jview_obj;

            assert(jview(r) == JVal::Obj(spec_fields(r->Obj_0@)));
            assert(spec_fields(r->Obj_0@) =~= spec_account_json(self@)->Obj_0);
        }
        r
    }

    /// The record a well-formed body decodes to; `None` when a present
    /// field has the wrong shape.
    pub fn from_json(v: &JsonValue) -> (r: Option<Account>)
        ensures
            match r {
                Some(x) => spec_account_from(v@) == Some(x@),
                None => spec_account_from(v@) is None,
            },
    {
        proof {
            broadcast use lemma_jview_obj;
            broadcast use lemma_jview_arr;

        }
        match v {
            JsonValue::Obj(fields) => {
                let id = match field_opt_string(fields, "id") {
                    Ok(x) => x,
                    Err(_) => {
                        return None;
                    },
                };
                let name = match field_opt_string(fields, "name") {
                    Ok(x) => x,
                    Err(_) => {
                        return None;
                    },
                };
                let valid = match field_opt_bool(fields, "valid") {
                    Ok(x) => x,
                    Err(_) => {
                        return None;
                    },
                };
                let account_type = match jlookup(fields, "type") {
                    None => None,
                    Some(w) => match w {
                        JsonValue::Null => None,
                        _ => match AccountType::from_json(w) {
                            Some(x) => Some(x),
                            None => {
                                return None;
                            },
                        },
                    },
                };
                Some(Account { id, name, valid, account_type })
            },
            _ => None,
        }
    }
}

/// Decoding an encoded record gives back the same record.
#[verifier::rlimit(100)]
pub proof fn lemma_account_roundtrip(g: AccountV)
    ensures
        spec_account_from(spec_account_json(g)) == Some(g),
{
    reveal_strlit("id");
    reveal_strlit("name");
    reveal_strlit("valid");
    reveal_strlit("type");
    reveal_with_fuel(spec_lookup, 6);
    assert("id"@.len() == 2);
    assert("name"@.len() == 4);
    assert("valid"@.len() == 5);
    assert("type"@.len() == 4);
    assert("name"@[0] == 'n');
    assert("type"@[0] == 't');
    assert("name"@ != "type"@);
    if g.account_type is Some {
        lemma_account_type_roundtrip(g.account_type.unwrap());
    }
    assert(spec_account_from(spec_account_json(g)) matches Some(h) && h =~= g);
}

/// A field absent from a decoded body stays unset or takes its default.
pub proof fn lemma_account_absent_fields()
    ensures
        spec_account_from(JVal::Obj(Seq::empty())) == Some(
            AccountV {
                id: None,
                name: None,
                valid: None,
                account_type: None,
            },
        ),
{
    reveal_with_fuel(spec_lookup, 2);
}

/// The encoded form of a list of these records.
pub open spec fn spec_accounts_json(s: Seq<AccountV>) -> Seq<JVal> {
    Seq::new(s.len(), |i: int| spec_account_json(s[i]))
}

pub open spec fn spec_opt_accounts_json(o: Option<Seq<AccountV>>) -> JVal {
    match o {
        None => JVal::Null,
        Some(s) => JVal::Arr(spec_accounts_json(s)),
    }
}

/// The decoding of a list of these records: every element must decode.
pub open spec fn spec_accounts_from(es: Seq<JVal>) -> Option<Seq<AccountV>> {
    if forall|i: int| 0 <= i < es.len() ==> (#[trigger] spec_account_from(es[i])) is Some {
        Some(Seq::new(es.len(), |i: int| spec_account_from(es[i]).unwrap()))
    } else {
        None
    }
}

pub open spec fn spec_field_opt_accounts(
    fields: Seq<(Seq<char>, JVal)>,
    key: Seq<char>,
) -> Result<Option<Seq<AccountV>>, ()> {
    match spec_lookup(fields, key) {
        None => Ok(None),
        Some(j) => match j {
            JVal::Null => Ok(None),
            JVal::Arr(es) => match spec_accounts_from(es) {
                Some(s) => Ok(Some(s)),
                None => Err(()),
            },
            _ => Err(()),
        },
    }
}

pub fn account_list_to_json(v: &Vec<Account>) -> (r: JsonValue)
    ensures
        r@ == JVal::Arr(spec_accounts_json(vviews(v@))),
{
    let mut a: Vec<JsonValue> = Vec::new();
    let mut i: usize = 0;
    while i < v.len()
        invariant
            i <= v.len(),
            a@.len() == i as int,
            forall|j: int| 0 <= j < i ==> jview(#[trigger] a@[j]) == spec_account_json(v@[j]@),
        decreases v.len() - i,
    {
        a.push(v[i].to_json());
        i = i + 1;
    }
    let r = JsonValue::Arr(a);
    proof {
        broadcast use lemma_jview_arr;

        assert forall|j: int| 0 <= j < v@.len() implies spec_elems(r->Arr_0@)[j]
            == spec_account_json(vviews(v@)[j]) by {
            assert(spec_elems(r->Arr_0@)[j] == jview(r->Arr_0@[j]));
        }
        assert(spec_elems(r->Arr_0@) =~= spec_accounts_json(vviews(v@)));
    }
    r
}

#[verifier::loop_isolation(false)]
pub fn account_list_from_json(es: &Vec<JsonValue>) -> (r: Option<Vec<Account>>)
    ensures
        match r {
            Some(v) => spec_accounts_from(spec_elems(es@)) == Some(vviews(v@)),
            None => spec_accounts_from(spec_elems(es@)) is None,
        },
{
    let mut out: Vec<Account> = Vec::new();
    let mut i: usize = 0;
    while i < es.len()
        invariant
            i <= es.len(),
            out@.len() == i as int,
            forall|j: int|
                0 <= j < i ==> spec_account_from(#[trigger] spec_elems(es@)[j]) == Some(
                    out@[j]@,
                ),
        decreases es.len() - i,
    {
        proof {
            assert(spec_elems(es@)[i as int] == jview(es@[i as int]));
        }
        match Account::from_json(&es[i]) {
            Some(x) => out.push(x),
            None => {
                proof {
                    assert(spec_account_from(spec_elems(es@)[i as int]) is None);
                }
                return None;
            },
        }
        i = i + 1;
    }
    proof {
        assert(spec_accounts_from(spec_elems(es@)) == Some(vviews(out@))) by {
            assert(Seq::new(
                spec_elems(es@).len(),
                |j: int| spec_account_from(spec_elems(es@)[j]).unwrap(),
            ) =~= vviews(out@));
        }
    }
    Some(out)
}

pub open spec fn spec_opt_account_json(o: Option<AccountV>) -> JVal {
    match o {
        None => JVal::Null,
        Some(x) => spec_account_json(x),
    }
}

pub open spec fn spec_field_opt_account(
    fields: Seq<(Seq<char>, JVal)>,
    key: Seq<char>,
) -> Result<Option<AccountV>, ()> {
    match spec_lookup(fields, key) {
        None => Ok(None),
        Some(j) => match j {
            JVal::Null => Ok(None),
            _ => match spec_account_from(j) {
                Some(t) => Ok(Some(t)),
                None => Err(()),
            },
        },
    }
}

impl Account {
    /// An account with every field unset.
    pub fn new() -> (r: Self)
        ensures
            r@ == (AccountV { id: None, name: None, valid: None, account_type: None }),
    {
        Account { id: None, name: None, valid: None, account_type: None }
    }

    /// A placeholder account for seeding an interactive edit buffer.
    pub fn template() -> (r: Self)
        ensures
            r@.id == Some("0"@),
            r@.name == Some("Account Name"@),
            r@.valid == Some(true),
            r@.account_type is None,
    {
        Account {
            id: Some("0".to_owned()),
            name: Some("Account Name".to_owned()),
            valid: Some(true),
            account_type: None,
        }
    }
}

/// The first template under the given name, if any.
pub open spec fn spec_template_lookup(
    ts: Seq<(Seq<char>, AccountTemplateV)>,
    key: Seq<char>,
) -> Option<AccountTemplateV>
    decreases ts.len(),
{
    if ts.len() == 0 {
        None
    } else if ts[0].0 == key {
        Some(ts[0].1)
    } else {
        spec_template_lookup(ts.drop_first(), key)
    }
}

/// The placeholder entries seeded from a template's property list: one
/// entry per property that carries both a name and a prompt, mapping the
/// name to the prompt behind a `TODO:` marker.
pub open spec fn spec_seeded_properties(ps: Seq<PropertyV>) -> Seq<(Seq<char>, Seq<char>)>
    decreases ps.len(),
{
    if ps.len() == 0 {
        Seq::empty()
    } else {
        (if ps[0].name is Some && ps[0].prompt is Some {
            seq![(ps[0].name.unwrap(), "TODO: "@ + ps[0].prompt.unwrap())]
        } else {
            Seq::empty()
        }) + spec_seeded_properties(ps.drop_first())
    }
}

impl AccountType {
    /// Seeds the property map from the `default` template, so that the
    /// object handed to an interactive edit step shows one placeholder
    /// prompt per property to fill in. Without a `default` template, or
    /// without a property list on it, the account type is unchanged.
    pub fn seed_default_properties(self) -> (r: AccountType)
        ensures
            r@.id == self@.id,
            r@.name == self@.name,
            r@.templates == self@.templates,
            match self@.templates {
                Some(ts) => match spec_template_lookup(ts, "default"@) {
                    Some(t) => match t.properties {
                        Some(ps) => r@.properties == Some(spec_seeded_properties(ps)),
                        None => r@.properties == self@.properties,
                    },
                    None => r@.properties == self@.properties,
                },
                None => r@.properties == self@.properties,
            },
    {
        let templates = match self.templates {
            None => {
                return AccountType {
                    id: self.id,
                    name: self.name,
                    properties: self.properties,
                    templates: None,
                };
            },
            Some(ts) => ts,
        };
        let mut i: usize = 0;
        let ghost tsv = template_map_view(templates@);
        proof {
            assert(tsv.subrange(0, tsv.len() as int) =~= tsv);
        }
        let mut found: Option<&AccountTemplate> = None;
        while i < templates.len()
            invariant
                i <= templates@.len(),
                tsv == template_map_view(templates@),
                match found {
                    Some(t) => spec_template_lookup(tsv, "default"@) == Some(t@),
                    None => spec_template_lookup(tsv, "default"@) == spec_template_lookup(
                        tsv.subrange(i as int, tsv.len() as int),
                        "default"@,
                    ),
                },
            decreases templates@.len() - i,
        {
            if found.is_none() {
                proof {
                    assert(tsv.subrange(i as int, tsv.len() as int)[0] == tsv[i as int]);
                    assert(tsv.subrange(i as int, tsv.len() as int).drop_first()
                        =~= tsv.subrange(i as int + 1, tsv.len() as int));
                }
                let keystring = "default".to_owned();
                if templates[i].0.eq(&keystring) {
                    found = Some(&templates[i].1);
                }
            }
            i = i + 1;
        }
        proof {
            if found is None {
                assert(tsv.subrange(tsv.len() as int, tsv.len() as int).len() == 0);
            }
        }
        let t = match found {
            None => {
                return AccountType {
                    id: self.id,
                    name: self.name,
                    properties: self.properties,
                    templates: Some(templates),
                };
            },
            Some(t) => t,
        };
        let ps = match &t.properties {
            None => {
                return AccountType {
                    id: self.id,
                    name: self.name,
                    properties: self.properties,
                    templates: Some(templates),
                };
            },
            Some(ps) => ps,
        };
        let mut seeded: Vec<(String, String)> = Vec::new();
        let mut j: usize = 0;
        while j < ps.len()
            invariant
                j <= ps@.len(),
                views_of_pairs(seeded@) =~= spec_seeded_properties(
                    vviews(ps@).subrange(0, j as int),
                ),
            decreases ps@.len() - j,
        {
            proof {
                lemma_seeded_properties_snoc(vviews(ps@).subrange(0, j as int), ps@[j as int]@);
                assert(vviews(ps@).subrange(0, j as int).push(ps@[j as int]@) =~= vviews(
                    ps@,
                ).subrange(0, j as int + 1));
            }
            match (&ps[j].name, &ps[j].prompt) {
                (Some(n), Some(p)) => {
                    seeded.push((n.clone(), str_concat("TODO: ", p.as_str())));
                },
                _ => {},
            }
            j = j + 1;
            proof {
                assert(views_of_pairs(seeded@) =~= spec_seeded_properties(
                    vviews(ps@).subrange(0, j as int),
                ));
            }
        }
        proof {
            assert(vviews(ps@).subrange(0, ps@.len() as int) =~= vviews(ps@));
        }
        AccountType {
            id: self.id,
            name: self.name,
            properties: Some(seeded),
            templates: Some(templates),
        }
    }
}

/// Seeding one more property appends at most one entry: the law the seeding
/// loop rests on.
proof fn lemma_seeded_properties_snoc(ps: Seq<PropertyV>, p: PropertyV)
    ensures
        spec_seeded_properties(ps.push(p)) =~= spec_seeded_properties(ps) + (
        if p.name is Some && p.prompt is Some {
            seq![(p.name.unwrap(), "TODO: "@ + p.prompt.unwrap())]
        } else {
            Seq::empty()
        }),
    decreases ps.len(),
{
    if ps.len() == 0 {
        assert(ps.push(p).drop_first() =~= Seq::<PropertyV>::empty());
        assert(spec_seeded_properties(Seq::<PropertyV>::empty()) =~= Seq::<
            (Seq<char>, Seq<char>),
        >::empty());
        assert(spec_seeded_properties(ps.push(p).drop_first()) =~= Seq::<
            (Seq<char>, Seq<char>),
        >::empty());
    } else {
        assert(ps.push(p).drop_first() =~= ps.drop_first().push(p));
        lemma_seeded_properties_snoc(ps.drop_first(), p);
    }
}


impl Client {
    /// The request for the accounts the credential may see, with optional
    /// paging parameters.
    pub fn get_accounts(&self, limit: Option<u32>, offset: Option<u32>) -> (r: ApiRequest)
        ensures
            r@.method == Method::Get,
            r@.url == self@.host + "/v1/accounts"@,
            r@.scope == "account"@,
            r@.body is None,
            r@.query == crate::public::spec_paging_query(limit, offset),
    {
        let mut r = ApiRequest::new(
            Method::Get,
            str_concat(self.host.as_str(), "/v1/accounts"),
            "account",
        );
        r.query = crate::public::paging_query(limit, offset);
        r
    }

    /// The request that creates an account from the given record, whose
    /// type must carry the properties its account type asks for.
    pub fn post_account(&self, account: Account) -> (r: ApiRequest)
        ensures
            r@.method == Method::Post,
            r@.url == self@.host + "/v1/accounts"@,
            r@.scope == "account"@,
            r@.query == Seq::<(Seq<char>, Seq<char>)>::empty(),
            r@.body == Some(ReqBodyV::Json(spec_account_json(account@))),
    {
        let mut r = ApiRequest::new(
            Method::Post,
            str_concat(self.host.as_str(), "/v1/accounts"),
            "account",
        );
        r.body = Some(ReqBody::Json(account.to_json()));
        r
    }

    /// The request for one account by id.
    pub fn get_account(&self, id: &str) -> (r: ApiRequest)
        ensures
            r@.method == Method::Get,
            r@.url == self@.host + "/v1/accounts/"@ + id@,
            r@.scope == "account"@,
            r@.query == Seq::<(Seq<char>, Seq<char>)>::empty(),
            r@.body is None,
    {
        let mut url = str_concat(self.host.as_str(), "/v1/accounts/");
        url.append(id);
        ApiRequest::new(Method::Get, url, "account")
    }

    /// The request that updates an account's metadata and type properties.
    pub fn patch_account(&self, id: &str, account: Account) -> (r: ApiRequest)
        ensures
            r@.method == Method::Patch,
            r@.url == self@.host + "/v1/accounts/"@ + id@,
            r@.scope == "account"@,
            r@.query == Seq::<(Seq<char>, Seq<char>)>::empty(),
            r@.body == Some(ReqBodyV::Json(spec_account_json(account@))),
    {
        let mut url = str_concat(self.host.as_str(), "/v1/accounts/");
        url.append(id);
        let mut r = ApiRequest::new(Method::Patch, url, "account");
        r.body = Some(ReqBody::Json(account.to_json()));
        r
    }

    /// The request that deletes an account by id.
    pub fn delete_account(&self, id: &str) -> (r: ApiRequest)
        ensures
            r@.method == Method::Delete,
            r@.url == self@.host + "/v1/accounts/"@ + id@,
            r@.scope == "account"@,
            r@.query == Seq::<(Seq<char>, Seq<char>)>::empty(),
            r@.body is None,
    {
        let mut url = str_concat(self.host.as_str(), "/v1/accounts/");
        url.append(id);
        ApiRequest::new(Method::Delete, url, "account")
    }

    /// The request that shares an account with one user; the body wraps the
    /// user id under a `user` object, the only part of the user that the
    /// share endpoint reads.
    pub fn post_account_share(&self, account_id: &str, user_id: u64) -> (r: ApiRequest)
        ensures
            r@.method == Method::Post,
            r@.url == self@.host + "/v1/accounts/"@ + account_id@ + "/shares"@,
            r@.scope == "account"@,
            r@.query == Seq::<(Seq<char>, Seq<char>)>::empty(),
            r@.body == Some(ReqBodyV::Json(JVal::Obj(seq![
                ("user"@, JVal::Obj(seq![("id"@, JVal::Num(user_id as int))])),
            ]))),
    {
        let mut url = str_concat(self.host.as_str(), "/v1/accounts/");
        url.append(account_id);
        url.append("/shares");
        let mut r = ApiRequest::new(Method::Post, url, "account");
        let mut inner: Vec<(String, JsonValue)> = Vec::new();
        put_field(&mut inner, "id", JsonValue::UInt(user_id));
        let user_obj = JsonValue::Obj(inner);
        let mut outer: Vec<(String, JsonValue)> = Vec::new();
        proof {
            broadcast use lemma_jview_obj;

            assert(spec_fields(user_obj->Obj_0@) =~= seq![("id"@, JVal::Num(user_id as int))]);
        }
        put_field(&mut outer, "user", user_obj);
        let body = JsonValue::Obj(outer);
        proof {
            broadcast use lemma_jview_obj;

            assert(spec_fields(body->Obj_0@) =~= seq![
                ("user"@, JVal::Obj(seq![("id"@, JVal::Num(user_id as int))])),
            ]);
        }
        r.body = Some(ReqBody::Json(body));
        r
    }

    /// The request for the account types the credential may see, with
    /// optional paging parameters.
    pub fn get_account_types(&self, limit: Option<u32>, offset: Option<u32>) -> (r: ApiRequest)
        ensures
            r@.method == Method::Get,
            r@.url == self@.host + "/v1/account-types"@,
            r@.scope == "account"@,
            r@.body is None,
            r@.query == crate::public::spec_paging_query(limit, offset),
    {
        let mut r = ApiRequest::new(
            Method::Get,
            str_concat(self.host.as_str(), "/v1/account-types"),
            "account",
        );
        r.query = crate::public::paging_query(limit, offset);
        r
    }

    /// The request for one account type by id, including the properties a
    /// new account of that type needs.
    pub fn get_account_type(&self, id: &str) -> (r: ApiRequest)
        ensures
            r@.method == Method::Get,
            r@.url == self@.host + "/v1/account-types/"@ + id@,
            r@.scope == "account"@,
            r@.query == Seq::<(Seq<char>, Seq<char>)>::empty(),
            r@.body is None,
    {
        let mut url = str_concat(self.host.as_str(), "/v1/account-types/");
        url.append(id);
        ApiRequest::new(Method::Get, url, "account")
    }
}


/// Maps a response holding one record of this resource.
pub fn account_response(status: u16, body: &str) -> (r: Result<Account, DomoError>)
    ensures
        match r {
            Ok(x) => spec_check_response(status, body@) matches Ok(j) && spec_account_from(j)
                == Some(x@),
            Err(e) => match spec_check_response(status, body@) {
                Ok(j) => spec_account_from(j) is None && e@ == (DomoErrorV::Malformed {
                    status,
                }),
                Err(e2) => e@ == e2,
            },
        },
{
    match check_response(status, body) {
        Err(e) => Err(e),
        Ok(v) => match Account::from_json(&v) {
            Some(x) => Ok(x),
            None => Err(DomoError::Malformed { status }),
        },
    }
}

/// Maps a response holding a list of records of this resource.
pub fn accounts_response(status: u16, body: &str) -> (r: Result<Vec<Account>, DomoError>)
    ensures
        match r {
            Ok(xs) => spec_check_response(status, body@) matches Ok(j) && j matches JVal::Arr(
                es,
            ) && spec_accounts_from(es) == Some(vviews(xs@)),
            Err(e) => match spec_check_response(status, body@) {
                Ok(j) => e@ == (DomoErrorV::Malformed { status }) && !(j matches JVal::Arr(
                    es,
                ) && spec_accounts_from(es) is Some),
                Err(e2) => e@ == e2,
            },
        },
{
    let v = match check_response(status, body) {
        Ok(v) => v,
        Err(e) => {
            return Err(e);
        },
    };
    proof {
        broadcast use lemma_jview_arr;

    }
    match &v {
        JsonValue::Arr(es) => match account_list_from_json(es) {
            Some(xs) => Ok(xs),
            None => Err(DomoError::Malformed { status }),
        },
        _ => Err(DomoError::Malformed { status }),
    }
}

/// Maps a response holding one record of this resource.
pub fn account_type_response(status: u16, body: &str) -> (r: Result<AccountType, DomoError>)
    ensures
        match r {
            Ok(x) => spec_check_response(status, body@) matches Ok(j) && spec_account_type_from(j)
                == Some(x@),
            Err(e) => match spec_check_response(status, body@) {
                Ok(j) => spec_account_type_from(j) is None && e@ == (DomoErrorV::Malformed {
                    status,
                }),
                Err(e2) => e@ == e2,
            },
        },
{
    match check_response(status, body) {
        Err(e) => Err(e),
        Ok(v) => match AccountType::from_json(&v) {
            Some(x) => Ok(x),
            None => Err(DomoError::Malformed { status }),
        },
    }
}

/// Maps a response holding a list of records of this resource.
pub fn account_types_response(status: u16, body: &str) -> (r: Result<Vec<AccountType>, DomoError>)
    ensures
        match r {
            Ok(xs) => spec_check_response(status, body@) matches Ok(j) && j matches JVal::Arr(
                es,
            ) && spec_account_types_from(es) == Some(vviews(xs@)),
            Err(e) => match spec_check_response(status, body@) {
                Ok(j) => e@ == (DomoErrorV::Malformed { status }) && !(j matches JVal::Arr(
                    es,
                ) && spec_account_types_from(es) is Some),
                Err(e2) => e@ == e2,
            },
        },
{
    let v = match check_response(status, body) {
        Ok(v) => v,
        Err(e) => {
            return Err(e);
        },
    };
    proof {
        broadcast use lemma_jview_arr;

    }
    match &v {
        JsonValue::Arr(es) => match account_type_list_from_json(es) {
            Some(xs) => Ok(xs),
            None => Err(DomoError::Malformed { status }),
        },
        _ => Err(DomoError::Malformed { status }),
    }
}

} // verus!
