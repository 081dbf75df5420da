//! Pages: the page tree with its collections and visibility, the collection
//! endpoints with their local precondition, and the page endpoints.

use crate::json::{
    JVal, JsonValue, field_opt_bool, field_opt_num_arr, field_opt_string, field_opt_u64,
    j_opt_bool, j_opt_num_arr, j_opt_string, j_opt_u64, jlookup, jview, lemma_jview_arr,
    lemma_jview_obj, lemma_lookup_member, onums, ostr, oview, put_field, spec_elems,
    spec_field_opt_bool, spec_field_opt_num_arr, spec_field_opt_str, spec_field_opt_u64,
    spec_fields, spec_j_opt_bool, spec_j_opt_num, spec_j_opt_num_arr, spec_j_opt_str,
    spec_lookup, vviews,
};
use crate::public::{
    ApiRequest, Client, DomoError, DomoErrorV, Method, ReqBody, ReqBodyV, check_response,
    spec_check_response,
};
use crate::strutil::{str_concat, u64_string};
use vstd::prelude::*;
use vstd::string::StringExecFns;

verus! {


/// Who a page is shared with: users and groups by id.
#[derive(Debug, PartialEq, Eq)]
pub struct Visibility {
    pub user_ids: Option<Vec<u64>>,
    pub group_ids: Option<Vec<u64>>,
}

#[verifier::ext_equal]
pub struct VisibilityV {
    pub user_ids: Option<Seq<u64>>,
    pub group_ids: Option<Seq<u64>>,
}

impl View for Visibility {
    type V = VisibilityV;

    open spec fn view(&self) -> VisibilityV {
        VisibilityV {
            user_ids: onums(self.user_ids),
            group_ids: onums(self.group_ids),
        }
    }
}

pub open spec fn spec_visibility_json(v: VisibilityV) -> JVal {
    JVal::Obj(
        seq![
            ("userIds"@, spec_j_opt_num_arr(v.user_ids)),
            ("groupIds"@, spec_j_opt_num_arr(v.group_ids)),
        ],
    )
}

pub open spec fn spec_visibility_from(j: JVal) -> Option<VisibilityV> {
    match j {
        JVal::Obj(fields) => {
            let user_ids = spec_field_opt_num_arr(fields, "userIds"@);
            let group_ids = spec_field_opt_num_arr(fields, "groupIds"@);
            if user_ids is Err || group_ids is Err {
                None
            } else {
                Some(
                    VisibilityV {
                        user_ids: user_ids->Ok_0,
                        group_ids: group_ids->Ok_0,
                    },
                )
            }
        },
        _ => None,
    }
}

impl Visibility {
    /// The record as a JSON document, with its wire field names; an unset
    /// field is sent as `null`.
    #[verifier::rlimit(100)]
    pub fn to_json(&self) -> (r: JsonValue)
        ensures
            r@ == spec_visibility_json(self@),
    {
        let mut f: Vec<(String, JsonValue)> = Vec::new();
        put_field(&mut f, "userIds", j_opt_num_arr(&self.user_ids));
        put_field(&mut f, "groupIds", j_opt_num_arr(&self.group_ids));
        let r = JsonValue::Obj(f);
        proof {
            broadcast use lemma_jview_obj;

            assert(jview(r) == JVal::Obj(spec_fields(r->Obj_0@)));
            assert(spec_fields(r->Obj_0@) =~= spec_visibility_json(self@)->Obj_0);
        }
        r
    }

    /// The record a well-formed body decodes to; `None` when a present
    /// field has the wrong shape.
    pub fn from_json(v: &JsonValue) -> (r: Option<Visibility>)
        ensures
            match r {
                Some(x) => spec_visibility_from(v@) == Some(x@),
                None => spec_visibility_from(v@) is None,
            },
    {
        proof {
            broadcast use lemma_jview_obj;
            broadcast use lemma_jview_arr;

        }
        match v {
            JsonValue::Obj(fields) => {
                let user_ids = match field_opt_num_arr(fields, "userIds") {
                    Ok(x) => x,
                    Err(_) => {
                        return None;
                    },
                };
                let group_ids = match field_opt_num_arr(fields, "groupIds") {
                    Ok(x) => x,
                    Err(_) => {
                        return None;
                    },
                };
                Some(Visibility { user_ids, group_ids })
            },
            _ => None,
        }
    }
}

/// Decoding an encoded record gives back the same record.
#[verifier::rlimit(100)]
pub proof fn lemma_visibility_roundtrip(g: VisibilityV)
    ensures
        spec_visibility_from(spec_visibility_json(g)) == Some(g),
{
    reveal_strlit("userIds");
    reveal_strlit("groupIds");
    reveal_with_fuel(spec_lookup, 4);
    assert("userIds"@.len() == 7);
    assert("groupIds"@.len() == 8);
    assert(spec_visibility_from(spec_visibility_json(g)) matches Some(h) && h =~= g);
}

/// A field absent from a decoded body stays unset or takes its default.
pub proof fn lemma_visibility_absent_fields()
    ensures
        spec_visibility_from(JVal::Obj(Seq::empty())) == Some(
            VisibilityV {
                user_ids: None,
                group_ids: None,
            },
        ),
{
    reveal_with_fuel(spec_lookup, 2);
}

/// The encoded form of a list of these records.
pub open spec fn spec_visibilitys_json(s: Seq<VisibilityV>) -> Seq<JVal> {
    Seq::new(s.len(), |i: int| spec_visibility_json(s[i]))
}

pub open spec fn spec_opt_visibilitys_json(o: Option<Seq<VisibilityV>>) -> JVal {
    match o {
        None => JVal::Null,
        Some(s) => JVal::Arr(spec_visibilitys_json(s)),
    }
}

/// The decoding of a list of these records: every element must decode.
pub open spec fn spec_visibilitys_from(es: Seq<JVal>) -> Option<Seq<VisibilityV>> {
    if forall|i: int| 0 <= i < es.len() ==> (#[trigger] spec_visibility_from(es[i])) is Some {
        Some(Seq::new(es.len(), |i: int| spec_visibility_from(es[i]).unwrap()))
    } else {
        None
    }
}

pub open spec fn spec_field_opt_visibilitys(
    fields: Seq<(Seq<char>, JVal)>,
    key: Seq<char>,
) -> Result<Option<Seq<VisibilityV>>, ()> {
    match spec_lookup(fields, key) {
        None => Ok(None),
        Some(j) => match j {
            JVal::Null => Ok(None),
            JVal::Arr(es) => match spec_visibilitys_from(es) {
                Some(s) => Ok(Some(s)),
                None => Err(()),
            },
            _ => Err(()),
        },
    }
}

pub fn visibility_list_to_json(v: &Vec<Visibility>) -> (r: JsonValue)
    ensures
        r@ == JVal::Arr(spec_visibilitys_json(vviews(v@))),
{
    let mut a: Vec<JsonValue> = Vec::new();
    let mut i: usize = 0;
    while i < v.len()
        invariant
            i <= v.len(),
            a@.len() == i as int,
            forall|j: int| 0 <= j < i ==> jview(#[trigger] a@[j]) == spec_visibility_json(v@[j]@),
        decreases v.len() - i,
    {
        a.push(v[i].to_json());
        i = i + 1;
    }
    let r = JsonValue::Arr(a);
    proof {
        broadcast use lemma_jview_arr;

        assert forall|j: int| 0 <= j < v@.len() implies spec_elems(r->Arr_0@)[j]
            == spec_visibility_json(vviews(v@)[j]) by {
            assert(spec_elems(r->Arr_0@)[j] == jview(r->Arr_0@[j]));
        }
        assert(spec_elems(r->Arr_0@) =~= spec_visibilitys_json(vviews(v@)));
    }
    r
}

#[verifier::loop_isolation(false)]
pub fn visibility_list_from_json(es: &Vec<JsonValue>) -> (r: Option<Vec<Visibility>>)
    ensures
        match r {
            Some(v) => spec_visibilitys_from(spec_elems(es@)) == Some(vviews(v@)),
            None => spec_visibilitys_from(spec_elems(es@)) is None,
        },
{
    let mut out: Vec<Visibility> = Vec::new();
    let mut i: usize = 0;
    while i < es.len()
        invariant
            i <= es.len(),
            out@.len() == i as int,
            forall|j: int|
                0 <= j < i ==> spec_visibility_from(#[trigger] spec_elems(es@)[j]) == Some(
                    out@[j]@,
                ),
        decreases es.len() - i,
    {
        proof {
            assert(spec_elems(es@)[i as int] == jview(es@[i as int]));
        }
        match Visibility::from_json(&es[i]) {
            Some(x) => out.push(x),
            None => {
                proof {
                    assert(spec_visibility_from(spec_elems(es@)[i as int]) is None);
                }
                return None;
            },
        }
        i = i + 1;
    }
    proof {
        assert(spec_visibilitys_from(spec_elems(es@)) == Some(vviews(out@))) by {
            assert(Seq::new(
                spec_elems(es@).len(),
                |j: int| spec_visibility_from(spec_elems(es@)[j]).unwrap(),
            ) =~= vviews(out@));
        }
    }
    Some(out)
}

pub open spec fn spec_opt_visibility_json(o: Option<VisibilityV>) -> JVal {
    match o {
        None => JVal::Null,
        Some(x) => spec_visibility_json(x),
    }
}

pub open spec fn spec_field_opt_visibility(
    fields: Seq<(Seq<char>, JVal)>,
    key: Seq<char>,
) -> Result<Option<VisibilityV>, ()> {
    match spec_lookup(fields, key) {
        None => Ok(None),
        Some(j) => match j {
            JVal::Null => Ok(None),
            _ => match spec_visibility_from(j) {
                Some(t) => Ok(Some(t)),
                None => Err(()),
            },
        },
    }
}

/// A titled subset of cards on a page.
#[derive(Debug, PartialEq, Eq)]
pub struct Collection {
    pub id: Option<u64>,
    pub title: Option<String>,
    pub description: Option<String>,
    pub card_ids: Option<Vec<u64>>,
}

#[verifier::ext_equal]
pub struct CollectionV {
    pub id: Option<u64>,
    pub title: Option<Seq<char>>,
    pub description: Option<Seq<char>>,
    pub card_ids: Option<Seq<u64>>,
}

impl View for Collection {
    type V = CollectionV;

    open spec fn view(&self) -> CollectionV {
        CollectionV {
            id: self.id,
            title: ostr(self.title),
            description: ostr(self.description),
            card_ids: onums(self.card_ids),
        }
    }
}

pub open spec fn spec_collection_json(v: CollectionV) -> JVal {
    JVal::Obj(
        seq![
            ("id"@, spec_j_opt_num(v.id)),
            ("title"@, spec_j_opt_str(v.title)),
            ("description"@, spec_j_opt_str(v.description)),
            ("cardIds"@, spec_j_opt_num_arr(v.card_ids)),
        ],
    )
}

pub open spec fn spec_collection_from(j: JVal) -> Option<CollectionV> {
    match j {
        JVal::Obj(fields) => {
            let id = spec_field_opt_u64(fields, "id"@);
            let title = spec_field_opt_str(fields, "title"@);
            let description = spec_field_opt_str(fields, "description"@);
            let card_ids = spec_field_opt_num_arr(fields, "cardIds"@);
            if id is Err || title is Err || description is Err || card_ids is Err {
                None
            } else {
                Some(
                    CollectionV {
                        id: id->Ok_0,
                        title: title->Ok_0,
                        description: description->Ok_0,
                        card_ids: card_ids->Ok_0,
                    },
                )
            }
        },
        _ => None,
    }
}

impl Collection {
    /// The record as a JSON document, with its wire field names; an unset
    /// field is sent as `null`.
    #[verifier::rlimit(100)]
    pub fn to_json(&self) -> (r: JsonValue)
        ensures
            r@ == spec_collection_json(self@),
    {
        let mut f: Vec<(String, JsonValue)> = Vec::new();
        put_field(&mut f, "id", j_opt_u64(&self.id));
        put_field(&mut f, "title", j_opt_string(&self.title));
        put_field(&mut f, "description", j_opt_string(&self.description));
        put_field(&mut f, "cardIds", j_opt_num_arr(&self.card_ids));
        let r = JsonValue::Obj(f);
        proof {
            broadcast use lemma_jview_obj;

            assert(jview(r) == JVal::Obj(spec_fields(r->Obj_0@)));
            assert(spec_fields(r->Obj_0@) =~= spec_collection_json(self@)->Obj_0);
        }
        r
    }

    /// The record a well-formed body decodes to; `None` when a present
    /// field has the wrong shape.
    pub fn from_json(v: &JsonValue) -> (r: Option<Collection>)
        ensures
            match r {
                Some(x) => spec_collection_from(v@) == Some(x@),
                None => spec_collection_from(v@) is None,
            },
    {
        proof {
            broadcast use lemma_jview_obj;
            broadcast use lemma_jview_arr;

        }
        match v {
            JsonValue::Obj(fields) => {
                let id = match field_opt_u64(fields, "id") {
                    Ok(x) => x,
                    Err(_) => {
                        return None;
                    },
                };
                let title = match field_opt_string(fields, "title") {
                    Ok(x) => x,
                    Err(_) => {
                        return None;
                    },
                };
                let description = match field_opt_string(fields, "description") {
                    Ok(x) => x,
                    Err(_) => {
                        return None;
                    },
                };
                let card_ids = match field_opt_num_arr(fields, "cardIds") {
                    Ok(x) => x,
                    Err(_) => {
                        return None;
                    },
                };
                Some(Collection { id, title, description, card_ids })
            },
            _ => None,
        }
    }
}

/// Decoding an encoded record gives back the same record.
#[verifier::rlimit(100)]
pub proof fn lemma_collection_roundtrip(g: CollectionV)
    ensures
        spec_collection_from(spec_collection_json(g)) == Some(g),
{
    reveal_strlit("id");
    reveal_strlit("title");
    reveal_strlit("description");
    reveal_strlit("cardIds");
    reveal_with_fuel(spec_lookup, 6);
    assert("id"@.len() == 2);
    assert("title"@.len() == 5);
    assert("description"@.len() == 11);
    assert("cardIds"@.len() == 7);
    assert(spec_collection_from(spec_collection_json(g)) matches Some(h) && h =~= g);
}

/// A field absent from a decoded body stays unset or takes its default.
pub proof fn lemma_collection_absent_fields()
    ensures
        spec_collection_from(JVal::Obj(Seq::empty())) == Some(
            CollectionV {
                id: None,
                title: None,
                description: None,
                card_ids: None,
            },
        ),
{
    reveal_with_fuel(spec_lookup, 2);
}

/// The encoded form of a list of these records.
pub open spec fn spec_collections_json(s: Seq<CollectionV>) -> Seq<JVal> {
    Seq::new(s.len(), |i: int| spec_collection_json(s[i]))
}

pub open spec fn spec_opt_collections_json(o: Option<Seq<CollectionV>>) -> JVal {
    match o {
        None => JVal::Null,
        Some(s) => JVal::Arr(spec_collections_json(s)),
    }
}

/// The decoding of a list of these records: every element must decode.
pub open spec fn spec_collections_from(es: Seq<JVal>) -> Option<Seq<CollectionV>> {
    if forall|i: int| 0 <= i < es.len() ==> (#[trigger] spec_collection_from(es[i])) is Some {
        Some(Seq::new(es.len(), |i: int| spec_collection_from(es[i]).unwrap()))
    } else {
        None
    }
}

pub open spec fn spec_field_opt_collections(
    fields: Seq<(Seq<char>, JVal)>,
    key: Seq<char>,
) -> Result<Option<Seq<CollectionV>>, ()> {
    match spec_lookup(fields, key) {
        None => Ok(None),
        Some(j) => match j {
            JVal::Null => Ok(None),
            JVal::Arr(es) => match spec_collections_from(es) {
                Some(s) => Ok(Some(s)),
                None => Err(()),
            },
            _ => Err(()),
        },
    }
}

pub fn collection_list_to_json(v: &Vec<Collection>) -> (r: JsonValue)
    ensures
        r@ == JVal::Arr(spec_collections_json(vviews(v@))),
{
    let mut a: Vec<JsonValue> = Vec::new();
    let mut i: usize = 0;
    while i < v.len()
        invariant
            i <= v.len(),
            a@.len() == i as int,
            forall|j: int| 0 <= j < i ==> jview(#[trigger] a@[j]) == spec_collection_json(v@[j]@),
        decreases v.len() - i,
    {
        a.push(v[i].to_json());
        i = i + 1;
    }
    let r = JsonValue::Arr(a);
    proof {
        broadcast use lemma_jview_arr;

        assert forall|j: int| 0 <= j < v@.len() implies spec_elems(r->Arr_0@)[j]
            == spec_collection_json(vviews(v@)[j]) by {
            assert(spec_elems(r->Arr_0@)[j] == jview(r->Arr_0@[j]));
        }
        assert(spec_elems(r->Arr_0@) =~= spec_collections_json(vviews(v@)));
    }
    r
}

#[verifier::loop_isolation(false)]
pub fn collection_list_from_json(es: &Vec<JsonValue>) -> (r: Option<Vec<Collection>>)
    ensures
        match r {
            Some(v) => spec_collections_from(spec_elems(es@)) == Some(vviews(v@)),
            None => spec_collections_from(spec_elems(es@)) is None,
        },
{
    let mut out: Vec<Collection> = Vec::new();
    let mut i: usize = 0;
    while i < es.len()
        invariant
            i <= es.len(),
            out@.len() == i as int,
            forall|j: int|
                0 <= j < i ==> spec_collection_from(#[trigger] spec_elems(es@)[j]) == Some(
                    out@[j]@,
                ),
        decreases es.len() - i,
    {
        proof {
            assert(spec_elems(es@)[i as int] == jview(es@[i as int]));
        }
        match Collection::from_json(&es[i]) {
            Some(x) => out.push(x),
            None => {
                proof {
                    assert(spec_collection_from(spec_elems(es@)[i as int]) is None);
                }
                return None;
            },
        }
        i = i + 1;
    }
    proof {
        assert(spec_collections_from(spec_elems(es@)) == Some(vviews(out@))) by {
            assert(Seq::new(
                spec_elems(es@).len(),
                |j: int| spec_collection_from(spec_elems(es@)[j]).unwrap(),
            ) =~= vviews(out@));
        }
    }
    Some(out)
}

pub open spec fn spec_opt_collection_json(o: Option<CollectionV>) -> JVal {
    match o {
        None => JVal::Null,
        Some(x) => spec_collection_json(x),
    }
}

pub open spec fn spec_field_opt_collection(
    fields: Seq<(Seq<char>, JVal)>,
    key: Seq<char>,
) -> Result<Option<CollectionV>, ()> {
    match spec_lookup(fields, key) {
        None => Ok(None),
        Some(j) => match j {
            JVal::Null => Ok(None),
            _ => match spec_collection_from(j) {
                Some(t) => Ok(Some(t)),
                None => Err(()),
            },
        },
    }
}

impl Collection {
    /// A collection with every field unset.
    pub fn new() -> (r: Self)
        ensures
            r@ == (CollectionV { id: None, title: None, description: None, card_ids: None }),
    {
        Collection { id: None, title: None, description: None, card_ids: None }
    }

    /// A placeholder collection for seeding an interactive edit buffer.
    pub fn template() -> (r: Self)
        ensures
            r@.id == Some(0u64),
            r@.title == Some("Collection Title"@),
            r@.description == Some("Collection Description"@),
            r@.card_ids matches Some(c) && (c =~= seq![1u64, 2u64, 3u64]),
    {
        let mut card_ids: Vec<u64> = Vec::new();
        card_ids.push(1);
        card_ids.push(2);
        card_ids.push(3);
        let r = Collection {
            id: Some(0),
            title: Some("Collection Title".to_owned()),
            description: Some("Collection Description".to_owned()),
            card_ids: Some(card_ids),
        };
        r
    }
}

/// A page: a screen organising cards and collections, possibly with
/// sub-pages. Every field is optional; a field the server did not send
/// stays unset.
#[derive(Debug, PartialEq, Eq)]
pub struct Page {
    pub id: Option<u64>,
    pub name: Option<String>,
    pub parent_id: Option<u64>,
    pub owner_id: Option<u64>,
    pub locked: Option<bool>,
    pub collection_ids: Option<Vec<u64>>,
    pub card_ids: Option<Vec<u64>>,
    pub children: Option<Vec<Page>>,
    pub visibility: Option<Visibility>,
}

#[verifier::ext_equal]
pub struct PageV {
    pub id: Option<u64>,
    pub name: Option<Seq<char>>,
    pub parent_id: Option<u64>,
    pub owner_id: Option<u64>,
    pub locked: Option<bool>,
    pub collection_ids: Option<Seq<u64>>,
    pub card_ids: Option<Seq<u64>>,
    pub children: Option<Seq<PageV>>,
    pub visibility: Option<VisibilityV>,
}

/// The model of a page, descending through its sub-pages.
pub open spec fn pview(p: Page) -> PageV
    decreases p,
    via pview_decreases
{
    PageV {
        id: p.id,
        name: ostr(p.name),
        parent_id: p.parent_id,
        owner_id: p.owner_id,
        locked: p.locked,
        collection_ids: onums(p.collection_ids),
        card_ids: onums(p.card_ids),
        children: match p.children {
            None => None,
            Some(c) => Some(pview_seq(c@)),
        },
        visibility: oview(p.visibility),
    }
}

/// The models of a list of pages, one by one.
pub open spec fn pview_seq(s: Seq<Page>) -> Seq<PageV>
    decreases s,
    via pview_seq_decreases
{
    if s.len() == 0 {
        Seq::empty()
    } else {
        seq![pview(s[0])] + pview_seq(s.drop_first())
    }
}

#[via_fn]
proof fn pview_decreases(p: Page) {
    match p.children {
        Some(c) => {
            assert(decreases_to!(p => p.children));
            assert(decreases_to!(p.children => c));
            assert(decreases_to!(c => c@));
        },
        None => {},
    }
}

#[via_fn]
proof fn pview_seq_decreases(s: Seq<Page>) {
    if s.len() > 0 {
        assert(decreases_to!(s => s[0]));
        assert(s.drop_first() == s.subrange(1, s.len() as int));
        assert(decreases_to!(s => s.subrange(1, s.len() as int)));
    }
}

impl View for Page {
    type V = PageV;

    open spec fn view(&self) -> PageV {
        pview(*self)
    }
}

/// The encoded page, descending through its sub-pages.
pub open spec fn spec_page_json(p: PageV) -> JVal
    decreases p,
    via spec_page_json_decreases
{
    JVal::Obj(
        seq![
            ("id"@, spec_j_opt_num(p.id)),
            ("name"@, spec_j_opt_str(p.name)),
            ("parentId"@, spec_j_opt_num(p.parent_id)),
            ("ownerId"@, spec_j_opt_num(p.owner_id)),
            ("locked"@, spec_j_opt_bool(p.locked)),
            ("collectionIds"@, spec_j_opt_num_arr(p.collection_ids)),
            ("cardIds"@, spec_j_opt_num_arr(p.card_ids)),
            (
                "children"@,
                match p.children {
                    None => JVal::Null,
                    Some(s) => JVal::Arr(spec_pages_json(s)),
                },
            ),
            ("visibility"@, spec_opt_visibility_json(p.visibility)),
        ],
    )
}

/// The encoded forms of a list of pages.
pub open spec fn spec_pages_json(s: Seq<PageV>) -> Seq<JVal>
    decreases s,
    via spec_pages_json_decreases
{
    if s.len() == 0 {
        Seq::empty()
    } else {
        seq![spec_page_json(s[0])] + spec_pages_json(s.drop_first())
    }
}

#[via_fn]
proof fn spec_page_json_decreases(p: PageV) {
    match p.children {
        Some(s) => {
            assert(decreases_to!(p => p.children));
            assert(decreases_to!(p.children => s));
        },
        None => {},
    }
}

#[via_fn]
proof fn spec_pages_json_decreases(s: Seq<PageV>) {
    if s.len() > 0 {
        assert(decreases_to!(s => s[0]));
        assert(s.drop_first() == s.subrange(1, s.len() as int));
        assert(decreases_to!(s => s.subrange(1, s.len() as int)));
    }
}

/// The decoding of a page, descending through its sub-pages.
pub open spec fn spec_page_from(j: JVal) -> Option<PageV>
    decreases j,
    via spec_page_from_decreases
{
    match j {
        JVal::Obj(fields) => {
            let id = spec_field_opt_u64(fields, "id"@);
            let name = spec_field_opt_str(fields, "name"@);
            let parent_id = spec_field_opt_u64(fields, "parentId"@);
            let owner_id = spec_field_opt_u64(fields, "ownerId"@);
            let locked = spec_field_opt_bool(fields, "locked"@);
            let collection_ids = spec_field_opt_num_arr(fields, "collectionIds"@);
            let card_ids = spec_field_opt_num_arr(fields, "cardIds"@);
            let children = (match spec_lookup(fields, "children"@) {
                None => Ok::<Option<Seq<PageV>>, ()>(None),
                Some(w) => match w {
                    JVal::Null => Ok(None),
                    JVal::Arr(es) => match spec_pages_from(es) {
                        Some(s) => Ok(Some(s)),
                        None => Err(()),
                    },
                    _ => Err(()),
                },
            });
            let visibility = spec_field_opt_visibility(fields, "visibility"@);
            if id is Err || name is Err || parent_id is Err || owner_id is Err || locked
                is Err || collection_ids is Err || card_ids is Err || children is Err
                || visibility is Err {
                None
            } else {
                Some(
                    PageV {
                        id: id->Ok_0,
                        name: name->Ok_0,
                        parent_id: parent_id->Ok_0,
                        owner_id: owner_id->Ok_0,
                        locked: locked->Ok_0,
                        collection_ids: collection_ids->Ok_0,
                        card_ids: card_ids->Ok_0,
                        children: children->Ok_0,
                        visibility: visibility->Ok_0,
                    },
                )
            }
        },
        _ => None,
    }
}

/// The decoding of a list of pages: every element must decode.
pub open spec fn spec_pages_from(es: Seq<JVal>) -> Option<Seq<PageV>>
    decreases es,
    via spec_pages_from_decreases
{
    if es.len() == 0 {
        Some(Seq::empty())
    } else {
        match (spec_page_from(es[0]), spec_pages_from(es.drop_first())) {
            (Some(h), Some(t)) => Some(seq![h] + t),
            _ => None,
        }
    }
}

#[via_fn]
proof fn spec_page_from_decreases(j: JVal) {
    match j {
        JVal::Obj(fields) => {
            if spec_lookup(fields, "children"@) is Some {
                lemma_lookup_member(fields, "children"@);
                let w = spec_lookup(fields, "children"@).unwrap();
                let i = choose|i: int|
                    0 <= i < fields.len() && (#[trigger] fields[i]).1 == w;
                assert(decreases_to!(j => fields));
                assert(decreases_to!(fields => fields[i]));
                assert(decreases_to!(fields[i] => fields[i].1));
                match w {
                    JVal::Arr(es) => {
                        assert(decreases_to!(w => es));
                    },
                    _ => {},
                }
            }
        },
        _ => {},
    }
}

#[via_fn]
proof fn spec_pages_from_decreases(es: Seq<JVal>) {
    if es.len() > 0 {
        assert(decreases_to!(es => es[0]));
        assert(es.drop_first() == es.subrange(1, es.len() as int));
        assert(decreases_to!(es => es.subrange(1, es.len() as int)));
    }
}

impl Page {
    /// A page with every field unset.
    pub fn new() -> (r: Self)
        ensures
            r@ == (PageV {
                id: None,
                name: None,
                parent_id: None,
                owner_id: None,
                locked: None,
                collection_ids: None,
                card_ids: None,
                children: None,
                visibility: None,
            }),
    {
        Page {
            id: None,
            name: None,
            parent_id: None,
            owner_id: None,
            locked: None,
            collection_ids: None,
            card_ids: None,
            children: None,
            visibility: None,
        }
    }

    /// A placeholder page for seeding an interactive edit buffer.
    pub fn template() -> (r: Self)
        ensures
            r@.id == Some(0u64),
            r@.name == Some("Page Name"@),
            r@.parent_id == Some(0u64),
            r@.owner_id == Some(0u64),
            r@.locked == Some(false),
            r@.collection_ids matches Some(c) && c =~= seq![1u64, 2u64, 3u64],
            r@.card_ids matches Some(c) && c =~= seq![1u64, 2u64, 3u64],
            r@.children matches Some(c) && c.len() == 0,
            r@.visibility matches Some(v) && (v.user_ids matches Some(u) && (u =~= seq![
                1u64,
                2u64,
                3u64,
            ]) && (v.group_ids matches Some(g) && (g =~= seq![1u64, 2u64, 3u64]))),
    {
        let mut collection_ids: Vec<u64> = Vec::new();
        collection_ids.push(1);
        collection_ids.push(2);
        collection_ids.push(3);
        let mut card_ids: Vec<u64> = Vec::new();
        card_ids.push(1);
        card_ids.push(2);
        card_ids.push(3);
        let mut user_ids: Vec<u64> = Vec::new();
        user_ids.push(1);
        user_ids.push(2);
        user_ids.push(3);
        let mut group_ids: Vec<u64> = Vec::new();
        group_ids.push(1);
        group_ids.push(2);
        group_ids.push(3);
        let children: Vec<Page> = Vec::new();
        let r = Page {
            id: Some(0),
            name: Some("Page Name".to_owned()),
            parent_id: Some(0),
            owner_id: Some(0),
            locked: Some(false),
            collection_ids: Some(collection_ids),
            card_ids: Some(card_ids),
            children: Some(children),
            visibility: Some(
                Visibility { user_ids: Some(user_ids), group_ids: Some(group_ids) },
            ),
        };
        proof {
            assert(pview_seq(Seq::<Page>::empty()).len() == 0);
        }
        r
    }

    /// The page as a JSON document, with its wire field names; an unset
    /// field is sent as `null`.
    #[verifier::rlimit(100)]
    pub fn to_json(&self) -> (r: JsonValue)
        ensures
            r@ == spec_page_json(self@),
        decreases *self,
    {
        let mut f: Vec<(String, JsonValue)> = Vec::new();
        put_field(&mut f, "id", j_opt_u64(&self.id));
        put_field(&mut f, "name", j_opt_string(&self.name));
        put_field(&mut f, "parentId", j_opt_u64(&self.parent_id));
        put_field(&mut f, "ownerId", j_opt_u64(&self.owner_id));
        put_field(&mut f, "locked", j_opt_bool(&self.locked));
        put_field(&mut f, "collectionIds", j_opt_num_arr(&self.collection_ids));
        put_field(&mut f, "cardIds", j_opt_num_arr(&self.card_ids));
        let children_json = match &self.children {
            None => JsonValue::Null,
            Some(c) => {
                proof {
                    assert(decreases_to!(*self => (*self).children));
                    assert(decreases_to!((*self).children => *c));
                    assert(decreases_to!(*c => c@));
                }
                page_list_to_json(c)
            },
        };
        put_field(&mut f, "children", children_json);
        let visibility_json = match &self.visibility {
            None => JsonValue::Null,
            Some(x) => x.to_json(),
        };
        put_field(&mut f, "visibility", visibility_json);
        let r = JsonValue::Obj(f);
        proof {
            broadcast use lemma_jview_obj;

            assert(jview(r) == JVal::Obj(spec_fields(r->Obj_0@)));
            assert(spec_fields(r->Obj_0@) =~= spec_page_json(self@)->Obj_0);
        }
        r
    }

    /// The page a well-formed body decodes to; `None` when a present field
    /// has the wrong shape.
    pub fn from_json(v: &JsonValue) -> (r: Option<Page>)
        ensures
            match r {
                Some(x) => spec_page_from(v@) == Some(x@),
                None => spec_page_from(v@) is None,
            },
        decreases *v,
    {
        proof {
            broadcast use lemma_jview_obj;
            broadcast use lemma_jview_arr;

        }
        match v {
            JsonValue::Obj(fields) => {
                let id = match field_opt_u64(fields, "id") {
                    Ok(x) => x,
                    Err(_) => {
                        return None;
                    },
                };
                let name = match field_opt_string(fields, "name") {
                    Ok(x) => x,
                    Err(_) => {
                        return None;
                    },
                };
                let parent_id = match field_opt_u64(fields, "parentId") {
                    Ok(x) => x,
                    Err(_) => {
                        return None;
                    },
                };
                let owner_id = match field_opt_u64(fields, "ownerId") {
                    Ok(x) => x,
                    Err(_) => {
                        return None;
                    },
                };
                let locked = match field_opt_bool(fields, "locked") {
                    Ok(x) => x,
                    Err(_) => {
                        return None;
                    },
                };
                let collection_ids = match field_opt_num_arr(fields, "collectionIds") {
                    Ok(x) => x,
                    Err(_) => {
                        return None;
                    },
                };
                let card_ids = match field_opt_num_arr(fields, "cardIds") {
                    Ok(x) => x,
                    Err(_) => {
                        return None;
                    },
                };
                let children = match jlookup(fields, "children") {
                    None => None,
                    Some(w) => match w {
                        JsonValue::Null => None,
                        JsonValue::Arr(es) => {
                            proof {
                                let i = choose|i: int|
                                    0 <= i < fields@.len() && (#[trigger] fields@[i]).1
                                        == *w;
                                assert(decreases_to!(*v => *fields));
                                assert(decreases_to!(*fields => fields@));
                                assert(decreases_to!(fields@ => fields@[i]));
                                assert(decreases_to!(fields@[i] => fields@[i].1));
                                assert(decreases_to!(*w => (*w)->Arr_0));
                                assert((*w)->Arr_0 == *es);
                                assert(decreases_to!(*es => es@));
                            }
                            match page_list_from_json(es) {
                                Some(x) => Some(x),
                                None => {
                                    return None;
                                },
                            }
                        },
                        _ => {
                            return None;
                        },
                    },
                };
                let visibility = match jlookup(fields, "visibility") {
                    None => None,
                    Some(w) => match w {
                        JsonValue::Null => None,
                        _ => match Visibility::from_json(w) {
                            Some(x) => Some(x),
                            None => {
                                return None;
                            },
                        },
                    },
                };
                Some(
                    Page {
                        id,
                        name,
                        parent_id,
                        owner_id,
                        locked,
                        collection_ids,
                        card_ids,
                        children,
                        visibility,
                    },
                )
            },
            _ => None,
        }
    }
}

/// Encodes a list of pages.
#[verifier::loop_isolation(false)]
pub fn page_list_to_json(v: &Vec<Page>) -> (r: JsonValue)
    ensures
        r@ == JVal::Arr(spec_pages_json(pview_seq(v@))),
    decreases v@,
{
    let mut a: Vec<JsonValue> = Vec::new();
    let mut i: usize = 0;
    while i < v.len()
        invariant
            i <= v.len(),
            a@.len() == i as int,
            forall|j: int|
                0 <= j < i ==> jview(#[trigger] a@[j]) == spec_page_json(pview(v@[j])),
        decreases v.len() - i,
    {
        proof {
            assert(decreases_to!(v@ => v@[i as int]));
        }
        a.push(v[i].to_json());
        i = i + 1;
    }
    let r = JsonValue::Arr(a);
    proof {
        broadcast use lemma_jview_arr;

        lemma_pview_seq_index(v@);
        lemma_pages_json_index(pview_seq(v@));
        assert forall|j: int| 0 <= j < v@.len() implies spec_elems(r->Arr_0@)[j]
            == spec_pages_json(pview_seq(v@))[j] by {
            assert(spec_elems(r->Arr_0@)[j] == jview(r->Arr_0@[j]));
        }
        assert(spec_elems(r->Arr_0@) =~= spec_pages_json(pview_seq(v@)));
    }
    r
}

/// The element-wise reading of the page-list model.
pub proof fn lemma_pview_seq_index(s: Seq<Page>)
    ensures
        pview_seq(s).len() == s.len(),
        forall|i: int| 0 <= i < s.len() ==> pview_seq(s)[i] == pview(#[trigger] s[i]),
    decreases s.len(),
{
    if s.len() > 0 {
        lemma_pview_seq_index(s.drop_first());
        assert forall|i: int| 0 <= i < s.len() implies pview_seq(s)[i] == pview(
            #[trigger] s[i],
        ) by {
            if i > 0 {
                assert(s.drop_first()[i - 1] == s[i]);
            }
        }
    }
}

/// The element-wise reading of the encoded page list.
pub proof fn lemma_pages_json_index(s: Seq<PageV>)
    ensures
        spec_pages_json(s).len() == s.len(),
        forall|i: int|
            0 <= i < s.len() ==> spec_pages_json(s)[i] == spec_page_json(#[trigger] s[i]),
    decreases s.len(),
{
    if s.len() > 0 {
        lemma_pages_json_index(s.drop_first());
        assert forall|i: int| 0 <= i < s.len() implies spec_pages_json(s)[i]
            == spec_page_json(#[trigger] s[i]) by {
            if i > 0 {
                assert(s.drop_first()[i - 1] == s[i]);
            }
        }
    }
}

/// The element-wise reading of the decoded page list.
pub proof fn lemma_pages_from_index(es: Seq<JVal>)
    ensures
        spec_pages_from(es) is Some ==> (spec_pages_from(es).unwrap().len() == es.len()
            && forall|i: int|
            0 <= i < es.len() ==> spec_page_from(#[trigger] es[i]) == Some(
                spec_pages_from(es).unwrap()[i],
            )),
        (forall|i: int| 0 <= i < es.len() ==> (#[trigger] spec_page_from(es[i])) is Some)
            ==> spec_pages_from(es) is Some,
    decreases es.len(),
{
    if es.len() > 0 {
        lemma_pages_from_index(es.drop_first());
        assert forall|i: int|
            0 <= i < es.len() && spec_pages_from(es) is Some implies spec_page_from(
            #[trigger] es[i],
        ) == Some(spec_pages_from(es).unwrap()[i]) by {
            if i > 0 {
                assert(es.drop_first()[i - 1] == es[i]);
            }
        }
        if forall|i: int| 0 <= i < es.len() ==> (#[trigger] spec_page_from(es[i])) is Some {
            assert(spec_page_from(es[0]) is Some);
            assert forall|i: int|
                0 <= i < es.drop_first().len() implies (#[trigger] spec_page_from(
                es.drop_first()[i],
            )) is Some by {
                assert(es.drop_first()[i] == es[i + 1]);
                assert(spec_page_from(es[i + 1]) is Some);
            }
            assert(spec_pages_from(es.drop_first()) is Some);
        }
    }
}

/// Decodes a list of pages.
#[verifier::loop_isolation(false)]
pub fn page_list_from_json(es: &Vec<JsonValue>) -> (r: Option<Vec<Page>>)
    ensures
        match r {
            Some(v) => spec_pages_from(spec_elems(es@)) == Some(pview_seq(v@)),
            None => spec_pages_from(spec_elems(es@)) is None,
        },
    decreases es@,
{
    let mut out: Vec<Page> = Vec::new();
    let mut i: usize = 0;
    while i < es.len()
        invariant
            i <= es.len(),
            out@.len() == i as int,
            forall|j: int|
                0 <= j < i ==> spec_page_from(#[trigger] spec_elems(es@)[j]) == Some(
                    pview(out@[j]),
                ),
        decreases es.len() - i,
    {
        proof {
            assert(spec_elems(es@)[i as int] == jview(es@[i as int]));
            assert(decreases_to!(es@ => es@[i as int]));
        }
        match Page::from_json(&es[i]) {
            Some(x) => out.push(x),
            None => {
                proof {
                    lemma_pages_from_index(spec_elems(es@));
                    assert(spec_page_from(spec_elems(es@)[i as int]) is None);
                }
                return None;
            },
        }
        i = i + 1;
    }
    proof {
        lemma_pages_from_index(spec_elems(es@));
        lemma_pview_seq_index(out@);
        assert(spec_pages_from(spec_elems(es@)) is Some);
        assert forall|j: int|
            0 <= j < es@.len() implies spec_pages_from(spec_elems(es@)).unwrap()[j]
            == pview_seq(out@)[j] by {
            assert(spec_page_from(spec_elems(es@)[j]) == Some(pview(out@[j])));
        }
        assert(spec_pages_from(spec_elems(es@)).unwrap() =~= pview_seq(out@));
    }
    Some(out)
}

/// Decoding an encoded page gives back the same page, sub-pages included.
#[verifier::rlimit(100)]
pub proof fn lemma_page_roundtrip(g: PageV)
    ensures
        spec_page_from(spec_page_json(g)) == Some(g),
    decreases g,
{
    reveal_strlit("id");
    reveal_strlit("name");
    reveal_strlit("parentId");
    reveal_strlit("ownerId");
    reveal_strlit("locked");
    reveal_strlit("collectionIds");
    reveal_strlit("cardIds");
    reveal_strlit("children");
    reveal_strlit("visibility");
    reveal_with_fuel(spec_lookup, 11);
    assert("id"@.len() == 2);
    assert("name"@.len() == 4);
    assert("parentId"@.len() == 8);
    assert("ownerId"@.len() == 7);
    assert("locked"@.len() == 6);
    assert("collectionIds"@.len() == 13);
    assert("cardIds"@.len() == 7);
    assert("children"@.len() == 8);
    assert("visibility"@.len() == 10);
    assert("ownerId"@[0] == 'o');
    assert("cardIds"@[0] == 'c');
    assert("ownerId"@ != "cardIds"@);
    assert("parentId"@[0] == 'p');
    assert("children"@[0] == 'c');
    assert("parentId"@ != "children"@);
    if g.children is Some {
        let s = g.children.unwrap();
        assert(decreases_to!(g => g.children));
        assert(decreases_to!(g.children => s));
        lemma_pages_roundtrip(s);
    }
    if g.visibility is Some {
        lemma_visibility_roundtrip(g.visibility.unwrap());
    }
    assert(spec_page_from(spec_page_json(g)) matches Some(h) && h =~= g);
}

/// Decoding an encoded list of pages gives back the same list.
pub proof fn lemma_pages_roundtrip(s: Seq<PageV>)
    ensures
        spec_pages_from(spec_pages_json(s)) == Some(s),
    decreases s,
{
    lemma_pages_json_index(s);
    if s.len() > 0 {
        assert(decreases_to!(s => s[0]));
        lemma_page_roundtrip(s[0]);
        assert(s.drop_first() == s.subrange(1, s.len() as int));
        assert(decreases_to!(s => s.subrange(1, s.len() as int)));
        lemma_pages_roundtrip(s.drop_first());
        assert(spec_pages_json(s).drop_first() =~= spec_pages_json(s.drop_first()));
        assert(spec_pages_from(spec_pages_json(s)) matches Some(t) && t =~= s);
    } else {
        assert(spec_pages_json(s).len() == 0);
    }
}

/// The last collection in the list carrying the given id, if any. The scan
/// runs over the whole list and keeps the latest match.
pub open spec fn spec_find_collection(cs: Seq<CollectionV>, id: u64) -> Option<CollectionV>
    decreases cs.len(),
{
    if cs.len() == 0 {
        None
    } else if cs.last().id == Some(id) {
        Some(cs.last())
    } else {
        spec_find_collection(cs.drop_last(), id)
    }
}

/// The collection to update, scanning the page's collections for the given
/// id and keeping the last match.
pub fn find_collection<'a>(collections: &'a Vec<Collection>, collection_id: u64) -> (r:
    Option<&'a Collection>)
    ensures
        match r {
            Some(c) => spec_find_collection(vviews(collections@), collection_id) == Some(c@),
            None => spec_find_collection(vviews(collections@), collection_id) is None,
        },
{
    let ghost cv = vviews(collections@);
    let mut ret: Option<&Collection> = None;
    let mut i: usize = 0;
    proof {
        assert(cv.subrange(0, 0) =~= Seq::<CollectionV>::empty());
    }
    while i < collections.len()
        invariant
            i <= collections@.len(),
            cv == vviews(collections@),
            match ret {
                Some(c) => spec_find_collection(cv.subrange(0, i as int), collection_id)
                    == Some(c@),
                None => spec_find_collection(cv.subrange(0, i as int), collection_id)
                    is None,
            },
        decreases collections@.len() - i,
    {
        proof {
            assert(cv.subrange(0, i as int + 1).last() == cv[i as int]);
            assert(cv.subrange(0, i as int + 1).drop_last() =~= cv.subrange(0, i as int));
        }
        match &collections[i].id {
            Some(cid) => {
                if *cid == collection_id {
                    ret = Some(&collections[i]);
                }
            },
            None => {},
        }
        i = i + 1;
    }
    proof {
        assert(cv.subrange(0, cv.len() as int) =~= cv);
    }
    ret
}

impl Client {
    /// The request for a page of pages, with optional paging parameters.
    pub fn get_pages(&self, limit: Option<u32>, offset: Option<u32>) -> (r: ApiRequest)
        ensures
            r@.method == Method::Get,
            r@.url == self@.host + "/v1/pages"@,
            r@.scope == "dashboard"@,
            r@.body is None,
            r@.query == crate::public::spec_paging_query(limit, offset),
    {
        let mut r = ApiRequest::new(
            Method::Get,
            str_concat(self.host.as_str(), "/v1/pages"),
            "dashboard",
        );
        r.query = crate::public::paging_query(limit, offset);
        r
    }

    /// The request that creates a page from the given record.
    pub fn post_page(&self, page: Page) -> (r: ApiRequest)
        ensures
            r@.method == Method::Post,
            r@.url == self@.host + "/v1/pages"@,
            r@.scope == "dashboard"@,
            r@.query == Seq::<(Seq<char>, Seq<char>)>::empty(),
            r@.body == Some(ReqBodyV::Json(spec_page_json(page@))),
    {
        let mut r = ApiRequest::new(
            Method::Post,
            str_concat(self.host.as_str(), "/v1/pages"),
            "dashboard",
        );
        r.body = Some(ReqBody::Json(page.to_json()));
        r
    }

    /// The request for one page by id.
    pub fn get_page(&self, id: u64) -> (r: ApiRequest)
        ensures
            r@.method == Method::Get,
            r@.url == self@.host + "/v1/pages/"@ + crate::strutil::spec_u64_chars(id as int),
            r@.scope == "dashboard"@,
            r@.query == Seq::<(Seq<char>, Seq<char>)>::empty(),
            r@.body is None,
    {
        let mut url = str_concat(self.host.as_str(), "/v1/pages/");
        url.append(u64_string(id).as_str());
        ApiRequest::new(Method::Get, url, "dashboard")
    }

    /// The request that updates a page by id. A parameter left unset leaves
    /// the page's attribute unchanged on the server.
    pub fn put_page(&self, id: u64, page: Page) -> (r: ApiRequest)
        ensures
            r@.method == Method::Put,
            r@.url == self@.host + "/v1/pages/"@ + crate::strutil::spec_u64_chars(id as int),
            r@.scope == "dashboard"@,
            r@.query == Seq::<(Seq<char>, Seq<char>)>::empty(),
            r@.body == Some(ReqBodyV::Json(spec_page_json(page@))),
    {
        let mut url = str_concat(self.host.as_str(), "/v1/pages/");
        url.append(u64_string(id).as_str());
        let mut r = ApiRequest::new(Method::Put, url, "dashboard");
        r.body = Some(ReqBody::Json(page.to_json()));
        r
    }

    /// The request that deletes a page by id.
    pub fn delete_page(&self, id: u64) -> (r: ApiRequest)
        ensures
            r@.method == Method::Delete,
            r@.url == self@.host + "/v1/pages/"@ + crate::strutil::spec_u64_chars(id as int),
            r@.scope == "dashboard"@,
            r@.query == Seq::<(Seq<char>, Seq<char>)>::empty(),
            r@.body is None,
    {
        let mut url = str_concat(self.host.as_str(), "/v1/pages/");
        url.append(u64_string(id).as_str());
        ApiRequest::new(Method::Delete, url, "dashboard")
    }

    /// The request for a page's collections.
    pub fn get_page_collections(&self, id: u64) -> (r: ApiRequest)
        ensures
            r@.method == Method::Get,
            r@.url == self@.host + "/v1/pages/"@ + crate::strutil::spec_u64_chars(id as int)
                + "/collections"@,
            r@.scope == "dashboard"@,
            r@.query == Seq::<(Seq<char>, Seq<char>)>::empty(),
            r@.body is None,
    {
        let mut url = str_concat(self.host.as_str(), "/v1/pages/");
        url.append(u64_string(id).as_str());
        url.append("/collections");
        ApiRequest::new(Method::Get, url, "dashboard")
    }

    /// The request that creates a collection on a page.
    pub fn post_page_collection(&self, id: u64, collection: Collection) -> (r: ApiRequest)
        ensures
            r@.method == Method::Post,
            r@.url == self@.host + "/v1/pages/"@ + crate::strutil::spec_u64_chars(id as int)
                + "/collections"@,
            r@.scope == "dashboard"@,
            r@.query == Seq::<(Seq<char>, Seq<char>)>::empty(),
            r@.body == Some(ReqBodyV::Json(spec_collection_json(collection@))),
    {
        let mut url = str_concat(self.host.as_str(), "/v1/pages/");
        url.append(u64_string(id).as_str());
        url.append("/collections");
        let mut r = ApiRequest::new(Method::Post, url, "dashboard");
        r.body = Some(ReqBody::Json(collection.to_json()));
        r
    }

    /// The request that updates one collection of a page.
    pub fn put_page_collection(&self, id: u64, collection_id: u64, collection: Collection) -> (r:
        ApiRequest)
        ensures
            r@.method == Method::Put,
            r@.url == self@.host + "/v1/pages/"@ + crate::strutil::spec_u64_chars(id as int)
                + "/collections/"@ + crate::strutil::spec_u64_chars(collection_id as int),
            r@.scope == "dashboard"@,
            r@.query == Seq::<(Seq<char>, Seq<char>)>::empty(),
            r@.body == Some(ReqBodyV::Json(spec_collection_json(collection@))),
    {
        let mut url = str_concat(self.host.as_str(), "/v1/pages/");
        url.append(u64_string(id).as_str());
        url.append("/collections/");
        url.append(u64_string(collection_id).as_str());
        let mut r = ApiRequest::new(Method::Put, url, "dashboard");
        r.body = Some(ReqBody::Json(collection.to_json()));
        r
    }

    /// The update of one collection of a page, guarded by the local
    /// precondition the platform cannot check for us: the collection id must
    /// be one of the page's collections, since the API has no direct
    /// fetch-by-collection-id endpoint. The write request is produced
    /// exactly when a collection in the given list carries the id; otherwise
    /// the invalid-collection-id failure is raised and no request exists to
    /// send.
    pub fn put_page_collection_checked(
        &self,
        id: u64,
        collections: &Vec<Collection>,
        collection_id: u64,
        collection: Collection,
    ) -> (r: Result<ApiRequest, DomoError>)
        ensures
            match r {
                Ok(req) => spec_find_collection(vviews(collections@), collection_id)
                    is Some && req@.method == Method::Put && req@.url == self@.host
                    + "/v1/pages/"@ + crate::strutil::spec_u64_chars(id as int)
                    + "/collections/"@ + crate::strutil::spec_u64_chars(
                    collection_id as int,
                ) && req@.body == Some(ReqBodyV::Json(spec_collection_json(collection@)))
                    && req@.scope == "dashboard"@ && req@.query == Seq::<
                    (Seq<char>, Seq<char>),
                >::empty(),
                Err(e) => spec_find_collection(vviews(collections@), collection_id)
                    is None && e@ == DomoErrorV::InvalidCollectionId,
            },
    {
        match find_collection(collections, collection_id) {
            Some(_) => Ok(self.put_page_collection(id, collection_id, collection)),
            None => Err(DomoError::InvalidCollectionId),
        }
    }

    /// The request that deletes one collection of a page.
    pub fn delete_page_collection(&self, id: u64, collection_id: u64) -> (r: ApiRequest)
        ensures
            r@.method == Method::Delete,
            r@.url == self@.host + "/v1/pages/"@ + crate::strutil::spec_u64_chars(id as int)
                + "/collections/"@ + crate::strutil::spec_u64_chars(collection_id as int),
            r@.scope == "dashboard"@,
            r@.query == Seq::<(Seq<char>, Seq<char>)>::empty(),
            r@.body is None,
    {
        let mut url = str_concat(self.host.as_str(), "/v1/pages/");
        url.append(u64_string(id).as_str());
        url.append("/collections/");
        url.append(u64_string(collection_id).as_str());
        ApiRequest::new(Method::Delete, url, "dashboard")
    }
}

/// Maps a response holding one page.
pub fn page_response(status: u16, body: &str) -> (r: Result<Page, DomoError>)
    ensures
        match r {
            Ok(x) => spec_check_response(status, body@) matches Ok(j) && spec_page_from(j)
                == Some(x@),
            Err(e) => match spec_check_response(status, body@) {
                Ok(j) => spec_page_from(j) is None && e@ == (DomoErrorV::Malformed {
                    status,
                }),
                Err(e2) => e@ == e2,
            },
        },
{
    match check_response(status, body) {
        Err(e) => Err(e),
        Ok(v) => match Page::from_json(&v) {
            Some(x) => Ok(x),
            None => Err(DomoError::Malformed { status }),
        },
    }
}

/// Maps a response holding a list of pages.
pub fn pages_response(status: u16, body: &str) -> (r: Result<Vec<Page>, DomoError>)
    ensures
        match r {
            Ok(xs) => spec_check_response(status, body@) matches Ok(j) && j matches JVal::Arr(
                es,
            ) && spec_pages_from(es) == Some(pview_seq(xs@)),
            Err(e) => match spec_check_response(status, body@) {
                Ok(j) => e@ == (DomoErrorV::Malformed { status }) && !(j matches JVal::Arr(
                    es,
                ) && spec_pages_from(es) is Some),
                Err(e2) => e@ == e2,
            },
        },
{
    let v = match check_response(status, body) {
        Ok(v) => v,
        Err(e) => {
            return Err(e);
        },
    };
    proof {
        broadcast use lemma_jview_arr;

    }
    match &v {
        JsonValue::Arr(es) => match page_list_from_json(es) {
            Some(xs) => Ok(xs),
            None => Err(DomoError::Malformed { status }),
        },
        _ => Err(DomoError::Malformed { status }),
    }
}


/// Maps a response holding one record of this resource.
pub fn collection_response(status: u16, body: &str) -> (r: Result<Collection, DomoError>)
    ensures
        match r {
            Ok(x) => spec_check_response(status, body@) matches Ok(j) && spec_collection_from(j)
                == Some(x@),
            Err(e) => match spec_check_response(status, body@) {
                Ok(j) => spec_collection_from(j) is None && e@ == (DomoErrorV::Malformed {
                    status,
                }),
                Err(e2) => e@ == e2,
            },
        },
{
    match check_response(status, body) {
        Err(e) => Err(e),
        Ok(v) => match Collection::from_json(&v) {
            Some(x) => Ok(x),
            None => Err(DomoError::Malformed { status }),
        },
    }
}

/// Maps a response holding a list of records of this resource.
pub fn collections_response(status: u16, body: &str) -> (r: Result<Vec<Collection>, DomoError>)
    ensures
        match r {
            Ok(xs) => spec_check_response(status, body@) matches Ok(j) && j matches JVal::Arr(
                es,
            ) && spec_collections_from(es) == Some(vviews(xs@)),
            Err(e) => match spec_check_response(status, body@) {
                Ok(j) => e@ == (DomoErrorV::Malformed { status }) && !(j matches JVal::Arr(
                    es,
                ) && spec_collections_from(es) is Some),
                Err(e2) => e@ == e2,
            },
        },
{
    let v = match check_response(status, body) {
        Ok(v) => v,
        Err(e) => {
            return Err(e);
        },
    };
    proof {
        broadcast use lemma_jview_arr;

    }
    match &v {
        JsonValue::Arr(es) => match collection_list_from_json(es) {
            Some(xs) => Ok(xs),
            None => Err(DomoError::Malformed { status }),
        },
        _ => Err(DomoError::Malformed { status }),
    }
}

} // verus!
