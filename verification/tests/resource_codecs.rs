use domo::json::JsonValue;
use domo::public::account::{Account, AccountTemplate, AccountType, Property};
use domo::public::buzz::{Header, Integration, Subscription};
use domo::public::dataset::{Column, DataSet, Filter, Owner, Policy, QueryResult, Schema};
use domo::public::group::Group;
use domo::public::page::{Collection, Page, Visibility};
use domo::public::stream::{Execution, Stream};
use domo::public::user::User;
use domo::public::workflow::{Attachment, List, Project, Task};
use domo::public::activity::LogEntry;
use domo::webhook::buzz::Message;

#[test]
fn user_roundtrip() {
    let u = User::template();
    let back = User::from_json(&u.to_json()).unwrap();
    assert_eq!(back, u);
    let empty = User::from_json(&JsonValue::Obj(Vec::new())).unwrap();
    assert_eq!(empty, User::new());
}

#[test]
fn group_roundtrip_and_omitted_fields() {
    let g = Group::template();
    let back = Group::from_json(&g.to_json()).unwrap();
    assert_eq!(back, g);
    // Unset fields are omitted from the encoding altogether.
    let sparse = Group {
        id: Some(9),
        name: None,
        default: None,
        active: None,
        creator_id: None,
        member_count: None,
    };
    match sparse.to_json() {
        JsonValue::Obj(fields) => assert_eq!(fields.len(), 1),
        other => panic!("unexpected: {:?}", other),
    }
    let back2 = Group::from_json(&sparse.to_json()).unwrap();
    assert_eq!(back2, sparse);
}

#[test]
fn page_roundtrip_with_children() {
    let mut child = Page::new();
    child.id = Some(7);
    child.name = Some("child".to_string());
    let mut p = Page::template();
    p.children = Some(vec![child]);
    let back = Page::from_json(&p.to_json()).unwrap();
    assert_eq!(back, p);
    assert_eq!(back.children.as_ref().unwrap()[0].id, Some(7));
}

#[test]
fn visibility_and_collection_roundtrip() {
    let v = Visibility { user_ids: Some(vec![1, 2]), group_ids: None };
    assert_eq!(Visibility::from_json(&v.to_json()).unwrap(), v);
    let c = Collection::template();
    assert_eq!(Collection::from_json(&c.to_json()).unwrap(), c);
}

#[test]
fn dataset_roundtrip() {
    let d = DataSet::template();
    let back = DataSet::from_json(&d.to_json()).unwrap();
    assert_eq!(back, d);
    assert_eq!(DataSet::from_json(&JsonValue::Obj(Vec::new())).unwrap(), DataSet::new());
}

#[test]
fn owner_default_id_decodes_to_zero() {
    let o = Owner::from_json(&JsonValue::Obj(Vec::new())).unwrap();
    assert_eq!(o.id, 0);
    assert_eq!(o.name, None);
    let o2 = Owner { id: 12, name: Some("n".to_string()) };
    assert_eq!(Owner::from_json(&o2.to_json()).unwrap(), o2);
}

#[test]
fn policy_and_filter_roundtrip() {
    let p = Policy::template();
    assert_eq!(Policy::from_json(&p.to_json()).unwrap(), p);
    // An empty value list is omitted from the encoding and decodes back to
    // the empty list.
    let f = Filter {
        column: Some("c".to_string()),
        not: Some(true),
        operator: Some("EQUALS".to_string()),
        values: Vec::new(),
    };
    match f.to_json() {
        JsonValue::Obj(fields) => assert_eq!(fields.len(), 3),
        other => panic!("unexpected: {:?}", other),
    }
    assert_eq!(Filter::from_json(&f.to_json()).unwrap(), f);
}

#[test]
fn schema_column_roundtrip() {
    let s = Schema {
        columns: Some(vec![Column {
            name: Some("a".to_string()),
            column_type: Some("STRING".to_string()),
        }]),
    };
    assert_eq!(Schema::from_json(&s.to_json()).unwrap(), s);
}

#[test]
fn query_result_roundtrip_with_raw_cells() {
    let q = QueryResult {
        datasource: Some("ds".to_string()),
        columns: Some(vec!["a".to_string(), "b".to_string()]),
        metadata: None,
        rows: Some(vec![
            vec![JsonValue::UInt(1), JsonValue::Str("x".to_string())],
            vec![JsonValue::Int(-2), JsonValue::Null],
        ]),
        num_rows: Some(2),
        num_columns: Some(2),
        from_cache: Some(false),
    };
    let tree = {
        let body = "{\"datasource\":\"ds\",\"columns\":[\"a\",\"b\"],\"rows\":[[1,\"x\"],[-2,null]],\"numRows\":2,\"numColumns\":2,\"fromCache\":false}";
        domo::jsontext::parse_json(body).unwrap()
    };
    let back = QueryResult::from_json(&tree).unwrap();
    assert_eq!(back, q);
    let again = QueryResult::from_json(&back.to_json()).unwrap();
    assert_eq!(again, back);
}

#[test]
fn stream_roundtrip_with_embedded_dataset() {
    let s = Stream::template();
    let back = Stream::from_json(&s.to_json()).unwrap();
    assert_eq!(back, s);
    let e = Execution {
        id: Some(3),
        started_at: Some("2020-01-01T00:00:00Z".to_string()),
        current_state: Some("ACTIVE".to_string()),
        created_at: None,
        modified_at: None,
    };
    assert_eq!(Execution::from_json(&e.to_json()).unwrap(), e);
}

#[test]
fn buzz_records_roundtrip() {
    let i = Integration::template();
    assert_eq!(Integration::from_json(&i.to_json()).unwrap(), i);
    let s = Subscription::template();
    assert_eq!(Subscription::from_json(&s.to_json()).unwrap(), s);
    let h = Header { name: Some("k".to_string()), value: Some("v".to_string()) };
    assert_eq!(Header::from_json(&h.to_json()).unwrap(), h);
}

#[test]
fn workflow_records_roundtrip() {
    let p = Project::template();
    assert_eq!(Project::from_json(&p.to_json()).unwrap(), p);
    let l = List::template();
    assert_eq!(List::from_json(&l.to_json()).unwrap(), l);
    let t = Task::template();
    assert_eq!(Task::from_json(&t.to_json()).unwrap(), t);
    let a = Attachment {
        id: Some(1),
        task_id: Some(2),
        created_date: None,
        file_name: Some("f.txt".to_string()),
        mime_type: Some("text/plain".to_string()),
    };
    assert_eq!(Attachment::from_json(&a.to_json()).unwrap(), a);
}

#[test]
fn list_index_defaults_to_zero() {
    let l = List::from_json(&JsonValue::Obj(Vec::new())).unwrap();
    assert_eq!(l.index, 0);
    let t = Task::from_json(&JsonValue::Obj(Vec::new())).unwrap();
    assert!(!t.archived);
}

#[test]
fn account_roundtrip_with_templates() {
    let at = AccountType {
        id: Some("t1".to_string()),
        name: Some("Type".to_string()),
        properties: Some(vec![("k".to_string(), "v".to_string())]),
        templates: Some(vec![(
            "default".to_string(),
            AccountTemplate {
                name: Some("default".to_string()),
                title: Some("Default".to_string()),
                content_type: None,
                method: Some("POST".to_string()),
                properties: Some(vec![Property {
                    name: Some("user".to_string()),
                    prompt: Some("Enter user".to_string()),
                    regex: None,
                    required: Some(true),
                }]),
            },
        )]),
    };
    let back = AccountType::from_json(&at.to_json()).unwrap();
    assert_eq!(back, at);
    let a = Account {
        id: Some("1".to_string()),
        name: Some("acct".to_string()),
        valid: Some(true),
        account_type: Some(at),
    };
    assert_eq!(Account::from_json(&a.to_json()).unwrap(), a);
}

#[test]
fn log_entry_roundtrip() {
    let mut e = LogEntry::from_json(&JsonValue::Obj(Vec::new())).unwrap();
    assert_eq!(e.user_name, None);
    e.user_name = Some("u".to_string());
    e.actor_id = Some(4);
    e.time = Some("2021-05-01T10:00:00Z".to_string());
    assert_eq!(LogEntry::from_json(&e.to_json()).unwrap(), e);
}

#[test]
fn webhook_message_roundtrip() {
    let m = Message { title: None, text: "hello".to_string() };
    assert_eq!(Message::from_json(&m.to_json()).unwrap(), m);
    let absent = Message::from_json(&JsonValue::Obj(Vec::new())).unwrap();
    assert_eq!(absent.text, "");
    assert_eq!(absent.title, None);
}

#[test]
fn wrong_shape_fields_fail_decoding() {
    // A present field with the wrong shape is an error, never silently
    // dropped.
    let bad = domo::jsontext::parse_json("{\"id\":\"not a number\"}").unwrap();
    assert!(User::from_json(&bad).is_none());
    let fractional = domo::jsontext::parse_json("{\"id\":1.5}").unwrap();
    assert!(User::from_json(&fractional).is_none());
    let bad2 = domo::jsontext::parse_json("{\"name\":5}").unwrap();
    assert!(Group::from_json(&bad2).is_none());
    let bad3 = domo::jsontext::parse_json("[1]").unwrap();
    assert!(User::from_json(&bad3).is_none());
}

#[test]
fn null_and_absent_both_decode_to_unset() {
    let explicit = domo::jsontext::parse_json("{\"name\":null}").unwrap();
    let implicit = JsonValue::Obj(Vec::new());
    assert_eq!(
        User::from_json(&explicit).unwrap(),
        User::from_json(&implicit).unwrap()
    );
}
