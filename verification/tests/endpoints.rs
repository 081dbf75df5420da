use domo::json::JsonValue;
use domo::public::{ApiRequest, Client, Method, ReqBody};
use domo::public::group::Group;
use domo::public::page::Collection;
use domo::webhook::Client as WebhookClient;
use domo::webhook::buzz::Message;

fn client() -> Client {
    Client::new("https://api.example.com", "id", "secret")
}

fn assert_no_body(r: &ApiRequest) {
    assert!(r.body.is_none());
}

#[test]
fn page_request_urls() {
    let c = client();
    let r = c.get_page(42);
    assert_eq!(r.method, Method::Get);
    assert_eq!(r.url, "https://api.example.com/v1/pages/42");
    assert_eq!(r.scope, "dashboard");
    assert_no_body(&r);
    let d = c.delete_page_collection(42, 7);
    assert_eq!(d.method, Method::Delete);
    assert_eq!(d.url, "https://api.example.com/v1/pages/42/collections/7");
}

#[test]
fn paging_query_parameters() {
    let c = client();
    let r = c.get_users(Some(50), Some(100));
    assert_eq!(r.url, "https://api.example.com/v1/users");
    assert_eq!(
        r.query,
        vec![
            ("limit".to_string(), "50".to_string()),
            ("offset".to_string(), "100".to_string()),
        ]
    );
    let r2 = c.get_users(None, None);
    assert!(r2.query.is_empty());
}

#[test]
fn group_user_membership_urls() {
    let c = client();
    let r = c.put_group_user("12", "34");
    assert_eq!(r.method, Method::Put);
    assert_eq!(r.url, "https://api.example.com/v1/groups/12/users/34");
    assert_eq!(r.scope, "user");
}

#[test]
fn post_group_carries_encoded_body() {
    let c = client();
    let g = Group::template();
    let r = c.post_group(Group::template());
    match r.body {
        Some(ReqBody::Json(v)) => assert_eq!(v, g.to_json()),
        other => panic!("unexpected: {:?}", other),
    }
}

#[test]
fn dataset_query_body_wraps_sql() {
    let c = client();
    let r = c.post_dataset_query("abc", "SELECT * FROM table");
    assert_eq!(r.url, "https://api.example.com/v1/datasets/query/execute/abc");
    match r.body {
        Some(ReqBody::Json(JsonValue::Obj(fields))) => {
            assert_eq!(fields.len(), 1);
            assert_eq!(fields[0].0, "sql");
            assert_eq!(fields[0].1, JsonValue::Str("SELECT * FROM table".to_string()));
        }
        other => panic!("unexpected: {:?}", other),
    }
}

#[test]
fn dataset_export_asks_for_header() {
    let c = client();
    let r = c.get_dataset_data("abc");
    assert_eq!(r.url, "https://api.example.com/v1/datasets/abc/data");
    assert_eq!(r.query, vec![("includeHeader".to_string(), "true".to_string())]);
}

#[test]
fn dataset_import_replaces_data_with_csv() {
    let c = client();
    let r = c.put_dataset_data("abc", "a,b\n1,2\n".to_string());
    assert_eq!(r.method, Method::Put);
    match r.body {
        Some(ReqBody::Csv(text)) => assert_eq!(text, "a,b\n1,2\n"),
        other => panic!("unexpected: {:?}", other),
    }
}

#[test]
fn account_share_body_shape() {
    let c = client();
    let r = c.post_account_share("a1", 99);
    assert_eq!(r.url, "https://api.example.com/v1/accounts/a1/shares");
    match r.body {
        Some(ReqBody::Json(JsonValue::Obj(outer))) => {
            assert_eq!(outer.len(), 1);
            assert_eq!(outer[0].0, "user");
            match &outer[0].1 {
                JsonValue::Obj(inner) => {
                    assert_eq!(inner[0].0, "id");
                    assert_eq!(inner[0].1, JsonValue::UInt(99));
                }
                other => panic!("unexpected: {:?}", other),
            }
        }
        other => panic!("unexpected: {:?}", other),
    }
}

#[test]
fn stream_search_query() {
    let c = client();
    let r = c.get_stream_search_dataset_id("ds9");
    assert_eq!(r.url, "https://api.example.com/v1/streams/search");
    assert_eq!(r.query, vec![("q".to_string(), "dataSource.id:ds9".to_string())]);
    let r2 = c.get_stream_search_dataset_owner_id("27");
    assert_eq!(
        r2.query,
        vec![("q".to_string(), "dataSource.owner.id:27".to_string())]
    );
}

#[test]
fn stream_execution_urls() {
    let c = client();
    let r = c.put_stream_execution_part("5", "11", "3", "x,y\n".to_string());
    assert_eq!(r.url, "https://api.example.com/v1/streams/5/executions/11/part/3");
    match r.body {
        Some(ReqBody::Csv(text)) => assert_eq!(text, "x,y\n"),
        other => panic!("unexpected: {:?}", other),
    }
    let commit = c.put_stream_execution_commit("5", "11");
    assert_eq!(commit.url, "https://api.example.com/v1/streams/5/executions/11/commit");
    assert_no_body(&commit);
    let abort = c.put_stream_execution_abort("5", "11");
    assert_eq!(abort.url, "https://api.example.com/v1/streams/5/executions/11/abort");
}

#[test]
fn workflow_nested_urls() {
    let c = client();
    let r = c.delete_project_list_task_attachment("p", "l", "t", "a");
    assert_eq!(
        r.url,
        "https://api.example.com/v1/projects/p/lists/l/tasks/t/attachments/a"
    );
    assert_eq!(r.scope, "workflow");
}

#[test]
fn audit_query_parameters() {
    let c = client();
    let r = c.get_entries(Some(8), 1000, Some(2000), Some(50), None);
    assert_eq!(r.url, "https://api.example.com/v1/audit");
    assert_eq!(
        r.query,
        vec![
            ("user".to_string(), "8".to_string()),
            ("start".to_string(), "1000".to_string()),
            ("end".to_string(), "2000".to_string()),
            ("limit".to_string(), "50".to_string()),
        ]
    );
}

#[test]
fn bulk_user_emails_body() {
    let c = client();
    let emails = vec!["a@x.com".to_string(), "b@x.com".to_string()];
    let r = c.post_bulk_user_emails(&emails);
    assert_eq!(r.url, "https://api.example.com/v1/users/bulk/emails");
    match r.body {
        Some(ReqBody::Json(JsonValue::Arr(es))) => {
            assert_eq!(es.len(), 2);
            assert_eq!(es[0], JsonValue::Str("a@x.com".to_string()));
        }
        other => panic!("unexpected: {:?}", other),
    }
}

#[test]
fn buzz_integration_urls() {
    let c = client();
    let r = c.get_integration_subscriptions("i1");
    assert_eq!(
        r.url,
        "https://api.example.com/v1/buzz/integrations/i1/subscriptions"
    );
    assert_eq!(r.scope, "buzz");
}

#[test]
fn webhook_integration_message_shape() {
    let w = WebhookClient::new();
    let r = w.post_integration_message("https://hook.example.com/x", "tok", "hello");
    assert_eq!(r.url, "https://hook.example.com/x");
    assert_eq!(
        r.headers,
        vec![("x-buzz-bot-token".to_string(), "tok".to_string())]
    );
    match r.body {
        JsonValue::Obj(outer) => {
            assert_eq!(outer[0].0, "content");
            match &outer[0].1 {
                JsonValue::Obj(inner) => {
                    assert_eq!(inner[0].0, "text");
                    assert_eq!(inner[0].1, JsonValue::Str("hello".to_string()));
                }
                other => panic!("unexpected: {:?}", other),
            }
        }
        other => panic!("unexpected: {:?}", other),
    }
}

#[test]
fn webhook_buzz_message_body() {
    let w = WebhookClient::new();
    let m = Message { title: Some("t".to_string()), text: "body".to_string() };
    let expected = m.to_json();
    let r = w.post_buzz_message("https://hook.example.com/y", m);
    assert_eq!(r.body, expected);
    assert!(r.headers.is_empty());
}

#[test]
fn webhook_dataset_json_passthrough() {
    let w = WebhookClient::new();
    let obj = domo::jsontext::parse_json("{\"a\":\"Column A Value\",\"b\":43}").unwrap();
    let r = w.post_dataset_json("https://hook.example.com/z", obj);
    match r.body {
        JsonValue::Obj(fields) => {
            assert_eq!(fields.len(), 2);
            assert_eq!(fields[1].1, JsonValue::UInt(43));
        }
        other => panic!("unexpected: {:?}", other),
    }
}

#[test]
fn post_page_collection_body() {
    let c = client();
    let col = Collection::template();
    let expected = col.to_json();
    let r = c.post_page_collection(3, col);
    assert_eq!(r.url, "https://api.example.com/v1/pages/3/collections");
    match r.body {
        Some(ReqBody::Json(v)) => assert_eq!(v, expected),
        other => panic!("unexpected: {:?}", other),
    }
}
