use domo::public::DomoError;
use domo::public::buzz::integrations_response;
use domo::public::dataset::{datasets_response, policies_response, query_response};
use domo::public::group::{group_response, groups_response, user_ids_response};
use domo::public::page::pages_response;
use domo::public::user::users_response;

#[test]
fn users_list_response() {
    let body = "[{\"id\":1,\"name\":\"A\"},{\"id\":2,\"name\":\"B\"}]";
    let users = users_response(200, body).unwrap();
    assert_eq!(users.len(), 2);
    assert_eq!(users[0].id, Some(1));
    assert_eq!(users[1].name, Some("B".to_string()));
}

#[test]
fn group_single_response() {
    let g = group_response(200, "{\"id\":4,\"name\":\"G\",\"active\":true}").unwrap();
    assert_eq!(g.id, Some(4));
    assert_eq!(g.active, Some(true));
}

#[test]
fn groups_error_response() {
    match groups_response(500, "{\"status\":500,\"message\":\"boom\"}") {
        Err(DomoError::Api(e)) => {
            assert_eq!(e.status, 500);
            assert_eq!(e.message, "boom");
        }
        other => panic!("unexpected: {:?}", other),
    }
}

#[test]
fn group_user_ids_response() {
    let ids = user_ids_response(200, "[7,8,9]").unwrap();
    assert_eq!(ids, vec![7, 8, 9]);
    assert!(user_ids_response(200, "[7,\"x\"]").is_err());
}

#[test]
fn datasets_response_decodes_records() {
    let body = "[{\"id\":\"d1\",\"name\":\"DS\",\"rows\":10,\"columns\":2}]";
    let ds = datasets_response(200, body).unwrap();
    assert_eq!(ds.len(), 1);
    assert_eq!(ds[0].id, Some("d1".to_string()));
    assert_eq!(ds[0].rows, Some(10));
}

#[test]
fn policies_response_decodes_filters() {
    let body = "[{\"id\":1,\"type\":\"user\",\"filters\":[{\"column\":\"c\",\"operator\":\"EQUALS\",\"values\":[\"v\"]}],\"users\":[27]}]";
    let ps = policies_response(200, body).unwrap();
    assert_eq!(ps[0].filters.as_ref().unwrap()[0].values, vec!["v".to_string()]);
    assert_eq!(ps[0].users, Some(vec![27]));
}

#[test]
fn query_response_mixed_cells() {
    let body = "{\"columns\":[\"a\",\"b\"],\"rows\":[[1,\"x\"]],\"numRows\":1,\"numColumns\":2}";
    let q = query_response(200, body).unwrap();
    assert_eq!(q.columns, Some(vec!["a".to_string(), "b".to_string()]));
    assert_eq!(q.num_rows, Some(1));
    assert_eq!(q.rows.as_ref().unwrap()[0].len(), 2);
}

#[test]
fn query_response_decimal_cells_pass_through() {
    // A query over a decimal column yields fractional cells; they survive
    // verbatim as their lexeme.
    let body = "{\"columns\":[\"n\",\"price\"],\"rows\":[[1,19.99],[2,2.5e3]],\"numRows\":2,\"numColumns\":2}";
    let q = query_response(200, body).unwrap();
    let rows = q.rows.as_ref().unwrap();
    assert_eq!(rows[0][1], domo::json::JsonValue::NumText("19.99".to_string()));
    assert_eq!(rows[1][1], domo::json::JsonValue::NumText("2.5e3".to_string()));
    let (columns, cells) = domo::public::dataset::query_cells(&q);
    assert_eq!(columns, vec!["n".to_string(), "price".to_string()]);
    assert_eq!(cells[0], vec!["1".to_string(), "19.99".to_string()]);
    assert_eq!(cells[1], vec!["2".to_string(), "2.5e3".to_string()]);
}

#[test]
fn query_cells_renders_each_kind() {
    let body = "{\"columns\":[\"c\"],\"rows\":[[\"text\",-7,42,3.5,true,null]],\"numRows\":1,\"numColumns\":6}";
    let q = query_response(200, body).unwrap();
    let (_, cells) = domo::public::dataset::query_cells(&q);
    assert_eq!(
        cells[0],
        vec![
            "text".to_string(),
            "-7".to_string(),
            "42".to_string(),
            "3.5".to_string(),
            "".to_string(),
            "".to_string(),
        ]
    );
}

#[test]
fn pages_response_nested() {
    let body = "[{\"id\":1,\"children\":[{\"id\":2}]}]";
    let ps = pages_response(200, body).unwrap();
    assert_eq!(ps[0].id, Some(1));
    assert_eq!(ps[0].children.as_ref().unwrap()[0].id, Some(2));
}

#[test]
fn integrations_wrapped_response() {
    let body = "{\"integrations\":[{\"id\":\"i1\",\"name\":\"N\"}]}";
    let is = integrations_response(200, body).unwrap();
    assert_eq!(is.len(), 1);
    assert_eq!(is[0].id, Some("i1".to_string()));
    assert!(integrations_response(200, "[]").is_err());
}

#[test]
fn malformed_success_body_is_distinct_from_api_error() {
    match users_response(200, "{\"not\":\"a list\"}") {
        Err(DomoError::Malformed { status }) => assert_eq!(status, 200),
        other => panic!("unexpected: {:?}", other),
    }
    match users_response(404, "not even json") {
        Err(DomoError::Malformed { status }) => assert_eq!(status, 404),
        other => panic!("unexpected: {:?}", other),
    }
}
