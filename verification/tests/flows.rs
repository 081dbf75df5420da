use domo::public::account::{AccountTemplate, AccountType, Property};
use domo::public::page::{find_collection, Collection};
use domo::public::{Client, DomoError, Method, ReqBody};

#[test]
fn account_creation_property_seeding() {
    // An AccountType whose "default" template lists a property
    // {name: "user", prompt: "Enter user"} seeds the property map entry
    // user -> "TODO: Enter user".
    let at = AccountType {
        id: Some("t".to_string()),
        name: Some("T".to_string()),
        properties: None,
        templates: Some(vec![(
            "default".to_string(),
            AccountTemplate {
                name: None,
                title: None,
                content_type: None,
                method: None,
                properties: Some(vec![Property {
                    name: Some("user".to_string()),
                    prompt: Some("Enter user".to_string()),
                    regex: None,
                    required: None,
                }]),
            },
        )]),
    };
    let seeded = at.seed_default_properties();
    assert_eq!(
        seeded.properties,
        Some(vec![("user".to_string(), "TODO: Enter user".to_string())])
    );
}

#[test]
fn seeding_without_default_template_changes_nothing() {
    let at = AccountType {
        id: None,
        name: None,
        properties: Some(vec![("old".to_string(), "kept".to_string())]),
        templates: Some(vec![(
            "other".to_string(),
            AccountTemplate {
                name: None,
                title: None,
                content_type: None,
                method: None,
                properties: None,
            },
        )]),
    };
    let seeded = at.seed_default_properties();
    assert_eq!(
        seeded.properties,
        Some(vec![("old".to_string(), "kept".to_string())])
    );
}

#[test]
fn seeding_skips_incomplete_properties() {
    let at = AccountType {
        id: None,
        name: None,
        properties: None,
        templates: Some(vec![(
            "default".to_string(),
            AccountTemplate {
                name: None,
                title: None,
                content_type: None,
                method: None,
                properties: Some(vec![
                    Property { name: Some("a".to_string()), prompt: None, regex: None, required: None },
                    Property { name: Some("b".to_string()), prompt: Some("B?".to_string()), regex: None, required: None },
                ]),
            },
        )]),
    };
    let seeded = at.seed_default_properties();
    assert_eq!(seeded.properties, Some(vec![("b".to_string(), "TODO: B?".to_string())]));
}

fn collection_with_id(id: u64) -> Collection {
    let mut c = Collection::new();
    c.id = Some(id);
    c
}

#[test]
fn collection_update_requires_known_id() {
    // With collections [{id:1}, {id:2}], updating id 3 fails with the local
    // precondition error and yields no request; updating id 2 yields exactly
    // one request addressed to collection 2.
    let c = Client::new("https://api.example.com", "i", "s");
    let collections = vec![collection_with_id(1), collection_with_id(2)];
    match c.put_page_collection_checked(10, &collections, 3, Collection::new()) {
        Err(DomoError::InvalidCollectionId) => {}
        other => panic!("unexpected: {:?}", other),
    }
    let req = c
        .put_page_collection_checked(10, &collections, 2, Collection::new())
        .unwrap();
    assert_eq!(req.method, Method::Put);
    assert_eq!(req.url, "https://api.example.com/v1/pages/10/collections/2");
    assert!(matches!(req.body, Some(ReqBody::Json(_))));
}

#[test]
fn find_collection_keeps_last_match() {
    let mut first = collection_with_id(5);
    first.title = Some("first".to_string());
    let mut second = collection_with_id(5);
    second.title = Some("second".to_string());
    let collections = vec![first, second, collection_with_id(6)];
    let found = find_collection(&collections, 5).unwrap();
    assert_eq!(found.title, Some("second".to_string()));
    assert!(find_collection(&collections, 9).is_none());
}
