use tokimo_app_helloworld::cli::{
    credentials_error, greet_report, items_report, run_greet, run_items, HttpMethod, ItemsCmd, ItemsReply, ListedItem,
    RequestBody,
};
use tokimo_app_helloworld::handlers::GreetResp;

const ID: u128 = 0x67e5504410b1426f9247bb680e5fe0c8;

#[test]
fn list_call() {
    let call = run_items(&ItemsCmd::List);
    assert!(matches!(call.method, HttpMethod::Get));
    assert_eq!(call.path, "/items");
    assert!(matches!(call.body, RequestBody::Empty));
}

#[test]
fn add_and_update_calls() {
    let call = run_items(&ItemsCmd::Add { content: "milk".to_string() });
    assert!(matches!(call.method, HttpMethod::Post));
    assert_eq!(call.path, "/items");
    assert!(matches!(&call.body, RequestBody::Content(b) if b.content == "milk"));
    let call = run_items(&ItemsCmd::Update { id: ID, content: "tea".to_string() });
    assert!(matches!(call.method, HttpMethod::Put));
    assert_eq!(call.path, "/items/67e55044-10b1-426f-9247-bb680e5fe0c8");
    assert!(matches!(&call.body, RequestBody::Content(b) if b.content == "tea"));
}

#[test]
fn delete_call() {
    let call = run_items(&ItemsCmd::Delete { id: ID });
    assert!(matches!(call.method, HttpMethod::Delete));
    assert_eq!(call.path, "/items/67e55044-10b1-426f-9247-bb680e5fe0c8");
    assert!(matches!(call.body, RequestBody::Empty));
}

#[test]
fn empty_list_prints_no_items() {
    let lines = items_report(&ItemsCmd::List, Ok(ItemsReply::Listed(vec![]))).ok().expect("lines");
    assert_eq!(lines, vec!["No items.".to_string()]);
}

#[test]
fn list_prints_aligned_table() {
    let items = vec![
        ListedItem { id: ID, content: "milk".to_string(), created_at: "2024-05-01T10:00:00+00:00".to_string() },
        ListedItem { id: 1, content: "tea".to_string(), created_at: "2024-05-01T09:00:00.5+00:00".to_string() },
    ];
    let lines = items_report(&ItemsCmd::List, Ok(ItemsReply::Listed(items))).ok().expect("lines");
    assert_eq!(lines.len(), 3);
    assert_eq!(lines[0], format!("{:<36}  {:<25}  Content", "ID", "Created At"));
    assert_eq!(lines[1], "67e55044-10b1-426f-9247-bb680e5fe0c8  2024-05-01T10:00:00+00:00  milk");
    assert_eq!(
        lines[2],
        format!("{:<36}  {:<25}  {}", "00000000-0000-0000-0000-000000000001", "2024-05-01T09:00:00.5+00:00", "tea")
    );
}

#[test]
fn add_update_delete_messages() {
    let it = || ListedItem { id: ID, content: "milk".to_string(), created_at: String::new() };
    let lines = items_report(&ItemsCmd::Add { content: "milk".to_string() }, Ok(ItemsReply::Item(it()))).ok().unwrap();
    assert_eq!(lines, vec!["Added item 67e55044-10b1-426f-9247-bb680e5fe0c8: milk".to_string()]);
    let cmd = ItemsCmd::Update { id: ID, content: "milk".to_string() };
    let lines = items_report(&cmd, Ok(ItemsReply::Item(it()))).ok().unwrap();
    assert_eq!(lines, vec!["Updated item 67e55044-10b1-426f-9247-bb680e5fe0c8: milk".to_string()]);
    let lines = items_report(&ItemsCmd::Delete { id: ID }, Ok(ItemsReply::Deleted)).ok().unwrap();
    assert_eq!(lines, vec!["Deleted item 67e55044-10b1-426f-9247-bb680e5fe0c8".to_string()]);
}

#[test]
fn failures_carry_context() {
    let cases = [
        (ItemsCmd::List, "list items failed"),
        (ItemsCmd::Add { content: "a".to_string() }, "add item failed"),
        (ItemsCmd::Update { id: 1, content: "a".to_string() }, "update item failed"),
        (ItemsCmd::Delete { id: 1 }, "delete item failed"),
    ];
    for (cmd, ctx) in cases {
        match items_report(&cmd, Err("HTTP 500".to_string())) {
            Err(e) => {
                assert_eq!(e.context, ctx);
                assert_eq!(e.cause, "HTTP 500");
            }
            Ok(_) => panic!("expected an error"),
        }
    }
}

#[test]
fn greet_call_and_output() {
    let call = run_greet("Ada".to_string());
    assert!(matches!(call.method, HttpMethod::Post));
    assert_eq!(call.path, "/greet");
    assert!(matches!(&call.body, RequestBody::Greet(g) if g.name == "Ada"));
    let lines = greet_report(Ok(GreetResp { message: "Hello, Ada!".to_string() })).ok().unwrap();
    assert_eq!(lines, vec!["Hello, Ada!".to_string()]);
    let e = greet_report(Err("timeout".to_string())).err().unwrap();
    assert_eq!((e.context.as_str(), e.cause.as_str()), ("greet failed", "timeout"));
}

#[test]
fn credentials_failure_context() {
    let e = credentials_error("no token".to_string());
    assert_eq!(e.context, "resolve Tokimo credentials failed");
    assert_eq!(e.cause, "no token");
}
