use tokimo_app_helloworld::handlers::{
    data_hello, delete_item_statement, echo, greet, insert_item_statement, list_items_statement, item_added_notification, items_add, items_add_with_notify, items_delete, items_list,
    request_id_or, AddAction, AddEvent, AddReq, AddStage, AppError, GreetReq, ItemDto, Timestamp,
};

fn item(id: u128, content: &str) -> ItemDto {
    ItemDto { id, content: content.to_string(), created_at: Timestamp { secs: 1_700_000_000, nanos: 5 } }
}

#[test]
fn app_error_statuses() {
    let e = AppError::bad_request("content is empty");
    assert_eq!((e.status, e.message.as_str()), (400, "content is empty"));
    let e = AppError::internal("boom");
    assert_eq!((e.status, e.message.as_str()), (500, "boom"));
    let e = AppError::from_db("connection refused");
    assert_eq!((e.status, e.message.as_str()), (500, "db: connection refused"));
}

#[test]
fn greet_says_hello() {
    assert_eq!(greet(GreetReq { name: "Ada".to_string() }).message, "Hello, Ada!");
    assert_eq!(greet(GreetReq { name: String::new() }).message, "Hello, !");
}

#[test]
fn echo_returns_body_unchanged() {
    let r = echo(vec![0, 255, 7]);
    assert_eq!(r.status, 200);
    assert_eq!(r.content_type.as_deref(), Some("application/octet-stream"));
    assert_eq!(r.body, vec![0, 255, 7]);
}

#[test]
fn data_hello_text() {
    let r = data_hello();
    assert_eq!(r.status, 200);
    assert_eq!(r.content_type.as_deref(), Some("text/plain; charset=utf-8"));
    assert_eq!(r.body, b"hello from helloworld data-plane\n".to_vec());
}

#[test]
fn items_list_keeps_rows_in_order() {
    let resp = items_list(Ok(vec![item(2, "b"), item(1, "a")])).ok().expect("ok");
    assert_eq!(resp.items.len(), 2);
    assert_eq!((resp.items[0].id, resp.items[0].content.as_str()), (2, "b"));
    assert_eq!((resp.items[1].id, resp.items[1].content.as_str()), (1, "a"));
}

#[test]
fn items_list_db_error() {
    let e = items_list(Err("timeout".to_string())).err().expect("err");
    assert_eq!((e.status, e.message.as_str()), (500, "db: timeout"));
}

#[test]
fn items_delete_reports_rows() {
    assert_eq!(items_delete(Ok(1)).ok().expect("ok").deleted, 1);
    assert_eq!(items_delete(Ok(0)).ok().expect("ok").deleted, 0);
    let e = items_delete(Err("gone".to_string())).err().expect("err");
    assert_eq!(e.message, "db: gone");
}

#[test]
fn notification_fields() {
    let n = item_added_notification(Some("u-1".to_string()), "milk");
    assert_eq!(n.user_id.as_deref(), Some("u-1"));
    assert_eq!(n.app_id, "helloworld");
    assert_eq!(n.category_id, "item_added");
    assert_eq!(n.category_label, "helloworld.notifications.itemAdded");
    assert_eq!(n.title, "Helloworld");
    assert_eq!(n.body, "New item added: milk");
    assert_eq!(n.level, "info");
}

#[test]
fn request_id_prefers_header() {
    assert_eq!(request_id_or(Some("req-9".to_string()), 0), "req-9");
    assert_eq!(request_id_or(None, 0x0123456789abcdef0123456789abcdef), "01234567-89ab-cdef-0123-456789abcdef");
}

#[test]
fn plain_add_stores_and_answers_item() {
    let mut flow = items_add();
    match flow.step(AddEvent::Received(AddReq { content: "buy milk".to_string() })) {
        AddAction::Insert(c) => assert_eq!(c, "buy milk"),
        _ => panic!("expected insert"),
    }
    match flow.step(AddEvent::Inserted(item(7, "buy milk"))) {
        AddAction::Respond(Ok(dto)) => assert_eq!((dto.id, dto.content.as_str()), (7, "buy milk")),
        _ => panic!("expected the item"),
    }
    assert!(matches!(flow.stage, AddStage::Finished));
}

#[test]
fn blank_content_is_refused() {
    for blank in ["", "   ", "\t\n", "\u{3000}"] {
        let mut flow = items_add_with_notify(None, Some("r".to_string()));
        match flow.step(AddEvent::Received(AddReq { content: blank.to_string() })) {
            AddAction::Respond(Err(e)) => assert_eq!((e.status, e.message.as_str()), (400, "content is empty")),
            _ => panic!("expected a refusal"),
        }
        assert!(matches!(flow.stage, AddStage::Finished));
    }
}

#[test]
fn insert_failure_is_internal_error() {
    let mut flow = items_add();
    flow.step(AddEvent::Received(AddReq { content: "x".to_string() }));
    match flow.step(AddEvent::InsertFailed("unique violation".to_string())) {
        AddAction::Respond(Err(e)) => assert_eq!((e.status, e.message.as_str()), (500, "db: unique violation")),
        _ => panic!("expected an error"),
    }
}

#[test]
fn notify_flow_answers_item_even_if_dispatch_fails() {
    for delivered in [true, false] {
        let mut flow = items_add_with_notify(Some("user-1".to_string()), Some("req-1".to_string()));
        assert!(matches!(flow.step(AddEvent::Received(AddReq { content: " tea ".to_string() })), AddAction::Insert(_)));
        assert!(matches!(flow.step(AddEvent::Inserted(item(3, " tea "))), AddAction::LookUpClient));
        match flow.step(AddEvent::ClientBound) {
            AddAction::Dispatch(call) => {
                assert_eq!(call.service, "notification_center");
                assert_eq!(call.method, "notify");
                assert_eq!(call.notification.body, "New item added:  tea ");
                assert_eq!(call.notification.user_id.as_deref(), Some("user-1"));
                assert_eq!(call.caller.user_id.as_deref(), Some("user-1"));
                assert_eq!(call.caller.request_id, "req-1");
                assert!(call.caller.workspace.is_none());
            }
            _ => panic!("expected a dispatch"),
        }
        match flow.step(AddEvent::Dispatched { delivered }) {
            AddAction::Respond(Ok(dto)) => assert_eq!((dto.id, dto.content.as_str()), (3, " tea ")),
            _ => panic!("expected the item"),
        }
    }
}

#[test]
fn notify_flow_without_client_is_internal_error() {
    let mut flow = items_add_with_notify(None, Some("r".to_string()));
    flow.step(AddEvent::Received(AddReq { content: "x".to_string() }));
    flow.step(AddEvent::Inserted(item(1, "x")));
    match flow.step(AddEvent::ClientUnbound) {
        AddAction::Respond(Err(e)) => assert_eq!((e.status, e.message.as_str()), (500, "BusClient not yet bound")),
        _ => panic!("expected an error"),
    }
}

#[test]
fn notify_flow_makes_request_id_when_missing() {
    let flow = items_add_with_notify(None, None);
    let id = flow.request_id.clone();
    assert_eq!(id.len(), 36);
    assert_eq!(id.as_bytes()[14], b'4');
    assert!(matches!(id.as_bytes()[19], b'8' | b'9' | b'a' | b'b'));
    assert!(flow.notify);
}

#[test]
fn item_statements() {
    assert_eq!(list_items_statement(), "SELECT id, content, created_at FROM items ORDER BY created_at DESC LIMIT 100");
    assert_eq!(insert_item_statement(), "INSERT INTO items(content) VALUES ($1) RETURNING id, content, created_at");
    assert_eq!(delete_item_statement(), "DELETE FROM items WHERE id = $1");
}
