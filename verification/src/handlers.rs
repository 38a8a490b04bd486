//! The HTTP handlers' decisions: error replies, greeting and echo, the items
//! list / delete replies, and the add-item flow with its optional
//! notification, as a machine from state and event to next state and action.

use vstd::prelude::*;
use vstd::string::*;
use vstd::utf8::encode_utf8;
use crate::text::{is_blank, is_blank_text, uuid_text, fresh_uuid, is_random_uuid, uuid_string};

verus! {

/// An error reply: an HTTP status and the message sent as `{ "error": message }`.
pub struct AppError {
    pub status: u16,
    pub message: String,
}

impl AppError {
    /// A `400 Bad Request` error.
    pub fn bad_request(msg: &str) -> (e: AppError)
        ensures
            e.status == 400,
            e.message@ == msg@,
    {
        AppError { status: 400, message: String::from_str(msg) }
    }

    /// A `500 Internal Server Error` error.
    pub fn internal(msg: &str) -> (e: AppError)
        ensures
            e.status == 500,
            e.message@ == msg@,
    {
        AppError { status: 500, message: String::from_str(msg) }
    }

    /// The error for a failed database call, from the database error's text.
    pub fn from_db(detail: &str) -> (e: AppError)
        ensures
            e.status == 500,
            e.message@ == "db: "@ + detail@,
    {
        proof {
            reveal_strlit("db: ");
        }
        AppError { status: 500, message: String::from_str("db: ").concat(detail) }
    }
}

/// The greeting request: `{ "name": "..." }`.
pub struct GreetReq {
    pub name: String,
}

/// The greeting reply: `{ "message": "..." }`.
pub struct GreetResp {
    pub message: String,
}

/// The greeting for `name`.
pub open spec fn greeting(name: Seq<char>) -> Seq<char> {
    "Hello, "@ + name + "!"@
}

/// Greets the named caller.
pub fn greet(req: GreetReq) -> (resp: GreetResp)
    ensures
        resp.message@ == greeting(req.name@),
{
    proof {
        reveal_strlit("Hello, ");
        reveal_strlit("!");
    }
    GreetResp { message: String::from_str("Hello, ").concat(req.name.as_str()).concat("!") }
}

/// A plain reply: status, optional content type, body bytes.
pub struct Reply {
    pub status: u16,
    pub content_type: Option<String>,
    pub body: Vec<u8>,
}

/// Whether `reply` carries content type `ct`.
pub open spec fn has_content_type(reply: Reply, ct: Seq<char>) -> bool {
    reply.content_type matches Some(t) && t@ == ct
}

/// Answers with the request body unchanged, as an octet stream.
pub fn echo(body: Vec<u8>) -> (reply: Reply)
    ensures
        reply.status == 200,
        has_content_type(reply, "application/octet-stream"@),
        reply.body == body,
{
    Reply { status: 200, content_type: Some(String::from_str("application/octet-stream")), body }
}

/// The data-plane greeting text.
pub open spec fn hello_text() -> Seq<char> {
    "hello from helloworld data-plane\n"@
}

/// The data-plane sample: a fixed text.
pub fn data_hello() -> (reply: Reply)
    ensures
        reply.status == 200,
        has_content_type(reply, "text/plain; charset=utf-8"@),
        reply.body@ == encode_utf8(hello_text()),
{
    let body = "hello from helloworld data-plane\n".as_bytes_vec();
    Reply { status: 200, content_type: Some(String::from_str("text/plain; charset=utf-8")), body }
}

/// A point in time: seconds since the Unix epoch and the nanoseconds past them.
#[derive(Clone, Copy)]
pub struct Timestamp {
    pub secs: i64,
    pub nanos: u32,
}

/// An item as replied: its UUID (as a 128-bit value), its text, its creation time.
pub struct ItemDto {
    pub id: u128,
    pub content: String,
    pub created_at: Timestamp,
}

impl ItemDto {
    /// A copy of the item.
    pub fn duplicate(&self) -> (res: ItemDto)
        ensures
            res == *self,
    {
        ItemDto { id: self.id, content: self.content.clone(), created_at: self.created_at }
    }
}

/// The query behind the item list: the 100 newest items, newest first.
pub fn list_items_statement() -> (stmt: String)
    ensures
        stmt@ == "SELECT id, content, created_at FROM items ORDER BY created_at DESC LIMIT 100"@,
{
    String::from_str("SELECT id, content, created_at FROM items ORDER BY created_at DESC LIMIT 100")
}

/// The statement that stores an item's text (`$1`) and reads the stored row back.
pub fn insert_item_statement() -> (stmt: String)
    ensures
        stmt@ == "INSERT INTO items(content) VALUES ($1) RETURNING id, content, created_at"@,
{
    String::from_str("INSERT INTO items(content) VALUES ($1) RETURNING id, content, created_at")
}

/// The statement that deletes the item whose id is `$1`.
pub fn delete_item_statement() -> (stmt: String)
    ensures
        stmt@ == "DELETE FROM items WHERE id = $1"@,
{
    String::from_str("DELETE FROM items WHERE id = $1")
}

/// The list reply: `{ "items": [...] }`.
pub struct ItemsListResp {
    pub items: Vec<ItemDto>,
}

/// The reply to an item-list query, from what the query gave: the rows in
/// the order the query returned them, or the database error.
pub fn items_list(rows: Result<Vec<ItemDto>, String>) -> (res: Result<ItemsListResp, AppError>)
    ensures
        match rows {
            Ok(items) => (res matches Ok(r) && r.items == items),
            Err(d) => (res matches Err(e) && e.status == 500 && e.message@ == "db: "@ + d@),
        },
{
    match rows {
        Ok(items) => Ok(ItemsListResp { items }),
        Err(d) => Err(AppError::from_db(d.as_str())),
    }
}

/// The delete reply: `{ "deleted": n }`.
pub struct DeleteResp {
    pub deleted: u64,
}

/// The reply to an item deletion, from the number of rows the delete removed
/// or the database error.
pub fn items_delete(rows_affected: Result<u64, String>) -> (res: Result<DeleteResp, AppError>)
    ensures
        match rows_affected {
            Ok(n) => (res matches Ok(r) && r.deleted == n),
            Err(d) => (res matches Err(e) && e.status == 500 && e.message@ == "db: "@ + d@),
        },
{
    match rows_affected {
        Ok(n) => Ok(DeleteResp { deleted: n }),
        Err(d) => Err(AppError::from_db(d.as_str())),
    }
}

/// The add request: `{ "content": "..." }`.
pub struct AddReq {
    pub content: String,
}

/// The notification sent when an item is added.
pub struct Notification {
    pub user_id: Option<String>,
    pub app_id: String,
    pub category_id: String,
    pub category_label: String,
    pub title: String,
    pub body: String,
    pub level: String,
}

/// Who a cross-app call is made for.
pub struct CallerContext {
    pub user_id: Option<String>,
    pub request_id: String,
    pub workspace: Option<String>,
}

/// A call to another app over the bus: `method` of `service`, with the
/// notification as payload, made for `caller`.
pub struct BusCall {
    pub service: String,
    pub method: String,
    pub notification: Notification,
    pub caller: CallerContext,
}

/// `call` announces an item with text `content`, added for `user_id` under
/// `request_id`, to the notification centre's `notify` method.
pub open spec fn is_notify_call(call: BusCall, user_id: Option<String>, request_id: String, content: Seq<char>) -> bool {
    &&& call.service@ == "notification_center"@
    &&& call.method@ == "notify"@
    &&& is_item_added_notification(call.notification, user_id, content)
    &&& call.caller.user_id == user_id
    &&& call.caller.request_id == request_id
    &&& call.caller.workspace is None
}

/// `n` is the notification for an item with text `content` added for `user_id`.
pub open spec fn is_item_added_notification(n: Notification, user_id: Option<String>, content: Seq<char>) -> bool {
    &&& n.user_id == user_id
    &&& n.app_id@ == "helloworld"@
    &&& n.category_id@ == "item_added"@
    &&& n.category_label@ == "helloworld.notifications.itemAdded"@
    &&& n.title@ == "Helloworld"@
    &&& n.body@ == "New item added: "@ + content
    &&& n.level@ == "info"@
}

fn copy_opt(s: &Option<String>) -> (res: Option<String>)
    ensures
        res == *s,
{
    match s {
        Some(t) => Some(t.clone()),
        None => None,
    }
}

/// Builds the notification for an item with text `content` added for `user_id`.
pub fn item_added_notification(user_id: Option<String>, content: &str) -> (n: Notification)
    ensures
        is_item_added_notification(n, user_id, content@),
{
    proof {
        reveal_strlit("New item added: ");
    }
    Notification {
        user_id,
        app_id: String::from_str("helloworld"),
        category_id: String::from_str("item_added"),
        category_label: String::from_str("helloworld.notifications.itemAdded"),
        title: String::from_str("Helloworld"),
        body: String::from_str("New item added: ").concat(content),
        level: String::from_str("info"),
    }
}

/// The request id a call is made under: the one the caller sent, else `fresh`
/// written as a UUID.
pub fn request_id_or(header: Option<String>, fresh: u128) -> (res: String)
    ensures
        match header {
            Some(h) => res == h,
            None => res@ == uuid_text(fresh),
        },
{
    match header {
        Some(h) => h,
        None => uuid_string(fresh),
    }
}

/// Where an add-item request stands.
pub enum AddStage {
    Start,
    Inserting,
    AwaitingClient,
    Dispatching,
    Finished,
}

/// An add-item request in progress. `notify` says whether a notification is
/// sent once the item is stored; `item` is the stored item once there is one.
pub struct AddFlow {
    pub notify: bool,
    pub stage: AddStage,
    pub user_id: Option<String>,
    pub request_id: String,
    pub item: Option<ItemDto>,
}

/// What happened since the last action.
pub enum AddEvent {
    /// The request arrived with this body.
    Received(AddReq),
    /// The item was stored and read back.
    Inserted(ItemDto),
    /// Storing failed with this database error text.
    InsertFailed(String),
    /// A bus client is available for cross-app calls.
    ClientBound,
    /// No bus client is available yet.
    ClientUnbound,
    /// The notification call returned; `delivered` says whether it succeeded.
    Dispatched { delivered: bool },
}

/// What the caller does next.
pub enum AddAction {
    /// Store an item with this text and report back.
    Insert(String),
    /// Look for the bus client and report whether there is one.
    LookUpClient,
    /// Make this bus call and report whether it succeeded.
    Dispatch(BusCall),
    /// Answer the request; nothing more happens.
    Respond(Result<ItemDto, AppError>),
}

impl AddFlow {
    /// Stored items are present in the stages after the insert.
    pub open spec fn wf(self) -> bool {
        (self.stage is AwaitingClient || self.stage is Dispatching) ==> self.item is Some
    }

    /// The events the flow can receive in its current stage.
    pub open spec fn expects(self, event: AddEvent) -> bool {
        match self.stage {
            AddStage::Start => event is Received,
            AddStage::Inserting => event is Inserted || event is InsertFailed,
            AddStage::AwaitingClient => event is ClientBound || event is ClientUnbound,
            AddStage::Dispatching => event is Dispatched,
            AddStage::Finished => false,
        }
    }
}

/// `action` answers with an error of this status and message.
pub open spec fn responds_error(action: AddAction, status: u16, message: Seq<char>) -> bool {
    action matches AddAction::Respond(Err(e)) && e.status == status && e.message@ == message
}

/// One step of an add-item request.
pub open spec fn add_transition(flow: AddFlow, event: AddEvent, next: AddFlow, action: AddAction) -> bool {
    &&& next.notify == flow.notify
    &&& next.user_id == flow.user_id
    &&& next.request_id == flow.request_id
    &&& match event {
        AddEvent::Received(req) => {
            &&& next.item == flow.item
            &&& if is_blank(req.content@) {
                &&& next.stage is Finished
                &&& responds_error(action, 400, "content is empty"@)
            } else {
                &&& next.stage is Inserting
                &&& action matches AddAction::Insert(c) && c@ == req.content@
            }
        },
        AddEvent::Inserted(item) => {
            &&& next.item == Some(item)
            &&& if flow.notify {
                next.stage is AwaitingClient && action is LookUpClient
            } else {
                next.stage is Finished && action == AddAction::Respond(Ok(item))
            }
        },
        AddEvent::InsertFailed(d) => {
            &&& next.item == flow.item
            &&& next.stage is Finished
            &&& responds_error(action, 500, "db: "@ + d@)
        },
        AddEvent::ClientUnbound => {
            &&& next.item == flow.item
            &&& next.stage is Finished
            &&& responds_error(action, 500, "BusClient not yet bound"@)
        },
        AddEvent::ClientBound => {
            &&& next.item == flow.item
            &&& next.stage is Dispatching
            &&& action matches AddAction::Dispatch(call)
                && is_notify_call(call, flow.user_id, flow.request_id, flow.item->Some_0.content@)
        },
        AddEvent::Dispatched { .. } => {
            &&& next.item == flow.item
            &&& next.stage is Finished
            &&& action == AddAction::Respond(Ok(flow.item->Some_0))
        },
    }
}

/// A flow that has not yet received its request.
pub open spec fn is_fresh(flow: AddFlow) -> bool {
    flow.stage is Start && flow.item is None
}

/// Starts a plain add-item request.
pub fn items_add() -> (flow: AddFlow)
    ensures
        is_fresh(flow),
        !flow.notify,
        flow.user_id is None,
{
    AddFlow { notify: false, stage: AddStage::Start, user_id: None, request_id: String::new(), item: None }
}

/// Starts an add-item request that notifies once the item is stored, for the
/// user and request id the caller's headers named. Without a request id a
/// random UUID stands for it.
pub fn items_add_with_notify(user_id: Option<String>, request_id_header: Option<String>) -> (flow: AddFlow)
    ensures
        is_fresh(flow),
        flow.notify,
        flow.user_id == user_id,
        match request_id_header {
            Some(h) => flow.request_id == h,
            None => exists|v: u128| is_random_uuid(v) && flow.request_id@ == #[trigger] uuid_text(v),
        },
{
    let request_id = match request_id_header {
        Some(h) => h,
        None => {
            let v = fresh_uuid();
            let r = request_id_or(None, v);
            assert(is_random_uuid(v) && r@ == uuid_text(v));
            r
        },
    };
    AddFlow { notify: true, stage: AddStage::Start, user_id, request_id, item: None }
}

impl AddFlow {
    /// Takes the next event and returns what to do.
    pub fn step(&mut self, event: AddEvent) -> (action: AddAction)
        requires
            old(self).wf(),
            old(self).expects(event),
        ensures
            final(self).wf(),
            add_transition(*old(self), event, *final(self), action),
    {
        match event {
            AddEvent::Received(req) => {
                if is_blank_text(req.content.as_str()) {
                    self.stage = AddStage::Finished;
                    AddAction::Respond(Err(AppError::bad_request("content is empty")))
                } else {
                    self.stage = AddStage::Inserting;
                    AddAction::Insert(req.content)
                }
            },
            AddEvent::Inserted(item) => {
                let reply = item.duplicate();
                self.item = Some(item);
                if self.notify {
                    self.stage = AddStage::AwaitingClient;
                    AddAction::LookUpClient
                } else {
                    self.stage = AddStage::Finished;
                    AddAction::Respond(Ok(reply))
                }
            },
            AddEvent::InsertFailed(d) => {
                self.stage = AddStage::Finished;
                AddAction::Respond(Err(AppError::from_db(d.as_str())))
            },
            AddEvent::ClientUnbound => {
                self.stage = AddStage::Finished;
                AddAction::Respond(Err(AppError::internal("BusClient not yet bound")))
            },
            AddEvent::ClientBound => {
                let n = match &self.item {
                    Some(item) => item_added_notification(copy_opt(&self.user_id), item.content.as_str()),
                    None => {
                        assert(false);
                        item_added_notification(None, "")
                    },
                };
                let ctx = CallerContext {
                    user_id: copy_opt(&self.user_id),
                    request_id: self.request_id.clone(),
                    workspace: None,
                };
                self.stage = AddStage::Dispatching;
                AddAction::Dispatch(BusCall {
                    service: String::from_str("notification_center"),
                    method: String::from_str("notify"),
                    notification: n,
                    caller: ctx,
                })
            },
            AddEvent::Dispatched { .. } => {
                let reply = match &self.item {
                    Some(item) => item.duplicate(),
                    None => {
                        assert(false);
                        ItemDto { id: 0, content: String::new(), created_at: Timestamp { secs: 0, nanos: 0 } }
                    },
                };
                self.stage = AddStage::Finished;
                AddAction::Respond(Ok(reply))
            },
        }
    }
}

/// Blank item text is refused with `400 content is empty`, and the request
/// ends there: nothing is stored and no further event is taken.
pub proof fn lemma_blank_content_refused(flow: AddFlow, req: AddReq, next: AddFlow, action: AddAction)
    requires
        is_fresh(flow),
        is_blank(req.content@),
        add_transition(flow, AddEvent::Received(req), next, action),
    ensures
        responds_error(action, 400, "content is empty"@),
        !(action is Insert),
        forall|e: AddEvent| !next.expects(e),
{
}

/// Text that is not blank is stored as it was sent, and a plain add answers
/// with the stored item.
pub proof fn lemma_plain_add_answers_stored_item(
    f0: AddFlow,
    req: AddReq,
    f1: AddFlow,
    a1: AddAction,
    item: ItemDto,
    f2: AddFlow,
    a2: AddAction,
)
    requires
        is_fresh(f0),
        !f0.notify,
        !is_blank(req.content@),
        add_transition(f0, AddEvent::Received(req), f1, a1),
        add_transition(f1, AddEvent::Inserted(item), f2, a2),
    ensures
        a1 matches AddAction::Insert(c) && c@ == req.content@,
        a2 == AddAction::Respond(Ok::<ItemDto, AppError>(item)),
        forall|e: AddEvent| !f2.expects(e),
{
}

/// With notification on, a stored item is announced to the notification
/// service, and the request is answered with the stored item whether or not
/// the notification was delivered.
pub proof fn lemma_stored_item_survives_dispatch(
    f0: AddFlow,
    req: AddReq,
    f1: AddFlow,
    a1: AddAction,
    item: ItemDto,
    f2: AddFlow,
    a2: AddAction,
    f3: AddFlow,
    a3: AddAction,
    delivered: bool,
    f4: AddFlow,
    a4: AddAction,
)
    requires
        is_fresh(f0),
        f0.notify,
        !is_blank(req.content@),
        add_transition(f0, AddEvent::Received(req), f1, a1),
        add_transition(f1, AddEvent::Inserted(item), f2, a2),
        add_transition(f2, AddEvent::ClientBound, f3, a3),
        add_transition(f3, AddEvent::Dispatched { delivered }, f4, a4),
    ensures
        a1 matches AddAction::Insert(c) && c@ == req.content@,
        a2 is LookUpClient,
        a3 matches AddAction::Dispatch(call) && is_notify_call(call, f0.user_id, f0.request_id, item.content@),
        a4 == AddAction::Respond(Ok::<ItemDto, AppError>(item)),
        forall|e: AddEvent| !f4.expects(e),
{
}

/// With notification on and no bus client, the item is stored yet the
/// request is answered with `500 BusClient not yet bound`.
pub proof fn lemma_unbound_client_refused(
    f0: AddFlow,
    req: AddReq,
    f1: AddFlow,
    a1: AddAction,
    item: ItemDto,
    f2: AddFlow,
    a2: AddAction,
    f3: AddFlow,
    a3: AddAction,
)
    requires
        is_fresh(f0),
        f0.notify,
        !is_blank(req.content@),
        add_transition(f0, AddEvent::Received(req), f1, a1),
        add_transition(f1, AddEvent::Inserted(item), f2, a2),
        add_transition(f2, AddEvent::ClientUnbound, f3, a3),
    ensures
        a1 is Insert,
        responds_error(a3, 500, "BusClient not yet bound"@),
        forall|e: AddEvent| !f3.expects(e),
{
}

} // verus!
