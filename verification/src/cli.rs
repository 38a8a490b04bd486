//! The command-line client: which call each command makes, and what it
//! prints from the reply.

use vstd::prelude::*;
use vstd::string::*;
use crate::handlers::{GreetReq, GreetResp};
use crate::text::{pad_right, lemma_pad_right_keeps_text, left_aligned, uuid_text, uuid_string, lemma_uuid_text_len};

verus! {

/// The `items` subcommands.
pub enum ItemsCmd {
    List,
    Add { content: String },
    Update { id: u128, content: String },
    Delete { id: u128 },
}

/// HTTP methods the client uses.
pub enum HttpMethod {
    Get,
    Post,
    Put,
    Delete,
}

/// The body `{ "content": "..." }` of an add or update.
pub struct ItemContentReq {
    pub content: String,
}

/// What a call sends.
pub enum RequestBody {
    Empty,
    Content(ItemContentReq),
    Greet(GreetReq),
}

/// A call to the app's HTTP API.
pub struct ApiCall {
    pub method: HttpMethod,
    pub path: String,
    pub body: RequestBody,
}

/// An item as the client receives it; `created_at` is its RFC 3339 text.
pub struct ListedItem {
    pub id: u128,
    pub content: String,
    pub created_at: String,
}

/// What a successful call answered.
pub enum ItemsReply {
    Listed(Vec<ListedItem>),
    Item(ListedItem),
    Deleted,
}

/// A failed command: what was being done, and the cause.
pub struct CliError {
    pub context: String,
    pub cause: String,
}

/// The API path of item `id`.
pub open spec fn item_path(id: u128) -> Seq<char> {
    "/items/"@ + uuid_text(id)
}

/// `call` is the call that `cmd` makes.
pub open spec fn is_call_for(cmd: ItemsCmd, call: ApiCall) -> bool {
    match cmd {
        ItemsCmd::List => call.method is Get && call.path@ == "/items"@ && call.body is Empty,
        ItemsCmd::Add { content } => call.method is Post && call.path@ == "/items"@
            && (call.body matches RequestBody::Content(b) && b.content@ == content@),
        ItemsCmd::Update { id, content } => call.method is Put && call.path@ == item_path(id)
            && (call.body matches RequestBody::Content(b) && b.content@ == content@),
        ItemsCmd::Delete { id } => call.method is Delete && call.path@ == item_path(id) && call.body is Empty,
    }
}

fn item_path_string(id: u128) -> (p: String)
    ensures
        p@ == item_path(id),
{
    proof {
        reveal_strlit("/items/");
    }
    let text = uuid_string(id);
    String::from_str("/items/").concat(text.as_str())
}

/// The call an `items` command makes.
pub fn run_items(cmd: &ItemsCmd) -> (call: ApiCall)
    ensures
        is_call_for(*cmd, call),
{
    match cmd {
        ItemsCmd::List => ApiCall { method: HttpMethod::Get, path: String::from_str("/items"), body: RequestBody::Empty },
        ItemsCmd::Add { content } => ApiCall {
            method: HttpMethod::Post,
            path: String::from_str("/items"),
            body: RequestBody::Content(ItemContentReq { content: content.clone() }),
        },
        ItemsCmd::Update { id, content } => ApiCall {
            method: HttpMethod::Put,
            path: item_path_string(*id),
            body: RequestBody::Content(ItemContentReq { content: content.clone() }),
        },
        ItemsCmd::Delete { id } => ApiCall {
            method: HttpMethod::Delete,
            path: item_path_string(*id),
            body: RequestBody::Empty,
        },
    }
}

/// A line of the item table: the id in 36 columns, the creation time in 25,
/// then the text, two spaces apart.
pub open spec fn table_line(id: Seq<char>, created_at: Seq<char>, content: Seq<char>) -> Seq<char> {
    pad_right(id, 36) + "  "@ + pad_right(created_at, 25) + "  "@ + content
}

/// The table heading.
pub open spec fn table_heading() -> Seq<char> {
    table_line("ID"@, "Created At"@, "Content"@)
}

/// The table line of an item.
pub open spec fn item_line(item: ListedItem) -> Seq<char> {
    table_line(uuid_text(item.id), item.created_at@, item.content@)
}

/// The columns of the item table line up: in the heading and in the line of
/// every item whose creation time fits its 25 columns, the text column starts
/// 65 characters in.
pub proof fn lemma_table_columns_line_up(item: ListedItem)
    requires
        item.created_at@.len() <= 25,
    ensures
        table_heading().len() == 65 + "Content"@.len(),
        table_heading().skip(65) == "Content"@,
        item_line(item).len() == 65 + item.content@.len(),
        item_line(item).skip(65) == item.content@,
{
    reveal_strlit("ID");
    reveal_strlit("Created At");
    reveal_strlit("Content");
    reveal_strlit("  ");
    lemma_uuid_text_len(item.id);
    let h = table_heading();
    assert(pad_right("ID"@, 36).len() == 36);
    assert(pad_right("Created At"@, 25).len() == 25);
    assert(h.skip(65) =~= "Content"@);
    let l = item_line(item);
    assert(pad_right(uuid_text(item.id), 36).len() == 36);
    assert(pad_right(item.created_at@, 25).len() == 25);
    assert(l.skip(65) =~= item.content@);
}

/// A listing is reported as `No items.` exactly when it is empty; otherwise
/// the heading comes first and then one line per listed item, in order, each
/// starting with the item's id, holding its whole creation time from column
/// 38 on, and ending with its text.
pub proof fn lemma_listing_shows_every_item(cmd: ItemsCmd, items: Vec<ListedItem>)
    ensures
        items@.len() == 0 ==> report_lines(cmd, ItemsReply::Listed(items)) == seq!["No items."@],
        items@.len() > 0 ==> report_lines(cmd, ItemsReply::Listed(items)).len() == items@.len() + 1,
        items@.len() > 0 ==> report_lines(cmd, ItemsReply::Listed(items))[0].subrange(0, 2) == "ID"@,
        forall|j: int| 0 <= j < items@.len() ==> {
            let line = #[trigger] report_lines(cmd, ItemsReply::Listed(items))[j + 1];
            let it = items@[j];
            &&& line.subrange(0, 36) == uuid_text(it.id)
            &&& line.subrange(38, 38 + it.created_at@.len() as int) == it.created_at@
            &&& line.len() >= it.content@.len()
            &&& line.subrange(line.len() - it.content@.len(), line.len() as int) == it.content@
        },
{
    reveal_strlit("ID");
    reveal_strlit("Created At");
    reveal_strlit("Content");
    reveal_strlit("  ");
    let lines = report_lines(cmd, ItemsReply::Listed(items));
    if items@.len() > 0 {
        lemma_pad_right_keeps_text("ID"@, 36);
        assert(lines[0] == table_heading());
        assert(lines[0].subrange(0, 2) =~= "ID"@);
    }
    assert forall|j: int| 0 <= j < items@.len() implies {
        let line = #[trigger] report_lines(cmd, ItemsReply::Listed(items))[j + 1];
        let it = items@[j];
        &&& line.subrange(0, 36) == uuid_text(it.id)
        &&& line.subrange(38, 38 + it.created_at@.len() as int) == it.created_at@
        &&& line.len() >= it.content@.len()
        &&& line.subrange(line.len() - it.content@.len(), line.len() as int) == it.content@
    } by {
        let it = items@[j];
        let line = lines[j + 1];
        assert(line == item_line(it));
        lemma_uuid_text_len(it.id);
        lemma_pad_right_keeps_text(uuid_text(it.id), 36);
        lemma_pad_right_keeps_text(it.created_at@, 25);
        let a = pad_right(uuid_text(it.id), 36);
        let b = pad_right(it.created_at@, 25);
        assert(a =~= uuid_text(it.id));
        assert(line =~= a + "  "@ + b + "  "@ + it.content@);
        assert(line.subrange(0, 36) =~= uuid_text(it.id));
        assert(line.subrange(38, 38 + it.created_at@.len() as int) =~= b.subrange(0, it.created_at@.len() as int));
        assert(line.subrange(line.len() - it.content@.len(), line.len() as int) =~= it.content@);
    }
}

/// `reply` is a reply that the call of `cmd` can give.
pub open spec fn reply_fits(cmd: ItemsCmd, reply: ItemsReply) -> bool {
    match cmd {
        ItemsCmd::List => reply is Listed,
        ItemsCmd::Add { .. } => reply is Item,
        ItemsCmd::Update { .. } => reply is Item,
        ItemsCmd::Delete { .. } => reply is Deleted,
    }
}

/// What is being done when `cmd` fails.
pub open spec fn failure_context(cmd: ItemsCmd) -> Seq<char> {
    match cmd {
        ItemsCmd::List => "list items failed"@,
        ItemsCmd::Add { .. } => "add item failed"@,
        ItemsCmd::Update { .. } => "update item failed"@,
        ItemsCmd::Delete { .. } => "delete item failed"@,
    }
}

/// The lines `cmd` prints after its call answered `reply`.
pub open spec fn report_lines(cmd: ItemsCmd, reply: ItemsReply) -> Seq<Seq<char>> {
    match reply {
        ItemsReply::Listed(items) => if items@.len() == 0 {
            seq!["No items."@]
        } else {
            seq![table_heading()] + items@.map_values(|it: ListedItem| item_line(it))
        },
        ItemsReply::Item(item) => match cmd {
            ItemsCmd::Update { .. } => seq!["Updated item "@ + uuid_text(item.id) + ": "@ + item.content@],
            _ => seq!["Added item "@ + uuid_text(item.id) + ": "@ + item.content@],
        },
        ItemsReply::Deleted => match cmd {
            ItemsCmd::Delete { id } => seq!["Deleted item "@ + uuid_text(id)],
            _ => seq![],
        },
    }
}

/// The views of printed lines.
pub open spec fn line_views(lines: Seq<String>) -> Seq<Seq<char>> {
    lines.map_values(|l: String| l@)
}

fn table_line_string(id: &str, created_at: &str, content: &str) -> (line: String)
    ensures
        line@ == table_line(id@, created_at@, content@),
{
    proof {
        reveal_strlit("  ");
    }
    let a = left_aligned(id, 36);
    let b = left_aligned(created_at, 25);
    a.concat("  ").concat(b.as_str()).concat("  ").concat(content)
}

fn item_line_string(item: &ListedItem) -> (line: String)
    ensures
        line@ == item_line(*item),
{
    let id = uuid_string(item.id);
    table_line_string(id.as_str(), item.created_at.as_str(), item.content.as_str())
}

fn described(prefix: &str, id: u128, content: &str) -> (line: String)
    ensures
        line@ == prefix@ + uuid_text(id) + ": "@ + content@,
{
    proof {
        reveal_strlit(": ");
    }
    let text = uuid_string(id);
    String::from_str(prefix).concat(text.as_str()).concat(": ").concat(content)
}

fn context_of(cmd: &ItemsCmd) -> (c: String)
    ensures
        c@ == failure_context(*cmd),
{
    match cmd {
        ItemsCmd::List => String::from_str("list items failed"),
        ItemsCmd::Add { .. } => String::from_str("add item failed"),
        ItemsCmd::Update { .. } => String::from_str("update item failed"),
        ItemsCmd::Delete { .. } => String::from_str("delete item failed"),
    }
}

/// What an `items` command prints once its call returned, or the error it
/// fails with.
pub fn items_report(cmd: &ItemsCmd, reply: Result<ItemsReply, String>) -> (res: Result<Vec<String>, CliError>)
    requires
        reply matches Ok(r) ==> reply_fits(*cmd, r),
    ensures
        match reply {
            Ok(r) => (res matches Ok(lines) && line_views(lines@) == report_lines(*cmd, r)
                && (r matches ItemsReply::Listed(items) ==> lines@.len() == if items@.len() == 0 {
                    1
                } else {
                    items@.len() + 1
                })),
            Err(cause) => (res matches Err(e) && e.context@ == failure_context(*cmd) && e.cause == cause),
        },
{
    let r = match reply {
        Err(cause) => {
            return Err(CliError { context: context_of(cmd), cause });
        },
        Ok(r) => r,
    };
    let mut lines: Vec<String> = Vec::new();
    match r {
        ItemsReply::Listed(items) => {
            if items.len() == 0 {
                lines.push(String::from_str("No items."));
                proof {
                    assert(line_views(lines@) =~= report_lines(*cmd, ItemsReply::Listed(items)));
                }
            } else {
                lines.push(table_line_string("ID", "Created At", "Content"));
                let n = items.len();
                let mut i: usize = 0;
                while i < n
                    invariant
                        n == items@.len(),
                        i <= n,
                        lines@.len() == i + 1,
                        lines@[0]@ == table_heading(),
                        forall|j: int| 0 <= j < i ==> #[trigger] lines@[j + 1]@ == item_line(items@[j]),
                    decreases n - i,
                {
                    let line = item_line_string(&items[i]);
                    lines.push(line);
                    i += 1;
                }
                proof {
                    let expected = report_lines(*cmd, ItemsReply::Listed(items));
                    assert(expected.len() == n + 1);
                    assert forall|j: int| 0 <= j < lines@.len() implies #[trigger] line_views(lines@)[j] == expected[j] by {
                        if j > 0 {
                            assert(lines@[(j - 1) + 1]@ == item_line(items@[j - 1]));
                        }
                    }
                    assert(line_views(lines@) =~= expected);
                }
            }
        },
        ItemsReply::Item(item) => {
            let line = match cmd {
                ItemsCmd::Update { .. } => described("Updated item ", item.id, item.content.as_str()),
                _ => described("Added item ", item.id, item.content.as_str()),
            };
            lines.push(line);
            proof {
                assert(line_views(lines@) =~= report_lines(*cmd, ItemsReply::Item(item)));
            }
        },
        ItemsReply::Deleted => {
            let id = match cmd {
                ItemsCmd::Delete { id } => *id,
                _ => 0,
            };
            proof {
                reveal_strlit("Deleted item ");
            }
            let text = uuid_string(id);
            lines.push(String::from_str("Deleted item ").concat(text.as_str()));
            proof {
                assert(line_views(lines@) =~= report_lines(*cmd, ItemsReply::Deleted));
            }
        },
    }
    Ok(lines)
}

/// The call `greet` makes for `name`.
pub fn run_greet(name: String) -> (call: ApiCall)
    ensures
        call.method is Post,
        call.path@ == "/greet"@,
        call.body matches RequestBody::Greet(g) && g.name == name,
{
    ApiCall { method: HttpMethod::Post, path: String::from_str("/greet"), body: RequestBody::Greet(GreetReq { name }) }
}

/// What `greet` prints once its call returned: the greeting, or the error it
/// fails with.
pub fn greet_report(reply: Result<GreetResp, String>) -> (res: Result<Vec<String>, CliError>)
    ensures
        match reply {
            Ok(r) => (res matches Ok(lines) && line_views(lines@) == seq![r.message@]),
            Err(cause) => (res matches Err(e) && e.context@ == "greet failed"@ && e.cause == cause),
        },
{
    match reply {
        Ok(r) => {
            let mut lines: Vec<String> = Vec::new();
            lines.push(r.message);
            proof {
                assert(line_views(lines@) =~= seq![r.message@]);
            }
            Ok(lines)
        },
        Err(cause) => Err(CliError { context: String::from_str("greet failed"), cause }),
    }
}

/// The error when the caller's credentials cannot be resolved.
pub fn credentials_error(cause: String) -> (e: CliError)
    ensures
        e.context@ == "resolve Tokimo credentials failed"@,
        e.cause == cause,
{
    CliError { context: String::from_str("resolve Tokimo credentials failed"), cause }
}

} // verus!
