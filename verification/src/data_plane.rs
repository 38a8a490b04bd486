//! The data plane: its socket's place and the answers it serves.

use vstd::prelude::*;
use vstd::string::*;
use vstd::utf8::encode_utf8;
use crate::app_server::{BusSocketDir, SocketLocation, SocketPathError, places_in_apps_dir, socket_in_apps_dir};
use crate::handlers::{Reply, has_content_type, hello_text};
use crate::text::same_text;

verus! {

/// The data-plane socket of `service`: `<bus dir>/apps/<service>.data.sock`.
pub fn default_socket_path(bus: BusSocketDir, service: &str) -> (res: Result<SocketLocation, SocketPathError>)
    ensures
        places_in_apps_dir(bus, service@ + ".data.sock"@, res),
{
    proof {
        reveal_strlit(".data.sock");
    }
    socket_in_apps_dir(bus, String::from_str(service).concat(".data.sock"))
}

/// The answer to a data-plane request for `path`: the greeting text at
/// `/hello.txt`, `404 not found` everywhere else.
pub fn handle(path: &str) -> (reply: Reply)
    ensures
        path@ == "/hello.txt"@ ==> reply.status == 200 && has_content_type(reply, "text/plain; charset=utf-8"@)
            && reply.body@ == encode_utf8(hello_text()),
        path@ != "/hello.txt"@ ==> reply.status == 404 && reply.content_type is None
            && reply.body@ == encode_utf8("not found"@),
{
    if same_text(path, "/hello.txt") {
        let body = "hello from helloworld data-plane\n".as_bytes_vec();
        Reply { status: 200, content_type: Some(String::from_str("text/plain; charset=utf-8")), body }
    } else {
        Reply { status: 404, content_type: None, body: "not found".as_bytes_vec() }
    }
}

} // verus!
