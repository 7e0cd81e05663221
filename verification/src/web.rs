use vstd::prelude::*;
use vstd::string::StringSliceAdditionalSpecFns;
use crate::text::{decimal, decimal_text};

verus! {

/// Whether the bytes begin with the given bytes.
pub open spec fn begins_with(bytes: Seq<u8>, prefix: Seq<u8>) -> bool {
    prefix.len() <= bytes.len() && bytes.subrange(0, prefix.len() as int) == prefix
}

pub fn starts_with(bytes: &[u8], prefix: &[u8]) -> (found: bool)
    ensures
        found == begins_with(bytes@, prefix@),
{
    if prefix.len() > bytes.len() {
        return false;
    }
    let mut i: usize = 0;
    while i < prefix.len()
        invariant
            i <= prefix@.len(),
            prefix@.len() <= bytes@.len(),
            forall|k: int| 0 <= k < i ==> bytes@[k] == prefix@[k],
        decreases prefix@.len() - i,
    {
        if bytes[i] != prefix[i] {
            assert(bytes@.subrange(0, prefix@.len() as int)[i as int] != prefix@[i as int]);
            return false;
        }
        i = i + 1;
    }
    assert(bytes@.subrange(0, prefix@.len() as int) =~= prefix@);
    true
}

/// What a request is answered with: the status line, the file whose content
/// is sent, and for how many seconds the answer is held back.
pub struct Route {
    pub status_line: &'static str,
    pub filename: &'static str,
    pub delay_seconds: u64,
}

/// How a request of the given bytes is answered: the start page for a request
/// of the root, the same after five seconds for a request of the slow page,
/// and the page for what is not there for everything else.
pub open spec fn routed(request: Seq<u8>, status_line: Seq<char>, filename: Seq<char>, delay: u64) -> bool {
    if begins_with(request, "GET / HTTP/1.1\r\n".spec_bytes()) {
        status_line == "HTTP/1.1 200 OK"@ && filename == "resources/index.html"@ && delay == 0
    } else if begins_with(request, "GET /big_slep HTTP/1.1\r\n".spec_bytes()) {
        status_line == "HTTP/1.1 200 OK"@ && filename == "resources/index.html"@ && delay == 5
    } else {
        status_line == "HTTP/1.1 404 NOT FOUND"@ && filename == "resources/404.html"@ && delay
            == 0
    }
}

pub fn route(request: &[u8]) -> (route: Route)
    ensures
        routed(request@, route.status_line@, route.filename@, route.delay_seconds),
{
    let get = "GET / HTTP/1.1\r\n";
    let big_slep = "GET /big_slep HTTP/1.1\r\n";
    if starts_with(request, get.as_bytes()) {
        Route { status_line: "HTTP/1.1 200 OK", filename: "resources/index.html", delay_seconds: 0 }
    } else if starts_with(request, big_slep.as_bytes()) {
        Route { status_line: "HTTP/1.1 200 OK", filename: "resources/index.html", delay_seconds: 5 }
    } else {
        Route {
            status_line: "HTTP/1.1 404 NOT FOUND",
            filename: "resources/404.html",
            delay_seconds: 0,
        }
    }
}

/// The answer: the status line, the length of the content in bytes, an empty
/// line and the content.
pub fn response(status_line: &str, contents: &str) -> (text: String)
    ensures
        text@ == status_line@ + "\r\nContent-Length: "@ + decimal(contents.len() as nat) + "\r\n\r\n"@
            + contents@,
{
    let length = decimal_text(contents.len());
    let mut text = String::from_str(status_line);
    text.append("\r\nContent-Length: ");
    text.append(length.as_str());
    text.append("\r\n\r\n");
    text.append(contents);
    text
}

} // verus!
