//! The HTTP microservice: routes a request by its path to the health, echo,
//! info and not-found handlers, each of which answers with JSON.
use vstd::prelude::*;
use vstd::string::*;
use vstd::utf8::{decode_utf8, valid_utf8};
use std::time::{Duration, SystemTime};
use crate::text::{chars_of, decimal, occurs_in, push_decimal};

verus! {

broadcast use vstd::string::group_string_axioms;

/// A response: its status code, its `Content-Type` and its body.
pub struct HttpResponse {
    pub status: u16,
    pub content_type: String,
    pub body: String,
}

impl View for HttpResponse {
    type V = (u16, Seq<char>, Seq<char>);

    open spec fn view(&self) -> (u16, Seq<char>, Seq<char>) {
        (self.status, self.content_type@, self.body@)
    }
}

/// The content type of every response the service sends.
pub open spec fn json_type() -> Seq<char> {
    "application/json"@
}

/// The liveness probe's body.
pub open spec fn health_body() -> Seq<char> {
    "{\"status\":\"ok\",\"runtime\":\"wasm\"}"@
}

/// The module description that `/info` returns.
pub open spec fn info_body() -> Seq<char> {
    "{\n  \"name\": \"wasm-microservice\",\n  \"version\": \"1.0.0\",\n  \"runtime\": \"wasmtime\",\n  \"framework\": \"fermyon-spin\",\n  \"language\": \"rust\",\n  \"description\": \"Demo WASM HTTP microservice for cloud-native workshop\"\n}"@
}

/// The text that `/echo` repeats: the request body if it is UTF-8, else a
/// placeholder.
pub open spec fn echo_text(body: Seq<u8>) -> Seq<char> {
    if valid_utf8(body) {
        decode_utf8(body)
    } else {
        "(invalid utf-8)"@
    }
}

/// The body `/echo` answers with, given the seconds since the Unix epoch
/// (`None` when the clock reads earlier than the epoch, which counts as 0).
/// The echoed text is inserted as it is, not quoted.
pub open spec fn echo_body(body: Seq<u8>, secs: Option<u64>) -> Seq<char> {
    let t: u64 = match secs {
        Some(s) => s,
        None => 0u64,
    };
    "{\"echo\":"@ + echo_text(body) + ",\"timestamp\":"@ + decimal(t as nat) + "}"@
}

/// The body of the answer for a path that no handler serves.
pub open spec fn not_found_body(path: Seq<char>) -> Seq<char> {
    "{\"error\":\"not found\",\"path\":\""@ + path + "\"}"@
}

/// Builds a JSON response.
fn json_response(status: u16, body: String) -> (r: HttpResponse)
    ensures
        r@ == (status, json_type(), body@),
{
    HttpResponse { status, content_type: String::from_str("application/json"), body }
}

/// `GET /health`: the liveness probe.
pub fn handle_health() -> (r: HttpResponse)
    ensures
        r@ == (200u16, json_type(), health_body()),
{
    json_response(200, String::from_str("{\"status\":\"ok\",\"runtime\":\"wasm\"}"))
}

/// `GET /info`: describes the module.
pub fn handle_info() -> (r: HttpResponse)
    ensures
        r@ == (200u16, json_type(), info_body()),
{
    json_response(
        200,
        String::from_str(
            "{\n  \"name\": \"wasm-microservice\",\n  \"version\": \"1.0.0\",\n  \"runtime\": \"wasmtime\",\n  \"framework\": \"fermyon-spin\",\n  \"language\": \"rust\",\n  \"description\": \"Demo WASM HTTP microservice for cloud-native workshop\"\n}",
        ),
    )
}

/// The 404 answer for `path`.
pub fn handle_not_found(path: &str) -> (r: HttpResponse)
    ensures
        r@ == (404u16, json_type(), not_found_body(path@)),
{
    let mut body = String::from_str("{\"error\":\"not found\",\"path\":\"");
    body.append(path);
    body.append("\"}");
    assert(body@ =~= not_found_body(path@));
    json_response(404, body)
}

/// `POST /echo` once the clock has been read: repeats the request body with
/// the time in seconds since the Unix epoch.
pub fn echo_response(body: &[u8], secs: Option<u64>) -> (r: HttpResponse)
    ensures
        r@ == (200u16, json_type(), echo_body(body@, secs)),
{
    let text = match utf8_text(body) {
        Some(s) => s,
        None => String::from_str("(invalid utf-8)"),
    };
    let t: u64 = match secs {
        Some(s) => s,
        None => 0,
    };
    let mut out = String::from_str("{\"echo\":");
    out.append(text.as_str());
    out.append(",\"timestamp\":");
    push_decimal(&mut out, t);
    out.append("}");
    assert(out@ =~= echo_body(body@, secs));
    json_response(200, out)
}

/// `POST /echo`: repeats the request body with the current time.
pub fn handle_echo(body: &[u8]) -> (r: HttpResponse)
    ensures
        exists|secs: Option<u64>| r@ == (200u16, json_type(), #[trigger] echo_body(body@, secs)),
{
    let now = clock_now();
    let secs = match elapsed_since_unix_epoch(&now) {
        Some(d) => Some(whole_seconds(&d)),
        None => None,
    };
    echo_response(body, secs)
}

/// Whether two strings hold the same characters.
pub fn same_text(a: &str, b: &str) -> (eq: bool)
    ensures
        eq == (a@ == b@),
{
    let x = chars_of(a);
    let y = chars_of(b);
    if x.len() != y.len() {
        return false;
    }
    let n = x.len();
    let mut i: usize = 0;
    while i < n
        invariant
            x@ == a@,
            y@ == b@,
            n == x@.len(),
            n == y@.len(),
            i <= n,
            forall|k: int| 0 <= k < i ==> x@[k] == y@[k],
        decreases n - i,
    {
        if x[i] != y[i] {
            return false;
        }
        i = i + 1;
    }
    assert(x@ =~= y@);
    true
}

/// The response to a request for `path` with `body`, given the clock
/// reading `secs`, which only `/echo` uses. Nothing else about the request,
/// its method included, enters.
pub open spec fn route_response(path: Seq<char>, body: Seq<u8>, secs: Option<u64>) -> (
    u16,
    Seq<char>,
    Seq<char>,
) {
    if path == "/health"@ {
        (200u16, json_type(), health_body())
    } else if path == "/echo"@ {
        (200u16, json_type(), echo_body(body, secs))
    } else if path == "/info"@ {
        (200u16, json_type(), info_body())
    } else {
        (404u16, json_type(), not_found_body(path))
    }
}

/// Only `/echo` depends on the clock: for any other path, requests with the
/// same path and body get the same response whatever the clock reads.
pub proof fn law_only_echo_reads_the_clock(
    path: Seq<char>,
    body: Seq<u8>,
    secs1: Option<u64>,
    secs2: Option<u64>,
)
    requires
        path != "/echo"@,
    ensures
        route_response(path, body, secs1) == route_response(path, body, secs2),
{
}

/// `/info` answers 200 with JSON that describes the module by all six of its
/// fields, whatever the request body and the clock: its name, version
/// `1.0.0`, the `wasmtime` runtime, the `fermyon-spin` framework, the `rust`
/// language and its description.
pub proof fn law_info_describes_module(body: Seq<u8>, secs: Option<u64>)
    ensures
        route_response("/info"@, body, secs).0 == 200,
        route_response("/info"@, body, secs).1 == json_type(),
        occurs_in(route_response("/info"@, body, secs).2, "\"name\": \"wasm-microservice\""@),
        occurs_in(route_response("/info"@, body, secs).2, "\"version\": \"1.0.0\""@),
        occurs_in(route_response("/info"@, body, secs).2, "\"runtime\": \"wasmtime\""@),
        occurs_in(route_response("/info"@, body, secs).2, "\"framework\": \"fermyon-spin\""@),
        occurs_in(route_response("/info"@, body, secs).2, "\"language\": \"rust\""@),
        occurs_in(route_response("/info"@, body, secs).2, "\"description\": \"Demo WASM HTTP microservice for cloud-native workshop\""@),
{
    reveal_strlit("/health");
    reveal_strlit("/echo");
    reveal_strlit("/info");
    assert("/info"@[1] != "/health"@[1]);
    assert("/info"@[1] != "/echo"@[1]);
    reveal_strlit("{\n  \"name\": \"wasm-microservice\",\n  \"version\": \"1.0.0\",\n  \"runtime\": \"wasmtime\",\n  \"framework\": \"fermyon-spin\",\n  \"language\": \"rust\",\n  \"description\": \"Demo WASM HTTP microservice for cloud-native workshop\"\n}");
    let b = info_body();
    reveal_strlit("\"name\": \"wasm-microservice\"");
    assert(b.subrange(4, 4 + "\"name\": \"wasm-microservice\""@.len() as int) =~= "\"name\": \"wasm-microservice\""@);
    assert(occurs_in(b, "\"name\": \"wasm-microservice\""@));
    reveal_strlit("\"version\": \"1.0.0\"");
    assert(b.subrange(35, 35 + "\"version\": \"1.0.0\""@.len() as int) =~= "\"version\": \"1.0.0\""@);
    assert(occurs_in(b, "\"version\": \"1.0.0\""@));
    reveal_strlit("\"runtime\": \"wasmtime\"");
    assert(b.subrange(57, 57 + "\"runtime\": \"wasmtime\""@.len() as int) =~= "\"runtime\": \"wasmtime\""@);
    assert(occurs_in(b, "\"runtime\": \"wasmtime\""@));
    reveal_strlit("\"framework\": \"fermyon-spin\"");
    assert(b.subrange(82, 82 + "\"framework\": \"fermyon-spin\""@.len() as int) =~= "\"framework\": \"fermyon-spin\""@);
    assert(occurs_in(b, "\"framework\": \"fermyon-spin\""@));
    reveal_strlit("\"language\": \"rust\"");
    assert(b.subrange(113, 113 + "\"language\": \"rust\""@.len() as int) =~= "\"language\": \"rust\""@);
    assert(occurs_in(b, "\"language\": \"rust\""@));
    reveal_strlit("\"description\": \"Demo WASM HTTP microservice for cloud-native workshop\"");
    assert(b.subrange(135, 135 + "\"description\": \"Demo WASM HTTP microservice for cloud-native workshop\""@.len() as int) =~= "\"description\": \"Demo WASM HTTP microservice for cloud-native workshop\""@);
    assert(occurs_in(b, "\"description\": \"Demo WASM HTTP microservice for cloud-native workshop\""@));
}

/// Dispatches a request on its path.
pub fn handle_request(path: &str, body: &[u8]) -> (r: HttpResponse)
    ensures
        exists|secs: Option<u64>| r@ == #[trigger] route_response(path@, body@, secs),
        path@ == "/health"@ ==> r@ == (200u16, json_type(), health_body()),
        path@ == "/echo"@ ==> exists|secs: Option<u64>|
            r@ == (200u16, json_type(), #[trigger] echo_body(body@, secs)),
        path@ == "/info"@ ==> r@ == (200u16, json_type(), info_body()),
        path@ != "/health"@ && path@ != "/echo"@ && path@ != "/info"@ ==> r@ == (
            404u16,
            json_type(),
            not_found_body(path@),
        ),
{
    proof {
        reveal_strlit("/health");
        reveal_strlit("/echo");
        reveal_strlit("/info");
        assert("/info"@[1] != "/health"@[1]);
        assert("/info"@[1] != "/echo"@[1]);
        assert("/echo"@[1] != "/health"@[1]);
    }
    let r = if same_text(path, "/health") {
        handle_health()
    } else if same_text(path, "/echo") {
        handle_echo(body)
    } else if same_text(path, "/info") {
        handle_info()
    } else {
        handle_not_found(path)
    };
    proof {
        if path@ == "/echo"@ {
            let secs = choose|secs: Option<u64>|
                r@ == (200u16, json_type(), #[trigger] echo_body(body@, secs));
            assert(r@ == route_response(path@, body@, secs));
        } else {
            assert(r@ == route_response(path@, body@, None));
        }
    }
    r
}

/// The text that `bytes` encode, if they are valid UTF-8; calls
/// `std::str::from_utf8`, which the documentation says succeeds exactly on
/// valid UTF-8 and then yields the decoded characters.
#[verifier::external_body]
pub(crate) fn utf8_text(bytes: &[u8]) -> (r: Option<String>)
    ensures
        r is Some <==> valid_utf8(bytes@),
        r matches Some(s) ==> s@ == decode_utf8(bytes@),
{
    std::str::from_utf8(bytes).ok().map(|s| s.to_owned())
}

#[verifier::external_type_specification]
#[verifier::external_body]
pub struct ExSystemTime(SystemTime);

/// Reads the system clock with `SystemTime::now`; nothing is promised of the
/// reading.
#[verifier::external_body]
fn clock_now() -> SystemTime {
    SystemTime::now()
}

/// How long after the Unix epoch `t` lies, by `SystemTime::duration_since`;
/// `None` where `t` is earlier. Nothing is stated of the duration, since the
/// reading it comes from is opaque.
#[verifier::external_body]
fn elapsed_since_unix_epoch(t: &SystemTime) -> Option<Duration> {
    t.duration_since(std::time::UNIX_EPOCH).ok()
}

/// The whole seconds of `d`, by `Duration::as_secs`; `Duration` is opaque
/// here, so nothing is stated of the result.
#[verifier::external_body]
fn whole_seconds(d: &Duration) -> u64 {
    d.as_secs()
}

} // verus!
