//! The request processor: a route table keyed by path and status code, and
//! the lookup that answers a request from it.

use crate::http_type::{append_bytes, response_wire, HttpResponse, HttpVersion};
use vstd::prelude::*;
use vstd::string::*;
use vstd::utf8::encode_utf8;

verus! {

/// The status under which a handler answers a request that reached its path.
pub const STATUS_OK: u16 = 200;

/// The status of the fallback response.
pub const STATUS_NOT_FOUND: u16 = 404;

/// A handler answers every request routed to it with the same bytes.
#[derive(Debug)]
pub struct Handler {
    response: Vec<u8>,
}

impl View for Handler {
    type V = Seq<u8>;

    closed spec fn view(&self) -> Seq<u8> {
        self.response@
    }
}

impl Handler {
    /// A handler that answers with `response`.
    pub fn new(response: Vec<u8>) -> (h: Handler)
        ensures
            h@ == response@,
    {
        Handler { response }
    }

    /// The bytes this handler answers with.
    pub fn respond(&self) -> (out: Vec<u8>)
        ensures
            out@ == self@,
    {
        let mut out: Vec<u8> = Vec::new();
        append_bytes(&mut out, self.response.as_slice());
        out
    }
}

/// One entry of a route table, as contracts see it.
pub ghost struct RouteView {
    pub path: Seq<char>,
    pub status_code: u16,
    pub response: Seq<u8>,
}

struct Route {
    path: String,
    status_code: u16,
    handler: Handler,
}

impl Route {
    spec fn view(&self) -> RouteView {
        RouteView { path: self.path@, status_code: self.status_code, response: self.handler@ }
    }
}

/// Why a request got no answer from the route table.
#[derive(Clone, Copy, Debug, PartialEq, Eq, Structural)]
pub enum ProcessError {
    /// The first line of the request is not `method SP target SP version`.
    BadRequest,
    /// No handler is registered for the target under status 200.
    NotFound,
}

/// The number of leading bytes of `s` that are neither `a` nor `b`.
pub open spec fn span_until(s: Seq<u8>, a: u8, b: u8) -> nat
    decreases s.len(),
{
    if s.len() == 0 || s[0] == a || s[0] == b {
        0
    } else {
        1 + span_until(s.drop_first(), a, b)
    }
}

/// The first line of a request, without its line ending.
pub open spec fn request_line(request: Seq<u8>) -> Seq<u8> {
    request.take(span_until(request, 13u8, 10u8) as int)
}

/// The request target: the second of the space-separated fields of the
/// request line. A line without a method, a target and a second space has none.
pub open spec fn request_target(request: Seq<u8>) -> Option<Seq<u8>> {
    let line = request_line(request);
    let m = span_until(line, 32u8, 32u8);
    if m == 0 || m >= line.len() {
        None
    } else {
        let rest = line.skip(m as int + 1);
        let t = span_until(rest, 32u8, 32u8);
        if t == 0 || t >= rest.len() {
            None
        } else {
            Some(rest.take(t as int))
        }
    }
}

/// Whether a route answers requests for `target` under `status_code`.
pub open spec fn route_matches(route: RouteView, target: Seq<u8>, status_code: u16) -> bool {
    route.status_code == status_code && encode_utf8(route.path) == target
}

/// The response of the first route that matches, in registration order.
pub open spec fn lookup(routes: Seq<RouteView>, target: Seq<u8>, status_code: u16) -> Option<
    Seq<u8>,
>
    decreases routes.len(),
{
    if routes.len() == 0 {
        None
    } else if route_matches(routes[0], target, status_code) {
        Some(routes[0].response)
    } else {
        lookup(routes.drop_first(), target, status_code)
    }
}

/// What a route table answers to the bytes of a request.
pub open spec fn process_spec(routes: Seq<RouteView>, request: Seq<u8>) -> Result<
    Seq<u8>,
    ProcessError,
> {
    match request_target(request) {
        None => Err(ProcessError::BadRequest),
        Some(target) => match lookup(routes, target, STATUS_OK) {
            Some(response) => Ok(response),
            None => Err(ProcessError::NotFound),
        },
    }
}

/// The bytes of the fallback response for a version.
pub open spec fn not_found_wire(version: HttpVersion) -> Seq<u8> {
    response_wire(version, STATUS_NOT_FOUND, "Not Found"@, Seq::empty())
}

/// Whether some route is registered for `path` under `status_code`.
pub open spec fn has_route(routes: Seq<RouteView>, path: Seq<char>, status_code: u16) -> bool {
    exists|i: int|
        0 <= i < routes.len() && (#[trigger] routes[i]).path == path && routes[i].status_code
            == status_code
}

/// A lookup answers with the response of the first route that matches.
pub proof fn lemma_lookup_first(
    routes: Seq<RouteView>,
    i: int,
    target: Seq<u8>,
    status_code: u16,
)
    requires
        0 <= i < routes.len(),
        route_matches(routes[i], target, status_code),
        forall|k: int| 0 <= k < i ==> !route_matches(#[trigger] routes[k], target, status_code),
    ensures
        lookup(routes, target, status_code) == Some(routes[i].response),
    decreases routes.len(),
{
    if i > 0 {
        let rest = routes.drop_first();
        assert(!route_matches(routes[0], target, status_code));
        assert(rest[i - 1] == routes[i]);
        assert forall|k: int| 0 <= k < i - 1 implies !route_matches(
            #[trigger] rest[k],
            target,
            status_code,
        ) by {
            assert(rest[k] == routes[k + 1]);
        }
        lemma_lookup_first(rest, i - 1, target, status_code);
    }
}

/// A lookup finds nothing exactly where no route matches.
pub proof fn lemma_lookup_none(routes: Seq<RouteView>, target: Seq<u8>, status_code: u16)
    ensures
        lookup(routes, target, status_code) is None <==> forall|k: int|
            0 <= k < routes.len() ==> !route_matches(#[trigger] routes[k], target, status_code),
    decreases routes.len(),
{
    if routes.len() > 0 {
        let rest = routes.drop_first();
        lemma_lookup_none(rest, target, status_code);
        if lookup(routes, target, status_code) is None {
            assert forall|k: int| 0 <= k < routes.len() implies !route_matches(
                #[trigger] routes[k],
                target,
                status_code,
            ) by {
                if k > 0 {
                    assert(rest[k - 1] == routes[k]);
                }
            }
        } else if !route_matches(routes[0], target, status_code) {
            let k = choose|k: int|
                0 <= k < rest.len() && route_matches(#[trigger] rest[k], target, status_code);
            assert(routes[k + 1] == rest[k]);
        }
    }
}

/// A lookup by the bytes of a path finds a response exactly where a route is
/// registered for the path under the status code.
pub proof fn lemma_lookup_finds_registered(
    routes: Seq<RouteView>,
    path: Seq<char>,
    status_code: u16,
)
    ensures
        lookup(routes, encode_utf8(path), status_code) is Some <==> has_route(
            routes,
            path,
            status_code,
        ),
    decreases routes.len(),
{
    if routes.len() > 0 {
        let rest = routes.drop_first();
        lemma_lookup_finds_registered(rest, path, status_code);
        vstd::utf8::encode_utf8_decode_utf8(path);
        vstd::utf8::encode_utf8_decode_utf8(routes[0].path);
        if has_route(routes, path, status_code) {
            let i = choose|i: int|
                0 <= i < routes.len() && (#[trigger] routes[i]).path == path
                    && routes[i].status_code == status_code;
            if i > 0 {
                assert(rest[i - 1] == routes[i]);
            }
        }
        if has_route(rest, path, status_code) {
            let i = choose|i: int|
                0 <= i < rest.len() && (#[trigger] rest[i]).path == path && rest[i].status_code
                    == status_code;
            assert(routes[i + 1] == rest[i]);
        }
    }
}

/// A request whose target is a path registered under status 200 is answered
/// by a handler; one whose target is registered nowhere is not found.
pub proof fn lemma_process_serves_registered(
    routes: Seq<RouteView>,
    request: Seq<u8>,
    path: Seq<char>,
)
    requires
        request_target(request) == Some(encode_utf8(path)),
    ensures
        process_spec(routes, request) is Ok <==> has_route(routes, path, STATUS_OK),
        !has_route(routes, path, STATUS_OK) ==> process_spec(routes, request) == Err::<
            Seq<u8>,
            ProcessError,
        >(ProcessError::NotFound),
{
    lemma_lookup_finds_registered(routes, path, STATUS_OK);
}

/// Scans `bytes[from..to]` for the first `a` or `b`.
fn scan_until(bytes: &[u8], from: usize, to: usize, a: u8, b: u8) -> (end: usize)
    requires
        from <= to <= bytes@.len(),
    ensures
        end == from + span_until(bytes@.subrange(from as int, to as int), a, b),
        from <= end <= to,
{
    let ghost whole = bytes@.subrange(from as int, to as int);
    let mut i: usize = from;
    while i < to && bytes[i] != a && bytes[i] != b
        invariant
            from <= i <= to <= bytes@.len(),
            whole == bytes@.subrange(from as int, to as int),
            span_until(whole, a, b) == (i - from) + span_until(
                bytes@.subrange(i as int, to as int),
                a,
                b,
            ),
        decreases to - i,
    {
        proof {
            let cur = bytes@.subrange(i as int, to as int);
            assert(cur.drop_first() =~= bytes@.subrange(i + 1, to as int));
        }
        i = i + 1;
    }
    proof {
        let cur = bytes@.subrange(i as int, to as int);
        assert(span_until(cur, a, b) == 0);
    }
    i
}

/// Whether two byte strings are equal.
fn same_bytes(x: &[u8], y: &[u8]) -> (same: bool)
    ensures
        same == (x@ == y@),
{
    if x.len() != y.len() {
        return false;
    }
    let mut i: usize = 0;
    while i < x.len()
        invariant
            i <= x.len(),
            x@.len() == y@.len(),
            forall|k: int| 0 <= k < i ==> x@[k] == y@[k],
        decreases x.len() - i,
    {
        if x[i] != y[i] {
            return false;
        }
        i = i + 1;
    }
    proof {
        assert(x@ =~= y@);
    }
    true
}

/// Extracts the request target, as the bounds of a range of `request`.
fn locate_target(request: &[u8]) -> (found: Option<(usize, usize)>)
    ensures
        match found {
            Some((from, to)) => from <= to <= request@.len() && request_target(request@) == Some(
                request@.subrange(from as int, to as int),
            ),
            None => request_target(request@) is None,
        },
{
    let line_end = scan_until(request, 0, request.len(), 13u8, 10u8);
    proof {
        assert(request@.subrange(0, request@.len() as int) =~= request@);
        assert(request@.subrange(0, line_end as int) =~= request_line(request@));
    }
    let ghost line = request_line(request@);
    let method_end = scan_until(request, 0, line_end, 32u8, 32u8);
    if method_end == 0 || method_end >= line_end {
        return None;
    }
    let target_end = scan_until(request, method_end + 1, line_end, 32u8, 32u8);
    proof {
        let rest = line.skip(method_end as int + 1);
        assert(rest =~= request@.subrange(method_end + 1, line_end as int));
        assert(rest.take(target_end - (method_end + 1)) =~= request@.subrange(
            method_end + 1,
            target_end as int,
        ));
    }
    if target_end == method_end + 1 || target_end >= line_end {
        return None;
    }
    Some((method_end + 1, target_end))
}

/// The route table of one server.
pub struct HttpProcessor {
    routes: Vec<Route>,
}

impl View for HttpProcessor {
    type V = Seq<RouteView>;

    closed spec fn view(&self) -> Seq<RouteView> {
        Seq::new(self.routes@.len(), |i: int| self.routes@[i].view())
    }
}

impl HttpProcessor {
    /// An empty route table.
    pub fn new() -> (p: HttpProcessor)
        ensures
            p@ == Seq::<RouteView>::empty(),
    {
        let p = HttpProcessor { routes: Vec::new() };
        proof {
            assert(p@ =~= Seq::<RouteView>::empty());
        }
        p
    }

    /// Registers `handler` for `path` under `status_code`, after every route
    /// registered before.
    pub fn add_handler(&mut self, path: String, status_code: u16, handler: Handler)
        ensures
            final(self)@ == old(self)@.push(
                (RouteView { path: path@, status_code, response: handler@ }),
            ),
    {
        let ghost added = RouteView { path: path@, status_code, response: handler@ };
        self.routes.push(Route { path, status_code, handler });
        proof {
            assert(self@ =~= old(self)@.push(added));
        }
    }

    /// Whether no route is registered.
    pub fn is_empty(&self) -> (empty: bool)
        ensures
            empty == (self@.len() == 0),
    {
        self.routes.len() == 0
    }

    /// The number of registered routes.
    pub fn len(&self) -> (n: usize)
        ensures
            n == self@.len(),
    {
        self.routes.len()
    }

    /// Whether a handler is registered for `path` under `status_code`.
    pub fn has_handler(&self, path: &str, status_code: u16) -> (found: bool)
        ensures
            found == has_route(self@, path@, status_code),
    {
        let wanted: String = path.to_owned();
        let mut i: usize = 0;
        while i < self.routes.len()
            invariant
                i <= self.routes@.len(),
                wanted@ == path@,
                forall|k: int|
                    0 <= k < i ==> !((#[trigger] self@[k]).path == path@ && self@[k].status_code
                        == status_code),
            decreases self.routes.len() - i,
        {
            if self.routes[i].status_code == status_code && self.routes[i].path == wanted {
                proof {
                    assert(self@[i as int].path == path@);
                }
                return true;
            }
            i = i + 1;
        }
        false
    }

    /// Answers a request: the response of the first handler registered for
    /// the request target under status 200.
    pub fn process(&self, request: Vec<u8>) -> (answer: Result<Vec<u8>, ProcessError>)
        ensures
            match answer {
                Ok(response) => process_spec(self@, request@) == Ok::<Seq<u8>, ProcessError>(
                    response@,
                ),
                Err(e) => process_spec(self@, request@) == Err::<Seq<u8>, ProcessError>(e),
            },
    {
        let (from, to) = match locate_target(request.as_slice()) {
            Some(bounds) => bounds,
            None => {
                return Err(ProcessError::BadRequest);
            },
        };
        let target = vstd::slice::slice_subrange(request.as_slice(), from, to);
        let mut i: usize = 0;
        proof {
            assert(self@.skip(0) =~= self@);
        }
        while i < self.routes.len()
            invariant
                i <= self.routes@.len(),
                request_target(request@) == Some(target@),
                lookup(self@, target@, STATUS_OK) == lookup(
                    self@.skip(i as int),
                    target@,
                    STATUS_OK,
                ),
            decreases self.routes.len() - i,
        {
            let route = &self.routes[i];
            proof {
                let tail = self@.skip(i as int);
                assert(tail[0] == self@[i as int]);
                assert(self@[i as int] == route.view());
                assert(tail.drop_first() =~= self@.skip(i + 1));
            }
            if route.status_code == STATUS_OK && same_bytes(
                route.path.as_str().as_bytes(),
                target,
            ) {
                return Ok(route.handler.respond());
            }
            i = i + 1;
        }
        Err(ProcessError::NotFound)
    }

    /// The fallback response: `404 Not Found` with an empty body.
    pub fn create_404_response(http_version: &HttpVersion) -> (response: HttpResponse)
        ensures
            response.wire() == not_found_wire(*http_version),
    {
        HttpResponse {
            version: *http_version,
            status_code: STATUS_NOT_FOUND,
            reason: "Not Found".to_owned(),
            body: Vec::new(),
        }
    }
}

} // verus!
