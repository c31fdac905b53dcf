//! The route table: which handler answers which method and path.

use vstd::prelude::*;
use vstd::utf8::encode_utf8_decode_utf8;

verus! {

/// The request methods a client can send.
#[derive(Clone, Copy, Debug, PartialEq, Eq, Structural)]
pub enum Method {
    Get,
    Put,
    Post,
    Delete,
    Options,
    Head,
    Trace,
    Connect,
    Patch,
}

/// The handlers a route can lead to.
#[derive(Clone, Copy, Debug, PartialEq, Eq, Structural)]
pub enum Handler {
    /// Reports the current load averages.
    LoadAvg,
}

/// One entry of the route table.
#[derive(Clone, Copy, Debug)]
pub struct Route {
    pub method: Method,
    pub path: &'static str,
    pub handler: Handler,
}

impl Route {
    /// A route accepts a request when the method is the same and the path is
    /// the same text, character for character.
    pub open spec fn accepts(self, method: Method, path: Seq<char>) -> bool {
        self.method == method && self.path@ == path
    }
}

/// The handler of the first route in `table` that accepts the request, if any.
pub open spec fn lookup(table: Seq<Route>, method: Method, path: Seq<char>) -> Option<Handler>
    decreases table.len(),
{
    if table.len() == 0 {
        None
    } else if table[0].accepts(method, path) {
        Some(table[0].handler)
    } else {
        lookup(table.drop_first(), method, path)
    }
}

/// The probe's route table: `GET /loadavg` and nothing else.
pub open spec fn probe_routes() -> Seq<Route> {
    seq![Route { method: Method::Get, path: "/loadavg", handler: Handler::LoadAvg }]
}

/// Two byte slices hold the same bytes.
fn same_bytes(a: &[u8], b: &[u8]) -> (r: bool)
    ensures
        r == (a@ == b@),
{
    if a.len() != b.len() {
        return false;
    }
    let mut i: usize = 0;
    while i < a.len()
        invariant
            a@.len() == b@.len(),
            i <= a@.len(),
            forall|j: int| 0 <= j < i ==> a@[j] == b@[j],
        decreases a@.len() - i,
    {
        if a[i] != b[i] {
            return false;
        }
        i += 1;
    }
    assert(a@ =~= b@);
    true
}

/// Two strings hold the same text.
fn same_text(a: &str, b: &str) -> (r: bool)
    ensures
        r == (a@ == b@),
{
    let r = same_bytes(a.as_bytes(), b.as_bytes());
    proof {
        // Texts with the same encoding are the same text.
        encode_utf8_decode_utf8(a@);
        encode_utf8_decode_utf8(b@);
    }
    r
}

/// Builds the probe's route table.
pub fn routes() -> (table: Vec<Route>)
    ensures
        table@ == probe_routes(),
{
    let mut table: Vec<Route> = Vec::new();
    table.push(Route { method: Method::Get, path: "/loadavg", handler: Handler::LoadAvg });
    assert(table@ =~= probe_routes());
    table
}

/// Finds the handler for a request: that of the first route that accepts it.
pub fn route(table: &[Route], method: Method, path: &str) -> (r: Option<Handler>)
    ensures
        r == lookup(table@, method, path@),
{
    let mut i: usize = 0;
    assert(table@.skip(0) =~= table@);
    while i < table.len()
        invariant
            i <= table@.len(),
            lookup(table@, method, path@) == lookup(table@.skip(i as int), method, path@),
        decreases table@.len() - i,
    {
        let entry = &table[i];
        proof {
            let rest = table@.skip(i as int);
            assert(rest[0] == table@[i as int]);
            assert(rest.drop_first() =~= table@.skip(i + 1));
        }
        if entry.method == method && same_text(entry.path, path) {
            return Some(entry.handler);
        }
        i += 1;
    }
    None
}

/// The probe's table sends `GET /loadavg` to the load-average handler and
/// leaves every other method and every other path without a handler.
pub proof fn lemma_only_get_loadavg_is_routed(method: Method, path: Seq<char>)
    ensures
        lookup(probe_routes(), method, path) == if method == Method::Get && path == "/loadavg"@ {
            Some(Handler::LoadAvg)
        } else {
            None::<Handler>
        },
{
    let table = probe_routes();
    assert(table.len() == 1);
    assert(table.drop_first().len() == 0);
    reveal_with_fuel(lookup, 2);
}

} // verus!
