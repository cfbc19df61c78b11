//! The request dispatcher: consults the admission ledger once per request
//! and, when the request is admitted, routes it through a fixed route table;
//! when it is denied, answers with the rejection response without looking at
//! the path.

use crate::identity::ClientIdentity;
use crate::ledger::admit_step;
use crate::ledger::admits;
use crate::ledger::Ledger;
use vstd::prelude::*;
use vstd::string::StrSliceExecFns;

verus! {

/// An HTTP-style response: a status code and a body.
pub struct Response {
    pub status: u16,
    pub body: String,
}

/// The status an admitted request receives, by path: the two known routes
/// answer 200, everything else 404.
pub open spec fn route_status(path: Seq<char>) -> u16 {
    if path == "/healthz"@ || path == "/service"@ {
        200
    } else {
        404
    }
}

/// The body an admitted request receives, by path.
pub open spec fn route_body(path: Seq<char>) -> Seq<char> {
    if path == "/healthz"@ {
        "OK"@
    } else if path == "/service"@ {
        "service response"@
    } else {
        "Not Found"@
    }
}

/// The status `handle` answers with: the routed status when the ledger
/// admits the request, 429 when it denies it.
pub open spec fn response_status(m: Map<u64, u32>, k: u64, path: Seq<char>) -> u16 {
    if admits(m, k) {
        route_status(path)
    } else {
        429
    }
}

/// The body `handle` answers with.
pub open spec fn response_body(m: Map<u64, u32>, k: u64, path: Seq<char>) -> Seq<char> {
    if admits(m, k) {
        route_body(path)
    } else {
        "Too many requests"@
    }
}

/// Character-for-character string equality, decided without assuming
/// anything about either argument.
fn str_eq(a: &str, b: &str) -> (r: bool)
    ensures
        r == (a@ == b@),
{
    let an = a.unicode_len();
    let bn = b.unicode_len();
    if an != bn {
        return false;
    }
    let mut i: usize = 0;
    while i < an
        invariant
            an == a@.len(),
            an == b@.len(),
            i <= an,
            forall|j: int| 0 <= j < i ==> a@[j] == b@[j],
        decreases an - i,
    {
        if a.get_char(i) != b.get_char(i) {
            return false;
        }
        i += 1;
    }
    proof {
        assert(a@ =~= b@);
    }
    true
}

/// Routes an admitted request through the static route table. The table is
/// fixed and read-only, so the response is a function of the path alone.
pub fn route(path: &str) -> (r: Response)
    ensures
        r.status == route_status(path@),
        r.body@ == route_body(path@),
{
    if str_eq(path, "/healthz") {
        Response { status: 200, body: "OK".to_owned() }
    } else if str_eq(path, "/service") {
        Response { status: 200, body: "service response".to_owned() }
    } else {
        Response { status: 404, body: "Not Found".to_owned() }
    }
}

/// Handles one request: asks the ledger to admit `id`, then either routes
/// `path` or answers 429 "Too many requests" with the path never inspected.
/// The ledger is updated exactly as one `try_admit` call updates it.
pub fn handle(ledger: &mut Ledger, id: ClientIdentity, path: &str) -> (r: Response)
    ensures
        final(ledger)@ == admit_step(old(ledger)@, id.key_spec()),
        r.status == response_status(old(ledger)@, id.key_spec(), path@),
        r.body@ == response_body(old(ledger)@, id.key_spec(), path@),
{
    if ledger.try_admit(id) {
        route(path)
    } else {
        Response { status: 429, body: "Too many requests".to_owned() }
    }
}

/// Idempotent routing: whenever a request is admitted, its response is
/// determined by the path alone; neither the ledger state nor the identity
/// shows in it. In particular, any path outside the route table always
/// answers 404 "Not Found".
pub proof fn lemma_idempotent_routing(
    m1: Map<u64, u32>,
    m2: Map<u64, u32>,
    k1: u64,
    k2: u64,
    path: Seq<char>,
)
    requires
        admits(m1, k1),
        admits(m2, k2),
    ensures
        response_status(m1, k1, path) == route_status(path),
        response_body(m1, k1, path) == route_body(path),
        response_status(m1, k1, path) == response_status(m2, k2, path),
        response_body(m1, k1, path) == response_body(m2, k2, path),
        path != "/healthz"@ && path != "/service"@ ==> response_status(m1, k1, path) == 404
            && response_body(m1, k1, path) == "Not Found"@,
{
}

/// Rejection short-circuits routing: once a key's quota is exhausted, every
/// path — the known routes included — answers 429 "Too many requests", and
/// the ledger state no longer changes, so the same holds of every later
/// request under that key.
pub proof fn lemma_rejection_short_circuits(m: Map<u64, u32>, k: u64, path: Seq<char>)
    requires
        !admits(m, k),
    ensures
        response_status(m, k, path) == 429,
        response_body(m, k, path) == "Too many requests"@,
        admit_step(m, k) == m,
{
    crate::ledger::lemma_rejection_permanent(m, k);
}

} // verus!

