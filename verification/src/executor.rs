//! The retrying request executor: one logical authenticated call, or a
//! paginated sequence of calls, tolerating server-side token revocation
//! discovered mid-flight.
//!
//! A 401 invalidates the held token, forces one fresh authentication and
//! retries the same request; recovery is attempted at most once per request,
//! so a second consecutive 401 is `AuthenticationFailed`, and any other
//! non-success status is surfaced as `RequestFailed` without retry. A
//! paginated fetch advances an offset cursor page by page, running each page
//! through the same recovery logic, until a page returns zero elements.
//!
//! The executor is driven by the sequence of replies the remote gives, one
//! `RemoteEvent` per request sent, in request order. Sending the requests is
//! the caller's concern; the verified runs below execute the same decision
//! logic against a scripted remote, and `retry_decision` is the single
//! per-response decision a live driver applies. Re-authentication itself is
//! the token cache's transition and is granted within a run; its own
//! failures surface through that transition.

use vstd::prelude::*;

use crate::errors::CoreError;

verus! {

/// What the remote gave back for one request.
pub enum RemoteEvent {
    /// A response arrived with this status, carrying the page's items (one
    /// opaque payload per element; empty for non-list endpoints).
    Reply { status: u16, items: Vec<String> },
    /// The request could not be completed: timeout or connection failure.
    Unreachable,
}

/// The items a reply carries (none for a failed exchange).
pub open spec fn page_items(ev: RemoteEvent) -> Seq<String> {
    match ev {
        RemoteEvent::Reply { status, items } => items@,
        RemoteEvent::Unreachable => Seq::empty(),
    }
}

/// A successful page with at least one item.
pub open spec fn full_page(ev: RemoteEvent) -> bool {
    ev matches RemoteEvent::Reply { status, items } && 200 <= status < 300 && items@.len() > 0
}

/// A successful page with no items: the end of a listing.
pub open spec fn empty_page(ev: RemoteEvent) -> bool {
    ev matches RemoteEvent::Reply { status, items } && 200 <= status < 300 && items@.len() == 0
}

/// What the executor does with one response.
#[derive(Clone, Copy, Debug, PartialEq, Eq, Structural)]
pub enum RetryDecision {
    /// A success: use the response.
    Accept,
    /// An unexpected 401 and recovery not yet spent: invalidate the held
    /// token, authenticate afresh, and resend the same request.
    ReauthAndRetry,
    /// Give up with this error.
    Fail(CoreError),
}

/// The executor's decision on a response with the given status, when
/// `recovered` says whether this request already spent its one recovery.
pub open spec fn spec_retry_decision(status: u16, recovered: bool) -> RetryDecision {
    if 200 <= status < 300 {
        RetryDecision::Accept
    } else if status == 401 && !recovered {
        RetryDecision::ReauthAndRetry
    } else if status == 401 {
        RetryDecision::Fail(CoreError::AuthenticationFailed)
    } else {
        RetryDecision::Fail(CoreError::RequestFailed(status))
    }
}

/// The single per-response decision: only 401 triggers the recovery path,
/// recovery is spent after one use, and every other non-success status
/// fails without retry.
pub fn retry_decision(status: u16, recovered: bool) -> (d: RetryDecision)
    ensures
        d == spec_retry_decision(status, recovered),
{
    if 200 <= status && status < 300 {
        RetryDecision::Accept
    } else if status == 401 && !recovered {
        RetryDecision::ReauthAndRetry
    } else if status == 401 {
        RetryDecision::Fail(CoreError::AuthenticationFailed)
    } else {
        RetryDecision::Fail(CoreError::RequestFailed(status))
    }
}

/// Model of one request against a scripted remote, starting at script
/// position `pos`: (position after the exchange, requests sent,
/// re-authentications forced, outcome). A script that runs out answers like
/// an unreachable remote.
pub open spec fn spec_request(script: Seq<RemoteEvent>, pos: int, recovered: bool) -> (
    int,
    int,
    int,
    Result<Seq<String>, CoreError>,
)
    decreases script.len() - pos,
{
    if !(0 <= pos < script.len()) {
        (pos, 1, 0, Err(CoreError::TransportError))
    } else {
        match script[pos] {
            RemoteEvent::Unreachable => (pos + 1, 1, 0, Err(CoreError::TransportError)),
            RemoteEvent::Reply { status, items } => {
                if 200 <= status < 300 {
                    (pos + 1, 1, 0, Ok(items@))
                } else if status == 401 && !recovered {
                    let (p, n, a, r) = spec_request(script, pos + 1, true);
                    (p, 1 + n, 1 + a, r)
                } else if status == 401 {
                    (pos + 1, 1, 0, Err(CoreError::AuthenticationFailed))
                } else {
                    (pos + 1, 1, 0, Err(CoreError::RequestFailed(status)))
                }
            },
        }
    }
}

/// Model of a paginated fetch from script position `pos`: pages are
/// requested through `spec_request` until one comes back empty, and their
/// items are concatenated in request order.
pub open spec fn spec_paged(script: Seq<RemoteEvent>, pos: int) -> (
    int,
    int,
    int,
    Result<Seq<String>, CoreError>,
)
    decreases script.len() - pos,
{
    let (p, n, a, r) = spec_request(script, pos, false);
    match r {
        Result::Err(e) => (p, n, a, Err(e)),
        Result::Ok(items) => {
            if items.len() == 0 {
                (p, n, a, Ok(Seq::empty()))
            } else if !(pos < p <= script.len()) {
                // A successful request always advances within the script;
                // this branch is unreachable.
                (p, n, a, Err(CoreError::TransportError))
            } else {
                let (p2, n2, a2, r2) = spec_paged(script, p);
                match r2 {
                    Result::Ok(rest) => (p2, n + n2, a + a2, Ok(items + rest)),
                    Result::Err(e) => (p2, n + n2, a + a2, Err(e)),
                }
            }
        },
    }
}

/// One request sends one or two requests (two exactly when it recovers from
/// a 401), forces at most one re-authentication, and never moves the
/// position backwards nor past the script's end; success always consumes at
/// least the answering entry.
pub proof fn lemma_request_bounds(script: Seq<RemoteEvent>, pos: int, recovered: bool)
    requires
        0 <= pos <= script.len(),
    ensures
        ({
            let (p, n, a, r) = spec_request(script, pos, recovered);
            &&& pos <= p <= script.len()
            &&& 1 <= n <= if recovered { 1int } else { 2int }
            &&& 0 <= a <= if recovered { 0int } else { 1int }
            &&& (r is Ok ==> pos < p)
        }),
    decreases script.len() - pos,
{
    if 0 <= pos < script.len() {
        match script[pos] {
            RemoteEvent::Reply { status, items } => {
                if !(200 <= status < 300) && status == 401 && !recovered {
                    lemma_request_bounds(script, pos + 1, true);
                }
            },
            RemoteEvent::Unreachable => {},
        }
    }
}

/// A paginated fetch sends at most two requests per script entry plus one,
/// and never moves the position backwards nor past the script's end.
pub proof fn lemma_paged_bounds(script: Seq<RemoteEvent>, pos: int)
    requires
        0 <= pos <= script.len(),
    ensures
        ({
            let (p, n, a, r) = spec_paged(script, pos);
            &&& pos <= p <= script.len()
            &&& 1 <= n <= 2 * (script.len() - pos) + 2
            &&& 0 <= a <= script.len() - pos + 1
        }),
    decreases script.len() - pos,
{
    lemma_request_bounds(script, pos, false);
    let (p, n, a, r) = spec_request(script, pos, false);
    match r {
        Result::Ok(items) => {
            if items.len() != 0 && pos < p <= script.len() {
                lemma_paged_bounds(script, p);
            }
        },
        Result::Err(_) => {},
    }
}

/// The outcome of one scripted exchange.
pub struct RequestOutcome {
    /// Script position after the exchange.
    pub next: usize,
    /// Requests actually sent.
    pub requests: usize,
    /// Re-authentications forced.
    pub reauths: usize,
    /// The response's items, or the error the executor surfaces.
    pub result: Result<Vec<String>, CoreError>,
}

/// An equal copy of a vector of payloads.
fn clone_items(items: &Vec<String>) -> (r: Vec<String>)
    ensures
        r@ == items@,
{
    let mut r: Vec<String> = Vec::new();
    let mut i: usize = 0;
    while i < items.len()
        invariant
            i <= items@.len(),
            r@.len() == i,
            forall|j: int| 0 <= j < i ==> r@[j] == items@[j],
        decreases items@.len() - i,
    {
        r.push(items[i].clone());
        i = i + 1;
    }
    proof {
        assert(r@ =~= items@);
    }
    r
}

/// Executes one authenticated request against the scripted remote, from
/// script position `pos`, recovering from at most one unexpected 401.
fn run_request_from(script: &Vec<RemoteEvent>, pos: usize, recovered: bool) -> (out:
    RequestOutcome)
    requires
        pos <= script@.len(),
        script@.len() < 0x1000_0000,
    ensures
        ({
            let (p, n, a, r) = spec_request(script@, pos as int, recovered);
            &&& out.next == p
            &&& out.requests == n
            &&& out.reauths == a
            &&& ((out.result matches Ok(v) && r matches Ok(s) && v@ == s) || (
            out.result matches Err(e1) && r matches Err(e2) && e1 == e2))
        }),
    decreases script@.len() - pos,
{
    if pos >= script.len() {
        return RequestOutcome {
            next: pos,
            requests: 1,
            reauths: 0,
            result: Err(CoreError::TransportError),
        };
    }
    match &script[pos] {
        RemoteEvent::Unreachable => RequestOutcome {
            next: pos + 1,
            requests: 1,
            reauths: 0,
            result: Err(CoreError::TransportError),
        },
        RemoteEvent::Reply { status, items } => {
            let status = *status;
            if 200 <= status && status < 300 {
                RequestOutcome {
                    next: pos + 1,
                    requests: 1,
                    reauths: 0,
                    result: Ok(clone_items(items)),
                }
            } else if status == 401 && !recovered {
                proof {
                    lemma_request_bounds(script@, pos as int + 1, true);
                }
                let inner = run_request_from(script, pos + 1, true);
                RequestOutcome {
                    next: inner.next,
                    requests: 1 + inner.requests,
                    reauths: 1 + inner.reauths,
                    result: inner.result,
                }
            } else if status == 401 {
                RequestOutcome {
                    next: pos + 1,
                    requests: 1,
                    reauths: 0,
                    result: Err(CoreError::AuthenticationFailed),
                }
            } else {
                RequestOutcome {
                    next: pos + 1,
                    requests: 1,
                    reauths: 0,
                    result: Err(CoreError::RequestFailed(status)),
                }
            }
        },
    }
}

/// Executes one authenticated request against the scripted remote: sends it,
/// and on an unexpected 401 forces one fresh authentication and retries the
/// same request once.
pub fn run_request(script: &Vec<RemoteEvent>) -> (out: RequestOutcome)
    requires
        script@.len() < 0x1000_0000,
    ensures
        ({
            let (p, n, a, r) = spec_request(script@, 0, false);
            &&& out.next == p
            &&& out.requests == n
            &&& out.reauths == a
            &&& ((out.result matches Ok(v) && r matches Ok(s) && v@ == s) || (
            out.result matches Err(e1) && r matches Err(e2) && e1 == e2))
        }),
{
    run_request_from(script, 0, false)
}

/// Executes a paginated fetch against the scripted remote from position
/// `pos`: pages until one comes back empty, concatenating the items.
fn run_paged_from(script: &Vec<RemoteEvent>, pos: usize) -> (out: RequestOutcome)
    requires
        pos <= script@.len(),
        script@.len() < 0x1000_0000,
    ensures
        ({
            let (p, n, a, r) = spec_paged(script@, pos as int);
            &&& out.next == p
            &&& out.requests == n
            &&& out.reauths == a
            &&& ((out.result matches Ok(v) && r matches Ok(s) && v@ == s) || (
            out.result matches Err(e1) && r matches Err(e2) && e1 == e2))
        }),
    decreases script@.len() - pos,
{
    proof {
        lemma_request_bounds(script@, pos as int, false);
    }
    let first = run_request_from(script, pos, false);
    match first.result {
        Err(e) => RequestOutcome {
            next: first.next,
            requests: first.requests,
            reauths: first.reauths,
            result: Err(e),
        },
        Ok(items) => {
            if items.len() == 0 {
                RequestOutcome {
                    next: first.next,
                    requests: first.requests,
                    reauths: first.reauths,
                    result: Ok(Vec::new()),
                }
            } else {
                proof {
                    lemma_paged_bounds(script@, first.next as int);
                }
                let rest = run_paged_from(script, first.next);
                let mut combined = items;
                match rest.result {
                    Ok(more) => {
                        let mut more = more;
                        combined.append(&mut more);
                        RequestOutcome {
                            next: rest.next,
                            requests: first.requests + rest.requests,
                            reauths: first.reauths + rest.reauths,
                            result: Ok(combined),
                        }
                    },
                    Err(e) => RequestOutcome {
                        next: rest.next,
                        requests: first.requests + rest.requests,
                        reauths: first.reauths + rest.reauths,
                        result: Err(e),
                    },
                }
            }
        },
    }
}

/// Executes a paginated fetch against the scripted remote: repeatedly
/// requests pages, each through the same 401-recovery logic, until a page
/// returns zero elements; the results of all pages are concatenated in
/// request order.
pub fn run_paged_fetch(script: &Vec<RemoteEvent>) -> (out: RequestOutcome)
    requires
        script@.len() < 0x1000_0000,
    ensures
        ({
            let (p, n, a, r) = spec_paged(script@, 0);
            &&& out.next == p
            &&& out.requests == n
            &&& out.reauths == a
            &&& ((out.result matches Ok(v) && r matches Ok(s) && v@ == s) || (
            out.result matches Err(e1) && r matches Err(e2) && e1 == e2))
        }),
{
    run_paged_from(script, 0)
}

/// The items of script entries `from` (inclusive) to `to` (exclusive),
/// concatenated in order.
pub open spec fn pages_concat(script: Seq<RemoteEvent>, from: int, to: int) -> Seq<String>
    decreases to - from,
{
    if from >= to {
        Seq::empty()
    } else {
        page_items(script[from]) + pages_concat(script, from + 1, to)
    }
}

/// Retry-on-401: a remote answering a request with 401 and the retry of
/// that same request with a success makes the executor perform exactly one
/// re-authentication, send exactly two requests, and return the second
/// response's payload.
pub proof fn lemma_retry_on_401(script: Seq<RemoteEvent>)
    requires
        script.len() == 2,
        script[0] matches RemoteEvent::Reply { status, items } && status == 401,
        script[1] matches RemoteEvent::Reply { status, items } && 200 <= status < 300,
    ensures
        spec_request(script, 0, false) == (2int, 2int, 1int, Ok::<Seq<String>, CoreError>(
            page_items(script[1]),
        )),
{
    assert(spec_request(script, 1, true) == (2int, 1int, 0int, Ok::<Seq<String>, CoreError>(
        page_items(script[1]),
    )));
}

/// A second consecutive 401 after the one recovery is terminal: the
/// executor fails with `AuthenticationFailed` instead of retrying again.
pub proof fn lemma_second_401_terminal(script: Seq<RemoteEvent>)
    requires
        script.len() == 2,
        script[0] matches RemoteEvent::Reply { status, items } && status == 401,
        script[1] matches RemoteEvent::Reply { status, items } && status == 401,
    ensures
        spec_request(script, 0, false) == (2int, 2int, 1int, Err::<Seq<String>, CoreError>(
            CoreError::AuthenticationFailed,
        )),
{
    assert(spec_request(script, 1, true) == (2int, 1int, 0int, Err::<Seq<String>, CoreError>(
        CoreError::AuthenticationFailed,
    )));
}

/// Pagination termination: a remote answering with full pages at every
/// position before `n` and an empty page at position `n` makes a paginated
/// fetch send exactly `n + 1` page requests, force no re-authentication,
/// and return the `n` full pages' items concatenated in request order.
pub proof fn lemma_pagination_termination(script: Seq<RemoteEvent>, n: int)
    requires
        script.len() == n + 1,
        0 <= n,
        forall|i: int| 0 <= i < n ==> full_page(#[trigger] script[i]),
        empty_page(script[n]),
    ensures
        spec_paged(script, 0) == (n + 1, n + 1, 0int, Ok::<Seq<String>, CoreError>(
            pages_concat(script, 0, n),
        )),
{
    lemma_paged_suffix(script, 0, n);
}

/// Induction step for pagination: from any position `pos` of a script of
/// full pages ending in one empty page, the fetch sends one request per
/// remaining entry and returns the remaining full pages' items.
proof fn lemma_paged_suffix(script: Seq<RemoteEvent>, pos: int, n: int)
    requires
        script.len() == n + 1,
        0 <= pos <= n,
        forall|i: int| 0 <= i < n ==> full_page(#[trigger] script[i]),
        empty_page(script[n]),
    ensures
        spec_paged(script, pos) == ((n + 1) as int, n + 1 - pos, 0int, Ok::<Seq<String>, CoreError>(
            pages_concat(script, pos, n),
        )),
    decreases n - pos,
{
    if pos == n {
        assert(spec_request(script, pos, false) == (
            pos + 1,
            1int,
            0int,
            Ok::<Seq<String>, CoreError>(page_items(script[pos])),
        ));
    } else {
        assert(full_page(script[pos]));
        assert(spec_request(script, pos, false) == (
            pos + 1,
            1int,
            0int,
            Ok::<Seq<String>, CoreError>(page_items(script[pos])),
        ));
        lemma_paged_suffix(script, pos + 1, n);
    }
}

} // verus!
