//! Requests that a script sends out over HTTP.
//!
//! A script gets an id for each request at once, and the response under that id later. A request
//! counts as in flight until the script's event loop has taken its response, so that the daemon
//! does not end before the script has seen it.
use vstd::prelude::*;

use crate::codec::{base64_encode, base64_of, lossy_text, text_lossy};
use crate::registry::{count_down, count_up, one_less, one_more};
use crate::text::{digits, push_u64};

verus! {

pub type ReqId = i64;

/// The response to a request, or why there is none.
#[derive(Debug, Clone)]
pub struct HttpOutboundResponseEvent {
    pub req_id: ReqId,
    /// Zero where the request failed.
    pub status: u16,
    pub headers: Vec<(String, String)>,
    pub body_b64: String,
    /// The body as text, with what is no UTF-8 replaced; where the request failed, the failure
    /// behind a mark.
    pub body_text: String,
    pub error: Option<String>,
}

/// Milliseconds that a request may take where the script does not say.
pub const DEFAULT_TIMEOUT_MS: u64 = 60_000;

/// Milliseconds that a request may take, where the script asks for some, if it does, and its profile
/// sets a limit, if it does.
pub open spec fn allowed_ms(asked: Option<u64>, limit: Option<u64>) -> u64 {
    let wanted = match asked {
        Some(ms) => ms,
        None => DEFAULT_TIMEOUT_MS,
    };
    match limit {
        Some(most) => if wanted < most {
            wanted
        } else {
            most
        },
        None => wanted,
    }
}

/// Milliseconds that a request may take: as many as the script asks for, or the default, and no
/// more than its profile sets as a limit.
pub fn request_timeout_ms(asked: Option<u64>, limit: Option<u64>) -> (r: u64)
    ensures
        r == allowed_ms(asked, limit),
        ({
            let wanted = match asked {
                Some(ms) => ms,
                None => DEFAULT_TIMEOUT_MS,
            };
            r == match limit {
                Some(most) => if wanted < most {
                    wanted
                } else {
                    most
                },
                None => wanted,
            }
        }),
{
    let wanted: u64 = match asked {
        Some(ms) => ms,
        None => DEFAULT_TIMEOUT_MS,
    };
    match limit {
        Some(most) => if wanted < most {
            wanted
        } else {
            most
        },
        None => wanted,
    }
}

/// The ids and the number of requests that are in flight.
pub struct DaemonHttpOutbound {
    next_req_id: i64,
    in_flight: usize,
}

/// The request id that follows `id`.
pub open spec fn next_req_after(id: i64) -> i64 {
    if id == i64::MAX {
        i64::MIN
    } else {
        (id + 1) as i64
    }
}

/// How a request went.
pub enum RequestOutcome {
    /// There is a response.
    Response { status: u16, headers: Vec<(String, String)>, body: Vec<u8> },
    /// The request failed.
    Failed(String),
    /// The task that made the request ended early.
    Lost(String),
    /// There was no response after this many milliseconds.
    TimedOut(u64),
}

/// Whether `e` says that request `id` failed with `problem`.
pub open spec fn says_failed(e: HttpOutboundResponseEvent, id: ReqId, problem: Seq<char>) -> bool {
    &&& e.req_id == id
    &&& e.status == 0
    &&& e.headers@.len() == 0
    &&& e.body_b64@.len() == 0
    &&& e.body_text@ == "__HOST_ERR__:"@ + problem
    &&& e.error matches Some(m) && m@ == problem
}

impl DaemonHttpOutbound {
    /// The id that the next request gets.
    pub closed spec fn upcoming(&self) -> i64 {
        self.next_req_id
    }

    /// Requests that are in flight.
    pub closed spec fn flying(&self) -> usize {
        self.in_flight
    }

    /// No requests; ids start at one.
    pub fn new() -> (r: Self)
        ensures
            r.upcoming() == 1,
            r.flying() == 0,
    {
        DaemonHttpOutbound { next_req_id: 1, in_flight: 0 }
    }

    /// Starts a request: its id.
    pub fn request(&mut self) -> (r: ReqId)
        ensures
            r == old(self).upcoming(),
            final(self).upcoming() == next_req_after(old(self).upcoming()),
            final(self).flying() == one_more(old(self).flying()),
    {
        let id: i64 = self.next_req_id;
        self.next_req_id = if id == i64::MAX {
            i64::MIN
        } else {
            id + 1
        };
        self.in_flight = count_up(self.in_flight);
        id
    }

    /// Takes note that the event loop took a response: it is in flight no more.
    pub fn try_recv_response(&mut self, event: Option<HttpOutboundResponseEvent>) -> (r: Option<
        HttpOutboundResponseEvent,
    >)
        ensures
            r == event,
            final(self).upcoming() == old(self).upcoming(),
            final(self).flying() == (if event is Some {
                one_less(old(self).flying())
            } else {
                old(self).flying()
            }),
    {
        if event.is_some() {
            self.in_flight = count_down(self.in_flight);
        }
        event
    }

    /// Requests that are in flight.
    pub fn in_flight_count(&self) -> (r: usize)
        ensures
            r == self.flying(),
    {
        self.in_flight
    }

    /// Whether a request keeps the daemon alive.
    pub fn has_refs(&self) -> (r: bool)
        ensures
            r == (self.flying() > 0),
    {
        self.in_flight > 0
    }
}

fn failure_event(req_id: ReqId, problem: String) -> (r: HttpOutboundResponseEvent)
    ensures
        says_failed(r, req_id, problem@),
{
    let mut body_text = "__HOST_ERR__:".to_owned();
    body_text.append(&problem);
    HttpOutboundResponseEvent {
        req_id,
        status: 0,
        headers: Vec::new(),
        body_b64: String::new(),
        body_text,
        error: Some(problem),
    }
}

/// The event for how request `req_id` went.
pub fn response_event(req_id: ReqId, outcome: RequestOutcome) -> (r: HttpOutboundResponseEvent)
    ensures
        match outcome {
            RequestOutcome::Response { status, headers, body } => {
                &&& r.req_id == req_id
                &&& r.status == status
                &&& r.headers == headers
                &&& r.body_b64@ == base64_of(body@)
                &&& r.body_text@ == lossy_text(body@)
                &&& r.error is None
            },
            RequestOutcome::Failed(problem) => says_failed(r, req_id, problem@),
            RequestOutcome::Lost(problem) => says_failed(r, req_id, "join: "@ + problem@),
            RequestOutcome::TimedOut(ms) => says_failed(
                r,
                req_id,
                "timed out after "@ + digits(ms as nat) + " ms"@,
            ),
        },
{
    match outcome {
        RequestOutcome::Response { status, headers, body } => {
            let body_text = text_lossy(&body);
            let body_b64 = base64_encode(&body);
            HttpOutboundResponseEvent { req_id, status, headers, body_b64, body_text, error: None }
        },
        RequestOutcome::Failed(problem) => failure_event(req_id, problem),
        RequestOutcome::Lost(problem) => {
            let mut m = "join: ".to_owned();
            m.append(&problem);
            failure_event(req_id, m)
        },
        RequestOutcome::TimedOut(ms) => {
            let mut m = "timed out after ".to_owned();
            push_u64(&mut m, ms);
            m.append(" ms");
            failure_event(req_id, m)
        },
    }
}

/// A request is in flight from its start until its response is taken, and then no more.
pub proof fn taking_the_response_ends_the_flight(flying: usize)
    requires
        flying < usize::MAX,
    ensures
        one_more(flying) > 0,
        one_less(one_more(flying)) == flying,
{
}

/// A failed request is told with status zero, no headers and no body, and the failure in both of its
/// places; and ids go up one by one.
pub proof fn failed_requests_are_told(e: HttpOutboundResponseEvent, id: ReqId, problem: Seq<char>)
    requires
        says_failed(e, id, problem),
    ensures
        e.req_id == id,
        e.status == 0,
        e.headers@.len() == 0,
        e.body_b64@.len() == 0,
        e.error matches Some(m) && m@ == problem,
        e.body_text@ == "__HOST_ERR__:"@ + problem,
        id < i64::MAX ==> next_req_after(id) == id + 1,
        DEFAULT_TIMEOUT_MS == 60000,
{
}

/// A request takes no longer than the profile permits, nor than the script asks for, nor than a minute
/// where it does not ask; and it may take all of the least of these.
pub proof fn requests_keep_to_their_time(asked: Option<u64>, limit: Option<u64>)
    ensures
        limit matches Some(most) ==> allowed_ms(asked, limit) <= most,
        asked matches Some(ms) ==> allowed_ms(asked, limit) <= ms,
        asked is None ==> allowed_ms(asked, limit) <= 60000,
        asked matches Some(ms) ==> (limit is None ==> allowed_ms(asked, limit) == ms),
        asked is None && limit is None ==> allowed_ms(asked, limit) == 60000,
        limit matches Some(most) ==> (allowed_ms(asked, limit) < most ==> allowed_ms(asked, limit)
            == allowed_ms(asked, None)),
{
}

} // verus!
