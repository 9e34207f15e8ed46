//! The queue entry: one pending mutation awaiting remote confirmation.

use vstd::prelude::*;

verus! {

/// HTTP verbs a queued operation may carry.  Anything else stored in an
/// entry's `method` field is an unsupported method and the attempt fails.
#[derive(Clone, Copy, Debug, PartialEq, Eq, Structural)]
pub enum HttpMethod {
    Get,
    Post,
    Put,
    Delete,
}

/// One pending mutation awaiting remote confirmation.
///
/// An entry is immutable except for its retry-tracking fields (`retries`,
/// `last_attempt_at`, `error_message`), which only the dispatcher updates.
/// Timestamps are Unix epoch values; the payload is the serialized request
/// body, stored as text.
#[derive(Debug)]
pub struct QueueEntry {
    pub id: i64,
    pub created_at: i64,
    pub operation_type: String,
    pub endpoint: String,
    pub method: String,
    pub payload: String,
    pub retries: u32,
    pub last_attempt_at: Option<i64>,
    pub error_message: Option<String>,
}

/// The method tag an entry's `method` text denotes, if any.
pub open spec fn spec_parse_method(m: Seq<char>) -> Option<HttpMethod> {
    if m == "GET"@ {
        Some(HttpMethod::Get)
    } else if m == "POST"@ {
        Some(HttpMethod::Post)
    } else if m == "PUT"@ {
        Some(HttpMethod::Put)
    } else if m == "DELETE"@ {
        Some(HttpMethod::Delete)
    } else {
        None
    }
}

/// Whether requests with this method carry a JSON body.
pub open spec fn spec_method_has_body(m: HttpMethod) -> bool {
    m == HttpMethod::Post || m == HttpMethod::Put
}

/// Parse an entry's stored method text into a method tag.
pub fn parse_method(m: &String) -> (r: Option<HttpMethod>)
    ensures
        r == spec_parse_method(m@),
{
    if *m == "GET".to_owned() {
        Some(HttpMethod::Get)
    } else if *m == "POST".to_owned() {
        Some(HttpMethod::Post)
    } else if *m == "PUT".to_owned() {
        Some(HttpMethod::Put)
    } else if *m == "DELETE".to_owned() {
        Some(HttpMethod::Delete)
    } else {
        None
    }
}

/// Whether requests with this method carry a JSON body.
pub fn method_has_body(m: HttpMethod) -> (r: bool)
    ensures
        r == spec_method_has_body(m),
{
    m == HttpMethod::Post || m == HttpMethod::Put
}

impl QueueEntry {
    /// Field-by-field copy.  A derived `Clone` would leave the copy's
    /// contents unspecified to the verifier.
    pub fn duplicate(&self) -> (r: QueueEntry)
        ensures
            r == *self,
    {
        QueueEntry {
            id: self.id,
            created_at: self.created_at,
            operation_type: self.operation_type.clone(),
            endpoint: self.endpoint.clone(),
            method: self.method.clone(),
            payload: self.payload.clone(),
            retries: self.retries,
            last_attempt_at: match &self.last_attempt_at {
                Some(t) => Some(*t),
                None => None,
            },
            error_message: match &self.error_message {
                Some(m) => Some(m.clone()),
                None => None,
            },
        }
    }
}

} // verus!
