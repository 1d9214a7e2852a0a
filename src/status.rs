use vstd::prelude::*;

verus! {

/// Opaque handle of an HTTP request, assigned by the host when the request
/// is started.
#[derive(Clone, Copy, PartialEq, Eq, Structural, Debug)]
pub struct HttpRequestId(pub u16);

/// What the host reports about one request.
#[derive(Clone, Copy, PartialEq, Eq, Structural, Debug)]
pub enum HttpRequestStatus {
    /// The deadline of the wait passed before the request finished.
    DeadlineReached,
    /// The request itself timed out on the host.
    Timeout,
    /// The host has no record of the request.
    Unknown,
    /// The request finished with the given response status code.
    Finished(u16),
}

/// Wire code of `Unknown`.
pub const UNKNOWN_CODE: u16 = 0;

/// Wire code of `DeadlineReached`.
pub const DEADLINE_REACHED_CODE: u16 = 10;

/// Wire code of `Timeout`.
pub const TIMEOUT_CODE: u16 = 20;

/// Whether `code` is a response status code, as carried by `Finished`.
pub open spec fn is_response_code(code: u16) -> bool {
    100 <= code <= 999
}

/// The status that a wire code stands for, if any. Codes below one hundred
/// are the host's internal states; of those only three are assigned.
pub open spec fn status_of_code(code: u16) -> Option<HttpRequestStatus> {
    if code == UNKNOWN_CODE {
        Some(HttpRequestStatus::Unknown)
    } else if code == DEADLINE_REACHED_CODE {
        Some(HttpRequestStatus::DeadlineReached)
    } else if code == TIMEOUT_CODE {
        Some(HttpRequestStatus::Timeout)
    } else if is_response_code(code) {
        Some(HttpRequestStatus::Finished(code))
    } else {
        None
    }
}

/// The wire code of a status. Defined for every status whose `Finished`
/// code is a response status code.
pub open spec fn code_of_status(s: HttpRequestStatus) -> u16 {
    match s {
        HttpRequestStatus::Unknown => UNKNOWN_CODE,
        HttpRequestStatus::DeadlineReached => DEADLINE_REACHED_CODE,
        HttpRequestStatus::Timeout => TIMEOUT_CODE,
        HttpRequestStatus::Finished(code) => code,
    }
}

/// Whether a status can travel on the wire.
pub open spec fn is_encodable(s: HttpRequestStatus) -> bool {
    match s {
        HttpRequestStatus::Finished(code) => is_response_code(code),
        _ => true,
    }
}

impl HttpRequestStatus {
    /// Parses a wire code. Returns `None` for a code that stands for no
    /// status, rather than guessing one.
    pub fn from_u16(status: u16) -> (r: Option<HttpRequestStatus>)
        ensures
            r == status_of_code(status),
    {
        if status == UNKNOWN_CODE {
            Some(HttpRequestStatus::Unknown)
        } else if status == DEADLINE_REACHED_CODE {
            Some(HttpRequestStatus::DeadlineReached)
        } else if status == TIMEOUT_CODE {
            Some(HttpRequestStatus::Timeout)
        } else if 100 <= status && status <= 999 {
            Some(HttpRequestStatus::Finished(status))
        } else {
            None
        }
    }

    /// Returns the wire code of this status, or `None` for a `Finished`
    /// whose code is no response status code.
    pub fn to_u16(&self) -> (r: Option<u16>)
        ensures
            is_encodable(*self) <==> r.is_some(),
            r.is_some() ==> r == Some(code_of_status(*self)),
    {
        match *self {
            HttpRequestStatus::Unknown => Some(UNKNOWN_CODE),
            HttpRequestStatus::DeadlineReached => Some(DEADLINE_REACHED_CODE),
            HttpRequestStatus::Timeout => Some(TIMEOUT_CODE),
            HttpRequestStatus::Finished(code) => {
                if 100 <= code && code <= 999 {
                    Some(code)
                } else {
                    None
                }
            },
        }
    }
}

/// Parsing yields each status for exactly its own code: `Unknown` for zero,
/// `DeadlineReached` for ten, `Timeout` for twenty, `Finished(c)` for every
/// `c` from one hundred to nine hundred ninety-nine, and no value for any
/// other code.
pub proof fn lemma_parse_exact(c: u16)
    ensures
        (status_of_code(c) == Some(HttpRequestStatus::Unknown)) <==> c == 0,
        (status_of_code(c) == Some(HttpRequestStatus::DeadlineReached)) <==> c == 10,
        (status_of_code(c) == Some(HttpRequestStatus::Timeout)) <==> c == 20,
        (status_of_code(c) == Some(HttpRequestStatus::Finished(c))) <==> 100 <= c <= 999,
        forall|x: u16| status_of_code(c) == Some(HttpRequestStatus::Finished(x)) ==> x == c,
        status_of_code(c).is_none() <==> !(c == 0 || c == 10 || c == 20 || 100 <= c <= 999),
{
}

/// Encoding and parsing are inverse: every encodable status comes back from
/// its code, and every code that parses encodes back to itself.
pub proof fn lemma_code_round_trip(s: HttpRequestStatus, c: u16)
    ensures
        is_encodable(s) ==> status_of_code(code_of_status(s)) == Some(s),
        status_of_code(c).is_some() ==> is_encodable(status_of_code(c).unwrap())
            && code_of_status(status_of_code(c).unwrap()) == c,
{
}

} // verus!
