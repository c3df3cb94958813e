use crate::errors::SignError;
use vstd::prelude::*;

verus! {

/// What one transport dispatch came to, as the transport reports it.
pub enum TransportEvent {
    /// A response arrived: its status code and raw body.
    Response { status: u16, body: String },
    /// The configured timeout elapsed before any response.
    TimedOut,
    /// The transport failed before any response arrived.
    Failed,
}

/// A raw response handed back to the caller: status and body, unparsed.
pub struct HttpResponse {
    /// The HTTP status code of the response.
    pub status: u16,
    /// The raw response body.
    pub body: String,
}

/// Turns a transport event into the caller's result: a response passes
/// through unchanged, an elapsed timeout becomes `Timeout`, and any other
/// transport failure becomes `Transport`. Both failures are per-call and
/// safe to retry with a fresh timestamp and signature — nothing of the
/// failed call is kept.
pub fn resolve_transport(event: TransportEvent) -> (r: Result<HttpResponse, SignError>)
    ensures
        match event {
            TransportEvent::Response { status, body } => match r {
                Ok(response) => response.status == status && response.body == body,
                Err(_) => false,
            },
            TransportEvent::TimedOut => r == Err::<HttpResponse, SignError>(SignError::Timeout),
            TransportEvent::Failed => r == Err::<HttpResponse, SignError>(SignError::Transport),
        },
{
    match event {
        TransportEvent::Response { status, body } => Ok(HttpResponse { status, body }),
        TransportEvent::TimedOut => Err(SignError::Timeout),
        TransportEvent::Failed => Err(SignError::Transport),
    }
}

} // verus!
