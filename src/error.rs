use vstd::prelude::*;

verus! {

/// Every way a construction or a retrieval can fail.
#[derive(Debug, Clone, Copy, PartialEq, Eq, Structural)]
pub enum ApiError {
    /// The provider refused the access token at construction, with this HTTP status.
    Auth(u16),
    /// The network layer failed (name resolution, connection, protocol).
    Transport,
    /// A response body was not the expected JSON shape.
    Decode,
    /// The provider answered a retrieval with this non-200 HTTP status.
    Http(u16),
    /// The provider kept returning pages up to the configured bound.
    PageLimitExceeded,
    /// A request did not complete within the configured time.
    Timeout,
    /// The caller cancelled the retrieval.
    Cancelled,
}

/// The description of each error.
pub open spec fn message_of(e: ApiError) -> Seq<char> {
    match e {
        ApiError::Auth(_) => "access token refused by the provider"@,
        ApiError::Transport => "transport failure"@,
        ApiError::Decode => "malformed response body"@,
        ApiError::Http(_) => "provider returned an error status"@,
        ApiError::PageLimitExceeded => "page limit exceeded"@,
        ApiError::Timeout => "request timed out"@,
        ApiError::Cancelled => "retrieval cancelled"@,
    }
}

impl ApiError {
    /// A short English description of the error.
    pub fn message(&self) -> (r: String)
        ensures
            r@ == message_of(*self),
    {
        match self {
            ApiError::Auth(_) => String::from_str("access token refused by the provider"),
            ApiError::Transport => String::from_str("transport failure"),
            ApiError::Decode => String::from_str("malformed response body"),
            ApiError::Http(_) => String::from_str("provider returned an error status"),
            ApiError::PageLimitExceeded => String::from_str("page limit exceeded"),
            ApiError::Timeout => String::from_str("request timed out"),
            ApiError::Cancelled => String::from_str("retrieval cancelled"),
        }
    }
}

} // verus!
