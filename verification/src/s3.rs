//! The object-storage source: its version is the provider's last-modified
//! timestamp, and the provider's "not modified" status answers a conditional
//! fetch with nothing.
//!
//! The request is the caller's part. What the provider answered comes in as
//! an `ObjectResponse`, with the body as an opaque payload.

use vstd::prelude::*;
use crate::error::CacheError;
use crate::error::ErrorKind;

verus! {

/// The status with which the provider says that the object did not change.
pub const NOT_MODIFIED: u16 = 304;

/// A point in time as the provider gives it: seconds since the epoch and the
/// nanoseconds within the second.
#[derive(Clone, Copy, Debug, PartialEq, Eq, Structural)]
pub struct Timestamp {
    pub seconds: i64,
    pub subsecond_nanos: u32,
}

/// The nanoseconds in a second.
pub const NANOS_PER_SECOND: u32 = 1_000_000_000;

impl Timestamp {
    /// A point in time that a provider can give: its nanoseconds stay within
    /// the second.
    pub open spec fn wf(self) -> bool {
        self.subsecond_nanos < NANOS_PER_SECOND
    }

    /// Whether this is a point in time that a provider can give.
    pub fn is_valid(&self) -> (r: bool)
        ensures
            r == self.wf(),
    {
        self.subsecond_nanos < NANOS_PER_SECOND
    }

    /// The point `seconds` seconds from the epoch and `subsecond_nanos`
    /// nanoseconds on, where the nanoseconds stay within the second.
    pub fn new(seconds: i64, subsecond_nanos: u32) -> (r: Option<Timestamp>)
        ensures
            r == (if subsecond_nanos < NANOS_PER_SECOND {
                Some(Timestamp { seconds, subsecond_nanos })
            } else {
                None
            }),
            r matches Some(t) ==> t.wf(),
    {
        if subsecond_nanos < NANOS_PER_SECOND {
            Some(Timestamp { seconds, subsecond_nanos })
        } else {
            None
        }
    }
}

/// What the provider answered to a request for the object.
pub enum ObjectResponse<S> {
    /// The object, with its last-modified time where the provider gave one.
    Object { last_modified: Option<Timestamp>, body: S },
    /// The service answered with an error and the given status.
    ServiceError { status: u16, message: String },
    /// The request failed otherwise: it was not built, not sent, timed out,
    /// or its answer could not be read.
    OtherError { message: String },
}

/// A source that reads one object of one bucket through a client of type
/// `Cl`.
pub struct S3ConfigSource<Cl> {
    client: Cl,
    bucket: String,
    path: String,
}

impl<Cl> S3ConfigSource<Cl> {
    /// The client that requests go through.
    pub closed spec fn spec_client(&self) -> Cl {
        self.client
    }

    /// The bucket's name.
    pub closed spec fn spec_bucket(&self) -> Seq<char> {
        self.bucket@
    }

    /// The object's key.
    pub closed spec fn spec_path(&self) -> Seq<char> {
        self.path@
    }

    /// A source for the object `path` in `bucket`. It always succeeds.
    pub fn new(client: Cl, bucket: String, path: String) -> (r: Result<
        S3ConfigSource<Cl>,
        CacheError,
    >)
        ensures
            r matches Ok(s) && s.spec_client() == client && s.spec_bucket() == bucket@
                && s.spec_path() == path@,
    {
        Ok(S3ConfigSource { client, bucket, path })
    }

    /// The client that requests go through.
    pub fn client(&self) -> (r: &Cl)
        ensures
            *r == self.spec_client(),
    {
        &self.client
    }

    /// The bucket's name.
    pub fn bucket(&self) -> (r: &String)
        ensures
            r@ == self.spec_bucket(),
    {
        &self.bucket
    }

    /// The object's key.
    pub fn path(&self) -> (r: &String)
        ensures
            r@ == self.spec_path(),
    {
        &self.path
    }

    /// The unconditional fetch, from the provider's answer: the body with its
    /// last-modified time as the version, or a fetch error with the answer's
    /// message for any error.
    pub fn fetch<S>(&self, response: ObjectResponse<S>) -> (r: Result<
        (Option<Timestamp>, S),
        CacheError,
    >)
        ensures
            match response {
                ObjectResponse::Object { last_modified, body } => r == Ok::<
                    (Option<Timestamp>, S),
                    CacheError,
                >((last_modified, body)),
                ObjectResponse::ServiceError { status, message } => r matches Err(e)
                    && e.kind == ErrorKind::Fetch && e.message == message,
                ObjectResponse::OtherError { message } => r matches Err(e) && e.kind
                    == ErrorKind::Fetch && e.message == message,
            },
    {
        match response {
            ObjectResponse::Object { last_modified, body } => Ok((last_modified, body)),
            ObjectResponse::ServiceError { status: _, message } => Err(CacheError::fetch(message)),
            ObjectResponse::OtherError { message } => Err(CacheError::fetch(message)),
        }
    }

    /// The conditional fetch, from the provider's answer to a request that
    /// asked for the object if modified since the known version: the body
    /// with its version; `None`, not modified, for a service error with
    /// status 304; a fetch error with the answer's message for any other
    /// error.
    pub fn fetch_if_newer<S>(&self, response: ObjectResponse<S>) -> (r: Result<
        Option<(Option<Timestamp>, S)>,
        CacheError,
    >)
        ensures
            match response {
                ObjectResponse::Object { last_modified, body } => r == Ok::<
                    Option<(Option<Timestamp>, S)>,
                    CacheError,
                >(Some((last_modified, body))),
                ObjectResponse::ServiceError { status, message } => if status == NOT_MODIFIED {
                    r == Ok::<Option<(Option<Timestamp>, S)>, CacheError>(None)
                } else {
                    r matches Err(e) && e.kind == ErrorKind::Fetch && e.message == message
                },
                ObjectResponse::OtherError { message } => r matches Err(e) && e.kind
                    == ErrorKind::Fetch && e.message == message,
            },
    {
        match response {
            ObjectResponse::Object { last_modified, body } => Ok(Some((last_modified, body))),
            ObjectResponse::ServiceError { status, message } => {
                if status == NOT_MODIFIED {
                    Ok(None)
                } else {
                    Err(CacheError::fetch(message))
                }
            },
            ObjectResponse::OtherError { message } => Err(CacheError::fetch(message)),
        }
    }
}

} // verus!
