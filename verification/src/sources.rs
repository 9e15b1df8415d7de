//! The local-file source: its version is the file's modification time in
//! milliseconds since the epoch, and a conditional fetch hands the file out
//! only where that time lies after the version asked about.
//!
//! Opening the file and reading its metadata is the caller's part. What the
//! caller found comes in as the failure to open the file, or as a
//! `ModifiedTime` and the opened file, the payload, which is handed back
//! untouched.

use vstd::prelude::*;
use crate::error::CacheError;
use crate::engine::FetchOutcome;

verus! {

/// What the platform says of a file's modification time.
#[derive(Clone, Copy, Debug, PartialEq, Eq, Structural)]
pub enum ModifiedTime {
    /// The platform keeps no modification time.
    Unsupported,
    /// The time lies before the epoch, so it has no number of milliseconds
    /// since then.
    BeforeEpoch,
    /// The time lies `secs` whole seconds and `nanos` nanoseconds after the
    /// epoch.
    SinceEpoch { secs: u64, nanos: u32 },
}

/// The nanoseconds in a second.
pub const NANOS_PER_SECOND: u32 = 1_000_000_000;

impl ModifiedTime {
    /// A time that a clock can report: its nanoseconds stay within the
    /// second.
    pub open spec fn wf(self) -> bool {
        match self {
            ModifiedTime::SinceEpoch { secs, nanos } => nanos < NANOS_PER_SECOND,
            _ => true,
        }
    }

    /// Whether this is a time that a clock can report.
    pub fn is_valid(&self) -> (r: bool)
        ensures
            r == self.wf(),
    {
        match self {
            ModifiedTime::SinceEpoch { secs: _, nanos } => *nanos < NANOS_PER_SECOND,
            _ => true,
        }
    }

    /// The time `secs` seconds and `nanos` nanoseconds after the epoch, where
    /// the nanoseconds stay within the second.
    pub fn since_epoch(secs: u64, nanos: u32) -> (r: Option<ModifiedTime>)
        ensures
            r == (if nanos < NANOS_PER_SECOND {
                Some(ModifiedTime::SinceEpoch { secs, nanos })
            } else {
                None
            }),
            r matches Some(t) ==> t.wf(),
    {
        if nanos < NANOS_PER_SECOND {
            Some(ModifiedTime::SinceEpoch { secs, nanos })
        } else {
            None
        }
    }
}

/// The whole milliseconds in `secs` seconds and `nanos` nanoseconds.
pub open spec fn millis(secs: u64, nanos: u32) -> int {
    secs * 1000 + nanos / 1_000_000
}

/// The version that a file with this modification time has: its time in
/// milliseconds since the epoch, and none where the platform keeps no time or
/// the time lies before the epoch.
pub open spec fn version_of(modified: ModifiedTime) -> Option<u128> {
    match modified {
        ModifiedTime::SinceEpoch { secs, nanos } => Some(millis(secs, nanos) as u128),
        _ => None,
    }
}

/// Whether a conditional fetch against `version` hands the file out: always
/// where the file has no version, else where its version is the later one.
pub open spec fn is_newer(version: u128, modified: ModifiedTime) -> bool {
    match modified {
        ModifiedTime::SinceEpoch { secs, nanos } => version < millis(secs, nanos),
        _ => true,
    }
}

/// What a cycle gets from a file, given the version known before it and what
/// opening the file gave: the failure to open it, "not modified" where a
/// version is known and the file is not newer, else the payload with the
/// file's version.
pub open spec fn file_outcome<S>(
    known: Option<u128>,
    opened: Result<(ModifiedTime, S), CacheError>,
) -> FetchOutcome<u128, S> {
    match opened {
        Err(e) => FetchOutcome::Failed(e),
        Ok(found) => if known matches Some(version) && !is_newer(version, found.0) {
            FetchOutcome::NotModified
        } else {
            FetchOutcome::Fetched { version: version_of(found.0), payload: found.1 }
        },
    }
}

/// The whole milliseconds in `secs` seconds and `nanos` nanoseconds.
pub fn millis_since_epoch(secs: u64, nanos: u32) -> (r: u128)
    ensures
        r == millis(secs, nanos),
{
    let whole: u128 = secs as u128;
    let part: u128 = (nanos / 1_000_000) as u128;
    whole * 1000 + part
}

/// The version that a file with this modification time has.
pub fn file_version(modified: ModifiedTime) -> (r: Option<u128>)
    ensures
        r == version_of(modified),
{
    match modified {
        ModifiedTime::SinceEpoch { secs, nanos } => Some(millis_since_epoch(secs, nanos)),
        _ => None,
    }
}

/// A source that reads one file.
pub struct LocalFileConfigSource<P> {
    path: P,
}

impl<P> LocalFileConfigSource<P> {
    /// The path that this source reads.
    pub closed spec fn spec_path(&self) -> P {
        self.path
    }

    /// A source for the file at `path`.
    pub fn new(path: P) -> (r: LocalFileConfigSource<P>)
        ensures
            r.spec_path() == path,
    {
        LocalFileConfigSource { path }
    }

    /// The path that this source reads.
    pub fn path(&self) -> (r: &P)
        ensures
            *r == self.spec_path(),
    {
        &self.path
    }

    /// The unconditional fetch, from what opening the file gave: the failure
    /// to open it, or the opened file and its modification time. The payload
    /// comes back whole, with the time in milliseconds as its version. A file
    /// whose time the platform does not keep, or whose time lies before the
    /// epoch, comes back all the same, with no version.
    pub fn fetch<S>(&self, opened: Result<(ModifiedTime, S), CacheError>) -> (r: Result<
        (Option<u128>, S),
        CacheError,
    >)
        ensures
            r == (match opened {
                Ok(found) => Ok::<(Option<u128>, S), CacheError>((version_of(found.0), found.1)),
                Err(e) => Err::<(Option<u128>, S), CacheError>(e),
            }),
    {
        match opened {
            Ok((modified, payload)) => Ok((file_version(modified), payload)),
            Err(e) => Err(e),
        }
    }

    /// The fetch that is conditional on `version`, from what opening the file
    /// gave. Where the file's time in milliseconds lies after `version`, the
    /// payload comes back with that time as its version; where it does not,
    /// the answer is `None`: not modified. A file with no version, because
    /// the platform keeps no time or the time lies before the epoch, always
    /// comes back. A failure to open the file is handed on.
    pub fn fetch_if_newer<S>(
        &self,
        version: &u128,
        opened: Result<(ModifiedTime, S), CacheError>,
    ) -> (r: Result<Option<(Option<u128>, S)>, CacheError>)
        ensures
            r == (match opened {
                Ok(found) => Ok::<Option<(Option<u128>, S)>, CacheError>(
                    if is_newer(*version, found.0) {
                        Some((version_of(found.0), found.1))
                    } else {
                        None
                    },
                ),
                Err(e) => Err::<Option<(Option<u128>, S)>, CacheError>(e),
            }),
    {
        match opened {
            Ok((modified, payload)) => {
                match file_version(modified) {
                    Some(mtime) => {
                        if *version < mtime {
                            Ok(Some((Some(mtime), payload)))
                        } else {
                            Ok(None)
                        }
                    },
                    None => Ok(Some((None, payload))),
                }
            },
            Err(e) => Err(e),
        }
    }

    /// What a cycle gets from the file: an unconditional fetch where no
    /// version is known, a conditional one where one is.
    pub fn outcome<S>(
        &self,
        known: Option<u128>,
        opened: Result<(ModifiedTime, S), CacheError>,
    ) -> (r: FetchOutcome<u128, S>)
        ensures
            r == file_outcome(known, opened),
    {
        match known {
            Some(version) => FetchOutcome::from_conditional(self.fetch_if_newer(&version, opened)),
            None => FetchOutcome::from_fetch(self.fetch(opened)),
        }
    }
}

/// The milliseconds of a time that a clock can report lie within its second.
pub proof fn lemma_millis_within_second(secs: u64, nanos: u32)
    requires
        (ModifiedTime::SinceEpoch { secs, nanos }).wf(),
    ensures
        secs * 1000 <= millis(secs, nanos) < secs * 1000 + 1000,
{
}

/// A file whose modification time did not move since it gave a version is
/// not handed out again under that version; one whose time moved on by a
/// millisecond or more is, with a later version, and then no more.
pub proof fn lemma_unchanged_file_is_not_refetched(
    secs: u64,
    nanos: u32,
    later_secs: u64,
    later_nanos: u32,
)
    requires
        millis(secs, nanos) < millis(later_secs, later_nanos),
    ensures
        ({
            let first = ModifiedTime::SinceEpoch { secs, nanos };
            let second = ModifiedTime::SinceEpoch { secs: later_secs, nanos: later_nanos };
            &&& !is_newer(version_of(first).unwrap(), first)
            &&& is_newer(version_of(first).unwrap(), second)
            &&& version_of(first).unwrap() < version_of(second).unwrap()
            &&& !is_newer(version_of(second).unwrap(), second)
        }),
{
}

/// What a conditional fetch hands out is never older than the version it was
/// asked about.
pub proof fn lemma_newer_file_has_later_version(version: u128, modified: ModifiedTime)
    requires
        is_newer(version, modified),
        version_of(modified).is_some(),
    ensures
        version < version_of(modified).unwrap(),
{
}

} // verus!
