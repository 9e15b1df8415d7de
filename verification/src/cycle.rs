//! One whole refresh cycle for payloads that are held as bytes and processed
//! line by line: the source's answer goes in, the engine is brought up to
//! date, and what the observers are owed comes out.

use vstd::prelude::*;
use crate::collection::EntryMap;
use crate::engine::CycleReport;
use crate::engine::EngineState;
use crate::engine::FetchOutcome;
use crate::engine::FetchStep;
use crate::engine::RefreshEngine;
use crate::engine::Signal;
use crate::error::CacheError;
use crate::error::ErrorKind;
use crate::processor::lines_of;
use crate::processor::processed;
use crate::processor::LineMapper;
use crate::processor::Mapped;
use crate::processor::RawLineMapProcessor;
use crate::sources::file_outcome;
use crate::sources::is_newer;
use crate::sources::LocalFileConfigSource;
use crate::sources::ModifiedTime;

verus! {

/// What one cycle does, from the state `before` to the state `after` with
/// the report `r`, on the source's answer `outcome` and under the line
/// mapping `f`.
///
/// "Not modified" changes nothing and reports no update. A fetch error is
/// reported as such, and a cold engine without a snapshot brings its fallback
/// out. A payload is processed: where every line maps, the collection is
/// published under the payload's version and the update is reported with the
/// version known before; where a line fails, the payload is dropped whole,
/// the error is reported as a process error, and the engine changes as after
/// a fetch error.
pub open spec fn cycle_post<V, Val>(
    before: EngineState<V, EntryMap<Val>>,
    after: EngineState<V, EntryMap<Val>>,
    r: CycleReport<V>,
    outcome: FetchOutcome<V, Vec<u8>>,
    f: spec_fn(Seq<u8>) -> Mapped<Val>,
) -> bool {
    match outcome {
        FetchOutcome::NotModified => {
            &&& after == before
            &&& r == (CycleReport::<V> {
                signal: Signal::NoUpdate,
                updated: false,
                old_version: None,
                failure: None,
                fallback_invoked: false,
            })
        },
        FetchOutcome::Failed(e) => {
            &&& after == before.after_failure()
            &&& r == (CycleReport::<V> {
                signal: Signal::FetchError,
                updated: false,
                old_version: None,
                failure: Some(e),
                fallback_invoked: before.serves_fallback_on_failure(),
            })
        },
        FetchOutcome::Fetched { version, payload } => match processed(lines_of(payload@), f) {
            Ok(entries) => {
                &&& after.snapshot matches Some(collection) && collection@ == entries
                &&& after.version == version
                &&& after.warm
                &&& after.pending_fallback.is_none()
                &&& r == (CycleReport::<V> {
                    signal: Signal::Updated,
                    updated: true,
                    old_version: before.version,
                    failure: None,
                    fallback_invoked: false,
                })
            },
            Err(message) => {
                &&& after == before.after_failure()
                &&& r.signal == Signal::ProcessError
                &&& !r.updated
                &&& r.old_version.is_none()
                &&& r.failure matches Some(e) && e.kind == ErrorKind::Process && e.message@
                    == message
                &&& r.fallback_invoked == before.serves_fallback_on_failure()
            },
        },
    }
}

/// Runs one cycle on the source's answer.
pub fn run_cycle<V, Val, M: LineMapper<Val>>(
    engine: &mut RefreshEngine<V, EntryMap<Val>>,
    processor: &RawLineMapProcessor<M>,
    outcome: FetchOutcome<V, Vec<u8>>,
) -> (r: CycleReport<V>)
    ensures
        old(engine)@.wf() ==> final(engine)@.wf(),
        cycle_post(
            old(engine)@,
            final(engine)@,
            r,
            outcome,
            |line: Seq<u8>| processor.spec_mapper().mapped(line),
        ),
{
    match engine.on_fetch(outcome) {
        FetchStep::Done(report) => report,
        FetchStep::Process { version, payload } => {
            let result = processor.process(payload.as_slice());
            engine.on_processed(version, result)
        },
    }
}

/// Runs one cycle against a file, from what opening it gave: the failure to
/// open it, or its modification time and its bytes. The fetch is conditional
/// exactly where the engine knows a version.
pub fn run_file_cycle<P, Val, M: LineMapper<Val>>(
    engine: &mut RefreshEngine<u128, EntryMap<Val>>,
    source: &LocalFileConfigSource<P>,
    processor: &RawLineMapProcessor<M>,
    opened: Result<(ModifiedTime, Vec<u8>), CacheError>,
) -> (r: CycleReport<u128>)
    ensures
        old(engine)@.wf() ==> final(engine)@.wf(),
        cycle_post(
            old(engine)@,
            final(engine)@,
            r,
            file_outcome(old(engine)@.version, opened),
            |line: Seq<u8>| processor.spec_mapper().mapped(line),
        ),
{
    let known: Option<u128> = match engine.last_known_version() {
        Some(version) => Some(*version),
        None => None,
    };
    let outcome = source.outcome(known, opened);
    run_cycle(engine, processor, outcome)
}

/// A file that cannot be opened fails the cycle with the error of opening
/// it, whatever version is known: nothing is processed or published, the
/// version stays, and only a cold engine that shows nothing brings its
/// fallback out.
pub proof fn lemma_unopened_file_fails_cycle<Val>(
    before: EngineState<u128, EntryMap<Val>>,
    after: EngineState<u128, EntryMap<Val>>,
    r: CycleReport<u128>,
    error: CacheError,
    f: spec_fn(Seq<u8>) -> Mapped<Val>,
)
    requires
        cycle_post(
            before,
            after,
            r,
            file_outcome(before.version, Err::<(ModifiedTime, Vec<u8>), CacheError>(error)),
            f,
        ),
    ensures
        after == before.after_failure(),
        after.version == before.version,
        after.warm == before.warm,
        before.snapshot.is_some() ==> after == before,
        r.signal == Signal::FetchError,
        r.failure == Some(error),
        !r.updated,
        r.fallback_invoked == before.serves_fallback_on_failure(),
{
}

/// A file that is handed out with a line that does not map fails the cycle
/// whole, whatever its modification time: nothing of the payload is
/// published, not the lines before the bad one either, the version stays,
/// and the error is that of the first bad line.
pub proof fn lemma_malformed_file_fails_cycle<Val>(
    before: EngineState<u128, EntryMap<Val>>,
    after: EngineState<u128, EntryMap<Val>>,
    r: CycleReport<u128>,
    modified: ModifiedTime,
    payload: Vec<u8>,
    f: spec_fn(Seq<u8>) -> Mapped<Val>,
)
    requires
        before.version matches Some(version) ==> is_newer(version, modified),
        processed(lines_of(payload@), f) is Err,
        cycle_post(
            before,
            after,
            r,
            file_outcome(before.version, Ok::<(ModifiedTime, Vec<u8>), CacheError>((modified, payload))),
            f,
        ),
    ensures
        after == before.after_failure(),
        after.version == before.version,
        after.warm == before.warm,
        before.snapshot.is_some() ==> after == before,
        r.signal == Signal::ProcessError,
        !r.updated,
        r.failure matches Some(e) && e.kind == ErrorKind::Process && Err::<
            Map<Seq<u8>, Val>,
            Seq<char>,
        >(e.message@) == processed(lines_of(payload@), f),
{
}

} // verus!
