//! The refresh engine: what one cycle does to the published snapshot and to
//! the last-known version, for each thing that the source and the processor
//! may answer.
//!
//! The engine waits for nothing itself. Its driver asks `next_request` which
//! fetch to make, hands the answer to `on_fetch`, processes the payload where
//! that is asked for, and hands the result to `on_processed`. Each call
//! returns what the driver owes the callbacks and the metrics sink.

use vstd::prelude::*;
use crate::error::CacheError;

verus! {

/// The engine as contracts see it.
pub ghost struct EngineState<V, C> {
    /// The collection that readers get, if any was published.
    pub snapshot: Option<C>,
    /// The version that the next conditional fetch is compared with.
    pub version: Option<V>,
    /// Whether a refresh has succeeded.
    pub warm: bool,
    /// The fallback, as long as it has not been published.
    pub pending_fallback: Option<C>,
}

/// What happened in one cycle, as far as the state depends on it.
pub ghost enum CycleEvent<V, C> {
    NotModified,
    Failed,
    Published { version: Option<V>, collection: C },
}

impl<V, C> EngineState<V, C> {
    /// A cold engine shows no version, a warm one shows a snapshot, and a
    /// fallback is pending only while nothing is shown.
    pub open spec fn wf(self) -> bool {
        &&& self.warm ==> self.snapshot.is_some()
        &&& !self.warm ==> self.version.is_none()
        &&& self.snapshot.is_some() ==> self.pending_fallback.is_none()
    }

    /// Whether a failure in this state brings the fallback out.
    pub open spec fn serves_fallback_on_failure(self) -> bool {
        !self.warm && self.snapshot.is_none() && self.pending_fallback.is_some()
    }

    /// The state after a cycle that failed, in fetching or in processing.
    pub open spec fn after_failure(self) -> Self {
        if self.serves_fallback_on_failure() {
            EngineState { snapshot: self.pending_fallback, pending_fallback: None, ..self }
        } else {
            self
        }
    }

    /// The snapshot that was current before a failed cycle, read from the state
    /// after it: none where that cycle brought the fallback out, else the one
    /// that is current still.
    pub open spec fn snapshot_before_failure(self, fallback_invoked: bool) -> Option<C> {
        if fallback_invoked {
            None
        } else {
            self.snapshot
        }
    }

    /// The state after a cycle that published `collection` under `version`.
    pub open spec fn after_publish(self, version: Option<V>, collection: C) -> Self {
        EngineState {
            snapshot: Some(collection),
            version,
            warm: true,
            pending_fallback: None,
        }
    }

    /// The state after one cycle.
    pub open spec fn after(self, event: CycleEvent<V, C>) -> Self {
        match event {
            CycleEvent::NotModified => self,
            CycleEvent::Failed => self.after_failure(),
            CycleEvent::Published { version, collection } => self.after_publish(
                version,
                collection,
            ),
        }
    }

    /// The state after a run of cycles, the first event first.
    pub open spec fn after_all(self, events: Seq<CycleEvent<V, C>>) -> Self
        decreases events.len(),
    {
        if events.len() == 0 {
            self
        } else {
            self.after_all(events.drop_last()).after(events.last())
        }
    }
}

/// Which fetch the next cycle starts with.
#[derive(Clone, Copy, Debug, PartialEq, Eq, Structural)]
pub enum FetchRequest {
    /// No version is known: fetch whatever the source holds.
    Unconditional,
    /// Ask the source whether it holds anything newer than the last-known
    /// version.
    IfNewer,
}

/// What the source answered.
pub enum FetchOutcome<V, S> {
    /// The source attests that nothing changed since the version it was asked
    /// about.
    NotModified,
    /// The source could not be read.
    Failed(CacheError),
    /// The source handed out a payload, and the version it has if it can tell.
    Fetched { version: Option<V>, payload: S },
}

impl<V, S> FetchOutcome<V, S> {
    /// The outcome of an unconditional fetch: the payload with its version,
    /// or the failure.
    pub fn from_fetch(result: Result<(Option<V>, S), CacheError>) -> (r: Self)
        ensures
            r == (match result {
                Ok(found) => FetchOutcome::<V, S>::Fetched { version: found.0, payload: found.1 },
                Err(e) => FetchOutcome::<V, S>::Failed(e),
            }),
    {
        match result {
            Ok((version, payload)) => FetchOutcome::Fetched { version, payload },
            Err(e) => FetchOutcome::Failed(e),
        }
    }

    /// The outcome of a conditional fetch: "not modified" where the source
    /// handed out nothing, else the payload with its version, or the failure.
    pub fn from_conditional(result: Result<Option<(Option<V>, S)>, CacheError>) -> (r: Self)
        ensures
            r == (match result {
                Ok(Some(found)) => FetchOutcome::<V, S>::Fetched {
                    version: found.0,
                    payload: found.1,
                },
                Ok(None) => FetchOutcome::<V, S>::NotModified,
                Err(e) => FetchOutcome::<V, S>::Failed(e),
            }),
    {
        match result {
            Ok(Some((version, payload))) => FetchOutcome::Fetched { version, payload },
            Ok(None) => FetchOutcome::NotModified,
            Err(e) => FetchOutcome::Failed(e),
        }
    }
}

/// The signal that a cycle sends to the metrics sink.
#[derive(Clone, Copy, Debug, PartialEq, Eq, Structural)]
pub enum Signal {
    NoUpdate,
    Updated,
    FetchError,
    ProcessError,
}

/// What a finished cycle owes its observers.
pub struct CycleReport<V> {
    /// The metric of this cycle.
    pub signal: Signal,
    /// Whether the update callback is due. Its new version and collection are
    /// the engine's own after the call.
    pub updated: bool,
    /// The version that was known before a publication.
    pub old_version: Option<V>,
    /// The error that the failure callback and the error metric are due.
    pub failure: Option<CacheError>,
    /// Whether this cycle brought the fallback out.
    pub fallback_invoked: bool,
}

/// What follows a fetch.
pub enum FetchStep<V, S> {
    /// The payload is to be processed, and the result handed to
    /// `on_processed` together with `version`.
    Process { version: Option<V>, payload: S },
    /// The cycle is over.
    Done(CycleReport<V>),
}

/// The state of one cache: the published snapshot, the last-known version and
/// the fallback that waits for a cold failure.
pub struct RefreshEngine<V, C> {
    current: Option<C>,
    last_known_version: Option<V>,
    warm: bool,
    fallback: Option<C>,
}

impl<V, C> View for RefreshEngine<V, C> {
    type V = EngineState<V, C>;

    closed spec fn view(&self) -> EngineState<V, C> {
        EngineState {
            snapshot: self.current,
            version: self.last_known_version,
            warm: self.warm,
            pending_fallback: self.fallback,
        }
    }
}

impl<V, C> RefreshEngine<V, C> {
    /// A cold engine that has published nothing, with the fallback it may
    /// serve.
    pub fn new(fallback: Option<C>) -> (r: Self)
        ensures
            r@ == (EngineState::<V, C> {
                snapshot: None,
                version: None,
                warm: false,
                pending_fallback: fallback,
            }),
            r@.wf(),
    {
        RefreshEngine { current: None, last_known_version: None, warm: false, fallback }
    }

    /// The collection that is current: the last one published, else the
    /// fallback once a cold failure brought it out, else nothing.
    pub fn current(&self) -> (r: Option<&C>)
        ensures
            r.is_some() == self@.snapshot.is_some(),
            r.is_some() ==> *r.unwrap() == self@.snapshot.unwrap(),
    {
        self.current.as_ref()
    }

    /// The version of the last publication.
    pub fn last_known_version(&self) -> (r: Option<&V>)
        ensures
            r.is_some() == self@.version.is_some(),
            r.is_some() ==> *r.unwrap() == self@.version.unwrap(),
    {
        self.last_known_version.as_ref()
    }

    /// The collection that the failure callback is due after a failed cycle
    /// that reported `fallback_invoked`: the one that was current when the
    /// cycle failed, before any fallback was brought out.
    pub fn current_before_failure(&self, fallback_invoked: bool) -> (r: Option<&C>)
        ensures
            r.is_some() == self@.snapshot_before_failure(fallback_invoked).is_some(),
            r matches Some(c) ==> *c == self@.snapshot_before_failure(fallback_invoked).unwrap(),
    {
        if fallback_invoked {
            None
        } else {
            self.current.as_ref()
        }
    }

    /// Whether a refresh has succeeded.
    pub fn is_warm(&self) -> (r: bool)
        ensures
            r == self@.warm,
    {
        self.warm
    }

    /// Whether a fallback still waits for a cold failure.
    pub fn has_pending_fallback(&self) -> (r: bool)
        ensures
            r == self@.pending_fallback.is_some(),
    {
        self.fallback.is_some()
    }

    /// The fetch that the next cycle starts with: conditional exactly when a
    /// version is known.
    pub fn next_request(&self) -> (r: FetchRequest)
        ensures
            r == (if self@.version.is_some() {
                FetchRequest::IfNewer
            } else {
                FetchRequest::Unconditional
            }),
    {
        if self.last_known_version.is_some() {
            FetchRequest::IfNewer
        } else {
            FetchRequest::Unconditional
        }
    }

    /// Takes the source's answer. "Not modified" ends the cycle with nothing
    /// changed and no callback due. A failure ends it as `on_failure` says. A
    /// payload changes nothing yet: it is handed back to be processed.
    pub fn on_fetch<S>(&mut self, outcome: FetchOutcome<V, S>) -> (r: FetchStep<V, S>)
        ensures
            old(self)@.wf() ==> final(self)@.wf(),
            match outcome {
                FetchOutcome::NotModified => {
                    &&& final(self)@ == old(self)@
                    &&& r == FetchStep::<V, S>::Done(
                        CycleReport {
                            signal: Signal::NoUpdate,
                            updated: false,
                            old_version: None,
                            failure: None,
                            fallback_invoked: false,
                        },
                    )
                },
                FetchOutcome::Failed(e) => {
                    &&& final(self)@ == old(self)@.after_failure()
                    &&& r == FetchStep::<V, S>::Done(
                        CycleReport {
                            signal: Signal::FetchError,
                            updated: false,
                            old_version: None,
                            failure: Some(e),
                            fallback_invoked: old(self)@.serves_fallback_on_failure(),
                        },
                    )
                },
                FetchOutcome::Fetched { version, payload } => {
                    &&& final(self)@ == old(self)@
                    &&& r == FetchStep::<V, S>::Process { version, payload }
                },
            },
    {
        match outcome {
            FetchOutcome::NotModified => FetchStep::Done(
                CycleReport {
                    signal: Signal::NoUpdate,
                    updated: false,
                    old_version: None,
                    failure: None,
                    fallback_invoked: false,
                },
            ),
            FetchOutcome::Failed(e) => FetchStep::Done(self.on_failure(Signal::FetchError, e)),
            FetchOutcome::Fetched { version, payload } => FetchStep::Process { version, payload },
        }
    }

    /// Takes the processor's answer to a payload fetched under `version`. A
    /// collection is published whole, the version becomes the last-known one,
    /// the engine is warm, and the update callback is due with the version
    /// known before. An error ends the cycle as `on_failure` says: what was
    /// published stays as it was.
    pub fn on_processed(&mut self, version: Option<V>, result: Result<C, CacheError>) -> (r:
        CycleReport<V>)
        ensures
            old(self)@.wf() ==> final(self)@.wf(),
            match result {
                Ok(collection) => {
                    &&& final(self)@ == old(self)@.after_publish(version, collection)
                    &&& r == (CycleReport::<V> {
                        signal: Signal::Updated,
                        updated: true,
                        old_version: old(self)@.version,
                        failure: None,
                        fallback_invoked: false,
                    })
                },
                Err(e) => {
                    &&& final(self)@ == old(self)@.after_failure()
                    &&& r == (CycleReport::<V> {
                        signal: Signal::ProcessError,
                        updated: false,
                        old_version: None,
                        failure: Some(e),
                        fallback_invoked: old(self)@.serves_fallback_on_failure(),
                    })
                },
            },
    {
        match result {
            Ok(collection) => {
                let old_version = self.last_known_version.take();
                self.last_known_version = version;
                self.current = Some(collection);
                self.warm = true;
                self.fallback = None;
                CycleReport {
                    signal: Signal::Updated,
                    updated: true,
                    old_version,
                    failure: None,
                    fallback_invoked: false,
                }
            },
            Err(e) => self.on_failure(Signal::ProcessError, e),
        }
    }

    /// Ends a cycle that failed with `error`. The failure callback is due in
    /// every such cycle. A cold engine that shows nothing and has a fallback
    /// publishes it, once: after that none is pending. Anything else stays as
    /// it was, the last-known version too, so the engine stays cold and goes
    /// on with unconditional fetches.
    pub fn on_failure(&mut self, signal: Signal, error: CacheError) -> (r: CycleReport<V>)
        ensures
            old(self)@.wf() ==> final(self)@.wf(),
            final(self)@ == old(self)@.after_failure(),
            r == (CycleReport::<V> {
                signal,
                updated: false,
                old_version: None,
                failure: Some(error),
                fallback_invoked: old(self)@.serves_fallback_on_failure(),
            }),
    {
        let mut fallback_invoked = false;
        if !self.warm && self.current.is_none() && self.fallback.is_some() {
            self.current = self.fallback.take();
            fallback_invoked = true;
        }
        CycleReport { signal, updated: false, old_version: None, failure: Some(error), fallback_invoked }
    }
}

/// A run of `n` failed cycles.
pub open spec fn failures<V, C>(n: nat) -> Seq<CycleEvent<V, C>> {
    Seq::new(n, |i: int| CycleEvent::Failed)
}

impl<V, C> EngineState<V, C> {
    /// Whether, over a run of cycles, each publication carries a version that
    /// `le` puts at or after the one known when it is made.
    pub open spec fn never_older(
        self,
        events: Seq<CycleEvent<V, C>>,
        le: spec_fn(Option<V>, Option<V>) -> bool,
    ) -> bool
        decreases events.len(),
    {
        events.len() == 0 || {
            &&& self.never_older(events.drop_last(), le)
            &&& match events.last() {
                CycleEvent::Published { version, .. } => le(
                    self.after_all(events.drop_last()).version,
                    version,
                ),
                _ => true,
            }
        }
    }
}

/// Well-formedness survives every run of cycles, and a warm engine stays
/// warm.
pub proof fn lemma_cycles_keep_wf<V, C>(s: EngineState<V, C>, events: Seq<CycleEvent<V, C>>)
    requires
        s.wf(),
    ensures
        s.after_all(events).wf(),
        s.warm ==> s.after_all(events).warm,
    decreases events.len(),
{
    if events.len() > 0 {
        lemma_cycles_keep_wf(s, events.drop_last());
    }
}

/// Where the source hands out no version older than the one it was asked
/// about, under an order that is reflexive and transitive, the last-known
/// version after any run of cycles is at or after the one before it.
pub proof fn lemma_versions_never_decrease<V, C>(
    s: EngineState<V, C>,
    events: Seq<CycleEvent<V, C>>,
    le: spec_fn(Option<V>, Option<V>) -> bool,
)
    requires
        forall|a: Option<V>| #[trigger] le(a, a),
        forall|a: Option<V>, b: Option<V>, c: Option<V>|
            #[trigger] le(a, b) && #[trigger] le(b, c) ==> le(a, c),
        s.never_older(events, le),
    ensures
        le(s.version, s.after_all(events).version),
    decreases events.len(),
{
    if events.len() > 0 {
        let before = events.drop_last();
        lemma_versions_never_decrease(s, before, le);
        let mid = s.after_all(before);
        match events.last() {
            CycleEvent::Published { version, .. } => {
                assert(le(mid.version, version));
            },
            _ => {
                assert(mid.after(events.last()).version == mid.version);
            },
        }
    }
}

/// A cycle in which the source says "not modified" changes nothing: not the
/// snapshot, not the last-known version, not the pending fallback.
pub proof fn lemma_not_modified_changes_nothing<V, C>(s: EngineState<V, C>)
    ensures
        s.after(CycleEvent::NotModified) == s,
{
}

/// A failed cycle leaves a published collection, and the version known with
/// it, exactly as they were.
pub proof fn lemma_failure_keeps_published<V, C>(s: EngineState<V, C>)
    requires
        s.snapshot.is_some(),
    ensures
        s.after(CycleEvent::Failed) == s,
{
}

/// The failure callback sees what was current when the cycle failed: read
/// from the state after the failure, with the cycle's own word on whether it
/// brought the fallback out, the snapshot is the one from before.
pub proof fn lemma_failure_callback_sees_snapshot_before<V, C>(s: EngineState<V, C>)
    ensures
        s.after_failure().snapshot_before_failure(s.serves_fallback_on_failure()) == s.snapshot,
{
}

/// A cold engine with a fallback, under a source that keeps failing: from the
/// first failed cycle on readers get the fallback, the engine stays cold with
/// no version, and only the first of those cycles brings the fallback out.
pub proof fn lemma_cold_failures_serve_fallback_once<V, C>(
    s: EngineState<V, C>,
    fallback: C,
    n: nat,
)
    requires
        !s.warm,
        s.snapshot.is_none(),
        s.pending_fallback == Some(fallback),
        n >= 1,
    ensures
        s.serves_fallback_on_failure(),
        s.after_all(failures(n)).snapshot == Some(fallback),
        s.after_all(failures(n)).version == s.version,
        !s.after_all(failures(n)).warm,
        !s.after_all(failures(n)).serves_fallback_on_failure(),
    decreases n,
{
    let run = failures::<V, C>(n);
    let before = failures::<V, C>((n - 1) as nat);
    assert(run.drop_last() =~= before);
    assert(run.last() == CycleEvent::<V, C>::Failed);
    if n == 1 {
        assert(s.after_all(before) == s);
    } else {
        lemma_cold_failures_serve_fallback_once(s, fallback, (n - 1) as nat);
    }
}

} // verus!
