//! The builder: it collects the settings of a cache, refuses to build where
//! a required one is missing, and else hands out the parts of a cache with a
//! cold engine.

use vstd::prelude::*;
use vstd::string::*;
use crate::engine::EngineState;
use crate::engine::RefreshEngine;
use crate::error::CacheError;
use crate::error::ErrorKind;

verus! {

/// The settings gathered so far.
pub struct CacheBuilder<Src, Proc, C> {
    pub source: Option<Src>,
    pub processor: Option<Proc>,
    /// The time between two cycles, in nanoseconds.
    pub fetch_interval: Option<u128>,
    pub name: Option<String>,
    pub fallback: Option<C>,
}

/// The parts of a cache that was built.
pub struct CacheParts<Src, Proc, V, C> {
    pub source: Src,
    pub processor: Proc,
    /// The time between two cycles, in nanoseconds: more than none.
    pub fetch_interval: u128,
    /// The name that observers see, empty where none was given.
    pub name: String,
    /// The engine, cold, with the fallback it may serve.
    pub engine: RefreshEngine<V, C>,
}

/// What keeps a builder from building.
#[derive(Clone, Copy, Debug, PartialEq, Eq, Structural)]
pub enum Missing {
    Source,
    Processor,
    FetchInterval,
    /// An interval was given, of no length.
    PositiveFetchInterval,
}

/// The message for a setting that is missing.
pub open spec fn missing_message(what: Missing) -> Seq<char> {
    match what {
        Missing::Source => "A source is required"@,
        Missing::Processor => "A processor is required"@,
        Missing::FetchInterval => "A fetch interval is required"@,
        Missing::PositiveFetchInterval => "The fetch interval must be greater than zero"@,
    }
}

impl<Src, Proc, C> CacheBuilder<Src, Proc, C> {
    /// The first required setting that is missing, if any is: the source,
    /// then the processor, then the interval, which must be more than none.
    pub open spec fn missing(self) -> Option<Missing> {
        if self.source.is_none() {
            Some(Missing::Source)
        } else if self.processor.is_none() {
            Some(Missing::Processor)
        } else if self.fetch_interval.is_none() {
            Some(Missing::FetchInterval)
        } else if self.fetch_interval == Some(0u128) {
            Some(Missing::PositiveFetchInterval)
        } else {
            None
        }
    }

    /// A builder with nothing set.
    pub fn new() -> (r: Self)
        ensures
            r == (CacheBuilder::<Src, Proc, C> {
                source: None,
                processor: None,
                fetch_interval: None,
                name: None,
                fallback: None,
            }),
    {
        CacheBuilder { source: None, processor: None, fetch_interval: None, name: None, fallback: None }
    }

    /// Sets the source.
    pub fn with_source(self, source: Src) -> (r: Self)
        ensures
            r == (CacheBuilder { source: Some(source), ..self }),
    {
        CacheBuilder { source: Some(source), ..self }
    }

    /// Sets the processor.
    pub fn with_processor(self, processor: Proc) -> (r: Self)
        ensures
            r == (CacheBuilder { processor: Some(processor), ..self }),
    {
        CacheBuilder { processor: Some(processor), ..self }
    }

    /// Sets the time between two cycles, in nanoseconds.
    pub fn with_fetch_interval(self, nanos: u128) -> (r: Self)
        ensures
            r == (CacheBuilder { fetch_interval: Some(nanos), ..self }),
    {
        CacheBuilder { fetch_interval: Some(nanos), ..self }
    }

    /// Sets the name that observers see.
    pub fn with_name(self, name: String) -> (r: Self)
        ensures
            r == (CacheBuilder { name: Some(name), ..self }),
    {
        CacheBuilder { name: Some(name), ..self }
    }

    /// Sets the collection that is served while no refresh has succeeded.
    pub fn with_fallback(self, fallback: C) -> (r: Self)
        ensures
            r == (CacheBuilder { fallback: Some(fallback), ..self }),
    {
        CacheBuilder { fallback: Some(fallback), ..self }
    }

    /// Builds the parts of a cache. Where a required setting is missing the
    /// result is a configuration error that names the first such setting, and
    /// nothing is built. Else the parts hold the settings as given, an empty
    /// name where none was set, and a cold engine that has published nothing
    /// and holds the fallback.
    pub fn build<V>(self) -> (r: Result<CacheParts<Src, Proc, V, C>, CacheError>)
        ensures
            match self.missing() {
                Some(what) => r matches Err(e) && e.kind == ErrorKind::Configuration
                    && e.message@ == missing_message(what),
                None => r matches Ok(parts) && {
                    &&& Some(parts.source) == self.source
                    &&& Some(parts.processor) == self.processor
                    &&& Some(parts.fetch_interval) == self.fetch_interval
                    &&& parts.fetch_interval > 0
                    &&& parts.name@ == (match self.name {
                        Some(name) => name@,
                        None => Seq::<char>::empty(),
                    })
                    &&& parts.engine@ == (EngineState::<V, C> {
                        snapshot: None,
                        version: None,
                        warm: false,
                        pending_fallback: self.fallback,
                    })
                },
            },
    {
        let CacheBuilder { source, processor, fetch_interval, name, fallback } = self;
        let source = match source {
            Some(source) => source,
            None => {
                return Err(CacheError::configuration(String::from_str("A source is required")));
            },
        };
        let processor = match processor {
            Some(processor) => processor,
            None => {
                return Err(CacheError::configuration(String::from_str("A processor is required")));
            },
        };
        let fetch_interval: u128 = match fetch_interval {
            Some(nanos) => nanos,
            None => {
                return Err(
                    CacheError::configuration(String::from_str("A fetch interval is required")),
                );
            },
        };
        if fetch_interval == 0 {
            return Err(
                CacheError::configuration(
                    String::from_str("The fetch interval must be greater than zero"),
                ),
            );
        }
        let name = match name {
            Some(name) => name,
            None => String::new(),
        };
        Ok(CacheParts { source, processor, fetch_interval, name, engine: RefreshEngine::new(fallback) })
    }
}

} // verus!
