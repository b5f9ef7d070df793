//! Plain cache-aside retrieval of the reference price, as a state machine:
//! a cached price is returned whatever its date; a missing one is fetched
//! and written back.
use vstd::prelude::*;
use crate::indicators::ExtractionError;
use crate::price::CoffeePrice;
use crate::retrieval::RetrievalError;

verus! {

/// The cache key under which the reference price is kept.
pub fn price_cache_key() -> (r: &'static str)
    ensures
        r@ == "coffee:price:current"@,
{
    "coffee:price:current"
}

/// Where a price retrieval stands.
#[derive(Clone, Copy, Debug)]
pub enum PricePhase {
    ReadingCache,
    Fetching,
    Writing(CoffeePrice),
    Done,
}

/// What the caller hands back after an action.
pub enum PriceEvent {
    CacheRead(Result<Option<CoffeePrice>, String>),
    Fetched(Result<CoffeePrice, ExtractionError>),
    CacheWritten(Result<(), String>),
}

/// What the caller is to do next.
pub enum PriceAction {
    /// Read the cache under the price key.
    ReadCache,
    /// Invoke the price source.
    Fetch,
    /// Write the price to the cache under the price key, with this lifetime.
    WriteCache { value: CoffeePrice, ttl_seconds: u64 },
    /// Return this to the caller of the retrieval; nothing is left to do.
    Finish(Result<CoffeePrice, RetrievalError>),
}

/// Whether `event` answers the action that led to `phase`.
pub open spec fn price_answers(phase: PricePhase, event: PriceEvent) -> bool {
    match (phase, event) {
        (PricePhase::ReadingCache, PriceEvent::CacheRead(_)) => true,
        (PricePhase::Fetching, PriceEvent::Fetched(_)) => true,
        (PricePhase::Writing(_), PriceEvent::CacheWritten(_)) => true,
        _ => false,
    }
}

/// One transition of the price retrieval.
pub open spec fn price_transition(phase: PricePhase, ttl_seconds: u64, event: PriceEvent) -> (
    PricePhase,
    PriceAction,
) {
    match (phase, event) {
        (PricePhase::ReadingCache, PriceEvent::CacheRead(Err(m))) => (
            PricePhase::Done,
            PriceAction::Finish(Err(RetrievalError::CacheRead(m))),
        ),
        (PricePhase::ReadingCache, PriceEvent::CacheRead(Ok(Some(c)))) => (
            PricePhase::Done,
            PriceAction::Finish(Ok(c)),
        ),
        (PricePhase::ReadingCache, PriceEvent::CacheRead(Ok(None))) => (
            PricePhase::Fetching,
            PriceAction::Fetch,
        ),
        (PricePhase::Fetching, PriceEvent::Fetched(Err(e))) => (
            PricePhase::Done,
            PriceAction::Finish(Err(RetrievalError::Extraction(e))),
        ),
        (PricePhase::Fetching, PriceEvent::Fetched(Ok(p))) => (
            PricePhase::Writing(p),
            PriceAction::WriteCache { value: p, ttl_seconds },
        ),
        (PricePhase::Writing(_), PriceEvent::CacheWritten(Err(m))) => (
            PricePhase::Done,
            PriceAction::Finish(Err(RetrievalError::CacheWrite(m))),
        ),
        (PricePhase::Writing(p), PriceEvent::CacheWritten(Ok(()))) => (
            PricePhase::Done,
            PriceAction::Finish(Ok(p)),
        ),
        // an event that answers no pending action changes nothing
        _ => (phase, PriceAction::ReadCache),
    }
}

/// One retrieval of the reference price.
pub struct PriceRetrieval {
    pub phase: PricePhase,
    pub ttl_seconds: u64,
}

impl PriceRetrieval {
    /// A retrieval whose cache writes use `ttl_seconds`, and its first
    /// action: the cache read.
    pub fn start(ttl_seconds: u64) -> (r: (PriceRetrieval, PriceAction))
        ensures
            r.0.phase == PricePhase::ReadingCache,
            r.0.ttl_seconds == ttl_seconds,
            r.1 == PriceAction::ReadCache,
    {
        (PriceRetrieval { phase: PricePhase::ReadingCache, ttl_seconds }, PriceAction::ReadCache)
    }

    /// Whether `event` answers the last action.
    pub fn expects(&self, event: &PriceEvent) -> (r: bool)
        ensures
            r == price_answers(self.phase, *event),
    {
        match (&self.phase, event) {
            (PricePhase::ReadingCache, PriceEvent::CacheRead(_)) => true,
            (PricePhase::Fetching, PriceEvent::Fetched(_)) => true,
            (PricePhase::Writing(_), PriceEvent::CacheWritten(_)) => true,
            _ => false,
        }
    }

    /// Takes what came of the last action and gives the next one.
    pub fn step(&mut self, event: PriceEvent) -> (r: PriceAction)
        requires
            price_answers(old(self).phase, event),
        ensures
            (final(self).phase, r) == price_transition(
                old(self).phase,
                old(self).ttl_seconds,
                event,
            ),
            final(self).ttl_seconds == old(self).ttl_seconds,
    {
        let phase = self.phase;
        match (phase, event) {
            (PricePhase::Writing(p), PriceEvent::CacheWritten(Ok(()))) => {
                self.phase = PricePhase::Done;
                PriceAction::Finish(Ok(p))
            },
            (_, PriceEvent::CacheRead(Err(m))) => {
                self.phase = PricePhase::Done;
                PriceAction::Finish(Err(RetrievalError::CacheRead(m)))
            },
            (_, PriceEvent::CacheRead(Ok(Some(c)))) => {
                self.phase = PricePhase::Done;
                PriceAction::Finish(Ok(c))
            },
            (_, PriceEvent::CacheRead(Ok(None))) => {
                self.phase = PricePhase::Fetching;
                PriceAction::Fetch
            },
            (_, PriceEvent::Fetched(Err(e))) => {
                self.phase = PricePhase::Done;
                PriceAction::Finish(Err(RetrievalError::Extraction(e)))
            },
            (_, PriceEvent::Fetched(Ok(p))) => {
                self.phase = PricePhase::Writing(p);
                PriceAction::WriteCache { value: p, ttl_seconds: self.ttl_seconds }
            },
            (_, PriceEvent::CacheWritten(Err(m))) => {
                self.phase = PricePhase::Done;
                PriceAction::Finish(Err(RetrievalError::CacheWrite(m)))
            },
            // ruled out by the precondition: this event answers no other phase
            (_, PriceEvent::CacheWritten(Ok(()))) => PriceAction::ReadCache,
        }
    }
}

} // verus!
