//! Freshness-aware cache-aside retrieval of the indicator record, as a
//! state machine. The caller performs each action (a cache read, a look at
//! the clock, a fetch, a cache write) and hands back what came of it; the
//! machine decides what comes next. One machine serves one call.
use vstd::prelude::*;
use crate::date::Date;
use crate::indicators::{CoffeeMarketIndicators, ExtractionError};

verus! {

/// The cache key under which the indicator record is kept.
pub fn indicators_cache_key() -> (r: &'static str)
    ensures
        r@ == "coffee:market:indicators"@,
{
    "coffee:market:indicators"
}

/// Why a retrieval gave no record.
#[derive(Clone, Debug)]
pub enum RetrievalError {
    /// The cache could not be read; the backend's message.
    CacheRead(String),
    /// The fetched record could not be written to the cache; the backend's message.
    CacheWrite(String),
    /// The record could not be fetched or extracted.
    Extraction(ExtractionError),
}

/// Where a retrieval stands.
#[derive(Clone, Copy, Debug)]
pub enum Phase {
    /// Waiting for the cache read.
    ReadingCache,
    /// A record was cached; waiting for today's date.
    ReadingClock(CoffeeMarketIndicators),
    /// Waiting for the extractor.
    Fetching,
    /// Waiting for the cache write of the fetched record.
    Writing(CoffeeMarketIndicators),
    /// The call has its result.
    Done,
}

/// What the caller hands back after an action.
pub enum Event {
    CacheRead(Result<Option<CoffeeMarketIndicators>, String>),
    Today(Date),
    Fetched(Result<CoffeeMarketIndicators, ExtractionError>),
    CacheWritten(Result<(), String>),
}

/// What the caller is to do next.
pub enum Action {
    /// Read the cache under the indicators key.
    ReadCache,
    /// Ask the clock for today's date.
    ReadClock,
    /// Invoke the extractor.
    Fetch,
    /// Write the record to the cache under the indicators key, with this lifetime.
    WriteCache { value: CoffeeMarketIndicators, ttl_seconds: u64 },
    /// Return this to the caller of the retrieval; nothing is left to do.
    Finish(Result<CoffeeMarketIndicators, RetrievalError>),
}

/// Whether `event` answers the action that led to `phase`.
pub open spec fn answers(phase: Phase, event: Event) -> bool {
    match (phase, event) {
        (Phase::ReadingCache, Event::CacheRead(_)) => true,
        (Phase::ReadingClock(_), Event::Today(_)) => true,
        (Phase::Fetching, Event::Fetched(_)) => true,
        (Phase::Writing(_), Event::CacheWritten(_)) => true,
        _ => false,
    }
}

/// One transition: a cached record of today's date is returned as it is;
/// a missing or differently dated one is refreshed from the extractor and
/// the new record written back; every failure ends the call with its error.
pub open spec fn transition(phase: Phase, ttl_seconds: u64, event: Event) -> (Phase, Action) {
    match (phase, event) {
        (Phase::ReadingCache, Event::CacheRead(Err(m))) => (
            Phase::Done,
            Action::Finish(Err(RetrievalError::CacheRead(m))),
        ),
        (Phase::ReadingCache, Event::CacheRead(Ok(None))) => (Phase::Fetching, Action::Fetch),
        (Phase::ReadingCache, Event::CacheRead(Ok(Some(c)))) => (
            Phase::ReadingClock(c),
            Action::ReadClock,
        ),
        (Phase::ReadingClock(c), Event::Today(d)) => if c.publication_date == d {
            (Phase::Done, Action::Finish(Ok(c)))
        } else {
            (Phase::Fetching, Action::Fetch)
        },
        (Phase::Fetching, Event::Fetched(Err(e))) => (
            Phase::Done,
            Action::Finish(Err(RetrievalError::Extraction(e))),
        ),
        (Phase::Fetching, Event::Fetched(Ok(r))) => (
            Phase::Writing(r),
            Action::WriteCache { value: r, ttl_seconds },
        ),
        (Phase::Writing(_), Event::CacheWritten(Err(m))) => (
            Phase::Done,
            Action::Finish(Err(RetrievalError::CacheWrite(m))),
        ),
        (Phase::Writing(r), Event::CacheWritten(Ok(()))) => (Phase::Done, Action::Finish(Ok(r))),
        // an event that answers no pending action changes nothing
        _ => (phase, Action::ReadCache),
    }
}

/// One retrieval of the indicator record.
pub struct IndicatorsRetrieval {
    pub phase: Phase,
    pub ttl_seconds: u64,
}

impl IndicatorsRetrieval {
    /// A retrieval whose cache writes use `ttl_seconds`, and its first
    /// action: the cache read.
    pub fn start(ttl_seconds: u64) -> (r: (IndicatorsRetrieval, Action))
        ensures
            r.0.phase == Phase::ReadingCache,
            r.0.ttl_seconds == ttl_seconds,
            r.1 == Action::ReadCache,
    {
        (IndicatorsRetrieval { phase: Phase::ReadingCache, ttl_seconds }, Action::ReadCache)
    }

    /// Whether `event` answers the last action.
    pub fn expects(&self, event: &Event) -> (r: bool)
        ensures
            r == answers(self.phase, *event),
    {
        match (&self.phase, event) {
            (Phase::ReadingCache, Event::CacheRead(_)) => true,
            (Phase::ReadingClock(_), Event::Today(_)) => true,
            (Phase::Fetching, Event::Fetched(_)) => true,
            (Phase::Writing(_), Event::CacheWritten(_)) => true,
            _ => false,
        }
    }

    /// Takes what came of the last action and gives the next one.
    pub fn step(&mut self, event: Event) -> (r: Action)
        requires
            answers(old(self).phase, event),
        ensures
            (final(self).phase, r) == transition(old(self).phase, old(self).ttl_seconds, event),
            final(self).ttl_seconds == old(self).ttl_seconds,
    {
        let phase = self.phase;
        match (phase, event) {
            (Phase::ReadingClock(c), Event::Today(d)) => {
                if c.publication_date == d {
                    self.phase = Phase::Done;
                    Action::Finish(Ok(c))
                } else {
                    self.phase = Phase::Fetching;
                    Action::Fetch
                }
            },
            (Phase::Writing(r), Event::CacheWritten(Ok(()))) => {
                self.phase = Phase::Done;
                Action::Finish(Ok(r))
            },
            (_, Event::CacheRead(Err(m))) => {
                self.phase = Phase::Done;
                Action::Finish(Err(RetrievalError::CacheRead(m)))
            },
            (_, Event::CacheRead(Ok(None))) => {
                self.phase = Phase::Fetching;
                Action::Fetch
            },
            (_, Event::CacheRead(Ok(Some(c)))) => {
                self.phase = Phase::ReadingClock(c);
                Action::ReadClock
            },
            (_, Event::Fetched(Err(e))) => {
                self.phase = Phase::Done;
                Action::Finish(Err(RetrievalError::Extraction(e)))
            },
            (_, Event::Fetched(Ok(r))) => {
                self.phase = Phase::Writing(r);
                Action::WriteCache { value: r, ttl_seconds: self.ttl_seconds }
            },
            (_, Event::CacheWritten(Err(m))) => {
                self.phase = Phase::Done;
                Action::Finish(Err(RetrievalError::CacheWrite(m)))
            },
            // ruled out by the precondition: these events answer no other phase
            (_, Event::Today(_)) | (_, Event::CacheWritten(Ok(()))) => Action::ReadCache,
        }
    }
}

/// The phase and the actions of a retrieval that was handed `events` in
/// order, its first action, the cache read, included.
pub open spec fn run(ttl_seconds: u64, events: Seq<Event>) -> (Phase, Seq<Action>)
    decreases events.len(),
{
    if events.len() == 0 {
        (Phase::ReadingCache, seq![Action::ReadCache])
    } else {
        let (p, actions) = run(ttl_seconds, events.drop_last());
        let (q, a) = transition(p, ttl_seconds, events.last());
        (q, actions.push(a))
    }
}

/// Whether each of `events` answers the action before it.
pub open spec fn well_formed_run(ttl_seconds: u64, events: Seq<Event>) -> bool
    decreases events.len(),
{
    events.len() == 0 || (well_formed_run(ttl_seconds, events.drop_last()) && answers(
        run(ttl_seconds, events.drop_last()).0,
        events.last(),
    ))
}

proof fn lemma_run_push(ttl_seconds: u64, events: Seq<Event>, e: Event)
    ensures
        run(ttl_seconds, events.push(e)) == ({
            let (p, actions) = run(ttl_seconds, events);
            let (q, a) = transition(p, ttl_seconds, e);
            (q, actions.push(a))
        }),
        well_formed_run(ttl_seconds, events.push(e)) == (well_formed_run(ttl_seconds, events)
            && answers(run(ttl_seconds, events).0, e)),
{
    assert(events.push(e).drop_last() =~= events);
    assert(events.push(e).last() == e);
}

/// A cached record of today's date is returned as it is: the clock is read,
/// the extractor is not invoked and the cache is not written.
pub proof fn lemma_fresh_record_is_returned(
    ttl_seconds: u64,
    cached: CoffeeMarketIndicators,
    today: Date,
)
    requires
        cached.publication_date == today,
    ensures
        ({
            let events = seq![Event::CacheRead(Ok(Some(cached))), Event::Today(today)];
            &&& well_formed_run(ttl_seconds, events)
            &&& run(ttl_seconds, events) == (
                Phase::Done,
                seq![Action::ReadCache, Action::ReadClock, Action::Finish(Ok(cached))],
            )
        }),
{
    let e0 = Seq::<Event>::empty();
    lemma_run_push(ttl_seconds, e0, Event::CacheRead(Ok(Some(cached))));
    let e1 = e0.push(Event::CacheRead(Ok(Some(cached))));
    lemma_run_push(ttl_seconds, e1, Event::Today(today));
    let e2 = e1.push(Event::Today(today));
    assert(run(ttl_seconds, e0).1 =~= seq![Action::ReadCache]);
    assert(run(ttl_seconds, e2).1 =~= seq![Action::ReadCache, Action::ReadClock, Action::Finish(Ok(cached))]);
    assert(run(ttl_seconds, e2).0 == Phase::Done);
    assert(well_formed_run(ttl_seconds, e2));
    assert(e2 == seq![Event::CacheRead(Ok(Some(cached))), Event::Today(today)]);
}

/// A cached record of another date than today (earlier or later) is
/// refreshed: the extractor is invoked once, its record is written to the
/// cache, and that record is returned.
pub proof fn lemma_stale_record_is_refreshed(
    ttl_seconds: u64,
    cached: CoffeeMarketIndicators,
    today: Date,
    fetched: CoffeeMarketIndicators,
)
    requires
        cached.publication_date != today,
    ensures
        ({
            let events = seq![
                Event::CacheRead(Ok(Some(cached))),
                Event::Today(today),
                Event::Fetched(Ok(fetched)),
                Event::CacheWritten(Ok(())),
            ];
            &&& well_formed_run(ttl_seconds, events)
            &&& run(ttl_seconds, events) == (
                Phase::Done,
                seq![
                    Action::ReadCache,
                    Action::ReadClock,
                    Action::Fetch,
                    Action::WriteCache { value: fetched, ttl_seconds },
                    Action::Finish(Ok(fetched)),
                ],
            )
        }),
{
    let e0 = Seq::<Event>::empty();
    lemma_run_push(ttl_seconds, e0, Event::CacheRead(Ok(Some(cached))));
    let e1 = e0.push(Event::CacheRead(Ok(Some(cached))));
    lemma_run_push(ttl_seconds, e1, Event::Today(today));
    let e2 = e1.push(Event::Today(today));
    lemma_run_push(ttl_seconds, e2, Event::Fetched(Ok(fetched)));
    let e3 = e2.push(Event::Fetched(Ok(fetched)));
    lemma_run_push(ttl_seconds, e3, Event::CacheWritten(Ok(())));
    let e4 = e3.push(Event::CacheWritten(Ok(())));
    assert(run(ttl_seconds, e0).1 =~= seq![Action::ReadCache]);
    assert(run(ttl_seconds, e4).1 =~= seq![Action::ReadCache, Action::ReadClock, Action::Fetch, Action::WriteCache { value: fetched, ttl_seconds }, Action::Finish(Ok(fetched))]);
    assert(run(ttl_seconds, e4).0 == Phase::Done);
    assert(well_formed_run(ttl_seconds, e4));
    assert(e4 == seq![Event::CacheRead(Ok(Some(cached))), Event::Today(today), Event::Fetched(Ok(fetched)), Event::CacheWritten(Ok(()))]);
}

/// With an empty cache the extractor is invoked once, its record is
/// written to the cache and returned; the clock is not read.
pub proof fn lemma_missing_record_is_fetched(ttl_seconds: u64, fetched: CoffeeMarketIndicators)
    ensures
        ({
            let events = seq![
                Event::CacheRead(Ok(None)),
                Event::Fetched(Ok(fetched)),
                Event::CacheWritten(Ok(())),
            ];
            &&& well_formed_run(ttl_seconds, events)
            &&& run(ttl_seconds, events) == (
                Phase::Done,
                seq![
                    Action::ReadCache,
                    Action::Fetch,
                    Action::WriteCache { value: fetched, ttl_seconds },
                    Action::Finish(Ok(fetched)),
                ],
            )
        }),
{
    let e0 = Seq::<Event>::empty();
    lemma_run_push(ttl_seconds, e0, Event::CacheRead(Ok(None)));
    let e1 = e0.push(Event::CacheRead(Ok(None)));
    lemma_run_push(ttl_seconds, e1, Event::Fetched(Ok(fetched)));
    let e2 = e1.push(Event::Fetched(Ok(fetched)));
    lemma_run_push(ttl_seconds, e2, Event::CacheWritten(Ok(())));
    let e3 = e2.push(Event::CacheWritten(Ok(())));
    assert(run(ttl_seconds, e0).1 =~= seq![Action::ReadCache]);
    assert(run(ttl_seconds, e3).1 =~= seq![Action::ReadCache, Action::Fetch, Action::WriteCache { value: fetched, ttl_seconds }, Action::Finish(Ok(fetched))]);
    assert(run(ttl_seconds, e3).0 == Phase::Done);
    assert(well_formed_run(ttl_seconds, e3));
    assert(e3 == seq![Event::CacheRead(Ok(None)), Event::Fetched(Ok(fetched)), Event::CacheWritten(Ok(()))]);
}

/// When the extractor fails, whether the cache was empty or held a record
/// of another date, the call fails with the extractor's error and the
/// cache is not written.
pub proof fn lemma_extractor_failure_is_returned(
    ttl_seconds: u64,
    cached: Option<CoffeeMarketIndicators>,
    today: Date,
    error: ExtractionError,
)
    requires
        cached matches Some(c) ==> c.publication_date != today,
    ensures
        ({
            let events = match cached {
                None => seq![Event::CacheRead(Ok(None)), Event::Fetched(Err(error))],
                Some(c) => seq![
                    Event::CacheRead(Ok(Some(c))),
                    Event::Today(today),
                    Event::Fetched(Err(error)),
                ],
            };
            let actions = match cached {
                None => seq![
                    Action::ReadCache,
                    Action::Fetch,
                    Action::Finish(Err(RetrievalError::Extraction(error))),
                ],
                Some(_) => seq![
                    Action::ReadCache,
                    Action::ReadClock,
                    Action::Fetch,
                    Action::Finish(Err(RetrievalError::Extraction(error))),
                ],
            };
            &&& well_formed_run(ttl_seconds, events)
            &&& run(ttl_seconds, events) == (Phase::Done, actions)
        }),
{
    match cached {
        None => {
            let e0 = Seq::<Event>::empty();
            lemma_run_push(ttl_seconds, e0, Event::CacheRead(Ok(None)));
            let e1 = e0.push(Event::CacheRead(Ok(None)));
            lemma_run_push(ttl_seconds, e1, Event::Fetched(Err(error)));
            let e2 = e1.push(Event::Fetched(Err(error)));
            assert(run(ttl_seconds, e0).1 =~= seq![Action::ReadCache]);
            assert(run(ttl_seconds, e2).1 =~= seq![Action::ReadCache, Action::Fetch, Action::Finish(Err(RetrievalError::Extraction(error)))]);
            assert(run(ttl_seconds, e2).0 == Phase::Done);
            assert(well_formed_run(ttl_seconds, e2));
            assert(e2 == seq![Event::CacheRead(Ok(None)), Event::Fetched(Err(error))]);
        },
        Some(c) => {
            let e0 = Seq::<Event>::empty();
            lemma_run_push(ttl_seconds, e0, Event::CacheRead(Ok(Some(c))));
            let e1 = e0.push(Event::CacheRead(Ok(Some(c))));
            lemma_run_push(ttl_seconds, e1, Event::Today(today));
            let e2 = e1.push(Event::Today(today));
            lemma_run_push(ttl_seconds, e2, Event::Fetched(Err(error)));
            let e3 = e2.push(Event::Fetched(Err(error)));
            assert(run(ttl_seconds, e0).1 =~= seq![Action::ReadCache]);
            assert(run(ttl_seconds, e3).1 =~= seq![Action::ReadCache, Action::ReadClock, Action::Fetch, Action::Finish(Err(RetrievalError::Extraction(error)))]);
            assert(run(ttl_seconds, e3).0 == Phase::Done);
            assert(well_formed_run(ttl_seconds, e3));
            assert(e3 == seq![Event::CacheRead(Ok(Some(c))), Event::Today(today), Event::Fetched(Err(error))]);
        },
    }
}

/// When the cache cannot be read, the call fails with that error at once:
/// the extractor is not invoked.
pub proof fn lemma_cache_read_failure_is_returned(ttl_seconds: u64, message: String)
    ensures
        ({
            let events = seq![Event::CacheRead(Err(message))];
            &&& well_formed_run(ttl_seconds, events)
            &&& run(ttl_seconds, events) == (
                Phase::Done,
                seq![Action::ReadCache, Action::Finish(Err(RetrievalError::CacheRead(message)))],
            )
        }),
{
    let e0 = Seq::<Event>::empty();
    lemma_run_push(ttl_seconds, e0, Event::CacheRead(Err(message)));
    let e1 = e0.push(Event::CacheRead(Err(message)));
    assert(run(ttl_seconds, e0).1 =~= seq![Action::ReadCache]);
    assert(run(ttl_seconds, e1).1 =~= seq![Action::ReadCache, Action::Finish(Err(RetrievalError::CacheRead(message)))]);
    assert(run(ttl_seconds, e1).0 == Phase::Done);
    assert(well_formed_run(ttl_seconds, e1));
    assert(e1 == seq![Event::CacheRead(Err(message))]);
}

/// When the fetched record cannot be written to the cache, the call fails
/// with that error, though a record was fetched.
pub proof fn lemma_cache_write_failure_is_returned(
    ttl_seconds: u64,
    fetched: CoffeeMarketIndicators,
    message: String,
)
    ensures
        ({
            let events = seq![
                Event::CacheRead(Ok(None)),
                Event::Fetched(Ok(fetched)),
                Event::CacheWritten(Err(message)),
            ];
            &&& well_formed_run(ttl_seconds, events)
            &&& run(ttl_seconds, events) == (
                Phase::Done,
                seq![
                    Action::ReadCache,
                    Action::Fetch,
                    Action::WriteCache { value: fetched, ttl_seconds },
                    Action::Finish(Err(RetrievalError::CacheWrite(message))),
                ],
            )
        }),
{
    let e0 = Seq::<Event>::empty();
    lemma_run_push(ttl_seconds, e0, Event::CacheRead(Ok(None)));
    let e1 = e0.push(Event::CacheRead(Ok(None)));
    lemma_run_push(ttl_seconds, e1, Event::Fetched(Ok(fetched)));
    let e2 = e1.push(Event::Fetched(Ok(fetched)));
    lemma_run_push(ttl_seconds, e2, Event::CacheWritten(Err(message)));
    let e3 = e2.push(Event::CacheWritten(Err(message)));
    assert(run(ttl_seconds, e0).1 =~= seq![Action::ReadCache]);
    assert(run(ttl_seconds, e3).1 =~= seq![Action::ReadCache, Action::Fetch, Action::WriteCache { value: fetched, ttl_seconds }, Action::Finish(Err(RetrievalError::CacheWrite(message)))]);
    assert(run(ttl_seconds, e3).0 == Phase::Done);
    assert(well_formed_run(ttl_seconds, e3));
    assert(e3 == seq![Event::CacheRead(Ok(None)), Event::Fetched(Ok(fetched)), Event::CacheWritten(Err(message))]);
}

/// How many times `actions` invoke the extractor.
pub open spec fn fetch_count(actions: Seq<Action>) -> nat
    decreases actions.len(),
{
    if actions.len() == 0 {
        0
    } else {
        fetch_count(actions.drop_last()) + if actions.last() is Fetch { 1nat } else { 0nat }
    }
}

/// How many times `actions` write the cache.
pub open spec fn write_count(actions: Seq<Action>) -> nat
    decreases actions.len(),
{
    if actions.len() == 0 {
        0
    } else {
        write_count(actions.drop_last()) + if actions.last() is WriteCache { 1nat } else { 0nat }
    }
}

proof fn lemma_counts_by_phase(ttl_seconds: u64, events: Seq<Event>)
    requires
        well_formed_run(ttl_seconds, events),
    ensures
        ({
            let (p, actions) = run(ttl_seconds, events);
            match p {
                Phase::ReadingCache => fetch_count(actions) == 0 && write_count(actions) == 0,
                Phase::ReadingClock(_) => fetch_count(actions) == 0 && write_count(actions) == 0,
                Phase::Fetching => fetch_count(actions) == 1 && write_count(actions) == 0,
                Phase::Writing(_) => fetch_count(actions) == 1 && write_count(actions) == 1,
                Phase::Done => fetch_count(actions) <= 1 && write_count(actions) <= 1,
            }
        }),
    decreases events.len(),
{
    if events.len() == 0 {
        let actions = seq![Action::ReadCache];
        assert(actions.drop_last() =~= Seq::<Action>::empty());
        assert(fetch_count(Seq::<Action>::empty()) == 0);
        assert(write_count(Seq::<Action>::empty()) == 0);
        assert(actions.last() == Action::ReadCache);
    } else {
        let before = events.drop_last();
        let e = events.last();
        assert(before.push(e) =~= events);
        lemma_run_push(ttl_seconds, before, e);
        lemma_counts_by_phase(ttl_seconds, before);
        let (p, actions) = run(ttl_seconds, before);
        let (q, a) = transition(p, ttl_seconds, e);
        assert(actions.push(a).drop_last() =~= actions);
        assert(actions.push(a).last() == a);
        assert(answers(p, e));
        assert(run(ttl_seconds, events) == (q, actions.push(a)));
        assert(fetch_count(actions.push(a)) == fetch_count(actions) + if a is Fetch {
            1nat
        } else {
            0nat
        });
        assert(write_count(actions.push(a)) == write_count(actions) + if a is WriteCache {
            1nat
        } else {
            0nat
        });
    }
}

/// Whatever the cache holds and whatever each collaborator answers, one
/// retrieval invokes the extractor at most once and writes the cache at
/// most once.
pub proof fn lemma_at_most_one_fetch_and_write(ttl_seconds: u64, events: Seq<Event>)
    requires
        well_formed_run(ttl_seconds, events),
    ensures
        fetch_count(run(ttl_seconds, events).1) <= 1,
        write_count(run(ttl_seconds, events).1) <= 1,
{
    lemma_counts_by_phase(ttl_seconds, events);
}

} // verus!
