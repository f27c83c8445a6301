//! The sync engine: drains unsynced events in batches, hands them over for
//! delivery to the hub, and marks synced what the hub accepted.
//!
//! The engine decides and never waits: each step takes what happened last
//! and answers with what to do next. Whoever drives it performs the action
//! (a query, a request, a sleep) and reports back.

use vstd::prelude::*;
use vstd::string::{StringExecFns, StrSliceExecFns};
use crate::config::SyncConfig;
use crate::db::{event_views, in_observed_order, Database};
use crate::event::Event;
use vstd::arithmetic::power2::{pow2, lemma_pow2_pos, lemma_pow2_unfold, lemma_pow2_strictly_increases, lemma2_to64};

verus! {

/// Longest delay between two delivery attempts: five minutes, in milliseconds.
pub const MAX_BACKOFF_MS: u64 = 300_000;

/// The delay before retry number `attempt`: the base delay doubled once per
/// earlier attempt, capped at five minutes. Attempt 0 counts as attempt 1.
pub open spec fn backoff_delay(attempt: u32, base_delay_ms: u64) -> int {
    let doublings: nat = if attempt >= 1 { (attempt - 1) as nat } else { 0 };
    let raw: int = base_delay_ms * pow2(doublings);
    if raw <= MAX_BACKOFF_MS { raw } else { MAX_BACKOFF_MS as int }
}

/// Computes the retry delay in milliseconds.
pub fn calculate_backoff(attempt: u32, base_delay_ms: u64) -> (delay: u64)
    ensures
        delay == backoff_delay(attempt, base_delay_ms),
{
    proof {
        lemma_pow2_pos(0);
        lemma2_to64();
    }
    if base_delay_ms == 0 {
        assert(base_delay_ms * pow2(if attempt >= 1 { (attempt - 1) as nat } else { 0 }) == 0)
            by (nonlinear_arith)
            requires base_delay_ms == 0;
        return 0;
    }
    if base_delay_ms >= MAX_BACKOFF_MS {
        let ghost d: nat = if attempt >= 1 { (attempt - 1) as nat } else { 0 };
        proof {
            lemma_pow2_pos(d);
            assert(base_delay_ms * pow2(d) >= MAX_BACKOFF_MS) by (nonlinear_arith)
                requires base_delay_ms >= MAX_BACKOFF_MS, pow2(d) >= 1;
        }
        return MAX_BACKOFF_MS;
    }
    let target: u32 = if attempt >= 1 { attempt - 1 } else { 0 };
    let mut delay: u64 = base_delay_ms;
    let mut done: u32 = 0;
    while done < target && delay < MAX_BACKOFF_MS
        invariant
            done <= target,
            1 <= base_delay_ms < MAX_BACKOFF_MS,
            delay == base_delay_ms * pow2(done as nat) || (delay == MAX_BACKOFF_MS
                && base_delay_ms * pow2(done as nat) >= MAX_BACKOFF_MS),
            delay <= MAX_BACKOFF_MS,
        decreases target - done,
    {
        proof {
            lemma_pow2_unfold((done + 1) as nat);
            assert(base_delay_ms * (2 * pow2(done as nat)) == 2 * (base_delay_ms * pow2(
                done as nat,
            ))) by (nonlinear_arith);
        }
        if delay > MAX_BACKOFF_MS / 2 {
            delay = MAX_BACKOFF_MS;
        } else {
            delay = delay * 2;
        }
        done = done + 1;
    }
    proof {
        if done < target {
            // The cap was reached early; later doublings only grow the raw delay.
            lemma_pow2_strictly_increases(done as nat, target as nat);
            assert(base_delay_ms * pow2(target as nat) >= base_delay_ms * pow2(done as nat))
                by (nonlinear_arith)
                requires pow2(target as nat) > pow2(done as nat), base_delay_ms >= 1;
        }
    }
    delay
}

/// A later attempt never waits less than an earlier one, and no attempt
/// waits more than five minutes.
pub proof fn lemma_backoff_monotonic(earlier: u32, later: u32, base_delay_ms: u64)
    requires
        earlier <= later,
    ensures
        0 <= backoff_delay(earlier, base_delay_ms) <= backoff_delay(later, base_delay_ms)
            <= MAX_BACKOFF_MS,
{
    let a: nat = if earlier >= 1 { (earlier - 1) as nat } else { 0 };
    let b: nat = if later >= 1 { (later - 1) as nat } else { 0 };
    lemma_pow2_pos(a);
    if a < b {
        lemma_pow2_strictly_increases(a, b);
    }
    assert(0 <= base_delay_ms * pow2(a) <= base_delay_ms * pow2(b)) by (nonlinear_arith)
        requires
            0 < pow2(a) <= pow2(b),
            base_delay_ms >= 0,
    ;
}

/// Where the engine stands between two steps.
#[derive(Debug, Clone, Copy, PartialEq, Eq, Structural)]
pub enum Phase {
    /// Asleep between two cycles.
    Idle,
    /// A query for unsynced events is under way.
    Draining,
    /// A batch is on its way to the hub.
    Sending,
    /// Asleep before the same batch is sent again.
    Retrying,
    /// The accepted events are being marked synced.
    Marking,
}

/// What happened since the last step.
#[derive(Debug)]
pub enum Signal {
    /// The engine was started, or a sleep has ended.
    Wake,
    /// The store returned these unsynced events, oldest first.
    Fetched(Vec<Event>),
    /// The store failed to return unsynced events.
    FetchFailed,
    /// The hub answered with success and listed these identifiers as
    /// accepted. The list is taken as the hub gave it: an identifier that
    /// was not in the batch is not told apart from one that was.
    Delivered(Vec<String>),
    /// The hub could not be reached, answered with a failure status, or
    /// answered with a body that could not be read.
    DeliveryFailed,
    /// The store marked the accepted events synced.
    Marked,
    /// The store failed to mark the accepted events synced.
    MarkFailed,
}

/// What to do next.
#[derive(Debug, Clone, Copy, PartialEq, Eq, Structural)]
pub enum Action {
    /// Query the store for up to this many unsynced events.
    Fetch(usize),
    /// Send the engine's batch to the hub.
    Send,
    /// Mark the engine's accepted identifiers synced in the store.
    Mark,
    /// Sleep this many seconds.
    SleepSeconds(u64),
    /// Sleep this many milliseconds.
    SleepMillis(u64),
}

/// The sync engine's state: the phase, the number of failed deliveries in a
/// row, the batch that is being delivered and the identifiers that the hub
/// accepted last.
pub struct SyncEngine {
    config: SyncConfig,
    phase: Phase,
    failures: u32,
    batch: Vec<Event>,
    accepted: Vec<String>,
}

/// The engine's state as plain values.
pub struct EngineView {
    pub phase: Phase,
    pub failures: u32,
    pub batch: Seq<Event>,
    pub accepted: Seq<String>,
}

/// The engine at rest, with `failures` failed deliveries behind it.
pub open spec fn at_rest(failures: u32) -> EngineView {
    EngineView { phase: Phase::Idle, failures, batch: Seq::empty(), accepted: Seq::empty() }
}

/// The state and the action that follow from a state and a signal.
///
/// A signal that the phase does not await abandons the cycle: the engine
/// sleeps the interval and drains again, which loses nothing, since what is
/// unsynced stays in the store.
pub open spec fn next(config: SyncConfig, s: EngineView, signal: Signal) -> (EngineView, Action) {
    let rest = (at_rest(s.failures), Action::SleepSeconds(config.interval_seconds));
    match (s.phase, signal) {
        (Phase::Idle, Signal::Wake) => (
            EngineView { phase: Phase::Draining, ..at_rest(s.failures) },
            Action::Fetch(config.batch_size),
        ),
        (Phase::Draining, Signal::Fetched(events)) => if events@.len() == 0 {
            rest
        } else {
            (EngineView { phase: Phase::Sending, batch: events@, ..at_rest(s.failures) }, Action::Send)
        },
        (Phase::Sending, Signal::Delivered(ids)) => (
            EngineView { phase: Phase::Marking, accepted: ids@, ..at_rest(s.failures) },
            Action::Mark,
        ),
        (Phase::Sending, Signal::DeliveryFailed) => if s.failures + 1 < config.retry_max_attempts {
            (
                EngineView {
                    phase: Phase::Retrying,
                    failures: (s.failures + 1) as u32,
                    batch: s.batch,
                    accepted: Seq::empty(),
                },
                Action::SleepMillis(
                    backoff_delay((s.failures + 1) as u32, config.retry_base_delay_ms) as u64,
                ),
            )
        } else {
            (at_rest(0), Action::SleepSeconds(config.interval_seconds))
        },
        (Phase::Retrying, Signal::Wake) => (
            EngineView { phase: Phase::Sending, batch: s.batch, ..at_rest(s.failures) },
            Action::Send,
        ),
        (Phase::Marking, Signal::Marked) => (
            at_rest(0),
            Action::SleepSeconds(config.interval_seconds),
        ),
        _ => rest,
    }
}

/// Whether a state can be reached: the failure counter stays under the
/// retry limit, and a batch on its way is not empty.
pub open spec fn reachable(config: SyncConfig, s: EngineView) -> bool {
    &&& s.failures == 0 || s.failures < config.retry_max_attempts
    &&& (s.phase == Phase::Sending || s.phase == Phase::Retrying) ==> s.batch.len() > 0
}

/// Every step leads from a reachable state to a reachable state, and never
/// asks for a retry pause of more than five minutes.
pub proof fn lemma_next_keeps_reachable(config: SyncConfig, s: EngineView, signal: Signal)
    requires
        reachable(config, s),
    ensures
        reachable(config, next(config, s, signal).0),
        next(config, s, signal).1 matches Action::SleepMillis(ms) ==> ms <= MAX_BACKOFF_MS,
{
    if s.failures < u32::MAX {
        lemma_backoff_monotonic(1, (s.failures + 1) as u32, config.retry_base_delay_ms);
    }
}

/// Only a success of the hub brings the engine to mark anything, and then
/// it marks the identifiers that the hub listed, all of them and no others.
pub proof fn lemma_marks_what_hub_accepted(config: SyncConfig, s: EngineView, signal: Signal)
    ensures
        next(config, s, signal).1 == Action::Mark <==> s.phase == Phase::Sending
            && signal is Delivered,
        signal matches Signal::Delivered(ids) ==> s.phase == Phase::Sending ==> next(
            config,
            s,
            signal,
        ).0.accepted == ids@,
{
}

/// A failed delivery is retried with the batch that failed, while the retry
/// limit is not reached.
pub proof fn lemma_retry_keeps_batch(config: SyncConfig, s: EngineView)
    requires
        s.phase == Phase::Sending,
        s.failures + 1 < config.retry_max_attempts,
    ensures
        ({
            let (paused, pause) = next(config, s, Signal::DeliveryFailed);
            let (resumed, resend) = next(config, paused, Signal::Wake);
            &&& pause == Action::SleepMillis(
                backoff_delay((s.failures + 1) as u32, config.retry_base_delay_ms) as u64,
            )
            &&& resend == Action::Send
            &&& resumed.phase == Phase::Sending
            &&& resumed.batch == s.batch
            &&& resumed.failures == s.failures + 1
        }),
{
}

impl View for SyncEngine {
    type V = EngineView;

    closed spec fn view(&self) -> EngineView {
        EngineView {
            phase: self.phase,
            failures: self.failures,
            batch: self.batch@,
            accepted: self.accepted@,
        }
    }
}

impl SyncEngine {
    /// Every engine is in a reachable state.
    #[verifier::type_invariant]
    spec fn well_formed(&self) -> bool {
        reachable(self.config, self@)
    }

    /// The configuration that the engine was made with.
    pub closed spec fn settings(&self) -> SyncConfig {
        self.config
    }

    /// An engine at rest with no failures behind it.
    pub fn new(config: SyncConfig) -> (engine: SyncEngine)
        ensures
            engine@ == at_rest(0),
            engine.settings() == config,
            reachable(config, engine@),
    {
        SyncEngine {
            config,
            phase: Phase::Idle,
            failures: 0,
            batch: Vec::new(),
            accepted: Vec::new(),
        }
    }

    pub fn config(&self) -> (config: &SyncConfig)
        ensures
            *config == self.settings(),
    {
        &self.config
    }

    pub fn phase(&self) -> (phase: Phase)
        ensures
            phase == self@.phase,
    {
        self.phase
    }

    /// The number of deliveries that failed in a row.
    pub fn consecutive_failures(&self) -> (failures: u32)
        ensures
            failures == self@.failures,
    {
        self.failures
    }

    /// The batch to send.
    pub fn batch(&self) -> (batch: &Vec<Event>)
        ensures
            batch@ == self@.batch,
    {
        &self.batch
    }

    /// The identifiers to mark synced.
    pub fn accepted(&self) -> (ids: &Vec<String>)
        ensures
            ids@ == self@.accepted,
    {
        &self.accepted
    }

    /// Takes what happened and answers with what to do next.
    pub fn step(&mut self, signal: Signal) -> (action: Action)
        ensures
            (final(self)@, action) == next(old(self).settings(), old(self)@, signal),
            final(self).settings() == old(self).settings(),
            reachable(final(self).settings(), final(self)@),
    {
        proof {
            use_type_invariant(&*self);
            lemma_next_keeps_reachable(self.config, self@, signal);
        }
        let interval = self.config.interval_seconds;
        match (self.phase, signal) {
            (Phase::Idle, Signal::Wake) => {
                self.rest(self.failures);
                self.phase = Phase::Draining;
                Action::Fetch(self.config.batch_size)
            },
            (Phase::Draining, Signal::Fetched(events)) => {
                if events.len() == 0 {
                    self.rest(self.failures);
                    Action::SleepSeconds(interval)
                } else {
                    self.rest(self.failures);
                    self.batch = events;
                    self.phase = Phase::Sending;
                    Action::Send
                }
            },
            (Phase::Sending, Signal::Delivered(ids)) => {
                self.rest(self.failures);
                self.phase = Phase::Marking;
                self.accepted = ids;
                Action::Mark
            },
            (Phase::Sending, Signal::DeliveryFailed) => {
                if self.failures < self.config.retry_max_attempts
                    && self.failures + 1 < self.config.retry_max_attempts {
                    self.failures = self.failures + 1;
                    self.phase = Phase::Retrying;
                    self.accepted = Vec::new();
                    Action::SleepMillis(
                        calculate_backoff(self.failures, self.config.retry_base_delay_ms),
                    )
                } else {
                    self.rest(0);
                    Action::SleepSeconds(interval)
                }
            },
            (Phase::Retrying, Signal::Wake) => {
                self.phase = Phase::Sending;
                self.accepted = Vec::new();
                Action::Send
            },
            (Phase::Marking, Signal::Marked) => {
                self.rest(0);
                Action::SleepSeconds(interval)
            },
            _ => {
                self.rest(self.failures);
                Action::SleepSeconds(interval)
            },
        }
    }

    fn rest(&mut self, failures: u32)
        requires
            failures == 0 || failures < old(self).config.retry_max_attempts,
        ensures
            final(self)@ == at_rest(failures),
            final(self).config == old(self).config,
    {
        proof {
            use_type_invariant(&*self);
        }
        self.phase = Phase::Idle;
        self.failures = failures;
        self.batch = Vec::new();
        self.accepted = Vec::new();
    }
}

/// Whether an action is carried out on the store, without waiting.
pub open spec fn on_store(action: Action) -> bool {
    action is Fetch || action == Action::Mark
}

impl SyncEngine {
    /// Steps the engine and carries out what it asks of the store, until it
    /// asks for something that takes waiting: a delivery or a sleep. The
    /// store is touched only between two such actions, never during one.
    ///
    /// A failure of the store abandons the cycle and leaves the failure
    /// counter as it was: only failed deliveries count toward the backoff.
    /// Whatever the store answers, the engine has taken the step for that
    /// answer when the call returns.
    pub fn drive(&mut self, db: &mut Database, signal: Signal) -> (action: Action)
        ensures
            final(self).settings() == old(self).settings(),
            reachable(final(self).settings(), final(self)@),
            !on_store(action),
            !on_store(next(old(self).settings(), old(self)@, signal).1) ==> (final(self)@, action)
                == next(old(self).settings(), old(self)@, signal),
            action == Action::Send <==> final(self)@.phase == Phase::Sending,
            action matches Action::SleepMillis(ms) ==> ms <= MAX_BACKOFF_MS
                && final(self)@.phase == Phase::Retrying,
            action is SleepSeconds ==> final(self)@.phase == Phase::Idle,
            on_store(next(old(self).settings(), old(self)@, signal).1) ==> final(self)@.failures
                == old(self)@.failures || final(self)@.failures == 0,
            next(old(self).settings(), old(self)@, signal).1 == Action::Mark ==> {
                let mid = next(old(self).settings(), old(self)@, signal).0;
                ||| (final(self)@, action) == next(old(self).settings(), mid, Signal::Marked)
                ||| (final(self)@, action) == next(old(self).settings(), mid, Signal::MarkFailed)
            },
            next(old(self).settings(), old(self)@, signal).1 is Fetch ==> {
                let mid = next(old(self).settings(), old(self)@, signal).0;
                ||| exists|events: Vec<Event>|
                    (final(self)@, action) == #[trigger] next(
                        old(self).settings(),
                        mid,
                        Signal::Fetched(events),
                    )
                ||| (final(self)@, action) == next(old(self).settings(), mid, Signal::FetchFailed)
            },
            action == Action::Send && old(self)@.phase == Phase::Idle ==> {
                let batch = final(self)@.batch;
                &&& 0 < batch.len() <= old(self).settings().batch_size
                &&& in_observed_order(event_views(batch))
                &&& forall|k: int|
                    0 <= k < batch.len() ==> (#[trigger] batch[k]).sync is Some
                        && !batch[k].sync.unwrap().synced
            },
    {
        proof {
            use_type_invariant(&*self);
            lemma_next_keeps_reachable(self.config, self@, signal);
        }
        let first = self.step(signal);
        let second = match first {
            Action::Fetch(limit) => {
                let fetched = match db.get_unsynced_events(limit) {
                    Ok(events) => Signal::Fetched(events),
                    Err(_) => Signal::FetchFailed,
                };
                self.step(fetched)
            },
            Action::Mark => {
                let marked = match db.mark_synced(self.accepted.as_slice()) {
                    Ok(_) => Signal::Marked,
                    Err(_) => Signal::MarkFailed,
                };
                self.step(marked)
            },
            other => other,
        };
        second
    }
}

/// The path of the hub's batch endpoint.
pub const BATCH_PATH: &'static str = "/api/ingest/batch";

/// How long a request to the hub may take before it counts as failed, in
/// seconds.
pub const REQUEST_TIMEOUT_SECONDS: u64 = 30;

/// A text without the slashes at its end.
pub open spec fn without_trailing_slashes(s: Seq<char>) -> Seq<char>
    decreases s.len(),
{
    if s.len() > 0 && s.last() == '/' {
        without_trailing_slashes(s.drop_last())
    } else {
        s
    }
}

/// The address that batches are posted to: the hub's address without the
/// slashes at its end, then the path of the batch endpoint.
pub fn batch_url(hub_url: &str) -> (url: String)
    ensures
        url@ == without_trailing_slashes(hub_url@) + BATCH_PATH@,
{
    let mut end: usize = hub_url.unicode_len();
    proof {
        assert(hub_url@.subrange(0, end as int) == hub_url@);
    }
    while end > 0 && hub_url.get_char(end - 1) == '/'
        invariant
            end <= hub_url@.len(),
            without_trailing_slashes(hub_url@) == without_trailing_slashes(
                hub_url@.subrange(0, end as int),
            ),
        decreases end,
    {
        proof {
            assert(hub_url@.subrange(0, end as int).drop_last() == hub_url@.subrange(
                0,
                end - 1,
            ));
        }
        end = end - 1;
    }
    String::from_str(hub_url.substring_char(0, end)).concat(BATCH_PATH)
}

/// The value of the authorization header: the bearer scheme, then the key.
pub fn bearer_token(api_key: &str) -> (header: String)
    ensures
        header@ == "Bearer "@ + api_key@,
{
    String::from_str("Bearer ").concat(api_key)
}

/// Whether an HTTP status reports success: 200 to 299.
pub open spec fn is_success(status: u16) -> bool {
    200 <= status < 300
}

/// Reads the hub's answer to a batch: the status of the response and, where
/// its body could be read, the identifiers that it lists as accepted. Only a
/// success status with a readable body is a delivery; the hub may have
/// accepted any part of the batch.
pub fn hub_signal(status: u16, accepted: Option<Vec<String>>) -> (signal: Signal)
    ensures
        signal == (match accepted {
            Some(ids) => if is_success(status) {
                Signal::Delivered(ids)
            } else {
                Signal::DeliveryFailed
            },
            None => Signal::DeliveryFailed,
        }),
{
    if 200 <= status && status < 300 {
        match accepted {
            Some(ids) => Signal::Delivered(ids),
            None => Signal::DeliveryFailed,
        }
    } else {
        Signal::DeliveryFailed
    }
}

} // verus!
