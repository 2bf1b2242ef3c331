//! The decisions of one authenticated request: look up the cached token,
//! acquire one on a miss, cache it, send, and on an unauthorized answer drop
//! the cache and try exactly once more. The caller performs each action and
//! reports what came of it.
use vstd::prelude::*;

verus! {

/// Where a request stands.
#[derive(PartialEq, Eq, Structural, Clone, Copy, Debug)]
pub enum Phase {
    Idle,
    Loading,
    Acquiring,
    Saving,
    Sending,
    Removing,
    Done,
}

/// How the server answered the request.
#[derive(PartialEq, Eq, Structural, Clone, Copy, Debug)]
pub enum Outcome {
    /// Any answer that is not about the token.
    Answered,
    /// The token was not accepted.
    Unauthorized,
    /// The request failed for another reason.
    Failed,
}

/// What came of the last action.
#[derive(PartialEq, Eq, Structural, Clone, Copy, Debug)]
pub enum Event {
    Start,
    CacheHit,
    CacheMiss,
    Acquired,
    AcquireFailed,
    /// The token was offered to the cache, whether or not it was written.
    Saved,
    Responded(Outcome),
    Removed,
}

/// What the caller does next.
#[derive(PartialEq, Eq, Structural, Clone, Copy, Debug)]
pub enum Action {
    LoadCache,
    Acquire,
    SaveCache,
    Send,
    RemoveCache,
    /// Return the last answer (or its error) as it is.
    ReturnResponse,
    /// Return the acquisition error.
    ReturnError,
    /// The event does not fit the current phase; nothing changes.
    Ignore,
}

/// The state of one request: its phase and which attempt (1 or 2) it is on.
#[derive(PartialEq, Eq, Structural, Clone, Copy, Debug)]
pub struct Dispatch {
    pub phase: Phase,
    pub attempt: u8,
}

/// The attempts a request may make.
pub const MAX_ATTEMPTS: u8 = 2;

/// The next state and action after `e` in state `s`.
pub open spec fn step(s: Dispatch, e: Event) -> (Dispatch, Action) {
    match (s.phase, e) {
        (Phase::Idle, Event::Start) => (Dispatch { phase: Phase::Loading, attempt: 1 }, Action::LoadCache),
        (Phase::Loading, Event::CacheHit) => (Dispatch { phase: Phase::Saving, ..s }, Action::SaveCache),
        (Phase::Loading, Event::CacheMiss) => (Dispatch { phase: Phase::Acquiring, ..s }, Action::Acquire),
        (Phase::Acquiring, Event::Acquired) => (Dispatch { phase: Phase::Saving, ..s }, Action::SaveCache),
        (Phase::Acquiring, Event::AcquireFailed) => (Dispatch { phase: Phase::Done, ..s }, Action::ReturnError),
        (Phase::Saving, Event::Saved) => (Dispatch { phase: Phase::Sending, ..s }, Action::Send),
        (Phase::Sending, Event::Responded(o)) => if o == Outcome::Unauthorized && s.attempt < MAX_ATTEMPTS {
            (Dispatch { phase: Phase::Removing, ..s }, Action::RemoveCache)
        } else {
            (Dispatch { phase: Phase::Done, ..s }, Action::ReturnResponse)
        },
        (Phase::Removing, Event::Removed) => (Dispatch { phase: Phase::Loading, attempt: (s.attempt + 1) as u8 }, Action::LoadCache),
        _ => (s, Action::Ignore),
    }
}

/// The state a request starts in.
pub open spec fn initial() -> Dispatch {
    Dispatch { phase: Phase::Idle, attempt: 0 }
}

/// The attempt counter fits the phase.
pub open spec fn wf(s: Dispatch) -> bool {
    match s.phase {
        Phase::Idle => s.attempt == 0,
        Phase::Removing => s.attempt == 1,
        _ => 1 <= s.attempt <= MAX_ATTEMPTS,
    }
}

impl Dispatch {
    /// A request that has not started.
    pub fn new() -> (r: Dispatch)
        ensures
            r == initial(),
    {
        Dispatch { phase: Phase::Idle, attempt: 0 }
    }

    /// Takes in what came of the last action and says what to do next.
    pub fn next(&mut self, e: Event) -> (a: Action)
        requires
            wf(*old(self)),
        ensures
            (*final(self), a) == step(*old(self), e),
            wf(*final(self)),
    {
        match (self.phase, e) {
            (Phase::Idle, Event::Start) => {
                self.phase = Phase::Loading;
                self.attempt = 1;
                Action::LoadCache
            },
            (Phase::Loading, Event::CacheHit) => {
                self.phase = Phase::Saving;
                Action::SaveCache
            },
            (Phase::Loading, Event::CacheMiss) => {
                self.phase = Phase::Acquiring;
                Action::Acquire
            },
            (Phase::Acquiring, Event::Acquired) => {
                self.phase = Phase::Saving;
                Action::SaveCache
            },
            (Phase::Acquiring, Event::AcquireFailed) => {
                self.phase = Phase::Done;
                Action::ReturnError
            },
            (Phase::Saving, Event::Saved) => {
                self.phase = Phase::Sending;
                Action::Send
            },
            (Phase::Sending, Event::Responded(o)) => {
                if o == Outcome::Unauthorized && self.attempt < MAX_ATTEMPTS {
                    self.phase = Phase::Removing;
                    Action::RemoveCache
                } else {
                    self.phase = Phase::Done;
                    Action::ReturnResponse
                }
            },
            (Phase::Removing, Event::Removed) => {
                self.phase = Phase::Loading;
                self.attempt = self.attempt + 1;
                Action::LoadCache
            },
            _ => Action::Ignore,
        }
    }

    /// Whether the request has ended.
    pub fn is_done(&self) -> (r: bool)
        ensures
            r == (self.phase == Phase::Done),
    {
        self.phase == Phase::Done
    }
}

/// The final state and the actions after the events `evs` from state `s`.
pub open spec fn run(s: Dispatch, evs: Seq<Event>) -> (Dispatch, Seq<Action>)
    decreases evs.len(),
{
    if evs.len() == 0 {
        (s, Seq::empty())
    } else {
        let (s1, a) = step(s, evs[0]);
        let (s2, rest) = run(s1, evs.drop_first());
        (s2, seq![a] + rest)
    }
}

/// How many times `a` occurs in `acts`.
pub open spec fn count(acts: Seq<Action>, a: Action) -> nat
    decreases acts.len(),
{
    if acts.len() == 0 {
        0
    } else {
        (if acts[0] == a { 1nat } else { 0nat }) + count(acts.drop_first(), a)
    }
}

/// The requests that may still be sent from state `s`.
pub open spec fn send_budget(s: Dispatch) -> nat {
    match s.phase {
        Phase::Idle => 2,
        Phase::Loading | Phase::Acquiring | Phase::Saving => (3 - s.attempt) as nat,
        Phase::Sending => if s.attempt == 1 { 1 } else { 0 },
        Phase::Removing => 1,
        Phase::Done => 0,
    }
}

/// The tokens that may still be acquired from state `s`.
pub open spec fn acquire_budget(s: Dispatch) -> nat {
    match s.phase {
        Phase::Idle => 2,
        Phase::Loading => (3 - s.attempt) as nat,
        Phase::Acquiring | Phase::Saving | Phase::Sending => if s.attempt == 1 { 1 } else { 0 },
        Phase::Removing => 1,
        Phase::Done => 0,
    }
}

proof fn lemma_budgets(s: Dispatch, evs: Seq<Event>)
    requires
        wf(s),
    ensures
        count(run(s, evs).1, Action::Send) <= send_budget(s),
        count(run(s, evs).1, Action::Acquire) <= acquire_budget(s),
    decreases evs.len(),
{
    if evs.len() > 0 {
        let (s1, a) = step(s, evs[0]);
        lemma_budgets(s1, evs.drop_first());
        let acts = run(s, evs).1;
        assert(acts.drop_first() =~= run(s1, evs.drop_first()).1);
    }
}

/// A request makes at most two attempts: whatever is reported back, at
/// most two requests are sent and at most two tokens are acquired.
pub proof fn lemma_at_most_two_attempts(evs: Seq<Event>)
    ensures
        count(run(initial(), evs).1, Action::Send) <= 2,
        count(run(initial(), evs).1, Action::Acquire) <= 2,
{
    lemma_budgets(initial(), evs);
}

/// With no cached token, a request acquires a token, caches it and sends;
/// on an unauthorized answer it drops the cache, acquires one more token,
/// caches it, sends once more, and returns that second answer whatever it is.
pub proof fn lemma_retry_once_after_unauthorized(second: Outcome)
    ensures
        run(initial(), seq![
            Event::Start,
            Event::CacheMiss,
            Event::Acquired,
            Event::Saved,
            Event::Responded(Outcome::Unauthorized),
            Event::Removed,
            Event::CacheMiss,
            Event::Acquired,
            Event::Saved,
            Event::Responded(second),
        ]) == (Dispatch { phase: Phase::Done, attempt: 2 }, seq![
            Action::LoadCache,
            Action::Acquire,
            Action::SaveCache,
            Action::Send,
            Action::RemoveCache,
            Action::LoadCache,
            Action::Acquire,
            Action::SaveCache,
            Action::Send,
            Action::ReturnResponse,
        ]),
{
    let evs = seq![
        Event::Start,
        Event::CacheMiss,
        Event::Acquired,
        Event::Saved,
        Event::Responded(Outcome::Unauthorized),
        Event::Removed,
        Event::CacheMiss,
        Event::Acquired,
        Event::Saved,
        Event::Responded(second),
    ];
    reveal_with_fuel(run, 11);
    assert(evs.drop_first() =~= evs.subrange(1, 10));
    assert(evs.subrange(1, 10).drop_first() =~= evs.subrange(2, 10));
    assert(evs.subrange(2, 10).drop_first() =~= evs.subrange(3, 10));
    assert(evs.subrange(3, 10).drop_first() =~= evs.subrange(4, 10));
    assert(evs.subrange(4, 10).drop_first() =~= evs.subrange(5, 10));
    assert(evs.subrange(5, 10).drop_first() =~= evs.subrange(6, 10));
    assert(evs.subrange(6, 10).drop_first() =~= evs.subrange(7, 10));
    assert(evs.subrange(7, 10).drop_first() =~= evs.subrange(8, 10));
    assert(evs.subrange(8, 10).drop_first() =~= evs.subrange(9, 10));
    assert(evs.subrange(9, 10).drop_first() =~= evs.subrange(10, 10));
    assert(run(initial(), evs).1 =~= seq![
        Action::LoadCache,
        Action::Acquire,
        Action::SaveCache,
        Action::Send,
        Action::RemoveCache,
        Action::LoadCache,
        Action::Acquire,
        Action::SaveCache,
        Action::Send,
        Action::ReturnResponse,
    ]);
}

/// With a cached token, a request acquires none: it offers the token to the
/// cache, sends, and returns the answer unless the token was refused.
pub proof fn lemma_cached_token_skips_grant(answer: Outcome)
    requires
        answer != Outcome::Unauthorized,
    ensures
        run(initial(), seq![Event::Start, Event::CacheHit, Event::Saved, Event::Responded(answer)])
            == (Dispatch { phase: Phase::Done, attempt: 1 }, seq![
            Action::LoadCache,
            Action::SaveCache,
            Action::Send,
            Action::ReturnResponse,
        ]),
{
    let evs = seq![Event::Start, Event::CacheHit, Event::Saved, Event::Responded(answer)];
    reveal_with_fuel(run, 5);
    assert(evs.drop_first() =~= evs.subrange(1, 4));
    assert(evs.subrange(1, 4).drop_first() =~= evs.subrange(2, 4));
    assert(evs.subrange(2, 4).drop_first() =~= evs.subrange(3, 4));
    assert(evs.subrange(3, 4).drop_first() =~= evs.subrange(4, 4));
    assert(run(initial(), evs).1 =~= seq![
        Action::LoadCache,
        Action::SaveCache,
        Action::Send,
        Action::ReturnResponse,
    ]);
}

} // verus!
