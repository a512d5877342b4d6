//! Lifecycle of the shared model: loaded at most once per attempt, shared
//! once loaded, and tried again after a failed attempt.
//!
//! The manager holds no model. It decides, for each request that needs the
//! model, whether that request loads it, waits for the load in progress, or
//! uses the loaded model; the caller performs the load and reports its end.
//! Attempts are numbered from 1. A waiter holds the number of the attempt it
//! waits for, and learns on each poll whether that attempt is over.

use vstd::prelude::*;

verus! {

#[derive(Clone, Copy, Debug, PartialEq, Eq, Structural)]
pub enum Phase {
    /// No model, and no load in progress.
    Empty,
    /// One load is in progress.
    Loading,
    /// The model is loaded.
    Ready,
}

/// What a request that needs the model is to do next.
#[derive(Clone, Copy, Debug, PartialEq, Eq, Structural)]
pub enum Access {
    /// Perform the load attempt with this number, then report its end.
    Load(u64),
    /// Wait for the load attempt with this number to end, then poll again.
    Wait(u64),
    /// The model is loaded: use it.
    Use,
    /// The model could not be loaded for this request.
    Unavailable,
}

/// The state of a manager: its phase, and how many load attempts have
/// started and ended.
pub struct ManagerView {
    pub phase: Phase,
    pub started: int,
    pub finished: int,
}

impl ManagerView {
    pub open spec fn wf(self) -> bool {
        &&& 0 <= self.finished <= self.started <= u64::MAX
        &&& (self.phase == Phase::Loading <==> self.started == self.finished + 1)
        &&& (self.phase != Phase::Loading ==> self.started == self.finished)
    }
}

/// A request arrives that needs the model. From an empty manager it starts
/// the next attempt, unless the attempt numbers are used up.
pub open spec fn request_step(s: ManagerView) -> (ManagerView, Access) {
    match s.phase {
        Phase::Ready => (s, Access::Use),
        Phase::Loading => (s, Access::Wait(s.started as u64)),
        Phase::Empty => if s.started < u64::MAX {
            (ManagerView { phase: Phase::Loading, started: s.started + 1, finished: s.finished }, Access::Load((s.started + 1) as u64))
        } else {
            (s, Access::Unavailable)
        },
    }
}

/// The load in progress ends, well or not; the loader learns what to do.
pub open spec fn finish_step(s: ManagerView, ok: bool) -> (ManagerView, Access) {
    (
        ManagerView { phase: if ok { Phase::Ready } else { Phase::Empty }, started: s.started, finished: s.started },
        if ok { Access::Use } else { Access::Unavailable },
    )
}

/// What a request waiting for attempt `ticket` is to do now.
pub open spec fn poll_step(s: ManagerView, ticket: int) -> Access {
    if s.phase == Phase::Ready {
        Access::Use
    } else if s.finished >= ticket {
        Access::Unavailable
    } else {
        Access::Wait(ticket as u64)
    }
}

/// `n` requests arriving one after another, and what each was told.
pub open spec fn run_requests(s: ManagerView, n: nat) -> (ManagerView, Seq<Access>)
    decreases n,
{
    if n == 0 {
        (s, Seq::empty())
    } else {
        let (t, told) = run_requests(s, (n - 1) as nat);
        let (u, a) = request_step(t);
        (u, told.push(a))
    }
}

/// How many of the answers start a load.
pub open spec fn count_loads(told: Seq<Access>) -> nat
    decreases told.len(),
{
    if told.len() == 0 {
        0
    } else {
        count_loads(told.drop_last()) + if told.last() is Load { 1nat } else { 0nat }
    }
}

/// From an empty manager, any run of one or more requests is told to load
/// exactly once: the first request loads attempt `k`, every later one
/// waits for that same attempt.
proof fn lemma_requests_from_empty(s: ManagerView, n: nat)
    requires
        s.wf(),
        s.phase == Phase::Empty,
        s.started < u64::MAX,
        n >= 1,
    ensures
        ({
            let (t, told) = run_requests(s, n);
            let k = s.started + 1;
            &&& t == (ManagerView { phase: Phase::Loading, started: k, finished: s.finished })
            &&& told.len() == n
            &&& told[0] == Access::Load(k as u64)
            &&& forall|i: int| 1 <= i < n ==> told[i] == Access::Wait(k as u64)
            &&& count_loads(told) == 1
        }),
    decreases n,
{
    let (t, told) = run_requests(s, n);
    let k = s.started + 1;
    if n == 1 {
        assert(run_requests(s, 0) == (s, Seq::<Access>::empty()));
        assert(told =~= seq![Access::Load(k as u64)]);
        assert(told.drop_last() =~= Seq::<Access>::empty());
        assert(count_loads(Seq::<Access>::empty()) == 0);
    } else {
        lemma_requests_from_empty(s, (n - 1) as nat);
        let (t0, told0) = run_requests(s, (n - 1) as nat);
        assert(request_step(t0) == (t0, Access::Wait(k as u64)));
        assert(told == told0.push(Access::Wait(k as u64)));
        assert(told.drop_last() =~= told0);
        assert forall|i: int| 1 <= i < n implies told[i] == Access::Wait(k as u64) by {
            if i < n - 1 {
                assert(told[i] == told0[i]);
            }
        }
    }
}

/// Concurrent first requests load the model once: of `n >= 1` requests that
/// reach an empty manager before the load ends, exactly one is told to load,
/// and when that load ends every one of them gets the same answer as the
/// loader: the model, or its failure.
pub proof fn lemma_single_initialization(s: ManagerView, n: nat, ok: bool)
    requires
        s.wf(),
        s.phase == Phase::Empty,
        s.started < u64::MAX,
        n >= 1,
    ensures
        ({
            let (t, told) = run_requests(s, n);
            let (u, loader) = finish_step(t, ok);
            &&& told.len() == n
            &&& count_loads(told) == 1
            &&& told[0] == Access::Load((s.started + 1) as u64)
            &&& forall|i: int| 1 <= i < n ==> told[i] == Access::Wait((s.started + 1) as u64)
            &&& loader == (if ok { Access::Use } else { Access::Unavailable })
            &&& poll_step(u, s.started + 1) == loader
        }),
{
    lemma_requests_from_empty(s, n);
}

/// A failed load reaches every request that waited for it, even once a
/// later request has started the next attempt; that next request is told
/// to load again rather than being refused for good.
pub proof fn lemma_failed_load_reaches_waiters(s: ManagerView, ticket: int)
    requires
        s.wf(),
        s.phase == Phase::Loading,
        1 <= ticket <= s.started,
    ensures
        ({
            let (u, loader) = finish_step(s, false);
            let (v, next) = request_step(u);
            &&& loader == Access::Unavailable
            &&& poll_step(u, ticket) == Access::Unavailable
            &&& (s.started < u64::MAX ==> next == Access::Load((s.started + 1) as u64))
            &&& poll_step(v, ticket) == Access::Unavailable
        }),
{
}

/// Decides, for concurrent requests, who loads the shared model and who
/// waits for it.
pub struct ModelManager {
    phase: Phase,
    started: u64,
    finished: u64,
}

impl View for ModelManager {
    type V = ManagerView;

    closed spec fn view(&self) -> ManagerView {
        ManagerView { phase: self.phase, started: self.started as int, finished: self.finished as int }
    }
}

impl ModelManager {
    /// A manager with no model and no attempt made.
    pub fn new() -> (r: Self)
        ensures
            r@.wf(),
            r@ == (ManagerView { phase: Phase::Empty, started: 0, finished: 0 }),
    {
        ModelManager { phase: Phase::Empty, started: 0, finished: 0 }
    }

    pub fn phase(&self) -> (r: Phase)
        ensures
            r == self@.phase,
    {
        self.phase
    }

    /// A request that needs the model arrives.
    pub fn request(&mut self) -> (r: Access)
        requires
            old(self)@.wf(),
        ensures
            final(self)@.wf(),
            (final(self)@, r) == request_step(old(self)@),
    {
        match self.phase {
            Phase::Ready => Access::Use,
            Phase::Loading => Access::Wait(self.started),
            Phase::Empty => {
                if self.started < u64::MAX {
                    self.started = self.started + 1;
                    self.phase = Phase::Loading;
                    Access::Load(self.started)
                } else {
                    Access::Unavailable
                }
            },
        }
    }

    /// The request that was told to load reports how the load ended.
    pub fn load_finished(&mut self, ok: bool) -> (r: Access)
        requires
            old(self)@.wf(),
            old(self)@.phase == Phase::Loading,
        ensures
            final(self)@.wf(),
            (final(self)@, r) == finish_step(old(self)@, ok),
    {
        self.finished = self.started;
        self.phase = if ok { Phase::Ready } else { Phase::Empty };
        if ok { Access::Use } else { Access::Unavailable }
    }

    /// A request waiting for attempt `ticket` asks what to do now.
    pub fn poll(&self, ticket: u64) -> (r: Access)
        requires
            self@.wf(),
        ensures
            r == poll_step(self@, ticket as int),
    {
        if self.phase == Phase::Ready {
            Access::Use
        } else if self.finished >= ticket {
            Access::Unavailable
        } else {
            Access::Wait(ticket)
        }
    }
}

} // verus!
