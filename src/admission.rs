use vstd::prelude::*;

use crate::config::ReliabilityConfig;

verus! {

/// Length of one rate-limiting window, in milliseconds.
pub const WINDOW_MS: u64 = 1000;

/// How many requests may wait for a rate-limiter slot at once.
pub const QUEUE_CAPACITY: usize = 1024;

/// A request waiting for a rate-limiter slot, and the instant its overall deadline passes.
#[derive(Debug, Clone, Copy, PartialEq, Eq, Structural)]
pub struct Waiting {
    pub request: u64,
    pub deadline: u64,
}

/// What happens to a request as it arrives.
#[derive(Debug, Clone, Copy, PartialEq, Eq, Structural)]
pub enum Admission {
    /// A slot was free: the request proceeds now.
    Admitted,
    /// No slot was free: the request waits in line.
    Queued,
    /// No slot was free and the line was full: the request fails at once.
    Rejected,
}

/// What a poll of the waiting line hands out.
#[derive(Debug, Clone, Copy, PartialEq, Eq, Structural)]
pub enum Release {
    /// The oldest waiting request got a slot and proceeds.
    Proceed(u64),
    /// The oldest waiting request reached its deadline and fails with a timeout.
    Expire(u64),
}

/// The controller as a mathematical value.
pub struct AdmissionModel {
    pub rate: u64,
    pub timeout_ms: u64,
    pub capacity: usize,
    /// End of the current rate-limiting window.
    pub window_end: u64,
    /// Admissions still allowed in the current window.
    pub remaining: u64,
    /// The waiting line, oldest first.
    pub queue: Seq<Waiting>,
    /// The latest instant seen.
    pub clock: u64,
}

impl AdmissionModel {
    /// The instant an event at `now` takes effect: the clock never runs backwards.
    pub open spec fn instant(self, now: u64) -> u64 {
        if now > self.clock {
            now
        } else {
            self.clock
        }
    }

    /// Whether the window has run out at instant `t`, so that the budget is refilled.
    pub open spec fn window_over(self, t: u64) -> bool {
        t >= self.window_end
    }

    /// End of the window in force at instant `t`.
    pub open spec fn window_end_at(self, t: u64) -> u64 {
        if self.window_over(t) {
            t.saturating_add(WINDOW_MS)
        } else {
            self.window_end
        }
    }

    /// Admissions left in the window in force at instant `t`.
    pub open spec fn budget_at(self, t: u64) -> u64 {
        if self.window_over(t) {
            self.rate
        } else {
            self.remaining
        }
    }

    /// The deadline of a request that arrives at instant `t`.
    pub open spec fn deadline_for(self, t: u64) -> u64 {
        t.saturating_add(self.timeout_ms)
    }

    /// Whether a request arriving at `now` goes ahead at once: nobody is waiting and the
    /// window has a slot left.
    pub open spec fn admits_now(self, now: u64) -> bool {
        self.queue.len() == 0 && self.budget_at(self.instant(now)) > 0
    }

    /// Deadlines never decrease along the line, and it holds at most `capacity` requests.
    pub open spec fn wf(self) -> bool {
        &&& self.remaining <= self.rate
        &&& self.queue.len() <= self.capacity
        &&& forall|i: int, j: int|
            0 <= i < j < self.queue.len() ==> self.queue[i].deadline <= self.queue[j].deadline
        &&& forall|i: int| 0 <= i < self.queue.len() ==> self.queue[i].deadline <= #[trigger] self.deadline_for(self.clock)
    }
}

/// Global admission control: a rate limiter of `rate` admissions per window, a bounded FIFO
/// line for requests that find no slot, and a deadline per request that also runs while it
/// waits. The gateway reports each arrival and polls the line; the controller decides.
pub struct AdmissionController {
    rate: u64,
    timeout_ms: u64,
    capacity: usize,
    window_end: u64,
    remaining: u64,
    queue: Vec<Waiting>,
    clock: u64,
}

impl View for AdmissionController {
    type V = AdmissionModel;

    closed spec fn view(&self) -> AdmissionModel {
        AdmissionModel {
            rate: self.rate,
            timeout_ms: self.timeout_ms,
            capacity: self.capacity,
            window_end: self.window_end,
            remaining: self.remaining,
            queue: self.queue@,
            clock: self.clock,
        }
    }
}

impl AdmissionController {
    pub closed spec fn inv(&self) -> bool {
        self@.wf()
    }

    /// A controller with the given limits, an empty line and an exhausted first window, so
    /// that the first arrival opens a fresh window.
    pub fn with_limits(rate: u64, timeout_ms: u64, capacity: usize) -> (r: AdmissionController)
        ensures
            r.inv(),
            r@.rate == rate,
            r@.timeout_ms == timeout_ms,
            r@.capacity == capacity,
            r@.window_end == 0,
            r@.remaining == 0,
            r@.queue.len() == 0,
            r@.clock == 0,
    {
        AdmissionController {
            rate,
            timeout_ms,
            capacity,
            window_end: 0,
            remaining: 0,
            queue: Vec::new(),
            clock: 0,
        }
    }

    /// A controller for the configured rate and timeout, with the default line capacity.
    pub fn new(config: &ReliabilityConfig) -> (r: AdmissionController)
        ensures
            r.inv(),
            r@.rate == config.rate_limit_per_sec,
            r@.timeout_ms == config.timeout_ms,
            r@.capacity == QUEUE_CAPACITY,
            r@.window_end == 0,
            r@.remaining == 0,
            r@.queue.len() == 0,
            r@.clock == 0,
    {
        Self::with_limits(config.rate_limit_per_sec, config.timeout_ms, QUEUE_CAPACITY)
    }

    /// Number of requests waiting.
    pub fn waiting(&self) -> (r: usize)
        ensures
            r == self@.queue.len(),
    {
        self.queue.len()
    }

    /// Moves the clock to the instant of `now` and refills the budget if the window ran out.
    fn advance(&mut self, now: u64) -> (t: u64)
        requires
            old(self).inv(),
        ensures
            final(self).inv(),
            t == old(self)@.instant(now),
            final(self)@ == (AdmissionModel {
                window_end: old(self)@.window_end_at(t),
                remaining: old(self)@.budget_at(t),
                clock: t,
                ..old(self)@
            }),
    {
        let t = if now > self.clock {
            now
        } else {
            self.clock
        };
        if t >= self.window_end {
            self.window_end = t.saturating_add(WINDOW_MS);
            self.remaining = self.rate;
        }
        self.clock = t;
        proof {
            assert forall|i: int| 0 <= i < self@.queue.len() implies self@.queue[i].deadline
                <= #[trigger] self@.deadline_for(self@.clock) by {
                assert(self@.queue[i].deadline <= old(self)@.deadline_for(old(self)@.clock));
            }
        }
        t
    }

    /// Decides on a request `request` arriving at `now`. It goes ahead if nobody waits and
    /// the window has a slot; otherwise it joins the line with its deadline, unless the line
    /// is full, in which case it is rejected at once and the line is left as it was.
    pub fn arrive(&mut self, request: u64, now: u64) -> (r: Admission)
        requires
            old(self).inv(),
        ensures
            final(self).inv(),
            ({
                let m = old(self)@;
                let t = m.instant(now);
                let n = final(self)@;
                &&& (r == Admission::Admitted) == m.admits_now(now)
                &&& (r == Admission::Queued) == (!m.admits_now(now) && m.queue.len() < m.capacity)
                &&& (r == Admission::Rejected) == (!m.admits_now(now) && m.queue.len()
                    >= m.capacity)
                &&& n.queue == if r == Admission::Queued {
                    m.queue.push(Waiting { request, deadline: m.deadline_for(t) })
                } else {
                    m.queue
                }
                &&& n.remaining == if r == Admission::Admitted {
                    (m.budget_at(t) - 1) as u64
                } else {
                    m.budget_at(t)
                }
                &&& n.window_end == m.window_end_at(t)
                &&& n.clock == t
                &&& n.rate == m.rate && n.timeout_ms == m.timeout_ms && n.capacity == m.capacity
            }),
    {
        let t = self.advance(now);
        if self.queue.len() == 0 && self.remaining > 0 {
            self.remaining = self.remaining - 1;
            Admission::Admitted
        } else if self.queue.len() < self.capacity {
            let deadline = t.saturating_add(self.timeout_ms);
            let ghost before = self@;
            self.queue.push(Waiting { request, deadline });
            proof {
                assert forall|i: int, j: int|
                    0 <= i < j < self@.queue.len() implies self@.queue[i].deadline
                    <= self@.queue[j].deadline by {
                    if j == self@.queue.len() - 1 {
                        assert(self@.queue[i] == before.queue[i]);
                        assert(before.queue[i].deadline <= before.deadline_for(before.clock));
                    } else {
                        assert(self@.queue[i] == before.queue[i]);
                        assert(self@.queue[j] == before.queue[j]);
                    }
                }
                assert forall|i: int| 0 <= i < self@.queue.len() implies self@.queue[i].deadline
                    <= #[trigger] self@.deadline_for(self@.clock) by {
                    if i < before.queue.len() {
                        assert(self@.queue[i] == before.queue[i]);
                        assert(before.queue[i].deadline <= before.deadline_for(before.clock));
                    }
                }
            }
            Admission::Queued
        } else {
            Admission::Rejected
        }
    }

    /// Looks at the oldest waiting request at `now`: if its deadline has passed it leaves the
    /// line and fails; otherwise, if the window has a slot, it leaves the line and proceeds.
    /// `None` when the line is empty or its oldest request must keep waiting.
    pub fn poll(&mut self, now: u64) -> (r: Option<Release>)
        requires
            old(self).inv(),
        ensures
            final(self).inv(),
            ({
                let m = old(self)@;
                let t = m.instant(now);
                let n = final(self)@;
                &&& n.window_end == m.window_end_at(t)
                &&& n.clock == t
                &&& n.rate == m.rate && n.timeout_ms == m.timeout_ms && n.capacity == m.capacity
                &&& m.queue.len() == 0 ==> r is None && n.queue == m.queue && n.remaining
                    == m.budget_at(t)
                &&& m.queue.len() > 0 && m.queue[0].deadline <= t ==> r == Some(
                    Release::Expire(m.queue[0].request),
                ) && n.queue == m.queue.drop_first() && n.remaining == m.budget_at(t)
                &&& m.queue.len() > 0 && m.queue[0].deadline > t && m.budget_at(t) > 0 ==> r
                    == Some(Release::Proceed(m.queue[0].request)) && n.queue
                    == m.queue.drop_first() && n.remaining == m.budget_at(t) - 1
                &&& m.queue.len() > 0 && m.queue[0].deadline > t && m.budget_at(t) == 0 ==> r
                    is None && n.queue == m.queue && n.remaining == 0
                &&& r is None ==> forall|i: int|
                    0 <= i < n.queue.len() ==> #[trigger] n.queue[i].deadline > t
            }),
    {
        let t = self.advance(now);
        if self.queue.len() == 0 {
            return None;
        }
        let front = self.queue[0];
        let ghost before = self@;
        if front.deadline <= t {
            let _w = self.queue.remove(0);
            proof {
                self.lemma_drop_front(before);
            }
            Some(Release::Expire(front.request))
        } else if self.remaining > 0 {
            self.remaining = self.remaining - 1;
            let _w = self.queue.remove(0);
            proof {
                self.lemma_drop_front(before);
            }
            Some(Release::Proceed(front.request))
        } else {
            None
        }
    }

    /// The instant at which the line next needs a poll: the earlier of the oldest request's
    /// deadline and the end of the current window. `None` while nobody waits.
    pub fn next_wakeup(&self) -> (r: Option<u64>)
        ensures
            self@.queue.len() == 0 ==> r is None,
            self@.queue.len() > 0 ==> r == Some(
                if self@.queue[0].deadline <= self@.window_end {
                    self@.queue[0].deadline
                } else {
                    self@.window_end
                },
            ),
    {
        if self.queue.len() == 0 {
            None
        } else if self.queue[0].deadline <= self.window_end {
            Some(self.queue[0].deadline)
        } else {
            Some(self.window_end)
        }
    }

    proof fn lemma_drop_front(&self, before: AdmissionModel)
        requires
            before.wf(),
            before.queue.len() > 0,
            self@.queue == before.queue.remove(0),
            self@.clock == before.clock,
            self@.timeout_ms == before.timeout_ms,
            self@.capacity == before.capacity,
            self@.rate == before.rate,
            self@.remaining <= before.remaining,
        ensures
            self.inv(),
    {
        assert forall|i: int, j: int|
            0 <= i < j < self@.queue.len() implies self@.queue[i].deadline
            <= self@.queue[j].deadline by {
            assert(self@.queue[i] == before.queue[i + 1]);
            assert(self@.queue[j] == before.queue[j + 1]);
        }
        assert forall|i: int| 0 <= i < self@.queue.len() implies self@.queue[i].deadline
            <= #[trigger] self@.deadline_for(self@.clock) by {
            assert(self@.queue[i] == before.queue[i + 1]);
        }
    }
}

} // verus!
