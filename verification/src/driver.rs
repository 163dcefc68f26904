//! The scheduler that runs a tree of traced processes on one virtual clock.
//!
//! Processes are runnable (in a first-in first-out queue), asleep until an
//! instant, or waiting for a child. The scheduler picks the next process to
//! resume; the caller resumes it and reports what came of it. The clock moves
//! only when a sleeper is woken: when nothing else can run, or when every
//! runnable process has yielded in turn.
use vstd::prelude::*;
use vstd::multiset::Multiset;
use crate::clock::{CLOCK_START_NS, MAX_INSTANT_NS};
use crate::sandbox::SandboxState;

verus! {

broadcast use {
    vstd::seq_lib::group_to_multiset_ensures,
    vstd::seq_lib::lemma_multiset_commutative,
    vstd::multiset::group_multiset_axioms,
};

/// What the caller does next.
#[derive(Debug, Clone, Copy, PartialEq, Eq)]
pub enum SchedulerStep {
    /// Resume process `pid` with the virtual clock at `now_ns`. Where the clock
    /// was moved to wake a sleeper first, `woke` is that process.
    Run { pid: i32, now_ns: u128, woke: Option<i32> },
    /// Some processes wait for children, but none can run and none sleeps.
    Deadlock,
    /// No process is left.
    Finished,
}

/// What a report of a resumed process leads to.
#[derive(Debug, Clone, Copy, PartialEq, Eq)]
pub enum SchedulerOutcome {
    /// Go on. Where every runnable process had yielded and a sleeper was woken
    /// for it, `woke` is that process.
    Continue { woke: Option<i32> },
    /// The last process exited with this non-zero code: the sandbox ends with it.
    Exited(i32),
    /// More steps were taken than allowed.
    StepLimitExceeded,
}

/// Whether a run has taken longer in real time than its limit allows: never
/// where no limit is set, and otherwise once the elapsed time is past the limit.
pub fn real_time_limit_exceeded(elapsed_ns: u128, limit_ns: Option<u128>) -> (exceeded: bool)
    ensures
        exceeded == match limit_ns {
            Some(limit) => elapsed_ns > limit,
            None => false,
        },
{
    match limit_ns {
        Some(limit) => elapsed_ns > limit,
        None => false,
    }
}

/// The scheduler's state.
pub struct Scheduler {
    runnable: std::collections::VecDeque<i32>,
    sleeping: Vec<(u128, i32)>,
    waiting: Vec<i32>,
    now_ns: u128,
    steps: usize,
    consecutive_yields: usize,
    max_steps: usize,
}

/// The pids of a list of sleepers.
pub open spec fn sleeper_pids(s: Seq<(u128, i32)>) -> Seq<i32> {
    s.map_values(|e: (u128, i32)| e.1)
}

/// Entry `k` of `s` wakes first: no entry wakes earlier, and no entry before it
/// wakes at the same time.
pub open spec fn is_earliest(s: Seq<(u128, i32)>, k: int) -> bool {
    &&& 0 <= k < s.len()
    &&& forall|j: int| 0 <= j < s.len() ==> s[k].0 <= #[trigger] s[j].0
    &&& forall|j: int| 0 <= j < k ==> s[k].0 < #[trigger] s[j].0
}

impl Scheduler {
    pub closed spec fn runnable(&self) -> Seq<i32> {
        self.runnable@
    }

    pub closed spec fn sleeping(&self) -> Seq<(u128, i32)> {
        self.sleeping@
    }

    pub closed spec fn waiting(&self) -> Seq<i32> {
        self.waiting@
    }

    pub closed spec fn now(&self) -> u128 {
        self.now_ns
    }

    pub closed spec fn steps(&self) -> nat {
        self.steps as nat
    }

    pub closed spec fn consecutive_yields(&self) -> nat {
        self.consecutive_yields as nat
    }

    pub closed spec fn max_steps(&self) -> nat {
        self.max_steps as nat
    }

    /// The processes the scheduler holds, counted with multiplicity.
    pub open spec fn held(&self) -> Multiset<i32> {
        self.runnable().to_multiset().add(self.waiting().to_multiset()).add(
            sleeper_pids(self.sleeping()).to_multiset(),
        )
    }

    /// No sleeper wakes before the current instant.
    pub open spec fn sleepers_not_before_now(&self) -> bool {
        forall|j: int| 0 <= j < self.sleeping().len() ==> #[trigger] self.sleeping()[j].0 >= self.now()
    }

    /// The clock is a valid instant and no sleeper wakes before it or beyond the
    /// latest instant. Every operation keeps this, so over a whole run the clock
    /// never goes backwards.
    pub open spec fn wf(&self) -> bool {
        &&& self.sleepers_not_before_now()
        &&& self.now() <= MAX_INSTANT_NS
        &&& forall|j: int| 0 <= j < self.sleeping().len() ==> #[trigger] self.sleeping()[j].0 <= MAX_INSTANT_NS
    }

    /// A scheduler for one process, with the clock at its start and no step taken.
    pub fn new(initial_pid: i32, max_steps: usize) -> (s: Self)
        ensures
            s.runnable() == seq![initial_pid],
            s.sleeping() == Seq::<(u128, i32)>::empty(),
            s.waiting() == Seq::<i32>::empty(),
            s.now() == CLOCK_START_NS,
            s.steps() == 0,
            s.consecutive_yields() == 0,
            s.max_steps() == max_steps,
            s.held() == Multiset::<i32>::empty().insert(initial_pid),
            s.wf(),
    {
        let mut runnable = std::collections::VecDeque::new();
        runnable.push_back(initial_pid);
        proof {
            assert(sleeper_pids(Seq::<(u128, i32)>::empty()) =~= Seq::<i32>::empty());
        }
        Scheduler {
            runnable,
            sleeping: Vec::new(),
            waiting: Vec::new(),
            now_ns: CLOCK_START_NS,
            steps: 0,
            consecutive_yields: 0,
            max_steps,
        }
    }

    /// The virtual clock.
    pub fn now_ns(&self) -> (now: u128)
        ensures
            now == self.now(),
    {
        self.now_ns
    }

    /// How many steps have been taken.
    pub fn steps_taken(&self) -> (steps: usize)
        ensures
            steps == self.steps(),
    {
        self.steps
    }

    /// How many reports in a row were yields.
    pub fn yields_in_a_row(&self) -> (yields: usize)
        ensures
            yields == self.consecutive_yields(),
    {
        self.consecutive_yields
    }

    /// How many processes are runnable.
    pub fn runnable_count(&self) -> (n: usize)
        ensures
            n == self.runnable().len(),
    {
        self.runnable.len()
    }

    /// Removes the sleeper that wakes first (the earliest inserted among equals),
    /// sets the clock to its wake time and appends it to the runnable queue.
    fn wake_earliest(&mut self) -> (pid: i32)
        requires
            old(self).sleeping().len() > 0,
        ensures
            ({
                let k = choose|k: int| is_earliest(old(self).sleeping(), k);
                &&& is_earliest(old(self).sleeping(), k)
                &&& pid == old(self).sleeping()[k].1
                &&& final(self).now() == old(self).sleeping()[k].0
                &&& final(self).sleeping() == old(self).sleeping().remove(k)
            }),
            final(self).runnable() == old(self).runnable().push(pid),
            final(self).waiting() == old(self).waiting(),
            final(self).steps() == old(self).steps(),
            final(self).consecutive_yields() == old(self).consecutive_yields(),
            final(self).max_steps() == old(self).max_steps(),
            final(self).held() == old(self).held(),
            old(self).wf() ==> final(self).wf() && final(self).now() >= old(self).now(),
    {
        let mut best: usize = 0;
        let mut i: usize = 1;
        while i < self.sleeping.len()
            invariant
                self.sleeping@ == old(self).sleeping(),
                self.sleeping@.len() > 0,
                1 <= i <= self.sleeping@.len(),
                best < i,
                forall|j: int| 0 <= j < i ==> self.sleeping@[best as int].0 <= #[trigger] self.sleeping@[j].0,
                forall|j: int| 0 <= j < best ==> self.sleeping@[best as int].0 < #[trigger] self.sleeping@[j].0,
            decreases self.sleeping@.len() - i,
        {
            if self.sleeping[i].0 < self.sleeping[best].0 {
                best = i;
            }
            i = i + 1;
        }
        proof {
            let s = self.sleeping@;
            assert(is_earliest(s, best as int));
            assert forall|k: int| is_earliest(s, k) implies k == best by {
                if k < best {
                    assert(s[best as int].0 < s[k].0);
                } else if k > best {
                    assert(s[k].0 < s[best as int].0);
                }
            }
        }
        let ghost old_sleeping = self.sleeping@;
        let (time, pid) = self.sleeping.remove(best);
        self.now_ns = time;
        self.runnable.push_back(pid);
        proof {
            assert(sleeper_pids(self.sleeping@) =~= sleeper_pids(old_sleeping).remove(best as int));
            assert(sleeper_pids(old_sleeping)[best as int] == pid);
            assert forall|j: int| 0 <= j < self.sleeping@.len() implies #[trigger] self.sleeping@[j].0
                >= self.now_ns by {
                if j < best {
                    assert(self.sleeping@[j] == old_sleeping[j]);
                } else {
                    assert(self.sleeping@[j] == old_sleeping[j + 1]);
                }
            }
            if old(self).wf() {
                assert(old_sleeping[best as int].0 >= old(self).now());
                assert(old_sleeping[best as int].0 <= MAX_INSTANT_NS);
                assert forall|j: int| 0 <= j < self.sleeping@.len() implies #[trigger] self.sleeping@[j].0
                    <= MAX_INSTANT_NS by {
                    if j < best {
                        assert(self.sleeping@[j] == old_sleeping[j]);
                    } else {
                        assert(self.sleeping@[j] == old_sleeping[j + 1]);
                    }
                }
            }
        }
        pid
    }

    /// Picks the next process to resume: the front of the runnable queue, after
    /// waking the earliest sleeper where nothing is runnable.
    pub fn next_step(&mut self) -> (step: SchedulerStep)
        requires
            old(self).wf(),
        ensures
            final(self).wf(),
            final(self).now() >= old(self).now(),
            step matches SchedulerStep::Run { now_ns, .. } ==> now_ns == final(self).now(),
            final(self).waiting() == old(self).waiting(),
            final(self).steps() == old(self).steps(),
            final(self).consecutive_yields() == old(self).consecutive_yields(),
            final(self).max_steps() == old(self).max_steps(),
            step matches SchedulerStep::Run { pid, .. } ==> old(self).held() == final(self).held().insert(
                pid,
            ),
            !(step is Run) ==> final(self).held() == old(self).held(),
            old(self).runnable().len() > 0 ==> {
                &&& step == SchedulerStep::Run {
                    pid: old(self).runnable()[0],
                    now_ns: old(self).now(),
                    woke: None,
                }
                &&& final(self).runnable() == old(self).runnable().drop_first()
                &&& final(self).sleeping() == old(self).sleeping()
                &&& final(self).now() == old(self).now()
            },
            old(self).runnable().len() == 0 && old(self).sleeping().len() > 0 ==> {
                let k = choose|k: int| is_earliest(old(self).sleeping(), k);
                &&& is_earliest(old(self).sleeping(), k)
                &&& step == SchedulerStep::Run {
                    pid: old(self).sleeping()[k].1,
                    now_ns: old(self).sleeping()[k].0,
                    woke: Some(old(self).sleeping()[k].1),
                }
                &&& final(self).runnable().len() == 0
                &&& final(self).sleeping() == old(self).sleeping().remove(k)
                &&& final(self).now() == old(self).sleeping()[k].0
            },
            old(self).runnable().len() == 0 && old(self).sleeping().len() == 0 ==> {
                &&& step == (if old(self).waiting().len() > 0 {
                    SchedulerStep::Deadlock
                } else {
                    SchedulerStep::Finished
                })
                &&& final(self).runnable() == old(self).runnable()
                &&& final(self).sleeping() == old(self).sleeping()
                &&& final(self).now() == old(self).now()
            },
    {
        let mut woke: Option<i32> = None;
        if self.runnable.len() == 0 && self.sleeping.len() > 0 {
            let pid = self.wake_earliest();
            woke = Some(pid);
        }
        let ghost before = self.runnable@;
        match self.runnable.pop_front() {
            Some(pid) => {
                proof {
                    assert(before.remove(0) =~= self.runnable@);
                }
                SchedulerStep::Run { pid, now_ns: self.now_ns, woke }
            },
            None => {
                if self.waiting.len() > 0 {
                    SchedulerStep::Deadlock
                } else {
                    SchedulerStep::Finished
                }
            },
        }
    }

    /// Takes in what came of resuming process `pid`: it exited, it made a new
    /// child, it went to sleep, it yielded, or it waits for a child. A sleep
    /// ends at an instant computed from the current one (`sleep_deadline`), so
    /// it is never before it. Only an exit can end the run with an exit code.
    pub fn record(&mut self, pid: i32, state: &SandboxState) -> (outcome: SchedulerOutcome)
        requires
            old(self).wf(),
            old(self).steps() < usize::MAX,
            old(self).consecutive_yields() < usize::MAX,
            state matches SandboxState::Pause(t) ==> old(self).now() <= *t <= MAX_INSTANT_NS,
        ensures
            final(self).wf(),
            final(self).now() >= old(self).now(),
            !(state is Exit) ==> !(outcome is Exited),
            final(self).max_steps() == old(self).max_steps(),
            final(self).held() == match state {
                SandboxState::Exit(_) => old(self).held(),
                SandboxState::NewChild(child) => old(self).held().insert(child.spec_pid()).insert(pid),
                _ => old(self).held().insert(pid),
            },
            match state {
                SandboxState::SchedYield => final(self).steps() == old(self).steps(),
                _ => {
                    &&& final(self).steps() == old(self).steps() + 1
                    &&& final(self).consecutive_yields() == 0
                },
            },
            (outcome is StepLimitExceeded) <==> (final(self).steps() > final(self).max_steps()
                && !(outcome is Exited)),
            match state {
                SandboxState::Exit(code) => {
                    &&& final(self).runnable() == old(self).runnable() + old(self).waiting()
                    &&& final(self).waiting().len() == 0
                    &&& final(self).sleeping() == old(self).sleeping()
                    &&& final(self).now() == old(self).now()
                    &&& (outcome is Exited) == (code != 0 && final(self).runnable().len() == 0
                        && final(self).sleeping().len() == 0)
                    &&& outcome matches SchedulerOutcome::Exited(c) ==> c == code
                    &&& outcome matches SchedulerOutcome::Continue { woke } ==> woke is None
                },
                SandboxState::NewChild(child) => {
                    &&& final(self).runnable() == old(self).runnable().push(child.spec_pid()).push(
                        pid,
                    )
                    &&& final(self).waiting() == old(self).waiting()
                    &&& final(self).sleeping() == old(self).sleeping()
                    &&& final(self).now() == old(self).now()
                    &&& outcome matches SchedulerOutcome::Continue { woke } ==> woke is None
                },
                SandboxState::Pause(t) => {
                    &&& final(self).runnable() == old(self).runnable()
                    &&& final(self).waiting() == old(self).waiting()
                    &&& final(self).sleeping() == old(self).sleeping().push((*t, pid))
                    &&& final(self).now() == old(self).now()
                    &&& outcome matches SchedulerOutcome::Continue { woke } ==> woke is None
                },
                SandboxState::WaitForSubprocess => {
                    &&& final(self).runnable() == old(self).runnable()
                    &&& final(self).waiting() == old(self).waiting().push(pid)
                    &&& final(self).sleeping() == old(self).sleeping()
                    &&& final(self).now() == old(self).now()
                    &&& outcome matches SchedulerOutcome::Continue { woke } ==> woke is None
                },
                SandboxState::SchedYield => {
                    let yields = old(self).consecutive_yields() + 1;
                    let all_yielded = yields >= old(self).runnable().len() + 1;
                    &&& final(self).waiting() == old(self).waiting()
                    &&& !(outcome is Exited)
                    &&& if all_yielded && old(self).sleeping().len() > 0 {
                        let k = choose|k: int| is_earliest(old(self).sleeping(), k);
                        &&& is_earliest(old(self).sleeping(), k)
                        &&& final(self).runnable() == old(self).runnable().push(pid).push(
                            old(self).sleeping()[k].1,
                        )
                        &&& final(self).sleeping() == old(self).sleeping().remove(k)
                        &&& final(self).now() == old(self).sleeping()[k].0
                        &&& final(self).consecutive_yields() == 0
                        &&& outcome matches SchedulerOutcome::Continue { woke } ==> woke == Some(
                            old(self).sleeping()[k].1,
                        )
                    } else {
                        &&& final(self).runnable() == old(self).runnable().push(pid)
                        &&& final(self).sleeping() == old(self).sleeping()
                        &&& final(self).now() == old(self).now()
                        &&& final(self).consecutive_yields() == yields
                        &&& outcome matches SchedulerOutcome::Continue { woke } ==> woke is None
                    }
                },
            },
    {
        let mut woke: Option<i32> = None;
        match state {
            SandboxState::Exit(code) => {
                self.steps = self.steps + 1;
                self.consecutive_yields = 0;
                let ghost before = self.runnable@;
                let mut i: usize = 0;
                while i < self.waiting.len()
                    invariant
                        i <= self.waiting@.len(),
                        self.waiting@ == old(self).waiting(),
                        self.runnable@ == before + self.waiting@.take(i as int),
                        before == old(self).runnable(),
                        self.steps == old(self).steps() + 1,
                        self.consecutive_yields == 0,
                        self.max_steps == old(self).max_steps(),
                        self.sleeping@ == old(self).sleeping(),
                        self.now_ns == old(self).now(),
                    decreases self.waiting@.len() - i,
                {
                    self.runnable.push_back(self.waiting[i]);
                    assert(self.waiting@.take(i + 1) =~= self.waiting@.take(i as int).push(
                        self.waiting@[i as int],
                    ));
                    i = i + 1;
                }
                assert(self.waiting@.take(self.waiting@.len() as int) =~= self.waiting@);
                self.waiting.clear();
                if *code != 0 && self.runnable.len() == 0 && self.sleeping.len() == 0 {
                    return SchedulerOutcome::Exited(*code);
                }
            },
            SandboxState::NewChild(child) => {
                self.steps = self.steps + 1;
                self.consecutive_yields = 0;
                self.runnable.push_back(child.pid());
                self.runnable.push_back(pid);
            },
            SandboxState::Pause(t) => {
                self.steps = self.steps + 1;
                self.consecutive_yields = 0;
                let ghost before = self.sleeping@;
                self.sleeping.push((*t, pid));
                proof {
                    assert(sleeper_pids(self.sleeping@) =~= sleeper_pids(before).push(pid));
                }
            },
            SandboxState::SchedYield => {
                self.consecutive_yields = self.consecutive_yields + 1;
                let all_yielded = self.consecutive_yields > self.runnable.len();
                self.runnable.push_back(pid);
                if all_yielded && self.sleeping.len() > 0 {
                    let waking = self.wake_earliest();
                    woke = Some(waking);
                    self.consecutive_yields = 0;
                }
            },
            SandboxState::WaitForSubprocess => {
                self.steps = self.steps + 1;
                self.consecutive_yields = 0;
                self.waiting.push(pid);
            },
        }
        if self.steps > self.max_steps {
            return SchedulerOutcome::StepLimitExceeded;
        }
        SchedulerOutcome::Continue { woke }
    }
}

} // verus!
