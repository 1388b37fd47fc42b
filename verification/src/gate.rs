//! A sequential model of the monitor that the calls share: the flag, its
//! lock, and the wait queue bound to the lock.
//!
//! Threads are told apart by a number. Each operation is one atomic step of
//! one thread; a step that would block in a real monitor changes nothing and
//! says so, and the thread tries again later. Playing the steps of several
//! calls in some order gives one execution of the monitor.

use vstd::prelude::*;
use crate::protocol::{Action, Call, CallState, Event, Phase};
use crate::signal::{signal_of, GateError, Signal, Wake};

verus! {

/// The monitor as a mathematical value.
#[verifier::ext_equal]
pub struct GateState {
    /// True while a signal is pending.
    pub flag: bool,
    /// The thread that holds the lock, if any.
    pub holder: Option<u64>,
    /// The threads that sleep on the wait queue.
    pub waiters: Set<u64>,
    /// The threads whose sleep was cut short from outside and whose wait has
    /// not returned yet.
    pub interrupted: Set<u64>,
}

impl GateState {
    /// The monitor as it is created: clear, unlocked, nobody waiting.
    pub open spec fn initial() -> GateState {
        GateState { flag: false, holder: None, waiters: Set::empty(), interrupted: Set::empty() }
    }

    /// A thread is on the wait queue only while it does not hold the lock.
    pub open spec fn wf(self) -> bool {
        &&& self.waiters.finite()
        &&& self.interrupted.finite()
        &&& self.holder matches Some(h) ==> !self.waiters.contains(h)
    }

    pub open spec fn signal(self) -> Signal {
        signal_of(self.flag)
    }

    pub open spec fn holds(self, tid: u64) -> bool {
        self.holder == Some(tid)
    }

    /// Whether `tid` can take the lock now: the lock is free and the thread
    /// is not asleep.
    pub open spec fn acquirable(self, tid: u64) -> bool {
        self.holder is None && !self.waiters.contains(tid)
    }

    pub open spec fn acquired(self, tid: u64) -> GateState {
        GateState { holder: Some(tid), ..self }
    }

    pub open spec fn released(self) -> GateState {
        GateState { holder: None, ..self }
    }

    pub open spec fn stored(self, value: bool) -> GateState {
        GateState { flag: value, ..self }
    }

    /// The first half of a wait: the lock is given up and the thread is put
    /// on the queue, in one step.
    pub open spec fn parked(self, tid: u64) -> GateState {
        GateState { holder: None, waiters: self.waiters.insert(tid), ..self }
    }

    /// How the wait of `tid` ends if it ends now.
    pub open spec fn wake(self, tid: u64) -> Wake {
        if self.interrupted.contains(tid) {
            Wake::Interrupted
        } else {
            Wake::Ready
        }
    }

    /// The second half of a wait: the thread, off the queue, has the lock
    /// again.
    pub open spec fn resumed(self, tid: u64) -> GateState {
        GateState { holder: Some(tid), interrupted: self.interrupted.remove(tid), ..self }
    }

    /// `tid` is taken off the queue.
    pub open spec fn woken(self, tid: u64) -> GateState {
        GateState { waiters: self.waiters.remove(tid), ..self }
    }

    /// Everybody is taken off the queue.
    pub open spec fn drained(self) -> GateState {
        GateState { waiters: Set::empty(), ..self }
    }

    /// An interruption from outside reaches `tid`. It ends the thread's sleep
    /// if it sleeps, and is lost if it does not.
    pub open spec fn interrupt(self, tid: u64) -> GateState {
        if self.waiters.contains(tid) {
            GateState {
                waiters: self.waiters.remove(tid),
                interrupted: self.interrupted.insert(tid),
                ..self
            }
        } else {
            self
        }
    }

    /// What thread `tid` is told when it asks for `action` in this state;
    /// none where the thread has to wait and ask again.
    pub open spec fn answer(self, tid: u64, action: Action) -> Option<Event> {
        match action {
            Action::Acquire => if self.acquirable(tid) {
                Some(Event::Done)
            } else {
                None
            },
            Action::Observe => if self.holds(tid) {
                Some(Event::Flag(self.flag))
            } else {
                None
            },
            Action::Store(_) => if self.holds(tid) {
                Some(Event::Done)
            } else {
                None
            },
            Action::Release => if self.holds(tid) {
                Some(Event::Done)
            } else {
                None
            },
            Action::Wait => if !self.holds(tid) && self.acquirable(tid) {
                Some(Event::Woken(self.wake(tid)))
            } else {
                None
            },
            Action::NotifyOne => Some(Event::Done),
            Action::NotifyAll => Some(Event::Done),
            Action::ReleaseWaiters => Some(Event::Done),
        }
    }

    /// Whether `post` is a state in which `action`, asked for by `tid` in
    /// this state, can leave the monitor. The flag is read and written, the
    /// lock given up and the wait begun by the lock's holder only; asked for
    /// by another thread these change nothing. Which waiter a single
    /// notification wakes is left open.
    pub open spec fn effect(self, tid: u64, action: Action, post: GateState) -> bool {
        match action {
            Action::Acquire => post == if self.acquirable(tid) {
                self.acquired(tid)
            } else {
                self
            },
            Action::Observe => post == self,
            Action::Store(value) => post == if self.holds(tid) {
                self.stored(value)
            } else {
                self
            },
            Action::Release => post == if self.holds(tid) {
                self.released()
            } else {
                self
            },
            Action::Wait => post == if self.holds(tid) {
                self.parked(tid)
            } else if self.acquirable(tid) {
                self.resumed(tid)
            } else {
                self
            },
            Action::NotifyOne => if self.waiters.is_empty() {
                post == self
            } else {
                exists|t: u64| #[trigger] self.waiters.contains(t) && post == self.woken(t)
            },
            Action::NotifyAll => post == self.drained(),
            Action::ReleaseWaiters => post == self.drained(),
        }
    }

    /// Where a call ends that has just given the lock up: a call that failed
    /// returns at once; any other first wakes whoever waits.
    pub open spec fn run_unlocked(self, call: CallState) -> (GateState, CallState) {
        if call.outcome is Err {
            (self, call.at(Phase::Finished))
        } else {
            (self.drained(), call.at(Phase::Finished))
        }
    }

    /// Where a call ends whose thread holds the lock and is about to write
    /// the flag: a read clears it, a write sets it.
    pub open spec fn run_store(self, call: CallState) -> (GateState, CallState) {
        self.stored(!call.reads).released().run_unlocked(call)
    }

    /// Where a call gets whose thread holds the lock and is about to look at
    /// the flag: on to the end if the flag is set, to sleep if it is not.
    pub open spec fn run_observe(self, tid: u64, call: CallState) -> (GateState, CallState) {
        if self.flag {
            self.run_store(call)
        } else {
            (self.parked(tid), call.at(Phase::Wait))
        }
    }

    /// How far thread `tid` gets with `call` if it is left to run alone: to
    /// the call's return, or to the point where the thread has to wait, for
    /// the lock or on the queue.
    pub open spec fn run(self, tid: u64, call: CallState) -> (GateState, CallState) {
        match call.phase {
            Phase::Acquire => if self.acquirable(tid) {
                if call.reads {
                    self.acquired(tid).run_observe(tid, call)
                } else {
                    self.acquired(tid).run_store(call)
                }
            } else {
                (self, call)
            },
            Phase::Observe => if self.holds(tid) {
                self.run_observe(tid, call)
            } else {
                (self, call)
            },
            Phase::Wait => if self.holds(tid) {
                (self.parked(tid), call)
            } else if self.acquirable(tid) {
                match self.wake(tid) {
                    Wake::Ready => self.resumed(tid).run_observe(tid, call),
                    Wake::Interrupted => self.resumed(tid).released().run_unlocked(
                        CallState { outcome: Err(GateError::Interrupted), ..call },
                    ),
                }
            } else {
                (self, call)
            },
            Phase::Store => if self.holds(tid) {
                self.run_store(call)
            } else {
                (self, call)
            },
            Phase::Release => if self.holds(tid) {
                self.released().run_unlocked(call)
            } else {
                (self, call)
            },
            Phase::NotifyOne => (self.drained(), call.at(Phase::Finished)),
            Phase::NotifyAll => (self.drained(), call.at(Phase::Finished)),
            Phase::ReleaseWaiters => (self.drained(), call.at(Phase::Finished)),
            Phase::Finished => (self, call),
        }
    }

    /// A bound on the answered steps that `tid` can take in a row. A thread
    /// that is about to go to sleep can take none.
    pub open spec fn ahead(self, tid: u64, call: CallState) -> nat {
        if call.phase == Phase::Wait && self.holds(tid) {
            0
        } else {
            call.remaining() + 1
        }
    }
}

/// One step of a call: thread `tid`, whose call is in state `call`, asks for
/// the call's pending action in state `pre`. The monitor goes to `post`, and
/// the call to `next`: on if the action was answered, nowhere if it was not.
pub open spec fn steps(
    pre: GateState,
    tid: u64,
    call: CallState,
    post: GateState,
    next: CallState,
) -> bool {
    match call.action() {
        None => post == pre && next == call,
        Some(action) => pre.effect(tid, action, post) && next == (match pre.answer(tid, action) {
            Some(event) => call.advance(event),
            None => call,
        }),
    }
}

/// Taking one item out of a list without duplicates takes it out of the set
/// of the list's items.
proof fn lemma_remove_to_set(list: Seq<u64>, i: int)
    requires
        list.no_duplicates(),
        0 <= i < list.len(),
    ensures
        list.remove(i).no_duplicates(),
        list.remove(i).to_set() == list.to_set().remove(list[i]),
{
    let rest = list.remove(i);
    assert forall|x: u64| list.contains(x) && x != list[i] implies rest.contains(x) by {
        let j = list.index_of(x);
        if j < i {
            assert(rest[j] == x);
        } else {
            assert(rest[j - 1] == x);
        }
    }
}

/// Putting a new item at the end of a list without duplicates puts it into
/// the set of the list's items.
proof fn lemma_push_to_set(list: Seq<u64>, tid: u64)
    requires
        list.no_duplicates(),
        !list.contains(tid),
    ensures
        list.push(tid).no_duplicates(),
        list.push(tid).to_set() == list.to_set().insert(tid),
{
    let more = list.push(tid);
    assert forall|x: u64| list.contains(x) implies more.contains(x) by {
        assert(more[list.index_of(x)] == x);
    }
    assert(more[list.len() as int] == tid);
}

/// Where `tid` stands in `list`, if it does.
fn position(list: &Vec<u64>, tid: u64) -> (at: Option<usize>)
    ensures
        match at {
            Some(i) => i < list.len() && list[i as int] == tid,
            None => !list@.contains(tid),
        },
{
    let mut i: usize = 0;
    while i < list.len()
        invariant
            i <= list.len(),
            forall|j: int| 0 <= j < i ==> list[j] != tid,
        decreases list.len() - i,
    {
        if list[i] == tid {
            return Some(i);
        }
        i += 1;
    }
    None
}

/// The completion gate, a monitor: one flag under one lock, and the queue of
/// the threads that sleep until the flag is set.
///
/// A gate is created once and lives as long as its host; every call of
/// every thread goes to the same one.
#[derive(Clone, Debug)]
pub struct Gate {
    flag: bool,
    holder: Option<u64>,
    waiters: Vec<u64>,
    interrupted: Vec<u64>,
}

impl View for Gate {
    type V = GateState;

    closed spec fn view(&self) -> GateState {
        GateState {
            flag: self.flag,
            holder: self.holder,
            waiters: self.waiters@.to_set(),
            interrupted: self.interrupted@.to_set(),
        }
    }
}

impl Gate {
    /// The invariant of the representation. It holds of every gate that
    /// [`Gate::new`] made, whatever was done to it since.
    pub closed spec fn inv(&self) -> bool {
        &&& self.waiters@.no_duplicates()
        &&& self.interrupted@.no_duplicates()
        &&& self@.wf()
    }

    /// Under the invariant the model is well formed, so that the laws of
    /// this crate can be applied to it.
    pub proof fn lemma_inv_wf(&self)
        requires
            self.inv(),
        ensures
            self@.wf(),
    {
    }

    /// Creates the monitor: clear, unlocked, with nobody waiting.
    pub fn new() -> (gate: Gate)
        ensures
            gate.inv(),
            gate@ == GateState::initial(),
    {
        Gate { flag: false, holder: None, waiters: Vec::new(), interrupted: Vec::new() }
    }

    /// The state of the monitor, for whoever looks at the model from outside.
    /// A call does not use it: it reads the flag with [`Gate::get`], under
    /// the lock.
    pub fn signal(&self) -> (signal: Signal)
        ensures
            signal == self@.signal(),
    {
        if self.flag {
            Signal::Signaled
        } else {
            Signal::Clear
        }
    }

    /// The thread that holds the lock, if any.
    pub fn holder(&self) -> (holder: Option<u64>)
        ensures
            holder == self@.holder,
    {
        self.holder
    }

    /// Whether `tid` holds the lock.
    pub fn holds(&self, tid: u64) -> (held: bool)
        ensures
            held == self@.holds(tid),
    {
        match self.holder {
            Some(h) => h == tid,
            None => false,
        }
    }

    /// Whether `tid` sleeps on the wait queue.
    pub fn is_waiting(&self, tid: u64) -> (waiting: bool)
        ensures
            waiting == self@.waiters.contains(tid),
    {
        position(&self.waiters, tid).is_some()
    }

    /// How many threads sleep on the wait queue.
    pub fn waiting(&self) -> (count: usize)
        requires
            self.inv(),
        ensures
            count == self@.waiters.len(),
    {
        proof {
            self.waiters@.unique_seq_to_set();
        }
        self.waiters.len()
    }

    /// Reads the flag. Only the lock's holder may.
    pub fn get(&self, tid: u64) -> (flag: bool)
        requires
            self@.holds(tid),
        ensures
            flag == self@.flag,
    {
        self.flag
    }

    /// Writes the flag. Only the lock's holder may.
    pub fn set(&mut self, tid: u64, value: bool)
        requires
            old(self).inv(),
            old(self)@.holds(tid),
        ensures
            final(self).inv(),
            final(self)@ == old(self)@.stored(value),
    {
        self.flag = value;
    }

    /// Takes the lock for `tid` if it is free. Where it is not, nothing
    /// changes and the thread has to try again: that is how it blocks.
    pub fn acquire(&mut self, tid: u64) -> (taken: bool)
        requires
            old(self).inv(),
        ensures
            final(self).inv(),
            taken == old(self)@.acquirable(tid),
            final(self)@ == if taken {
                old(self)@.acquired(tid)
            } else {
                old(self)@
            },
    {
        if self.holder.is_none() && position(&self.waiters, tid).is_none() {
            self.holder = Some(tid);
            true
        } else {
            false
        }
    }

    /// Gives up the lock. Only its holder may.
    pub fn release(&mut self, tid: u64)
        requires
            old(self).inv(),
            old(self)@.holds(tid),
        ensures
            final(self).inv(),
            final(self)@ == old(self)@.released(),
    {
        self.holder = None;
    }

    /// One attempt of `tid` to get through a wait.
    ///
    /// The holder of the lock gives it up and goes to sleep on the queue, in
    /// one step; nothing is returned, and the thread has to ask again. A
    /// thread that is off the queue takes the lock again if it is free, and
    /// learns how its sleep ended. In between (asleep, or the lock is busy)
    /// nothing changes and nothing is returned.
    pub fn wait(&mut self, tid: u64) -> (wake: Option<Wake>)
        requires
            old(self).inv(),
        ensures
            final(self).inv(),
            final(self)@ == if old(self)@.holds(tid) {
                old(self)@.parked(tid)
            } else if old(self)@.acquirable(tid) {
                old(self)@.resumed(tid)
            } else {
                old(self)@
            },
            wake == if !old(self)@.holds(tid) && old(self)@.acquirable(tid) {
                Some(old(self)@.wake(tid))
            } else {
                None
            },
    {
        if self.holds(tid) {
            proof {
                lemma_push_to_set(self.waiters@, tid);
            }
            self.holder = None;
            self.waiters.push(tid);
            None
        } else if self.holder.is_none() && position(&self.waiters, tid).is_none() {
            self.holder = Some(tid);
            match position(&self.interrupted, tid) {
                Some(i) => {
                    proof {
                        lemma_remove_to_set(self.interrupted@, i as int);
                    }
                    self.interrupted.remove(i);
                    Some(Wake::Interrupted)
                },
                None => Some(Wake::Ready),
            }
        } else {
            None
        }
    }

    /// Wakes at most one waiter: takes one thread off the queue if there is
    /// one, and returns it. With nobody waiting nothing changes.
    pub fn notify_one(&mut self) -> (woken: Option<u64>)
        requires
            old(self).inv(),
        ensures
            final(self).inv(),
            match woken {
                Some(tid) => old(self)@.waiters.contains(tid)
                    && final(self)@ == old(self)@.woken(tid),
                None => old(self)@.waiters.is_empty() && final(self)@ == old(self)@,
            },
    {
        if self.waiters.len() == 0 {
            None
        } else {
            proof {
                lemma_remove_to_set(self.waiters@, 0);
            }
            let tid = self.waiters.remove(0);
            Some(tid)
        }
    }

    /// Wakes every waiter: the queue is empty afterwards.
    pub fn notify_all(&mut self)
        requires
            old(self).inv(),
        ensures
            final(self).inv(),
            final(self)@ == old(self)@.drained(),
    {
        self.waiters.clear();
    }

    /// Detaches whatever waiter is still queued. After it the queue is empty,
    /// however many woke before; a second call changes nothing.
    pub fn release_waiters(&mut self)
        requires
            old(self).inv(),
        ensures
            final(self).inv(),
            final(self)@ == old(self)@.drained(),
    {
        self.waiters.clear();
    }

    /// Delivers an interruption from outside to `tid`. A sleeping thread is
    /// taken off the queue, and its wait will report the interruption; to a
    /// thread that does not sleep nothing happens. Returns whether the thread
    /// slept.
    pub fn interrupt(&mut self, tid: u64) -> (hit: bool)
        requires
            old(self).inv(),
        ensures
            final(self).inv(),
            hit == old(self)@.waiters.contains(tid),
            final(self)@ == old(self)@.interrupt(tid),
    {
        match position(&self.waiters, tid) {
            Some(i) => {
                proof {
                    lemma_remove_to_set(self.waiters@, i as int);
                }
                self.waiters.remove(i);
                if position(&self.interrupted, tid).is_none() {
                    proof {
                        lemma_push_to_set(self.interrupted@, tid);
                    }
                    self.interrupted.push(tid);
                }
                true
            },
            None => false,
        }
    }

    /// Performs `action` for thread `tid` and returns the host's report on
    /// it, or nothing where the thread has to wait and ask again.
    ///
    /// An action that belongs to the lock's holder is refused to any other
    /// thread: it changes nothing and gets no report.
    pub fn perform(&mut self, tid: u64, action: Action) -> (event: Option<Event>)
        requires
            old(self).inv(),
        ensures
            final(self).inv(),
            event == old(self)@.answer(tid, action),
            old(self)@.effect(tid, action, final(self)@),
    {
        match action {
            Action::Acquire => {
                if self.acquire(tid) {
                    Some(Event::Done)
                } else {
                    None
                }
            },
            Action::Observe => {
                if self.holds(tid) {
                    Some(Event::Flag(self.get(tid)))
                } else {
                    None
                }
            },
            Action::Store(value) => {
                if self.holds(tid) {
                    self.set(tid, value);
                    Some(Event::Done)
                } else {
                    None
                }
            },
            Action::Release => {
                if self.holds(tid) {
                    self.release(tid);
                    Some(Event::Done)
                } else {
                    None
                }
            },
            Action::Wait => {
                match self.wait(tid) {
                    Some(wake) => Some(Event::Woken(wake)),
                    None => None,
                }
            },
            Action::NotifyOne => {
                let _ = self.notify_one();
                Some(Event::Done)
            },
            Action::NotifyAll => {
                self.notify_all();
                Some(Event::Done)
            },
            Action::ReleaseWaiters => {
                self.release_waiters();
                Some(Event::Done)
            },
        }
    }

    /// Lets thread `tid` take one step of `call`: performs the call's pending
    /// action and, if it was answered, moves the call on. Returns whether the
    /// call moved; a call that is finished, or that has to wait, does not.
    pub fn step(&mut self, tid: u64, call: &mut Call) -> (moved: bool)
        requires
            old(self).inv(),
        ensures
            final(self).inv(),
            steps(old(self)@, tid, old(call)@, final(self)@, final(call)@),
            moved == (old(call)@.action() matches Some(action)
                && old(self)@.answer(tid, action) is Some),
    {
        match call.action() {
            None => false,
            Some(action) => {
                match self.perform(tid, action) {
                    Some(event) => {
                        call.advance(event);
                        true
                    },
                    None => false,
                }
            },
        }
    }

    /// Lets thread `tid` run `call` alone, until the call returns or the
    /// thread has to wait: for the lock, or asleep on the queue.
    pub fn run(&mut self, tid: u64, call: &mut Call)
        requires
            old(self).inv(),
        ensures
            final(self).inv(),
            (final(self)@, final(call)@) == old(self)@.run(tid, old(call)@),
    {
        let ghost goal = self@.run(tid, call@);
        let mut moved = self.step(tid, call);
        while moved
            invariant
                self.inv(),
                moved ==> self@.run(tid, call@) == goal,
                !moved ==> (self@, call@) == goal,
            decreases
                    (if moved {
                        1 + self@.ahead(tid, call@)
                    } else {
                        0
                    }),
        {
            let ghost pre = self@;
            let ghost before = call@;
            moved = self.step(tid, call);
            proof {
                law_step_in_run(pre, tid, before, self@, call@);
            }
        }
    }

    /// A read call of thread `tid`, into a destination of `dest_len` bytes at
    /// `offset`, as far as it gets alone.
    ///
    /// With an empty destination or a nonzero offset it returns 0 at once
    /// and nothing changes. Else it takes the lock; where the lock is busy,
    /// it is still waiting for it. Where the flag is set, it clears the
    /// flag, gives the lock up, wakes whoever waits, and returns 0. Where the
    /// flag is clear, it is asleep on the queue, the lock given up, and
    /// [`Gate::run`] takes it further once it was woken.
    pub fn read(&mut self, tid: u64, dest_len: usize, offset: u64) -> (call: Call)
        requires
            old(self).inv(),
        ensures
            final(self).inv(),
            (final(self)@, call@) == old(self)@.run(tid, CallState::read(dest_len, offset)),
            dest_len == 0 || offset != 0 ==> final(self)@ == old(self)@
                && call@.result() == Some(Ok::<usize, GateError>(0)),
            dest_len > 0 && offset == 0 && !old(self)@.acquirable(tid) ==> final(self)@ == old(self)@
                && call@ == CallState::read(dest_len, offset),
            dest_len > 0 && offset == 0 && old(self)@.acquirable(tid) && old(self)@.flag
                ==> final(self)@ == old(self)@.stored(false).drained()
                && call@.result() == Some(Ok::<usize, GateError>(0)),
            dest_len > 0 && offset == 0 && old(self)@.acquirable(tid) && !old(self)@.flag
                ==> final(self)@ == old(self)@.parked(tid)
                && call@ == CallState::read(dest_len, offset).at(Phase::Wait),
    {
        let mut call = Call::read(dest_len, offset);
        self.run(tid, &mut call);
        call
    }

    /// A write call of thread `tid`, of `len` bytes, as far as it gets alone.
    ///
    /// It takes the lock; where the lock is busy, it is still waiting for
    /// it. Else it sets the flag, whatever the flag held, gives the lock up,
    /// wakes whoever waits, and returns `len`. It never sleeps and never
    /// fails.
    pub fn write(&mut self, tid: u64, len: usize) -> (call: Call)
        requires
            old(self).inv(),
        ensures
            final(self).inv(),
            (final(self)@, call@) == old(self)@.run(tid, CallState::write(len)),
            old(self)@.acquirable(tid) ==> final(self)@ == old(self)@.stored(true).drained()
                && call@.result() == Some(Ok::<usize, GateError>(len)),
            !old(self)@.acquirable(tid) ==> final(self)@ == old(self)@ && call@
                == CallState::write(len),
    {
        let mut call = Call::write(len);
        self.run(tid, &mut call);
        call
    }
}

/// A run is a row of steps. Where a step moves the call, the run goes on
/// from where the step led, and is nearer to its end; where a step does not
/// move the call, the run is over, and has led where the step led.
pub proof fn law_step_in_run(
    pre: GateState,
    tid: u64,
    call: CallState,
    post: GateState,
    next: CallState,
)
    requires
        steps(pre, tid, call, post, next),
    ensures
        call.action() matches Some(action) && pre.answer(tid, action) is Some
            ==> post.run(tid, next) == pre.run(tid, call)
            && post.ahead(tid, next) < pre.ahead(tid, call),
        !(call.action() matches Some(action) && pre.answer(tid, action) is Some) ==> (post, next)
            == pre.run(tid, call),
{
}

} // verus!
