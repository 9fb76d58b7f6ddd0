//! The pre-rolling input switcher.
//!
//! The switcher owns K >= 2 input slots. Each slot holds one input assembly
//! bound to one file and walks the lifecycle Building -> PreRolled -> Active
//! -> Draining -> Recycling -> Building. At every moment exactly one slot is
//! active: the output selectors forward its frames to the shared encoder.
//! End-of-stream, a decode error and an operator skip all take the same
//! boundary step: the first pre-rolled sibling (in cyclic order after the
//! active slot) is promoted, and the freed slot is drained and recycled with
//! the next file. When no sibling is ready the active slot stays selected
//! (stall avoidance) and the first slot to finish pre-rolling afterwards is
//! promoted at once.
//!
//! The switcher keeps a ghost log of the `Playing`/`Ended` events it has
//! emitted; the log always alternates, and every `Ended` names the same path
//! as the `Playing` directly before it.

use vstd::prelude::*;
use vstd::pervasive::VecAdditionalExecFns;

verus! {

/// An operator command for the switcher.
#[derive(Debug, Copy, Clone, PartialEq, Eq, Structural)]
pub enum Command {
    Skip,
    Abort,
}

/// A best-effort notification to observers of the program.
#[derive(Debug, Clone, PartialEq, Eq)]
pub enum Event {
    Playing { path: String },
    Ended { path: String },
}

impl Event {
    /// The path this event speaks of.
    pub open spec fn spec_path(&self) -> Seq<char> {
        match self {
            Event::Playing { path } => path@,
            Event::Ended { path } => path@,
        }
    }

    pub fn path(&self) -> (p: &String)
        ensures
            p@ == self.spec_path(),
    {
        match self {
            Event::Playing { path } => path,
            Event::Ended { path } => path,
        }
    }
}

/// Lifecycle state of one input slot.
#[derive(Debug, Copy, Clone, PartialEq, Eq, Structural)]
pub enum SlotState {
    /// Bound to a file and pre-rolling towards a paused, decoded state.
    Building,
    /// Pre-rolled: ready to be promoted without decode latency.
    PreRolled,
    /// Selected: its frames feed the shared output chain.
    Active,
    /// Freed at an item boundary; its backlog is being flushed.
    Draining,
    /// Flushed and stopped; waiting for the next file to be bound.
    Recycling,
}

/// One switcher-owned holder for an input assembly and its state.
#[derive(Debug, Clone)]
pub struct Slot {
    pub state: SlotState,
    pub path: String,
}

/// What one boundary step did: which slot was freed for recycling, the
/// `Ended` event for the finished item, and, when a sibling was ready, the
/// `Playing` event for the promoted one.
#[derive(Debug)]
pub struct Switch {
    pub freed: usize,
    pub ended: Event,
    pub playing: Option<Event>,
}

/// The event log alternates `Playing`/`Ended` starting with `Playing`, and
/// every `Ended` names the path of the event directly before it.
pub open spec fn log_wf(log: Seq<Event>) -> bool {
    &&& forall|j: int| 0 <= j < log.len() ==> ((#[trigger] log[j] is Playing) <==> j % 2 == 0)
    &&& forall|j: int|
        0 < j < log.len() && !(#[trigger] log[j] is Playing) ==> log[j].spec_path() == log[j
            - 1].spec_path()
}

/// The cyclic successor at distance `d` from `a` among `n` slots.
pub open spec fn cyc(a: int, d: int, n: int) -> int {
    if a + d < n {
        a + d
    } else {
        a + d - n
    }
}

/// The first pre-rolled slot at cyclic distance `d`, `d + 1`, ... from `a`.
pub open spec fn first_prerolled_from(slots: Seq<Slot>, a: int, d: int) -> Option<int>
    decreases slots.len() - d,
{
    if d < 1 || slots.len() <= d || !(0 <= a < slots.len()) {
        None
    } else {
        let i = cyc(a, d, slots.len() as int);
        if slots[i].state == SlotState::PreRolled {
            Some(i)
        } else {
            first_prerolled_from(slots, a, d + 1)
        }
    }
}

/// The slot a boundary step promotes: the first pre-rolled sibling in cyclic
/// order after the active slot, if any is ready.
pub open spec fn chosen_next(slots: Seq<Slot>, a: int) -> Option<int> {
    first_prerolled_from(slots, a, 1)
}

/// Among `slots`, the slot at `a` is the one and only active slot.
pub open spec fn one_active(slots: Seq<Slot>, a: int) -> bool {
    &&& 0 <= a < slots.len()
    &&& slots[a].state == SlotState::Active
    &&& forall|i: int|
        0 <= i < slots.len() && i != a ==> (#[trigger] slots[i].state) != SlotState::Active
}

/// The continuous-stream switcher core.
pub struct Switcher {
    slots: Vec<Slot>,
    active: usize,
    started: bool,
    stalled: bool,
    skip_pending: bool,
    log: Ghost<Seq<Event>>,
}

impl Switcher {
    /// How many slots the switcher owns.
    pub closed spec fn num_slots(&self) -> int {
        self.slots@.len() as int
    }

    /// The index of the selected slot.
    pub closed spec fn spec_active(&self) -> int {
        self.active as int
    }

    /// The lifecycle state of slot `i`.
    pub closed spec fn slot_state(&self, i: int) -> SlotState {
        self.slots@[i].state
    }

    /// The path bound to slot `i`.
    pub closed spec fn slot_path(&self, i: int) -> Seq<char> {
        self.slots@[i].path@
    }

    /// All slots as the spec sees them.
    pub closed spec fn slots_view(&self) -> Seq<Slot> {
        self.slots@
    }

    /// Whether the output chain has been started.
    pub closed spec fn is_started(&self) -> bool {
        self.started
    }

    /// Whether the active item has ended with no sibling ready to promote.
    pub closed spec fn is_stalled(&self) -> bool {
        self.stalled
    }

    /// Whether a skip command waits to be consumed.
    pub closed spec fn skip_is_pending(&self) -> bool {
        self.skip_pending
    }

    /// Everything emitted so far, in order.
    pub closed spec fn event_log(&self) -> Seq<Event> {
        self.log@
    }

    /// An item is on air: started, and the active item has not ended.
    pub open spec fn playing_now(&self) -> bool {
        self.is_started() && !self.is_stalled()
    }

    /// Exactly one slot is in the `Active` state, and it is the selected one.
    pub open spec fn exactly_one_active(&self) -> bool {
        one_active(self.slots_view(), self.spec_active())
    }

    /// The switcher's invariant: a sane slot table, exactly one active slot,
    /// and an event log that alternates and whose open item, when one is on
    /// air, is the active slot's.
    pub closed spec fn wf(&self) -> bool {
        &&& 2 <= self.num_slots() <= usize::MAX as int / 2
        &&& self.exactly_one_active()
        &&& log_wf(self.event_log())
        &&& (self.playing_now() ==> self.event_log().len() % 2 == 1 && self.event_log().last().spec_path()
            == self.slot_path(self.spec_active()))
        &&& (!self.playing_now() ==> self.event_log().len() % 2 == 0)
        &&& (!self.started ==> !self.stalled)
    }

    /// Build the switcher over one file per slot: the first file is bound to
    /// the selected slot, the rest pre-roll as siblings.
    pub fn new(paths: Vec<String>) -> (r: Self)
        requires
            2 <= paths@.len() <= usize::MAX as int / 2,
        ensures
            r.wf(),
            r.num_slots() == paths@.len(),
            !r.is_started(),
            !r.skip_is_pending(),
            r.spec_active() == 0,
            r.slot_state(0) == SlotState::Active,
            forall|i: int| 1 <= i < r.num_slots() ==> r.slot_state(i) == SlotState::Building,
            forall|i: int| 0 <= i < r.num_slots() ==> r.slot_path(i) == paths@[i]@,
            r.event_log() == Seq::<Event>::empty(),
    {
        let mut slots: Vec<Slot> = Vec::new();
        let mut k: usize = 0;
        while k < paths.len()
            invariant
                k <= paths.len(),
                slots@.len() == k,
                forall|i: int| 0 <= i < k ==> #[trigger] slots@[i].path@ == paths@[i]@,
                forall|i: int|
                    0 <= i < k ==> #[trigger] slots@[i].state == (if i == 0 {
                        SlotState::Active
                    } else {
                        SlotState::Building
                    }),
            decreases paths.len() - k,
        {
            let state = if k == 0 {
                SlotState::Active
            } else {
                SlotState::Building
            };
            slots.push(Slot { state, path: paths[k].clone() });
            k = k + 1;
        }
        Switcher {
            slots,
            active: 0,
            started: false,
            stalled: false,
            skip_pending: false,
            log: Ghost(Seq::empty()),
        }
    }

    /// Start the program: the output chain goes live and the active slot's
    /// item is announced before its first frame is pushed.
    pub fn start(&mut self) -> (e: Event)
        requires
            old(self).wf(),
            !old(self).is_started(),
        ensures
            final(self).wf(),
            final(self).is_started(),
            !final(self).is_stalled(),
            e is Playing,
            e.spec_path() == old(self).slot_path(old(self).spec_active()),
            final(self).event_log() == old(self).event_log().push(e),
            final(self).slots_view() == old(self).slots_view(),
            final(self).num_slots() == old(self).num_slots(),
            final(self).spec_active() == old(self).spec_active(),
            final(self).skip_is_pending() == old(self).skip_is_pending(),
    {
        self.started = true;
        let e = Event::Playing { path: self.slots[self.active].path.clone() };
        proof {
            lemma_log_push_playing(self.log@, e);
        }
        self.log = Ghost(self.log@.push(e));
        e
    }

    /// Find the slot a boundary step promotes: the first pre-rolled sibling
    /// in cyclic order after the active slot.
    fn choose_next(&self) -> (r: Option<usize>)
        requires
            self.wf(),
        ensures
            r matches Some(n) ==> chosen_next(self.slots_view(), self.spec_active()) == Some(
                n as int,
            ),
            r is None ==> chosen_next(self.slots_view(), self.spec_active()) is None,
    {
        let n = self.slots.len();
        let a = self.active;
        let mut d: usize = 1;
        while d < n
            invariant
                self.wf(),
                1 <= d <= n,
                n == self.num_slots(),
                a == self.spec_active(),
                first_prerolled_from(self.slots_view(), a as int, 1) == first_prerolled_from(
                    self.slots_view(),
                    a as int,
                    d as int,
                ),
            decreases n - d,
        {
            let i = if a + d < n {
                a + d
            } else {
                a + d - n
            };
            assert(i as int == cyc(a as int, d as int, n as int));
            if self.slots[i].state == SlotState::PreRolled {
                return Some(i);
            }
            proof {
                assert(first_prerolled_from(self.slots_view(), a as int, d as int)
                    == first_prerolled_from(self.slots_view(), a as int, d as int + 1));
            }
            d = d + 1;
        }
        None
    }

    /// One item boundary: end-of-stream, a decode error on the active slot
    /// and an operator skip all land here. The finished item is announced as
    /// ended; the first pre-rolled sibling, if any, is promoted and announced
    /// as playing, and the freed slot starts draining. With no sibling ready
    /// the active slot stays selected (stall avoidance) and the switcher
    /// waits for the next pre-roll to complete.
    pub fn item_end(&mut self) -> (out: Switch)
        requires
            old(self).wf(),
            old(self).playing_now(),
        ensures
            final(self).wf(),
            final(self).is_started(),
            final(self).num_slots() == old(self).num_slots(),
            final(self).skip_is_pending() == old(self).skip_is_pending(),
            forall|i: int|
                0 <= i < old(self).num_slots() ==> final(self).slot_path(i) == old(self).slot_path(
                    i,
                ),
            out.freed == old(self).spec_active(),
            out.ended is Ended,
            out.ended.spec_path() == old(self).slot_path(old(self).spec_active()),
            out.playing is Some <==> chosen_next(old(self).slots_view(), old(self).spec_active())
                is Some,
            out.playing matches Some(e) ==> {
                &&& e is Playing
                &&& chosen_next(old(self).slots_view(), old(self).spec_active()) == Some(
                    final(self).spec_active(),
                )
                &&& e.spec_path() == old(self).slot_path(final(self).spec_active())
                &&& final(self).spec_active() != old(self).spec_active()
                &&& final(self).slot_state(final(self).spec_active()) == SlotState::Active
                &&& final(self).slot_state(old(self).spec_active()) == SlotState::Draining
                &&& forall|i: int|
                    0 <= i < old(self).num_slots() && i != final(self).spec_active() && i != old(
                        self,
                    ).spec_active() ==> final(self).slot_state(i) == old(self).slot_state(i)
                &&& !final(self).is_stalled()
                &&& final(self).event_log() == old(self).event_log().push(out.ended).push(e)
            },
            out.playing is None ==> {
                &&& final(self).spec_active() == old(self).spec_active()
                &&& final(self).is_stalled()
                &&& forall|i: int|
                    0 <= i < old(self).num_slots() ==> final(self).slot_state(i) == old(
                        self,
                    ).slot_state(i)
                &&& final(self).event_log() == old(self).event_log().push(out.ended)
            },
    {
        let a = self.active;
        let next = self.choose_next();
        let ended = Event::Ended { path: self.slots[a].path.clone() };
        proof {
            lemma_log_push_ended(self.log@, ended);
        }
        self.log = Ghost(self.log@.push(ended));
        match next {
            Some(n) => {
                proof {
                    lemma_first_prerolled_bounds(self.slots_view(), a as int, 1);
                }
                let freed_path = self.slots[a].path.clone();
                self.slots.set(a, Slot { state: SlotState::Draining, path: freed_path });
                let next_path = self.slots[n].path.clone();
                self.slots.set(n, Slot { state: SlotState::Active, path: next_path });
                self.active = n;
                self.stalled = false;
                let playing = Event::Playing { path: self.slots[n].path.clone() };
                proof {
                    lemma_log_push_playing(self.log@, playing);
                }
                self.log = Ghost(self.log@.push(playing));
                proof {
                    assert forall|i: int|
                        0 <= i < self.slots@.len() && i != n as int implies (#[trigger] self.slots@[i].state)
                        != SlotState::Active by {
                        if i != a as int {
                            assert(self.slots@[i] == old(self).slots@[i]);
                        }
                    }
                    assert(one_active(self.slots@, n as int));
                    assert forall|i: int|
                        0 <= i < old(self).num_slots() implies self.slot_path(i) == old(
                        self,
                    ).slot_path(i) by {}
                }
                Switch { freed: a, ended, playing: Some(playing) }
            },
            None => {
                self.stalled = true;
                Switch { freed: a, ended, playing: None }
            },
        }
    }

    /// The freed slot's backlog has been flushed: it can now be recycled.
    pub fn drained(&mut self, i: usize)
        requires
            old(self).wf(),
            i < old(self).num_slots(),
            old(self).slot_state(i as int) == SlotState::Draining,
        ensures
            final(self).wf(),
            final(self).num_slots() == old(self).num_slots(),
            final(self).slot_state(i as int) == SlotState::Recycling,
            forall|j: int|
                0 <= j < old(self).num_slots() && j != i ==> final(self).slot_state(j) == old(
                    self,
                ).slot_state(j),
            forall|j: int|
                0 <= j < old(self).num_slots() ==> final(self).slot_path(j) == old(self).slot_path(
                    j,
                ),
            final(self).spec_active() == old(self).spec_active(),
            final(self).is_started() == old(self).is_started(),
            final(self).is_stalled() == old(self).is_stalled(),
            final(self).skip_is_pending() == old(self).skip_is_pending(),
            final(self).event_log() == old(self).event_log(),
    {
        let path = self.slots[i].path.clone();
        self.slots.set(i, Slot { state: SlotState::Recycling, path });
        proof {
            assert forall|j: int|
                0 <= j < self.slots@.len() && j != self.spec_active() implies (
            #[trigger] self.slots@[j].state) != SlotState::Active by {
                if j != i as int {
                    assert(self.slots@[j] == old(self).slots@[j]);
                }
            }
            assert(one_active(self.slots@, self.spec_active()));
        }
    }

    /// A non-active slot's assembly failed to build or errored out: per the
    /// recovery policy it is marked recycling, whatever lifecycle stage it
    /// was in, and the next path is bound to it.
    pub fn slot_failed(&mut self, i: usize)
        requires
            old(self).wf(),
            i < old(self).num_slots(),
            i as int != old(self).spec_active(),
        ensures
            final(self).wf(),
            final(self).num_slots() == old(self).num_slots(),
            final(self).slot_state(i as int) == SlotState::Recycling,
            forall|j: int|
                0 <= j < old(self).num_slots() && j != i ==> final(self).slot_state(j) == old(
                    self,
                ).slot_state(j),
            forall|j: int|
                0 <= j < old(self).num_slots() ==> final(self).slot_path(j) == old(self).slot_path(
                    j,
                ),
            final(self).spec_active() == old(self).spec_active(),
            final(self).is_started() == old(self).is_started(),
            final(self).is_stalled() == old(self).is_stalled(),
            final(self).skip_is_pending() == old(self).skip_is_pending(),
            final(self).event_log() == old(self).event_log(),
    {
        let path = self.slots[i].path.clone();
        self.slots.set(i, Slot { state: SlotState::Recycling, path });
        proof {
            assert forall|j: int|
                0 <= j < self.slots@.len() && j != self.spec_active() implies (
            #[trigger] self.slots@[j].state) != SlotState::Active by {
                if j != i as int {
                    assert(self.slots@[j] == old(self).slots@[j]);
                }
            }
            assert(one_active(self.slots@, self.spec_active()));
        }
    }

    /// Bind the next file to a recycled slot, which then starts pre-rolling;
    /// or rebind the stalled active slot, which keeps its place while its
    /// assembly rebuilds.
    pub fn bind_next(&mut self, i: usize, path: String)
        requires
            old(self).wf(),
            i < old(self).num_slots(),
            old(self).slot_state(i as int) == SlotState::Recycling || (old(self).is_stalled() && i
                as int == old(self).spec_active()),
        ensures
            final(self).wf(),
            final(self).num_slots() == old(self).num_slots(),
            final(self).slot_path(i as int) == path@,
            old(self).slot_state(i as int) == SlotState::Recycling ==> final(self).slot_state(
                i as int,
            ) == SlotState::Building,
            old(self).slot_state(i as int) != SlotState::Recycling ==> final(self).slot_state(
                i as int,
            ) == old(self).slot_state(i as int),
            forall|j: int|
                0 <= j < old(self).num_slots() && j != i ==> final(self).slot_state(j) == old(
                    self,
                ).slot_state(j) && final(self).slot_path(j) == old(self).slot_path(j),
            final(self).spec_active() == old(self).spec_active(),
            final(self).is_started() == old(self).is_started(),
            final(self).is_stalled() == old(self).is_stalled(),
            final(self).skip_is_pending() == old(self).skip_is_pending(),
            final(self).event_log() == old(self).event_log(),
    {
        let state = if matches!(self.slots[i].state, SlotState::Recycling) {
            SlotState::Building
        } else {
            self.slots[i].state
        };
        self.slots.set(i, Slot { state, path });
        proof {
            assert forall|j: int|
                0 <= j < self.slots@.len() && j != self.spec_active() implies (
            #[trigger] self.slots@[j].state) != SlotState::Active by {
                if j != i as int {
                    assert(self.slots@[j] == old(self).slots@[j]);
                }
            }
            assert(one_active(self.slots@, self.spec_active()));
        }
    }

    /// A slot finished pre-rolling. Normally it just becomes ready. When the
    /// active item has already ended with nothing ready (a stall), the first
    /// slot to finish is promoted at once and its item announced.
    pub fn preroll_done(&mut self, i: usize) -> (e: Option<Event>)
        requires
            old(self).wf(),
            i < old(self).num_slots(),
            old(self).slot_state(i as int) == SlotState::Building || (old(self).is_started() && old(
                self,
            ).is_stalled() && i as int == old(self).spec_active()),
        ensures
            final(self).wf(),
            final(self).num_slots() == old(self).num_slots(),
            final(self).is_started() == old(self).is_started(),
            final(self).skip_is_pending() == old(self).skip_is_pending(),
            forall|j: int|
                0 <= j < old(self).num_slots() ==> final(self).slot_path(j) == old(self).slot_path(
                    j,
                ),
            !(old(self).is_started() && old(self).is_stalled()) ==> {
                &&& e is None
                &&& final(self).slot_state(i as int) == SlotState::PreRolled
                &&& forall|j: int|
                    0 <= j < old(self).num_slots() && j != i ==> final(self).slot_state(j) == old(
                        self,
                    ).slot_state(j)
                &&& final(self).spec_active() == old(self).spec_active()
                &&& final(self).is_stalled() == old(self).is_stalled()
                &&& final(self).event_log() == old(self).event_log()
            },
            old(self).is_started() && old(self).is_stalled() ==> {
                &&& e matches Some(ev) && ev is Playing && ev.spec_path() == old(self).slot_path(
                    i as int,
                ) && final(self).event_log() == old(self).event_log().push(ev)
                &&& !final(self).is_stalled()
                &&& final(self).spec_active() == i as int
                &&& final(self).slot_state(i as int) == SlotState::Active
                &&& (i as int != old(self).spec_active() ==> final(self).slot_state(
                    old(self).spec_active(),
                ) == SlotState::Building)
                &&& forall|j: int|
                    0 <= j < old(self).num_slots() && j != i && j != old(self).spec_active()
                        ==> final(self).slot_state(j) == old(self).slot_state(j)
            },
    {
        if self.started && self.stalled {
            let a = self.active;
            if i != a {
                let demoted_path = self.slots[a].path.clone();
                self.slots.set(a, Slot { state: SlotState::Building, path: demoted_path });
                let promoted_path = self.slots[i].path.clone();
                self.slots.set(i, Slot { state: SlotState::Active, path: promoted_path });
                self.active = i;
            }
            self.stalled = false;
            let ev = Event::Playing { path: self.slots[i].path.clone() };
            proof {
                lemma_log_push_playing(self.log@, ev);
            }
            self.log = Ghost(self.log@.push(ev));
            proof {
                assert forall|j: int|
                    0 <= j < self.slots@.len() && j != self.spec_active() implies (
                #[trigger] self.slots@[j].state) != SlotState::Active by {
                    if j != old(self).spec_active() {
                        assert(self.slots@[j] == old(self).slots@[j]);
                    }
                }
                assert(one_active(self.slots@, self.spec_active()));
            }
            Some(ev)
        } else {
            let path = self.slots[i].path.clone();
            self.slots.set(i, Slot { state: SlotState::PreRolled, path });
            proof {
                assert forall|j: int|
                    0 <= j < self.slots@.len() && j != self.spec_active() implies (
                #[trigger] self.slots@[j].state) != SlotState::Active by {
                    if j != i as int {
                        assert(self.slots@[j] == old(self).slots@[j]);
                    }
                }
                assert(one_active(self.slots@, self.spec_active()));
            }
            None
        }
    }

    /// The state after one more skip command is received.
    pub closed spec fn with_skip(self) -> Switcher {
        Switcher { skip_pending: true, ..self }
    }

    /// Record an operator skip. A skip received while one is already pending
    /// collapses with it.
    pub fn receive_skip(&mut self)
        ensures
            *final(self) == old(self).with_skip(),
            final(self).skip_is_pending(),
            old(self).wf() ==> final(self).wf(),
            final(self).event_log() == old(self).event_log(),
            final(self).num_slots() == old(self).num_slots(),
            final(self).spec_active() == old(self).spec_active(),
            final(self).is_started() == old(self).is_started(),
            final(self).is_stalled() == old(self).is_stalled(),
    {
        self.skip_pending = true;
    }

    /// Consume a pending skip if an item is on air; a skip delivered while
    /// nothing plays stays queued for the next active item. When this
    /// returns true the caller takes the ordinary item boundary step, so
    /// skip, end-of-stream and errors share one implementation.
    pub fn take_skip(&mut self) -> (r: bool)
        requires
            old(self).wf(),
        ensures
            final(self).wf(),
            r == (old(self).skip_is_pending() && old(self).playing_now()),
            final(self).skip_is_pending() == (old(self).skip_is_pending() && !old(
                self,
            ).playing_now()),
            final(self).event_log() == old(self).event_log(),
            final(self).slots_view() == old(self).slots_view(),
            final(self).num_slots() == old(self).num_slots(),
            final(self).spec_active() == old(self).spec_active(),
            final(self).is_started() == old(self).is_started(),
            final(self).is_stalled() == old(self).is_stalled(),
    {
        if self.skip_pending && self.started && !self.stalled {
            self.skip_pending = false;
            true
        } else {
            false
        }
    }

    /// Shut the program down: the open item is announced as ended and the
    /// switcher leaves the started state.
    pub fn abort(&mut self) -> (e: Event)
        requires
            old(self).wf(),
            old(self).playing_now(),
        ensures
            final(self).wf(),
            !final(self).is_started(),
            e is Ended,
            e.spec_path() == old(self).slot_path(old(self).spec_active()),
            final(self).event_log() == old(self).event_log().push(e),
            final(self).slots_view() == old(self).slots_view(),
            final(self).num_slots() == old(self).num_slots(),
            final(self).spec_active() == old(self).spec_active(),
    {
        let e = Event::Ended { path: self.slots[self.active].path.clone() };
        proof {
            lemma_log_push_ended(self.log@, e);
        }
        self.log = Ghost(self.log@.push(e));
        self.started = false;
        self.stalled = false;
        e
    }

    /// Index of the selected slot.
    pub fn active_index(&self) -> (r: usize)
        ensures
            r as int == self.spec_active(),
    {
        self.active
    }

    /// How many slots the switcher owns.
    pub fn slot_count(&self) -> (r: usize)
        ensures
            r as int == self.num_slots(),
    {
        self.slots.len()
    }

    /// The lifecycle state of one slot.
    pub fn state_of(&self, i: usize) -> (r: SlotState)
        requires
            i < self.num_slots(),
        ensures
            r == self.slot_state(i as int),
    {
        self.slots[i].state
    }

    /// The path bound to one slot.
    pub fn path_of(&self, i: usize) -> (r: &String)
        requires
            i < self.num_slots(),
        ensures
            r@ == self.slot_path(i as int),
    {
        &self.slots[i].path
    }

    /// Whether an item is on air.
    pub fn on_air(&self) -> (r: bool)
        ensures
            r == self.playing_now(),
    {
        self.started && !self.stalled
    }
}

/// The result of the pre-roll search lies among the slots and is pre-rolled
/// and distinct from the active slot.
proof fn lemma_first_prerolled_bounds(slots: Seq<Slot>, a: int, d: int)
    requires
        0 <= a < slots.len(),
        1 <= d,
    ensures
        first_prerolled_from(slots, a, d) matches Some(n) ==> 0 <= n < slots.len() && slots[n].state
            == SlotState::PreRolled && (d < slots.len() ==> n != a),
    decreases slots.len() - d,
{
    if d < slots.len() {
        let i = cyc(a, d, slots.len() as int);
        if slots[i].state != SlotState::PreRolled {
            lemma_first_prerolled_bounds(slots, a, d + 1);
        }
    }
}

/// How the slot table relates to the per-slot accessors: entry `i` of the
/// table holds exactly the state and path that `slot_state` and `slot_path`
/// report, so callers can evaluate `chosen_next` from per-slot facts.
pub proof fn lemma_slot_view(s: &Switcher, i: int)
    requires
        0 <= i < s.num_slots(),
    ensures
        s.slots_view().len() == s.num_slots(),
        s.slots_view()[i].state == s.slot_state(i),
        s.slots_view()[i].path@ == s.slot_path(i),
{
}

/// After the program starts, exactly one slot is active at every step the
/// switcher takes: the selected one.
pub proof fn lemma_exactly_one_active(s: &Switcher)
    requires
        s.wf(),
    ensures
        0 <= s.spec_active() < s.num_slots(),
        s.slot_state(s.spec_active()) == SlotState::Active,
        forall|i: int|
            0 <= i < s.num_slots() && i != s.spec_active() ==> s.slot_state(i) != SlotState::Active,
{
    assert forall|i: int|
        0 <= i < s.num_slots() && i != s.spec_active() implies s.slot_state(i)
        != SlotState::Active by {
        assert(s.slots_view()[i].state != SlotState::Active);
    }
}

/// Every `Ended` event directly follows the `Playing` event of the same
/// path: an item's start precedes its end, and no other item starts between
/// them.
pub proof fn lemma_playing_precedes_ended(s: &Switcher)
    requires
        s.wf(),
    ensures
        forall|j: int|
            0 <= j < s.event_log().len() && (#[trigger] s.event_log()[j]) is Ended ==> 0 < j
                && s.event_log()[j - 1] is Playing && s.event_log()[j - 1].spec_path()
                == s.event_log()[j].spec_path(),
{
    assert forall|j: int|
        0 <= j < s.event_log().len() && (#[trigger] s.event_log()[j]) is Ended implies 0 < j
        && s.event_log()[j - 1] is Playing && s.event_log()[j - 1].spec_path()
        == s.event_log()[j].spec_path() by {
        let log = s.event_log();
        assert(!(log[j] is Playing));
        if j == 0 {
            assert(log[0] is Playing);
        }
        assert(j % 2 == 1);
        assert((j - 1) % 2 == 0);
    }
}

/// A skip command received while one is already unconsumed collapses with
/// it: delivering skip twice leaves the switcher exactly as delivering it
/// once, so at most one boundary step follows per item window.
pub proof fn lemma_skip_collapses(s: Switcher)
    ensures
        s.with_skip().with_skip() == s.with_skip(),
{
}

/// Appending a `Playing` event to an even-length well-formed log keeps it
/// well-formed.
proof fn lemma_log_push_playing(log: Seq<Event>, e: Event)
    requires
        log_wf(log),
        log.len() % 2 == 0,
        e is Playing,
    ensures
        log_wf(log.push(e)),
{
    let l2 = log.push(e);
    assert forall|j: int| 0 <= j < l2.len() implies ((#[trigger] l2[j] is Playing) <==> j % 2 == 0) by {
        if j < log.len() {
            assert(l2[j] == log[j]);
        }
    }
    assert forall|j: int| 0 < j < l2.len() && !(#[trigger] l2[j] is Playing) implies l2[j].spec_path()
        == l2[j - 1].spec_path() by {
        assert(l2[j] == log[j]);
        assert(l2[j - 1] == log[j - 1]);
    }
}

/// Appending an `Ended` event that names the open item's path to an
/// odd-length well-formed log keeps it well-formed.
proof fn lemma_log_push_ended(log: Seq<Event>, e: Event)
    requires
        log_wf(log),
        log.len() % 2 == 1,
        e is Ended,
        e.spec_path() == log.last().spec_path(),
    ensures
        log_wf(log.push(e)),
{
    let l2 = log.push(e);
    assert forall|j: int| 0 <= j < l2.len() implies ((#[trigger] l2[j] is Playing) <==> j % 2 == 0) by {
        if j < log.len() {
            assert(l2[j] == log[j]);
        }
    }
    assert forall|j: int| 0 < j < l2.len() && !(#[trigger] l2[j] is Playing) implies l2[j].spec_path()
        == l2[j - 1].spec_path() by {
        if j < log.len() {
            assert(l2[j] == log[j]);
            assert(l2[j - 1] == log[j - 1]);
        } else {
            assert(l2[j - 1] == log[log.len() - 1]);
        }
    }
}

} // verus!
