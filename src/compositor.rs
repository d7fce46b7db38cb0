//! The compositor's render-loop protocol: when it broadcasts ticks, key
//! upcalls and barriers to the scripts, when it presents the global frame,
//! and when it clears the drop-gate.
use vstd::prelude::*;

use crate::macros::{InputEvent, EV_KEY};
use crate::script::Message;

verus! {

/// Something that the render loop observes.
#[derive(Clone, Copy, Debug, PartialEq, Eq, Structural)]
pub enum Input {
    /// The tick timer fired.
    Timer,
    /// The input reader delivered a key press (`down`) or release.
    Key { down: bool, code: u8 },
    /// One script completed its key upcall.
    UpcallDone,
    /// One script blended its frame into the global frame.
    BarrierAck,
    /// The wait on the barrier timed out.
    BarrierTimeout,
    /// A script called `inject_key`, setting the drop-gate.
    Injected,
}

/// Something that the render loop does.
#[derive(Clone, Copy, Debug, PartialEq, Eq, Structural)]
pub enum Output {
    /// Send the message to every active script.
    Broadcast(Message),
    /// Clear the drop-gate.
    ClearDropGate,
    /// Present the global frame.
    Present,
    /// The barrier was missed: present the previous frame and report it.
    PresentPrevious,
}

/// What the render loop is waiting for.
#[derive(Clone, Copy, Debug, PartialEq, Eq, Structural)]
pub enum Phase {
    /// Nothing outstanding.
    Idle,
    /// The scripts are blending their frames for the current tick.
    Realizing,
    /// The scripts are running a key upcall.
    KeyUpcall,
}

/// A step of the drop-gate protocol.
#[derive(Clone, Copy, Debug, PartialEq, Eq, Structural)]
pub enum GateEvent {
    /// A key message was broadcast.
    KeyBroadcast,
    /// The drop-gate was cleared after the key upcalls completed.
    Cleared,
}

/// The state of the render loop.
pub struct Compositor {
    /// Number of the last tick broadcast.
    pub tick: u32,
    /// Number of active scripts.
    pub n_scripts: usize,
    pub phase: Phase,
    /// Scripts that have not yet completed the outstanding upcall or barrier.
    pub pending: usize,
    /// The drop-gate as the render loop knows it.
    pub drop_current_key: bool,
    /// The tick number before the first tick.
    pub start: Ghost<u32>,
    /// Number of ticks broadcast so far.
    pub rounds: Ghost<nat>,
    /// Every tick and barrier message broadcast so far, in order.
    pub frames: Ghost<Seq<Message>>,
    /// Number of key upcalls completed so far.
    pub upcalls: Ghost<nat>,
    /// Every key broadcast and drop-gate clearing so far, in order.
    pub gate_log: Ghost<Seq<GateEvent>>,
}

/// The tick number that follows `t`.
pub open spec fn next_tick(t: u32) -> u32 {
    if t == u32::MAX {
        0
    } else {
        (t + 1) as u32
    }
}

/// The tick number `n` ticks after `t`.
pub open spec fn tick_after(t: u32, n: nat) -> u32
    decreases n,
{
    if n == 0 {
        t
    } else {
        next_tick(tick_after(t, (n - 1) as nat))
    }
}

/// The messages of `n` render rounds after tick `t`: each round is the
/// round's tick, then the barrier.
pub open spec fn rounds_of(t: u32, n: nat) -> Seq<Message> {
    Seq::new(
        2 * n,
        |i: int|
            if i % 2 == 0 {
                Message::Tick(tick_after(t, (i / 2 + 1) as nat))
            } else {
                Message::RealizeColorMap
            },
    )
}

/// `n` key upcalls, each a key broadcast followed by one clearing.
pub open spec fn gate_rounds(n: nat) -> Seq<GateEvent> {
    Seq::new(
        2 * n,
        |i: int|
            if i % 2 == 0 {
                GateEvent::KeyBroadcast
            } else {
                GateEvent::Cleared
            },
    )
}

/// The key message for a key press or release.
pub open spec fn key_message(down: bool, code: u8) -> Message {
    if down {
        Message::KeyDown(code)
    } else {
        Message::KeyUp(code)
    }
}

/// The key input that an event of the hardware keyboard stands for: a press
/// (value 1) or a release (value 0) of a key whose code fits a byte. Key
/// repeats and other events stand for none.
pub open spec fn key_input_of(ev: InputEvent) -> Option<Input> {
    if ev.event_type == EV_KEY && (ev.value == 0 || ev.value == 1) && ev.event_code < 256 {
        Some(Input::Key { down: ev.value == 1, code: ev.event_code as u8 })
    } else {
        None
    }
}

/// The key input that an event of the hardware keyboard stands for, if any.
pub fn key_input(ev: InputEvent) -> (r: Option<Input>)
    ensures
        r == key_input_of(ev),
{
    if ev.event_type == EV_KEY && (ev.value == 0 || ev.value == 1) && ev.event_code < 256 {
        Some(Input::Key { down: ev.value == 1, code: ev.event_code as u8 })
    } else {
        None
    }
}

proof fn lemma_rounds_push(t: u32, n: nat)
    ensures
        rounds_of(t, n + 1) == rounds_of(t, n) + seq![
            Message::Tick(tick_after(t, n + 1)),
            Message::RealizeColorMap,
        ],
{
    assert(rounds_of(t, n + 1) =~= rounds_of(t, n) + seq![
        Message::Tick(tick_after(t, n + 1)),
        Message::RealizeColorMap,
    ]);
}

proof fn lemma_gate_rounds_push(n: nat)
    ensures
        gate_rounds(n + 1) == gate_rounds(n) + seq![GateEvent::KeyBroadcast, GateEvent::Cleared],
{
    assert(gate_rounds(n + 1) =~= gate_rounds(n) + seq![
        GateEvent::KeyBroadcast,
        GateEvent::Cleared,
    ]);
}

impl Compositor {
    /// The invariant of the render loop.
    pub open spec fn wf(&self) -> bool {
        &&& self.frames@ == rounds_of(self.start@, self.rounds@)
        &&& self.tick == tick_after(self.start@, self.rounds@)
        &&& self.gate_log@ == gate_rounds(self.upcalls@) + (if self.phase is KeyUpcall {
            seq![GateEvent::KeyBroadcast]
        } else {
            Seq::empty()
        })
        &&& (self.phase is Idle <==> self.pending == 0)
        &&& self.pending <= self.n_scripts
        &&& (self.drop_current_key ==> self.phase is KeyUpcall)
    }

    /// A render loop for `n_scripts` active scripts whose next tick follows
    /// tick `start`.
    pub fn new(n_scripts: usize, start: u32) -> (c: Compositor)
        ensures
            c.wf(),
            c.tick == start,
            c.n_scripts == n_scripts,
            c.phase is Idle,
            !c.drop_current_key,
            c.frames@ == Seq::<Message>::empty(),
            c.gate_log@ == Seq::<GateEvent>::empty(),
    {
        let c = Compositor {
            tick: start,
            n_scripts,
            phase: Phase::Idle,
            pending: 0,
            drop_current_key: false,
            start: Ghost(start),
            rounds: Ghost(0),
            frames: Ghost(Seq::empty()),
            upcalls: Ghost(0),
            gate_log: Ghost(Seq::empty()),
        };
        assert(rounds_of(start, 0) =~= Seq::<Message>::empty());
        assert(gate_rounds(0) + Seq::<GateEvent>::empty() =~= Seq::<GateEvent>::empty());
        c
    }

    /// Handle one input and give what the render loop does, in order.
    ///
    /// A tick is broadcast together with its barrier, and only when nothing
    /// is outstanding; the frame is presented once every script has blended
    /// its frame, or the previous frame when the barrier times out. A key is
    /// broadcast only when nothing is outstanding, and the drop-gate is
    /// cleared once, when every script has completed its upcall. A drop-gate
    /// set outside a key upcall is cleared at once. Inputs that do not fit
    /// the phase change nothing.
    pub fn step(&mut self, input: Input) -> (out: Vec<Output>)
        requires
            old(self).wf(),
        ensures
            final(self).wf(),
            final(self).n_scripts == old(self).n_scripts,
            final(self).start == old(self).start,
            match (old(self).phase, input) {
                (Phase::Idle, Input::Timer) => {
                    &&& final(self).tick == next_tick(old(self).tick)
                    &&& final(self).frames@ == old(self).frames@ + seq![
                        Message::Tick(final(self).tick),
                        Message::RealizeColorMap,
                    ]
                    &&& final(self).gate_log == old(self).gate_log
                    &&& if old(self).n_scripts == 0 {
                        &&& out@ == seq![
                            Output::Broadcast(Message::Tick(final(self).tick)),
                            Output::Broadcast(Message::RealizeColorMap),
                            Output::Present,
                        ]
                        &&& final(self).phase is Idle
                    } else {
                        &&& out@ == seq![
                            Output::Broadcast(Message::Tick(final(self).tick)),
                            Output::Broadcast(Message::RealizeColorMap),
                        ]
                        &&& final(self).phase is Realizing
                        &&& final(self).pending == old(self).n_scripts
                    }
                },
                (Phase::Idle, Input::Key { down, code }) => {
                    &&& !old(self).drop_current_key
                    &&& final(self).frames == old(self).frames
                    &&& if old(self).n_scripts == 0 {
                        &&& out@ == seq![
                            Output::Broadcast(key_message(down, code)),
                            Output::ClearDropGate,
                        ]
                        &&& final(self).gate_log@ == old(self).gate_log@ + seq![
                            GateEvent::KeyBroadcast,
                            GateEvent::Cleared,
                        ]
                        &&& final(self).phase is Idle
                    } else {
                        &&& out@ == seq![Output::Broadcast(key_message(down, code))]
                        &&& final(self).gate_log@ == old(self).gate_log@ + seq![
                            GateEvent::KeyBroadcast,
                        ]
                        &&& final(self).phase is KeyUpcall
                        &&& final(self).pending == old(self).n_scripts
                    }
                },
                (Phase::KeyUpcall, Input::UpcallDone) => {
                    &&& final(self).frames == old(self).frames
                    &&& final(self).pending == old(self).pending - 1
                    &&& if old(self).pending == 1 {
                        &&& out@ == seq![Output::ClearDropGate]
                        &&& final(self).gate_log@ == old(self).gate_log@ + seq![
                            GateEvent::Cleared,
                        ]
                        &&& final(self).phase is Idle
                        &&& !final(self).drop_current_key
                    } else {
                        &&& out@ == Seq::<Output>::empty()
                        &&& final(self).gate_log == old(self).gate_log
                        &&& final(self).phase is KeyUpcall
                        &&& final(self).drop_current_key == old(self).drop_current_key
                    }
                },
                (Phase::KeyUpcall, Input::Injected) => {
                    &&& out@ == Seq::<Output>::empty()
                    &&& final(self).drop_current_key
                    &&& final(self).phase is KeyUpcall
                    &&& final(self).pending == old(self).pending
                    &&& final(self).frames == old(self).frames
                    &&& final(self).gate_log == old(self).gate_log
                },
                (_, Input::Injected) => {
                    &&& out@ == seq![Output::ClearDropGate]
                    &&& final(self).phase == old(self).phase
                    &&& final(self).pending == old(self).pending
                    &&& final(self).frames == old(self).frames
                    &&& final(self).gate_log == old(self).gate_log
                },
                (Phase::Realizing, Input::BarrierAck) => {
                    &&& final(self).frames == old(self).frames
                    &&& final(self).gate_log == old(self).gate_log
                    &&& final(self).pending == old(self).pending - 1
                    &&& if old(self).pending == 1 {
                        &&& out@ == seq![Output::Present]
                        &&& final(self).phase is Idle
                    } else {
                        &&& out@ == Seq::<Output>::empty()
                        &&& final(self).phase is Realizing
                    }
                },
                (Phase::Realizing, Input::BarrierTimeout) => {
                    &&& out@ == seq![Output::PresentPrevious]
                    &&& final(self).phase is Idle
                    &&& final(self).frames == old(self).frames
                    &&& final(self).gate_log == old(self).gate_log
                },
                _ => {
                    &&& out@ == Seq::<Output>::empty()
                    &&& final(self).phase == old(self).phase
                    &&& final(self).pending == old(self).pending
                    &&& final(self).tick == old(self).tick
                    &&& final(self).drop_current_key == old(self).drop_current_key
                    &&& final(self).frames == old(self).frames
                    &&& final(self).gate_log == old(self).gate_log
                },
            },
    {
        let mut out: Vec<Output> = Vec::new();
        proof {
            if !(self.phase is KeyUpcall) {
                assert(self.gate_log@ =~= gate_rounds(self.upcalls@));
            }
        }
        match (self.phase, input) {
            (Phase::Idle, Input::Timer) => {
                let t: u32 = if self.tick == u32::MAX {
                    0
                } else {
                    self.tick + 1
                };
                proof {
                    lemma_rounds_push(self.start@, self.rounds@);
                }
                self.tick = t;
                self.rounds = Ghost(self.rounds@ + 1);
                self.frames = Ghost(
                    self.frames@ + seq![Message::Tick(t), Message::RealizeColorMap],
                );
                out.push(Output::Broadcast(Message::Tick(t)));
                out.push(Output::Broadcast(Message::RealizeColorMap));
                if self.n_scripts == 0 {
                    out.push(Output::Present);
                } else {
                    self.phase = Phase::Realizing;
                    self.pending = self.n_scripts;
                }
            },
            (Phase::Idle, Input::Key { down, code }) => {
                let msg = if down {
                    Message::KeyDown(code)
                } else {
                    Message::KeyUp(code)
                };
                out.push(Output::Broadcast(msg));
                if self.n_scripts == 0 {
                    proof {
                        lemma_gate_rounds_push(self.upcalls@);
                    }
                    out.push(Output::ClearDropGate);
                    self.upcalls = Ghost(self.upcalls@ + 1);
                    self.gate_log = Ghost(
                        self.gate_log@ + seq![GateEvent::KeyBroadcast, GateEvent::Cleared],
                    );
                } else {
                    self.phase = Phase::KeyUpcall;
                    self.pending = self.n_scripts;
                    self.gate_log = Ghost(self.gate_log@ + seq![GateEvent::KeyBroadcast]);
                }
            },
            (Phase::KeyUpcall, Input::UpcallDone) => {
                self.pending = self.pending - 1;
                if self.pending == 0 {
                    proof {
                        lemma_gate_rounds_push(self.upcalls@);
                    }
                    out.push(Output::ClearDropGate);
                    self.phase = Phase::Idle;
                    self.drop_current_key = false;
                    self.upcalls = Ghost(self.upcalls@ + 1);
                    self.gate_log = Ghost(self.gate_log@ + seq![GateEvent::Cleared]);
                    assert(self.gate_log@ =~= gate_rounds(self.upcalls@));
                }
            },
            (Phase::KeyUpcall, Input::Injected) => {
                self.drop_current_key = true;
            },
            (_, Input::Injected) => {
                out.push(Output::ClearDropGate);
            },
            (Phase::Realizing, Input::BarrierAck) => {
                self.pending = self.pending - 1;
                if self.pending == 0 {
                    out.push(Output::Present);
                    self.phase = Phase::Idle;
                }
            },
            (Phase::Realizing, Input::BarrierTimeout) => {
                out.push(Output::PresentPrevious);
                self.phase = Phase::Idle;
                self.pending = 0;
            },
            _ => {},
        }
        proof {
            assert(gate_rounds(self.upcalls@) + Seq::<GateEvent>::empty() =~= gate_rounds(
                self.upcalls@,
            ));
        }
        out
    }
}

/// Every active script receives, for each tick, that tick's message and then
/// one barrier message, before any message of the next tick; the ticks are
/// numbered one after another.
pub proof fn lemma_ticks_then_barriers(c: &Compositor)
    requires
        c.wf(),
    ensures
        c.frames@.len() % 2 == 0,
        forall|k: int|
            0 <= k < c.frames@.len() / 2 ==> {
                &&& #[trigger] c.frames@[2 * k] == Message::Tick(
                    tick_after(c.start@, (k + 1) as nat),
                )
                &&& c.frames@[2 * k + 1] == Message::RealizeColorMap
            },
        forall|k: nat| #[trigger] tick_after(c.start@, k + 1) == next_tick(tick_after(c.start@, k)),
{
    assert forall|k: int| 0 <= k < c.frames@.len() / 2 implies {
        &&& #[trigger] c.frames@[2 * k] == Message::Tick(tick_after(c.start@, (k + 1) as nat))
        &&& c.frames@[2 * k + 1] == Message::RealizeColorMap
    } by {
        assert((2 * k) % 2 == 0 && (2 * k) / 2 == k);
        assert((2 * k + 1) % 2 == 1);
    }
}

/// Every key broadcast is followed by exactly one clearing of the drop-gate
/// before the next key broadcast; while no key upcall is outstanding the
/// drop-gate is clear.
pub proof fn lemma_gate_cleared_once_per_key(c: &Compositor)
    requires
        c.wf(),
    ensures
        forall|k: int|
            0 <= k < c.upcalls@ ==> {
                &&& #[trigger] c.gate_log@[2 * k] == GateEvent::KeyBroadcast
                &&& c.gate_log@[2 * k + 1] == GateEvent::Cleared
            },
        c.phase is KeyUpcall ==> c.gate_log@.len() == 2 * c.upcalls@ + 1 && c.gate_log@.last()
            == GateEvent::KeyBroadcast,
        !(c.phase is KeyUpcall) ==> c.gate_log@.len() == 2 * c.upcalls@ && !c.drop_current_key,
{
    assert forall|k: int| 0 <= k < c.upcalls@ implies {
        &&& #[trigger] c.gate_log@[2 * k] == GateEvent::KeyBroadcast
        &&& c.gate_log@[2 * k + 1] == GateEvent::Cleared
    } by {
        assert((2 * k) % 2 == 0);
        assert((2 * k + 1) % 2 == 1);
    }
}

} // verus!
