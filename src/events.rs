//! The in-process event bus: observers registered in order, and the delivery
//! of each event to them.
use vstd::prelude::*;

use crate::macros::InputEvent;

verus! {

/// Which configuration directory changed.
#[derive(Clone, Copy, Debug, PartialEq, Eq, Structural)]
pub enum FileSystemEventKind {
    ProfilesChanged,
    ScriptsChanged,
}

/// A change on disk that the daemon watches for.
#[derive(Debug)]
pub struct FileSystemEvent {
    pub path: String,
    pub kind: FileSystemEventKind,
}

/// An event published on the bus.
#[derive(Debug)]
pub enum Event {
    DaemonStartup,
    DaemonShutdown,
    FileSystemEvent(FileSystemEvent),
    RawKeyboardEvent(InputEvent),
    KeyDown(u8),
    KeyUp(u8),
}

/// The failure that an observer reports.
#[derive(Debug)]
pub struct ObserverError {
    pub message: String,
}

/// Something that receives the events published on the bus. It runs on the
/// publisher's thread, so it must not block. It answers whether it handled
/// the event, or fails.
pub trait Observer {
    fn notify(&self, event: &Event) -> Result<bool, ObserverError>;
}

/// The outcome of delivering one event.
pub struct Delivery {
    /// How many observers were called, in registration order.
    pub delivered: usize,
    /// `Err` with the failure of the last observer called, if one failed.
    pub outcome: Result<(), ObserverError>,
    /// Whether each observer called succeeded, in the order called.
    pub answers: Ghost<Seq<bool>>,
}

/// The bus: its observers in registration order.
pub struct EventBus<O> {
    pub observers: Vec<O>,
}

/// How many observers receive an event, given what each answers when
/// called (`true` for success): all of them up to and including the first
/// that fails.
pub open spec fn delivered_count(answers: Seq<bool>) -> nat
    decreases answers.len(),
{
    if answers.len() == 0 {
        0
    } else if !answers[0] {
        1
    } else {
        1 + delivered_count(answers.drop_first())
    }
}

impl<O: Observer> EventBus<O> {
    /// A bus without observers.
    pub fn new() -> (bus: EventBus<O>)
        ensures
            bus.observers@ == Seq::<O>::empty(),
    {
        EventBus { observers: Vec::new() }
    }

    /// Register an observer; it receives events after those registered
    /// before it.
    pub fn register_observer(&mut self, observer: O)
        ensures
            final(self).observers@ == old(self).observers@.push(observer),
    {
        self.observers.push(observer);
    }

    /// Deliver an event to the observers in registration order. An observer
    /// that fails stops the delivery: the observers after it do not receive
    /// the event, and its failure is the outcome.
    pub fn notify_observers(&self, event: &Event) -> (d: Delivery)
        ensures
            d.answers@.len() == d.delivered,
            d.delivered <= self.observers@.len(),
            d.delivered == delivered_count(d.answers@),
            forall|i: int| 0 <= i < d.delivered - 1 ==> d.answers@[i],
            d.outcome is Ok <==> (d.delivered == self.observers@.len() && forall|i: int|
                0 <= i < d.delivered ==> d.answers@[i]),
            d.outcome is Err ==> d.delivered >= 1 && !d.answers@[d.delivered - 1],
    {
        let mut i: usize = 0;
        let ghost mut answers: Seq<bool> = Seq::empty();
        while i < self.observers.len()
            invariant
                i <= self.observers@.len(),
                answers.len() == i,
                forall|j: int| 0 <= j < i ==> answers[j],
                delivered_count(answers) == i,
            decreases self.observers@.len() - i,
        {
            proof {
                lemma_delivered_count_push(answers, true);
                lemma_delivered_count_push(answers, false);
            }
            match self.observers[i].notify(event) {
                Ok(_) => {
                    proof {
                        answers = answers.push(true);
                    }
                },
                Err(e) => {
                    proof {
                        answers = answers.push(false);
                        assert(!answers[i as int]);
                    }
                    return Delivery { delivered: i + 1, outcome: Err(e), answers: Ghost(answers) };
                },
            }
            i = i + 1;
        }
        Delivery { delivered: i, outcome: Ok(()), answers: Ghost(answers) }
    }
}

proof fn lemma_delivered_count_push(answers: Seq<bool>, last: bool)
    requires
        forall|j: int| 0 <= j < answers.len() ==> answers[j],
        delivered_count(answers) == answers.len(),
    ensures
        delivered_count(answers.push(last)) == answers.len() + 1,
    decreases answers.len(),
{
    if answers.len() == 0 {
        assert(answers.push(last).drop_first() =~= Seq::<bool>::empty());
        assert(delivered_count(Seq::<bool>::empty()) == 0);
    } else {
        assert(answers[0]);
        assert(answers.push(last)[0] == answers[0]);
        assert(answers.push(last).drop_first() =~= answers.drop_first().push(last));
        lemma_delivered_count_push(answers.drop_first(), last);
    }
}

/// How many observers receive an event, given what each would answer: the
/// count that `notify_observers` reaches.
pub fn delivery_count(answers: &[bool]) -> (n: usize)
    ensures
        n == delivered_count(answers@),
{
    let mut i: usize = 0;
    assert(answers@.subrange(0, answers@.len() as int) =~= answers@);
    while i < answers.len()
        invariant
            i <= answers@.len(),
            forall|j: int| 0 <= j < i ==> answers@[j],
            delivered_count(answers@) == i + delivered_count(answers@.subrange(i as int, answers@.len() as int)),
        decreases answers@.len() - i,
    {
        let ghost rest = answers@.subrange(i as int, answers@.len() as int);
        assert(rest.drop_first() =~= answers@.subrange(i + 1, answers@.len() as int));
        if !answers[i] {
            return i + 1;
        }
        i = i + 1;
    }
    i
}

} // verus!
