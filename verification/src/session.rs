//! The session of one observer: on every tick it asks for the four readings
//! in a fixed order, has their payload pushed, and closes for good when a
//! push fails. The session decides; its driver waits, reads and sends, and
//! reports back what happened.

use crate::encoder::{encode, payload_of, Payload};
use crate::provider::{cpu_data, cpu_snapshot, disk_data, disk_snapshot_reading, ram_data, ram_snapshot, swap_data, swap_snapshot};
use crate::reading::{CpuReading, DiskReading, Inconsistent, MemoryReading};
use vstd::prelude::*;

verus! {

/// Seconds from one tick to the next, counted from the start of the
/// session.
pub const TICK_PERIOD_SECS: u64 = 1;

/// The categories of metrics, in the order in which a session asks for
/// them.
#[derive(Clone, Copy, Debug, PartialEq, Eq)]
pub enum Category {
    Cpu,
    Ram,
    Swap,
    Disk,
}

/// What the driver reports to the session.
#[derive(Clone, Debug, PartialEq, Eq)]
pub enum Event {
    /// The tick period has elapsed.
    Tick,
    /// The provider's reading of the cores.
    Cpu(CpuReading),
    /// The provider's reading of main memory.
    Ram(MemoryReading),
    /// The provider's reading of swap space.
    Swap(MemoryReading),
    /// The provider's reading of the designated disk, if there is one.
    Disk(Option<DiskReading>),
    /// The payload was handed to the connection.
    Sent,
    /// The connection refused the payload.
    SendFailed,
}

/// What the session wants done next.
#[derive(Clone, Copy, Debug, PartialEq, Eq)]
pub enum Action {
    /// Wait for the next tick.
    AwaitTick,
    /// Refresh the category at the provider and read it back, as one unit
    /// that no other session can interleave.
    Read(Category),
    /// Push the session's outgoing payload to the observer.
    Push,
    /// Log the failure and end the loop.
    Terminate,
}

/// The refreshes that a handle on the host's counters offers.
#[derive(Clone, Copy, Debug, PartialEq, Eq)]
pub enum Refresh {
    Cpu,
    Memory,
    Disks,
}

impl Category {
    /// The refresh that a reading of the category follows: main memory and
    /// swap space are refreshed together.
    pub open spec fn refreshed_by(&self) -> Refresh {
        match self {
            Category::Cpu => Refresh::Cpu,
            Category::Ram => Refresh::Memory,
            Category::Swap => Refresh::Memory,
            Category::Disk => Refresh::Disks,
        }
    }

    /// The refresh to make before the category is read.
    pub fn refresh(&self) -> (kind: Refresh)
        ensures
            kind == self.refreshed_by(),
    {
        match self {
            Category::Cpu => Refresh::Cpu,
            Category::Ram => Refresh::Memory,
            Category::Swap => Refresh::Memory,
            Category::Disk => Refresh::Disks,
        }
    }
}

/// Answers `Action::Read` once the handle has been refreshed: reads
/// `category` from the handle and gives the event that reports the reading
/// to the session. The reading is what the handle holds. It is refused
/// where the handle's counters contradict each other; the cores are always
/// read.
pub fn read(sys: &sysinfo::System, category: Category) -> (outcome: Result<Event, Inconsistent>)
    ensures
        category == Category::Cpu ==> (outcome matches Ok(Event::Cpu(reading)) && reading@
            == cpu_snapshot(*sys)),
        category == Category::Ram ==> outcome == (match ram_snapshot(*sys) {
            Ok(reading) => Ok::<Event, Inconsistent>(Event::Ram(reading)),
            Err(fault) => Err(fault),
        }),
        category == Category::Swap ==> outcome == (match swap_snapshot(*sys) {
            Ok(reading) => Ok::<Event, Inconsistent>(Event::Swap(reading)),
            Err(fault) => Err(fault),
        }),
        category == Category::Disk ==> outcome == (match disk_snapshot_reading(*sys) {
            Ok(reading) => Ok::<Event, Inconsistent>(Event::Disk(reading)),
            Err(fault) => Err(fault),
        }),
        outcome matches Ok(event) ==> answers(category, event),
{
    match category {
        Category::Cpu => Ok(Event::Cpu(cpu_data(sys))),
        Category::Ram => match ram_data(sys) {
            Ok(reading) => Ok(Event::Ram(reading)),
            Err(fault) => Err(fault),
        },
        Category::Swap => match swap_data(sys) {
            Ok(reading) => Ok(Event::Swap(reading)),
            Err(fault) => Err(fault),
        },
        Category::Disk => match disk_data(sys) {
            Ok(reading) => Ok(Event::Disk(reading)),
            Err(fault) => Err(fault),
        },
    }
}

/// Whether `event` reports a reading of `category`.
pub open spec fn answers(category: Category, event: Event) -> bool {
    match (category, event) {
        (Category::Cpu, Event::Cpu(_)) => true,
        (Category::Ram, Event::Ram(_)) => true,
        (Category::Swap, Event::Swap(_)) => true,
        (Category::Disk, Event::Disk(_)) => true,
        _ => false,
    }
}

/// The state of one observer's session. Every state but `Closed` is active.
#[derive(Clone, Debug, PartialEq, Eq)]
pub enum Session {
    AwaitingTick,
    AwaitingCpu,
    AwaitingRam { cpu: CpuReading },
    AwaitingSwap { cpu: CpuReading, ram: MemoryReading },
    AwaitingDisk { cpu: CpuReading, ram: MemoryReading, swap: MemoryReading },
    Pushing { payload: Payload },
    Closed,
}

impl Session {
    /// Whether the session has not been closed.
    pub open spec fn active(&self) -> bool {
        !(self is Closed)
    }

    /// Whether `event` is the one that the session waits for.
    pub open spec fn expects(&self, event: Event) -> bool {
        match (*self, event) {
            (Session::AwaitingTick, Event::Tick) => true,
            (Session::AwaitingCpu, Event::Cpu(_)) => true,
            (Session::AwaitingRam { .. }, Event::Ram(_)) => true,
            (Session::AwaitingSwap { .. }, Event::Swap(_)) => true,
            (Session::AwaitingDisk { .. }, Event::Disk(_)) => true,
            (Session::Pushing { .. }, Event::Sent) => true,
            (Session::Pushing { .. }, Event::SendFailed) => true,
            _ => false,
        }
    }

    /// The state after `event`. An event that the session does not wait for
    /// leaves it as it is.
    pub open spec fn after(self, event: Event) -> Session {
        match (self, event) {
            (Session::AwaitingTick, Event::Tick) => Session::AwaitingCpu,
            (Session::AwaitingCpu, Event::Cpu(cpu)) => Session::AwaitingRam { cpu },
            (Session::AwaitingRam { cpu }, Event::Ram(ram)) => Session::AwaitingSwap { cpu, ram },
            (Session::AwaitingSwap { cpu, ram }, Event::Swap(swap)) => Session::AwaitingDisk {
                cpu,
                ram,
                swap,
            },
            (Session::AwaitingDisk { cpu, ram, swap }, Event::Disk(disk)) => Session::Pushing {
                payload: payload_of(cpu, ram, swap, disk),
            },
            (Session::Pushing { .. }, Event::Sent) => Session::AwaitingTick,
            (Session::Pushing { .. }, Event::SendFailed) => Session::Closed,
            (state, _) => state,
        }
    }

    /// What a session in this state wants done.
    pub open spec fn wanted(&self) -> Action {
        match self {
            Session::AwaitingTick => Action::AwaitTick,
            Session::AwaitingCpu => Action::Read(Category::Cpu),
            Session::AwaitingRam { .. } => Action::Read(Category::Ram),
            Session::AwaitingSwap { .. } => Action::Read(Category::Swap),
            Session::AwaitingDisk { .. } => Action::Read(Category::Disk),
            Session::Pushing { .. } => Action::Push,
            Session::Closed => Action::Terminate,
        }
    }

    /// The payload that waits to be pushed, if the session is pushing.
    pub open spec fn outgoing(&self) -> Option<Payload> {
        match self {
            Session::Pushing { payload } => Some(*payload),
            _ => None,
        }
    }

    /// The session of a connection that has just been established: active,
    /// and waiting for its first tick.
    pub fn new() -> (session: Session)
        ensures
            session == Session::AwaitingTick,
    {
        Session::AwaitingTick
    }

    pub fn is_active(&self) -> (yes: bool)
        ensures
            yes == self.active(),
    {
        match self {
            Session::Closed => false,
            _ => true,
        }
    }

    /// Takes one event and gives the state that follows.
    pub fn step(self, event: Event) -> (next: Session)
        ensures
            next == self.after(event),
    {
        match self {
            Session::AwaitingTick => match event {
                Event::Tick => Session::AwaitingCpu,
                _ => Session::AwaitingTick,
            },
            Session::AwaitingCpu => match event {
                Event::Cpu(cpu) => Session::AwaitingRam { cpu },
                _ => Session::AwaitingCpu,
            },
            Session::AwaitingRam { cpu } => match event {
                Event::Ram(ram) => Session::AwaitingSwap { cpu, ram },
                _ => Session::AwaitingRam { cpu },
            },
            Session::AwaitingSwap { cpu, ram } => match event {
                Event::Swap(swap) => Session::AwaitingDisk { cpu, ram, swap },
                _ => Session::AwaitingSwap { cpu, ram },
            },
            Session::AwaitingDisk { cpu, ram, swap } => match event {
                Event::Disk(disk) => Session::Pushing { payload: encode(cpu, ram, swap, disk) },
                _ => Session::AwaitingDisk { cpu, ram, swap },
            },
            Session::Pushing { payload } => match event {
                Event::Sent => Session::AwaitingTick,
                Event::SendFailed => Session::Closed,
                _ => Session::Pushing { payload },
            },
            Session::Closed => Session::Closed,
        }
    }

    /// What the driver is to do in this state.
    pub fn pending(&self) -> (action: Action)
        ensures
            action == self.wanted(),
    {
        match self {
            Session::AwaitingTick => Action::AwaitTick,
            Session::AwaitingCpu => Action::Read(Category::Cpu),
            Session::AwaitingRam { .. } => Action::Read(Category::Ram),
            Session::AwaitingSwap { .. } => Action::Read(Category::Swap),
            Session::AwaitingDisk { .. } => Action::Read(Category::Disk),
            Session::Pushing { .. } => Action::Push,
            Session::Closed => Action::Terminate,
        }
    }

    /// The payload to push, where the session is pushing.
    pub fn payload(&self) -> (out: Option<&Payload>)
        ensures
            self.outgoing() is Some <==> out is Some,
            out matches Some(p) ==> Some(*p) == self.outgoing(),
    {
        match self {
            Session::Pushing { payload } => Some(payload),
            _ => None,
        }
    }
}

impl Session {
    /// The state after a sequence of events, taken one after the other.
    pub open spec fn run(self, events: Seq<Event>) -> Session
        decreases events.len(),
    {
        if events.len() == 0 {
            self
        } else {
            self.after(events.first()).run(events.drop_first())
        }
    }

    /// How many ticks the session takes up during a sequence of events.
    pub open spec fn ticks_taken(self, events: Seq<Event>) -> nat
        decreases events.len(),
    {
        if events.len() == 0 {
            0
        } else {
            let here: nat = if self is AwaitingTick && events.first() is Tick {
                1
            } else {
                0
            };
            here + self.after(events.first()).ticks_taken(events.drop_first())
        }
    }

    /// How many payloads reach the observer during a sequence of events.
    pub open spec fn delivered(self, events: Seq<Event>) -> nat
        decreases events.len(),
    {
        if events.len() == 0 {
            0
        } else {
            let here: nat = if self is Pushing && events.first() is Sent {
                1
            } else {
                0
            };
            here + self.after(events.first()).delivered(events.drop_first())
        }
    }

    /// 1 for a session that is not waiting for a tick: it has taken up a
    /// tick whose payload has not reached the observer. 0 for one that
    /// waits for a tick.
    pub open spec fn unsettled(&self) -> nat {
        if self is AwaitingTick {
            0
        } else {
            1
        }
    }
}

/// One payload for each tick. Over any sequence of events, the ticks that a
/// session takes up are the payloads that reach its observer, but for the
/// one tick that is unsettled at the start or at the end.
pub proof fn lemma_one_payload_per_tick(start: Session, events: Seq<Event>)
    ensures
        start.ticks_taken(events) + start.unsettled() == start.delivered(events) + start.run(
            events,
        ).unsettled(),
    decreases events.len(),
{
    if events.len() > 0 {
        lemma_one_payload_per_tick(start.after(events.first()), events.drop_first());
    }
}

/// A new session has received one payload for every tick it has taken up,
/// except for the last tick while that one is not settled; it never
/// receives a payload without a tick.
pub proof fn lemma_new_session_counts(events: Seq<Event>)
    ensures
        Session::AwaitingTick.delivered(events) <= Session::AwaitingTick.ticks_taken(events),
        Session::AwaitingTick.ticks_taken(events) <= Session::AwaitingTick.delivered(events) + 1,
        Session::AwaitingTick.run(events) is AwaitingTick ==> Session::AwaitingTick.ticks_taken(
            events,
        ) == Session::AwaitingTick.delivered(events),
{
    lemma_one_payload_per_tick(Session::AwaitingTick, events);
}

/// One tick, step by step. A session that waits for a tick asks, after the
/// tick, for the cores, then for main memory, then for swap, then for the
/// disk, and then wants the payload of exactly these four readings pushed.
/// After the push it waits for the next tick.
pub proof fn lemma_tick_cycle(
    cpu: CpuReading,
    ram: MemoryReading,
    swap: MemoryReading,
    disk: Option<DiskReading>,
)
    ensures
        ({
            let s0 = Session::AwaitingTick;
            let s1 = s0.after(Event::Tick);
            let s2 = s1.after(Event::Cpu(cpu));
            let s3 = s2.after(Event::Ram(ram));
            let s4 = s3.after(Event::Swap(swap));
            let s5 = s4.after(Event::Disk(disk));
            &&& s0.wanted() == Action::AwaitTick
            &&& s1.wanted() == Action::Read(Category::Cpu)
            &&& s2.wanted() == Action::Read(Category::Ram)
            &&& s3.wanted() == Action::Read(Category::Swap)
            &&& s4.wanted() == Action::Read(Category::Disk)
            &&& s5.wanted() == Action::Push
            &&& s5.outgoing() == Some(payload_of(cpu, ram, swap, disk))
            &&& s5.after(Event::Sent) == Session::AwaitingTick
            &&& s5.after(Event::SendFailed) == Session::Closed
        }),
{
}

/// The event that answers a session's request for a reading is the one the
/// session waits for: it is taken, and the session asks for the next
/// category or, after the disk, wants the payload pushed.
pub proof fn lemma_answer_is_taken(state: Session, category: Category, event: Event)
    requires
        state.wanted() == Action::Read(category),
        answers(category, event),
    ensures
        state.expects(event),
        state.after(event) != state,
        category == Category::Cpu ==> state.after(event).wanted() == Action::Read(Category::Ram),
        category == Category::Ram ==> state.after(event).wanted() == Action::Read(Category::Swap),
        category == Category::Swap ==> state.after(event).wanted() == Action::Read(Category::Disk),
        category == Category::Disk ==> state.after(event).wanted() == Action::Push,
{
}

/// A session closes on a failed push and on nothing else, and a closed
/// session stays closed and wants nothing but to end.
pub proof fn lemma_only_failure_closes(state: Session, event: Event)
    ensures
        state.after(event) is Closed <==> state is Closed || (state is Pushing
            && event is SendFailed),
        state is Closed ==> state.wanted() == Action::Terminate,
        state.active() ==> state.wanted() != Action::Terminate,
        !state.expects(event) ==> state.after(event) == state,
{
}

/// A closed session stays closed whatever is reported to it.
pub proof fn lemma_closed_is_final(events: Seq<Event>)
    ensures
        Session::Closed.run(events) == Session::Closed,
    decreases events.len(),
{
    if events.len() > 0 {
        lemma_closed_is_final(events.drop_first());
    }
}

/// The sessions of a process after `event` is reported to the one at
/// `who`: that one takes the event, the others are not asked.
pub open spec fn deliver(sessions: Seq<Session>, who: int, event: Event) -> Seq<Session> {
    sessions.update(who, sessions[who].after(event))
}

/// Sessions do not touch each other. When the push of one session fails,
/// that session closes; every other session is what it was, and answers
/// every later event as it would have done.
pub proof fn lemma_failure_is_local(sessions: Seq<Session>, who: int, other: int, event: Event)
    requires
        0 <= who < sessions.len(),
        0 <= other < sessions.len(),
        who != other,
    ensures
        deliver(sessions, who, event).len() == sessions.len(),
        deliver(sessions, who, event)[other] == sessions[other],
        sessions[who] is Pushing && event is SendFailed ==> deliver(sessions, who, event)[who]
            is Closed,
        forall|later: Event|
            #![trigger sessions[other].after(later)]
            deliver(sessions, who, event)[other].after(later) == sessions[other].after(later),
{
}

} // verus!
