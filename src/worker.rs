use crate::codec::{get_frame, get_frame_spec, set_frame, set_frame_spec};
use crate::command::Command;
use crate::control::SubmittedCommand;
use crate::error::CommandResult;
use crate::exchange::{advanced, fits, Exchange, PortAction, PortEvent, Progress, Stage};
use crate::pacing::{pacing_delay_ms, pacing_spec};
use futures::channel::oneshot::Sender;
use std::time::Duration;
use vstd::prelude::*;

verus! {

/// What the worker's driver is to do next.
#[derive(Debug)]
pub enum WorkerAction {
    /// Wait for the next submitted command.
    Receive,
    /// Perform this operation on the port.
    Port(PortAction),
    /// Block for the duration a `Sleep` command asked for.
    Sleep(Duration),
    /// Send `result` into the reply slot `slot` of the current command; a
    /// slot whose receiver is gone is no obstacle.
    Reply { slot: Sender<CommandResult>, result: CommandResult },
    /// Wait this many milliseconds before taking the next command.
    Pause(u64),
    /// Leave the loop, releasing the port.
    Exit,
}

/// What became of the action the worker asked for last.
#[derive(Debug)]
pub enum WorkerEvent {
    /// The next submitted command, or `None` when no producer is left.
    Dequeued(Option<SubmittedCommand>),
    /// The outcome of a port operation.
    Port(PortEvent),
    /// The requested sleep is over.
    Slept,
    /// The answer was handed to the reply slot.
    Replied,
    /// The pause after a command is over.
    Paused,
}

/// Where the worker stands.
#[derive(Debug, Clone, Copy, PartialEq, Eq, Structural)]
pub enum Phase {
    /// Waiting for a command.
    Idle,
    /// Running a device exchange for the current command.
    Exchanging,
    /// Running a `Sleep` command.
    Sleeping,
    /// Handing the current command's answer to its reply slot.
    Replying,
    /// Pausing after a command was answered.
    Pausing,
    /// Done: nothing more reaches the port.
    Stopped,
}

/// The decisions of the single worker that owns the serial port.
///
/// It takes one command at a time: runs its exchange or sleep, answers it,
/// pauses as the pacing policy asks, and only then takes the next. Its driver
/// performs each [`WorkerAction`] and reports back a [`WorkerEvent`].
pub struct Worker {
    phase: Phase,
    exchange: Option<Exchange>,
    slot: Option<Sender<CommandResult>>,
    pause_ms: u64,
    stopping: bool,
    taken: Ghost<Seq<Command>>,
    answered: Ghost<Seq<(Command, CommandResult)>>,
}

impl Worker {
    /// Where the worker stands.
    pub closed spec fn phase(&self) -> Phase {
        self.phase
    }

    /// The exchange in flight, while the worker is exchanging.
    pub closed spec fn exchange(&self) -> Exchange {
        self.exchange->Some_0
    }

    /// The reply slot of the command in flight, while it is unanswered.
    pub closed spec fn slot(&self) -> Sender<CommandResult> {
        self.slot->Some_0
    }

    /// The pause owed after the current command.
    pub closed spec fn pause(&self) -> u64 {
        self.pause_ms
    }

    /// Every command taken from the queue, in the order taken.
    pub closed spec fn taken(&self) -> Seq<Command> {
        self.taken@
    }

    /// Every answer given, with the command it answered, in the order given.
    pub closed spec fn answered(&self) -> Seq<(Command, CommandResult)> {
        self.answered@
    }

    /// The worker's invariant.
    pub closed spec fn wf(&self) -> bool {
        let busy = self.phase == Phase::Exchanging || self.phase == Phase::Sleeping;
        &&& self.answered@.len() <= self.taken@.len()
        &&& forall|i: int| 0 <= i < self.answered@.len() ==> #[trigger] self.answered@[i].0 == self.taken@[i]
        &&& busy <==> self.taken@.len() == self.answered@.len() + 1
        &&& !busy ==> self.taken@.len() == self.answered@.len()
        &&& (self.phase == Phase::Exchanging) <==> self.exchange is Some
        &&& busy <==> self.slot is Some
        &&& self.phase == Phase::Exchanging ==> {
            &&& self.exchange->Some_0.stage() != Stage::Done
            &&& match self.taken@.last() {
                Command::Get(key) => self.exchange->Some_0.frame() == get_frame_spec(key@),
                Command::Put((key, value)) => self.exchange->Some_0.frame() == set_frame_spec(
                    key@,
                    value@,
                ),
                _ => false,
            }
        }
        &&& self.phase == Phase::Sleeping ==> self.taken@.last() is Sleep
        &&& (busy || self.phase == Phase::Replying || self.phase == Phase::Pausing)
            ==> self.taken@.len() > 0 && self.pause_ms == pacing_spec(self.taken@.last())
        &&& self.phase == Phase::Replying ==> (self.stopping <==> self.taken@.last() is Stop)
        &&& (busy || self.phase == Phase::Pausing) ==> !(self.taken@.last() is Stop)
            && !self.stopping
    }

    /// Whether `event` reports on the action this worker asked for last.
    /// A stopped worker takes any event and keeps exiting.
    pub open spec fn expects(&self, event: WorkerEvent) -> bool {
        match self.phase() {
            Phase::Idle => event is Dequeued,
            Phase::Exchanging => event matches WorkerEvent::Port(e) && fits(self.exchange().stage(), e),
            Phase::Sleeping => event is Slept,
            Phase::Replying => event is Replied,
            Phase::Pausing => event is Paused,
            Phase::Stopped => true,
        }
    }

    /// A worker that has taken nothing yet; its first action is to receive.
    pub fn new() -> (r: (Worker, WorkerAction))
        ensures
            r.0.wf(),
            r.0.phase() == Phase::Idle,
            r.0.taken() == Seq::<Command>::empty(),
            r.0.answered() == Seq::<(Command, CommandResult)>::empty(),
            r.1 is Receive,
    {
        let w = Worker {
            phase: Phase::Idle,
            exchange: None,
            slot: None,
            pause_ms: 0,
            stopping: false,
            taken: Ghost(Seq::empty()),
            answered: Ghost(Seq::empty()),
        };
        (w, WorkerAction::Receive)
    }

    /// Whether `event` reports on the action this worker asked for last.
    pub fn accepts(&self, event: &WorkerEvent) -> (r: bool)
        requires
            self.wf(),
        ensures
            r == self.expects(*event),
    {
        match self.phase {
            Phase::Idle => matches!(event, WorkerEvent::Dequeued(_)),
            Phase::Exchanging => match event {
                WorkerEvent::Port(e) => match &self.exchange {
                    Some(x) => x.accepts(e),
                    None => false,
                },
                _ => false,
            },
            Phase::Sleeping => matches!(event, WorkerEvent::Slept),
            Phase::Replying => matches!(event, WorkerEvent::Replied),
            Phase::Pausing => matches!(event, WorkerEvent::Paused),
            Phase::Stopped => true,
        }
    }

    /// Takes in what became of the last action and decides the next one.
    ///
    /// From idle, a dequeued `Get` or `Put` starts a device exchange with its
    /// frame, `Sleep` sleeps, and `Stop` is answered with no value, after
    /// which the worker ends; a closed queue ends it too. When an exchange or
    /// sleep is over, its outcome goes to the command's own reply slot, then
    /// the pacing pause follows, after which the worker receives again.
    pub fn step(&mut self, event: WorkerEvent) -> (r: WorkerAction)
        requires
            old(self).wf(),
            old(self).expects(event),
        ensures
            final(self).wf(),
            // what was taken and answered is only ever extended
            final(self).taken().len() <= old(self).taken().len() + 1,
            final(self).taken().subrange(0, old(self).taken().len() as int) == old(self).taken(),
            final(self).answered().len() <= old(self).answered().len() + 1,
            final(self).answered().subrange(0, old(self).answered().len() as int)
                == old(self).answered(),
            // one command at a time, one exchange at a time
            final(self).taken().len() > old(self).taken().len() ==> old(self).phase() == Phase::Idle,
            r is Receive ==> final(self).phase() == Phase::Idle,
            r is Port ==> final(self).phase() == Phase::Exchanging,
            r is Reply ==> final(self).phase() == Phase::Replying && final(self).answered().len()
                == final(self).taken().len(),
            // once stopped, the port is never used again
            r is Exit <==> final(self).phase() == Phase::Stopped,
            old(self).phase() == Phase::Stopped ==> r is Exit && final(self).taken() == old(
                self,
            ).taken(),
            old(self).phase() == Phase::Idle ==> match event {
                WorkerEvent::Dequeued(None) => r is Exit && final(self).taken() == old(self).taken(),
                WorkerEvent::Dequeued(Some(sc)) => {
                    &&& final(self).taken() == old(self).taken().push(sc.command)
                    &&& final(self).pause() == pacing_spec(sc.command)
                    &&& !(sc.command is Stop) ==> final(self).slot() == sc.slot
                    &&& match sc.command {
                        Command::Get(key) => {
                            &&& r matches WorkerAction::Port(PortAction::ClearInput)
                            &&& final(self).exchange().frame() == get_frame_spec(key@)
                            &&& final(self).exchange().stage() == Stage::Clearing
                            &&& final(self).exchange().received() == Seq::<u8>::empty()
                            &&& final(self).answered() == old(self).answered()
                        },
                        Command::Put((key, value)) => {
                            &&& r matches WorkerAction::Port(PortAction::ClearInput)
                            &&& final(self).exchange().frame() == set_frame_spec(key@, value@)
                            &&& final(self).exchange().stage() == Stage::Clearing
                            &&& final(self).exchange().received() == Seq::<u8>::empty()
                            &&& final(self).answered() == old(self).answered()
                        },
                        Command::Sleep(d) => {
                            &&& r == WorkerAction::Sleep(d)
                            &&& final(self).phase() == Phase::Sleeping
                            &&& final(self).answered() == old(self).answered()
                        },
                        Command::Stop => {
                            &&& r == (WorkerAction::Reply { slot: sc.slot, result: Ok(None) })
                            &&& final(self).answered() == old(self).answered().push(
                                (Command::Stop, Ok(None)),
                            )
                        },
                    }
                },
                _ => false,
            },
            old(self).phase() == Phase::Exchanging ==> final(self).taken() == old(self).taken()
                && final(self).pause() == old(self).pause(),
            old(self).phase() == Phase::Exchanging ==> (event matches WorkerEvent::Port(e) && match r {
                WorkerAction::Port(a) => {
                    &&& advanced(old(self).exchange(), e, final(self).exchange(), Progress::Next(a))
                    &&& final(self).answered() == old(self).answered()
                },
                WorkerAction::Reply { slot, result } => {
                    &&& slot == old(self).slot()
                    &&& final(self).phase() == Phase::Replying
                    &&& final(self).answered() == old(self).answered().push(
                        (old(self).taken().last(), result),
                    )
                    &&& exists|post: Exchange|
                        advanced(old(self).exchange(), e, post, Progress::Finished(result))
                },
                _ => false,
            }),
            old(self).phase() == Phase::Sleeping ==> {
                &&& r == (WorkerAction::Reply { slot: old(self).slot(), result: Ok(None) })
                &&& old(self).taken().last() is Sleep
                &&& final(self).taken() == old(self).taken()
                &&& final(self).pause() == old(self).pause()
                &&& final(self).answered() == old(self).answered().push(
                    (old(self).taken().last(), Ok(None)),
                )
            },
            old(self).phase() == Phase::Replying ==> {
                &&& final(self).taken() == old(self).taken()
                &&& final(self).answered() == old(self).answered()
                &&& if old(self).taken().last() is Stop {
                    r is Exit
                } else {
                    &&& r == WorkerAction::Pause(pacing_spec(old(self).taken().last()))
                    &&& final(self).phase() == Phase::Pausing
                }
            },
            old(self).phase() == Phase::Pausing ==> r is Receive && final(self).taken() == old(
                self,
            ).taken() && final(self).answered() == old(self).answered(),
    {
        match event {
            WorkerEvent::Dequeued(next) => {
                if self.phase != Phase::Idle {
                    self.phase = Phase::Stopped;
                    return WorkerAction::Exit;
                }
                match next {
                    None => {
                        self.phase = Phase::Stopped;
                        WorkerAction::Exit
                    },
                    Some(sc) => self.take(sc),
                }
            },
            WorkerEvent::Port(e) => {
                if self.phase != Phase::Exchanging {
                    self.phase = Phase::Stopped;
                    return WorkerAction::Exit;
                }
                let mut x = self.exchange.take().unwrap();
                let ghost before = x;
                match x.advance(e) {
                    Progress::Next(a) => {
                        self.exchange = Some(x);
                        WorkerAction::Port(a)
                    },
                    Progress::Finished(result) => {
                        assert(advanced(before, e, x, Progress::Finished(result)));
                        self.phase = Phase::Replying;
                        self.answer(result)
                    },
                }
            },
            WorkerEvent::Slept => {
                if self.phase != Phase::Sleeping {
                    self.phase = Phase::Stopped;
                    return WorkerAction::Exit;
                }
                self.phase = Phase::Replying;
                self.answer(Ok(None))
            },
            WorkerEvent::Replied => {
                if self.phase != Phase::Replying || self.stopping {
                    self.phase = Phase::Stopped;
                    return WorkerAction::Exit;
                }
                self.phase = Phase::Pausing;
                WorkerAction::Pause(self.pause_ms)
            },
            WorkerEvent::Paused => {
                if self.phase != Phase::Pausing {
                    self.phase = Phase::Stopped;
                    return WorkerAction::Exit;
                }
                self.phase = Phase::Idle;
                WorkerAction::Receive
            },
        }
    }

    /// Records `result` as the current command's answer and hands it, with
    /// the command's reply slot, to the driver.
    fn answer(&mut self, result: CommandResult) -> (r: WorkerAction)
        requires
            old(self).slot is Some,
            old(self).answered@.len() + 1 == old(self).taken@.len(),
        ensures
            r == (WorkerAction::Reply { slot: old(self).slot->Some_0, result }),
            final(self).slot is None,
            final(self).stopping == old(self).stopping,
            final(self).answered@ == old(self).answered@.push((old(self).taken@.last(), result)),
            final(self).taken@ == old(self).taken@,
            final(self).phase == old(self).phase,
            final(self).exchange == old(self).exchange,
            final(self).pause_ms == old(self).pause_ms,
    {
        self.answered = Ghost(self.answered@.push((self.taken@.last(), result)));
        let slot = self.slot.take().unwrap();
        WorkerAction::Reply { slot, result }
    }

    /// Starts on the command just taken from the queue.
    fn take(&mut self, sc: SubmittedCommand) -> (r: WorkerAction)
        requires
            old(self).wf(),
            old(self).phase == Phase::Idle,
        ensures
            final(self).wf(),
            final(self).taken@ == old(self).taken@.push(sc.command),
            final(self).pause_ms == pacing_spec(sc.command),
            r is Exit <==> final(self).phase == Phase::Stopped,
            r is Port ==> final(self).phase == Phase::Exchanging,
            !(r is Receive),
            r is Reply ==> final(self).phase == Phase::Replying,
            !(sc.command is Stop) ==> final(self).slot == Some(sc.slot),
            match sc.command {
                Command::Get(key) => {
                    &&& r matches WorkerAction::Port(PortAction::ClearInput)
                    &&& final(self).exchange->Some_0.frame() == get_frame_spec(key@)
                    &&& final(self).exchange->Some_0.stage() == Stage::Clearing
                    &&& final(self).exchange->Some_0.received() == Seq::<u8>::empty()
                    &&& final(self).answered@ == old(self).answered@
                },
                Command::Put((key, value)) => {
                    &&& r matches WorkerAction::Port(PortAction::ClearInput)
                    &&& final(self).exchange->Some_0.frame() == set_frame_spec(key@, value@)
                    &&& final(self).exchange->Some_0.stage() == Stage::Clearing
                    &&& final(self).exchange->Some_0.received() == Seq::<u8>::empty()
                    &&& final(self).answered@ == old(self).answered@
                },
                Command::Sleep(d) => {
                    &&& r == WorkerAction::Sleep(d)
                    &&& final(self).phase == Phase::Sleeping
                    &&& final(self).answered@ == old(self).answered@
                },
                Command::Stop => {
                    &&& r == (WorkerAction::Reply { slot: sc.slot, result: Ok(None) })
                    &&& final(self).answered@ == old(self).answered@.push((Command::Stop, Ok(None)))
                },
            },
    {
        let SubmittedCommand { command, slot } = sc;
        self.taken = Ghost(self.taken@.push(command));
        self.pause_ms = pacing_delay_ms(&command);
        self.stopping = matches!(command, Command::Stop);
        self.slot = Some(slot);
        match command {
            Command::Get(key) => {
                let (x, first) = Exchange::new(get_frame(key.as_str()));
                self.exchange = Some(x);
                self.phase = Phase::Exchanging;
                WorkerAction::Port(first)
            },
            Command::Put((key, value)) => {
                let (x, first) = Exchange::new(set_frame(key.as_str(), value.as_str()));
                self.exchange = Some(x);
                self.phase = Phase::Exchanging;
                WorkerAction::Port(first)
            },
            Command::Sleep(d) => {
                self.phase = Phase::Sleeping;
                WorkerAction::Sleep(d)
            },
            Command::Stop => {
                self.phase = Phase::Replying;
                self.answer(Ok(None))
            },
        }
    }
}

/// Answers follow the order in which commands were taken, one per command: the
/// i-th answer is for the i-th command taken, and only the command in flight
/// may still be unanswered.
pub proof fn answers_follow_queue_order(w: Worker)
    requires
        w.wf(),
    ensures
        w.answered().len() <= w.taken().len() <= w.answered().len() + 1,
        forall|i: int| 0 <= i < w.answered().len() ==> #[trigger] w.answered()[i].0 == w.taken()[i],
        w.taken().len() == w.answered().len() + 1 <==> (w.phase() == Phase::Exchanging
            || w.phase() == Phase::Sleeping),
{
}

/// At most one device exchange is in flight: it belongs to the last command
/// taken, every earlier command has been answered, and its frame is that
/// command's frame.
pub proof fn one_exchange_at_a_time(w: Worker)
    requires
        w.wf(),
        w.phase() == Phase::Exchanging,
    ensures
        w.taken().len() == w.answered().len() + 1,
        w.exchange().stage() != Stage::Done,
        match w.taken().last() {
            Command::Get(key) => w.exchange().frame() == get_frame_spec(key@),
            Command::Put((key, value)) => w.exchange().frame() == set_frame_spec(key@, value@),
            _ => false,
        },
{
}

/// An idle worker, the only one that takes a new command, has answered and
/// handed out the answer of every command it took; it takes no port event,
/// only the next command.
pub proof fn idle_means_all_answered(w: Worker)
    requires
        w.wf(),
        w.phase() == Phase::Idle,
    ensures
        w.taken().len() == w.answered().len(),
        forall|e: WorkerEvent| #[trigger] w.expects(e) ==> e is Dequeued,
{
}

/// A stopped worker has answered every command it took and takes any event;
/// on each, `step` exits without taking or answering anything.
pub proof fn stopped_stays_stopped(w: Worker)
    requires
        w.wf(),
        w.phase() == Phase::Stopped,
    ensures
        w.taken().len() == w.answered().len(),
        forall|e: WorkerEvent| #[trigger] w.expects(e),
{
}

} // verus!
