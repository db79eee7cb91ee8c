//! Setting the system up from its configuration, one step at a time. Each
//! step names the port or receive queue to make next, or says that setup is
//! over; the caller makes it and reports how that went with the next step.
//! A repeated port name is refused before the port is made, and after the
//! first error nothing more is made.
use vstd::prelude::*;
use crate::context::{names_contain, PortError, SystemInit};

verus! {

/// A port of the configuration: its name, and the core of each of its
/// receive queues.
pub struct PortSpec {
    pub name: String,
    pub rx_queues: Vec<i32>,
}

/// The configuration the system is set up from.
pub struct SystemConfig {
    pub cores: Vec<i32>,
    pub strict: bool,
    pub ports: Vec<PortSpec>,
}

/// What the caller is to do next.
#[derive(Debug, Clone, Copy, PartialEq, Eq, Structural)]
pub enum SetupStep {
    /// Make the port at this position of the configuration.
    MakePort(usize),
    /// Make receive queue `.1` of the port at position `.0`.
    MakeQueue(usize, usize),
    /// Setup is over; its outcome is in `SystemSetup::result`.
    Finished,
}

/// How the caller's last piece of work went.
pub enum SetupEvent {
    /// Nothing was asked yet: setup begins.
    Start,
    /// The port or queue asked for was made.
    Made,
    /// The port or queue asked for could not be made, for this reason.
    Failed(String),
}

/// Where setup stands.
#[derive(Debug, Clone, Copy, PartialEq, Eq, Structural)]
pub enum SetupPhase {
    /// Setup has not begun.
    Idle,
    /// The port at `port` was asked for.
    PortPending,
    /// Receive queue `queue` of the port at `port` was asked for.
    QueuePending,
    /// Setup is over.
    Done,
}

/// The cores of the receive queues of the first `n` ports, in order.
pub open spec fn queue_cores_of(ports: Seq<PortSpec>, n: nat) -> Seq<i32>
    decreases n,
{
    if n == 0 {
        Seq::empty()
    } else {
        queue_cores_of(ports, (n - 1) as nat) + ports[n - 1].rx_queues@
    }
}

/// The state of setup: the ports of the configuration, what was made so
/// far, and where setup stands. The port at `port` is made when `port_made`
/// holds, and then its first `queue` receive queues are made too.
pub struct SystemSetup {
    pub ports: Vec<PortSpec>,
    pub init: SystemInit,
    pub port: usize,
    pub queue: usize,
    pub port_made: bool,
    pub phase: SetupPhase,
    pub result: Option<Result<Vec<i32>, PortError>>,
}

impl SystemSetup {
    /// How many ports are made.
    pub open spec fn made_ports(&self) -> int {
        self.port + if self.port_made {
            1int
        } else {
            0int
        }
    }

    /// The state is consistent: the ports made are the first ones of the
    /// configuration, each name once, and the queues made are those of the
    /// ports made, in order, up to `queue` of the last one.
    pub open spec fn inv(&self) -> bool {
        &&& self.port <= self.ports@.len()
        &&& self.port_made ==> self.port < self.ports@.len() && self.queue
            <= self.ports@[self.port as int].rx_queues@.len()
        &&& !self.port_made ==> self.queue == 0
        &&& self.init.port_names@.len() == self.made_ports()
        &&& forall|i: int|
            0 <= i < self.made_ports() ==> #[trigger] self.init.port_names@[i]@
                == self.ports@[i].name@
        &&& forall|i: int, j: int|
            0 <= i < j < self.made_ports() ==> self.init.port_names@[i]@
                != self.init.port_names@[j]@
        &&& self.init.queue_cores@ == queue_cores_of(self.ports@, self.port as nat) + if self.port_made {
            self.ports@[self.port as int].rx_queues@.take(self.queue as int)
        } else {
            Seq::empty()
        }
        &&& self.phase == SetupPhase::Idle ==> self.port == 0 && !self.port_made
        &&& self.phase == SetupPhase::PortPending ==> !self.port_made && self.port
            < self.ports@.len() && !names_contain(
            self.init.port_names@,
            self.ports@[self.port as int].name@,
        )
        &&& self.phase == SetupPhase::QueuePending ==> self.port_made && self.queue
            < self.ports@[self.port as int].rx_queues@.len()
        &&& (self.phase == SetupPhase::Done) == (self.result is Some)
    }

    /// Where the work stands once the step's event is taken in and the
    /// ports whose queues are all made are passed: the position of the
    /// port, whether it is made, and how many of its queues are made.
    pub open spec fn next_position(&self) -> (int, bool, int) {
        let made = self.phase == SetupPhase::PortPending || self.port_made;
        let queue = if self.phase == SetupPhase::QueuePending {
            self.queue + 1
        } else {
            self.queue as int
        };
        if made && queue == self.ports@[self.port as int].rx_queues@.len() {
            (self.port + 1, false, 0)
        } else {
            (self.port as int, made, queue)
        }
    }

    /// Setup of the configuration `config`, not begun.
    pub fn new(config: SystemConfig) -> (r: SystemSetup)
        ensures
            r.inv(),
            r.phase == SetupPhase::Idle,
            r.ports@ == config.ports@,
            r.init.cores@ == config.cores@,
            r.init.strict == config.strict,
    {
        let SystemConfig { cores, strict, ports } = config;
        let init = SystemInit::new(cores, strict);
        let r = SystemSetup {
            ports,
            init,
            port: 0,
            queue: 0,
            port_made: false,
            phase: SetupPhase::Idle,
            result: None,
        };
        assert(r.init.queue_cores@ =~= queue_cores_of(r.ports@, 0) + Seq::empty());
        r
    }

    /// Takes in how the last piece of work went and says what to do next.
    /// After `Finished`, every further step is `Finished` and changes
    /// nothing. A failure ends setup with the matching error. Otherwise the
    /// work moves on: the next queue of the port, or else the next port,
    /// refused with `DuplicatePort` when its name is among the ports made,
    /// or, when no port is left, the active cores or the strict refusal.
    pub fn step(&mut self, event: SetupEvent) -> (r: SetupStep)
        requires
            old(self).inv(),
            old(self).phase != SetupPhase::Done ==> ((old(self).phase == SetupPhase::Idle)
                <==> (event is Start)),
        ensures
            final(self).inv(),
            final(self).ports@ == old(self).ports@,
            final(self).init.cores@ == old(self).init.cores@,
            final(self).init.strict == old(self).init.strict,
            old(self).phase == SetupPhase::Done ==> r == SetupStep::Finished && *final(self)
                == *old(self),
            old(self).phase == SetupPhase::Idle && old(self).ports@.len() > 0 ==> r
                == SetupStep::MakePort(0),
            old(self).phase == SetupPhase::Idle && old(self).ports@.len() == 0 ==> r
                == SetupStep::Finished,
            old(self).phase == SetupPhase::PortPending && event is Made ==> final(self).init.port_names@
                == old(self).init.port_names@.push(old(self).ports@[old(self).port as int].name),
            old(self).phase == SetupPhase::PortPending && event is Made && old(self).ports@[
                old(self).port as int].rx_queues@.len() > 0 ==> r == SetupStep::MakeQueue(
                old(self).port,
                0,
            ),
            old(self).phase == SetupPhase::QueuePending && event is Made ==> final(self).init.queue_cores@
                == old(self).init.queue_cores@.push(
                old(self).ports@[old(self).port as int].rx_queues@[old(self).queue as int],
            ),
            old(self).phase == SetupPhase::QueuePending && event is Made && old(self).queue + 1
                < old(self).ports@[old(self).port as int].rx_queues@.len() ==> r
                == SetupStep::MakeQueue(old(self).port, (old(self).queue + 1) as usize),
            (old(self).phase == SetupPhase::QueuePending && event is Made && old(self).queue + 1
                == old(self).ports@[old(self).port as int].rx_queues@.len()) || (old(self).phase
                == SetupPhase::PortPending && event is Made && old(self).ports@[
                old(self).port as int].rx_queues@.len() == 0) ==> final(self).port == old(self).port
                + 1 && (r is MakePort ==> r == SetupStep::MakePort((old(self).port + 1) as usize))
                && !(r is MakeQueue),
            old(self).phase != SetupPhase::Done && event is Failed ==> {
                &&& r == SetupStep::Finished
                &&& final(self).phase == SetupPhase::Done
                &&& final(self).port == old(self).port
                &&& final(self).port_made == old(self).port_made
                &&& final(self).queue == old(self).queue
                &&& final(self).init == old(self).init
                &&& old(self).phase == SetupPhase::PortPending ==> final(self).result == Some(
                    Err::<Vec<i32>, PortError>(
                        PortError::PortInit {
                            port: old(self).ports@[old(self).port as int].name,
                            reason: event->Failed_0,
                        },
                    ),
                )
                &&& old(self).phase == SetupPhase::QueuePending ==> final(self).result == Some(
                    Err::<Vec<i32>, PortError>(
                        PortError::QueueInit {
                            queue: old(self).queue as i32,
                            port: old(self).ports@[old(self).port as int].name,
                            reason: event->Failed_0,
                        },
                    ),
                )
            },
            old(self).phase != SetupPhase::Done && !(event is Failed) ==> {
                let (p, made, q) = old(self).next_position();
                &&& final(self).port == p
                &&& final(self).port_made == made
                &&& final(self).queue == q
                &&& made ==> r == SetupStep::MakeQueue(p as usize, q as usize) && final(self).phase
                    == SetupPhase::QueuePending
                &&& !made && p < old(self).ports@.len() && !names_contain(
                    final(self).init.port_names@,
                    old(self).ports@[p].name@,
                ) ==> r == SetupStep::MakePort(p as usize) && final(self).phase
                    == SetupPhase::PortPending
                &&& !made && p < old(self).ports@.len() && names_contain(
                    final(self).init.port_names@,
                    old(self).ports@[p].name@,
                ) ==> r == SetupStep::Finished && final(self).phase == SetupPhase::Done
                    && (final(self).result matches Some(Err(PortError::DuplicatePort(n))) && n
                    == old(self).ports@[p].name)
                &&& p == old(self).ports@.len() ==> r == SetupStep::Finished && final(self).phase
                    == SetupPhase::Done && (final(self).result matches Some(res) && (res is Ok
                    <==> final(self).init.accepted()) && (res matches Ok(v) ==> v@.no_duplicates()
                    && forall|c: i32| #[trigger] v@.contains(c) <==> final(self).init.is_active(c))
                    && (res matches Err(e) ==> (e matches PortError::UnlistedCores(m) && m@.len()
                    > 0 && m@.no_duplicates() && forall|c: i32|
                    #[trigger] m@.contains(c) <==> (final(self).init.queue_cores@.contains(c)
                        && !final(self).init.cores@.contains(c)))))
            },
    {
        if self.phase == SetupPhase::Done {
            return SetupStep::Finished;
        }
        match event {
            SetupEvent::Failed(reason) => {
                let name = self.ports[self.port].name.clone();
                let err = if self.phase == SetupPhase::PortPending {
                    PortError::PortInit { port: name, reason }
                } else {
                    PortError::QueueInit { queue: self.queue as i32, port: name, reason }
                };
                self.result = Some(Err(err));
                self.phase = SetupPhase::Done;
                return SetupStep::Finished;
            },
            _ => {},
        }
        let ghost old_state = *self;
        let nports = self.ports.len();
        if self.phase == SetupPhase::PortPending {
            let name = self.ports[self.port].name.clone();
            self.init.add_port(name);
            self.port_made = true;
            assert forall|i: int, j: int|
                0 <= i < j < self.made_ports() implies self.init.port_names@[i]@
                    != self.init.port_names@[j]@ by {
                if j == self.port {
                    if self.init.port_names@[i]@ == self.init.port_names@[j]@ {
                        assert(old_state.init.port_names@[i]@ == old_state.ports@[
                            old_state.port as int].name@);
                    }
                } else {
                    assert(old_state.init.port_names@[i] == self.init.port_names@[i]);
                    assert(old_state.init.port_names@[j] == self.init.port_names@[j]);
                }
            }
        } else if self.phase == SetupPhase::QueuePending {
            let nqueues = self.ports[self.port].rx_queues.len();
            let core = self.ports[self.port].rx_queues[self.queue];
            self.init.add_queue(core);
            self.queue = self.queue + 1;
            assert(self.ports@[self.port as int].rx_queues@.take(self.queue as int) =~= self.ports@[
                self.port as int].rx_queues@.take(old_state.queue as int).push(core));
        }
        if self.port_made && self.queue == self.ports[self.port].rx_queues.len() {
            assert(self.ports@[self.port as int].rx_queues@.take(self.queue as int)
                =~= self.ports@[self.port as int].rx_queues@);
            self.port = self.port + 1;
            self.port_made = false;
            self.queue = 0;
            assert(self.init.queue_cores@ =~= queue_cores_of(self.ports@, self.port as nat)
                + Seq::empty());
        }
        if self.port_made {
            self.phase = SetupPhase::QueuePending;
            return SetupStep::MakeQueue(self.port, self.queue);
        }
        if self.port < self.ports.len() {
            match self.init.check_port(&self.ports[self.port].name) {
                Ok(()) => {
                    self.phase = SetupPhase::PortPending;
                    SetupStep::MakePort(self.port)
                },
                Err(e) => {
                    self.result = Some(Err(e));
                    self.phase = SetupPhase::Done;
                    SetupStep::Finished
                },
            }
        } else {
            let res = self.init.active_cores();
            self.result = Some(res);
            self.phase = SetupPhase::Done;
            SetupStep::Finished
        }
    }
}

/// Taking in a success moves the work on by exactly one: a port just made
/// goes on to its first queue, a queue just made to the next queue of the
/// same port, and a port whose queues are all made to the next port. No
/// queue is passed over.
pub proof fn lemma_next_position_steps(s: SystemSetup)
    requires
        s.inv(),
    ensures
        s.phase == SetupPhase::Idle ==> s.next_position() == (0int, false, 0int),
        s.phase == SetupPhase::PortPending && s.ports@[s.port as int].rx_queues@.len() > 0
            ==> s.next_position() == (s.port as int, true, 0int),
        s.phase == SetupPhase::PortPending && s.ports@[s.port as int].rx_queues@.len() == 0
            ==> s.next_position() == (s.port + 1, false, 0int),
        s.phase == SetupPhase::QueuePending && s.queue + 1 < s.ports@[
            s.port as int].rx_queues@.len() ==> s.next_position() == (
            s.port as int,
            true,
            s.queue + 1,
        ),
        s.phase == SetupPhase::QueuePending && s.queue + 1 == s.ports@[
            s.port as int].rx_queues@.len() ==> s.next_position() == (s.port + 1, false, 0int),
{
}

/// The ports made never repeat a name: a repeated name is refused before
/// its port is made.
pub proof fn lemma_made_ports_distinct(s: SystemSetup, i: int, j: int)
    requires
        s.inv(),
        0 <= i < j < s.made_ports(),
    ensures
        s.init.port_names@[i]@ != s.init.port_names@[j]@,
        s.ports@[i].name@ != s.ports@[j].name@,
{
    assert(s.init.port_names@[i]@ == s.ports@[i].name@);
    assert(s.init.port_names@[j]@ == s.ports@[j].name@);
}

} // verus!
