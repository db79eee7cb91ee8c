//! The decisions taken while the system is set up from its configuration:
//! which port names are refused as repeated, and which cores end up running
//! a scheduler. Making the ports and queues themselves is left to the caller,
//! which reports each one made here.
use vstd::prelude::*;
use crate::text::{append_int, append_joined, int_text, joined_text};

verus! {

/// Why the configuration could not be set up.
#[derive(Debug)]
pub enum PortError {
    /// A port name appears twice in the configuration.
    DuplicatePort(String),
    /// The port could not be made; `reason` describes the failure.
    PortInit { port: String, reason: String },
    /// Receive queue `queue` of the port could not be made; `reason`
    /// describes the failure.
    QueueInit { queue: i32, port: String, reason: String },
    /// Strict configuration was asked for, and these cores receive queues
    /// without being listed among the configured cores.
    UnlistedCores(Vec<i32>),
}

impl PortError {
    /// The text that describes the error.
    pub open spec fn message_text(&self) -> Seq<char> {
        match self {
            PortError::DuplicatePort(name) => "Port "@ + name@ + " appears twice in specification"@,
            PortError::PortInit { port, reason } => "Port "@ + port@
                + " could not be initialized "@ + reason@,
            PortError::QueueInit { queue, port, reason } => "Queue "@ + int_text(*queue as int)
                + " on port "@ + port@ + " could not be initialized "@ + reason@,
            PortError::UnlistedCores(m) => "Strict configuration selected but core(s) "@
                + joined_text(m@) + " appear in port configuration but not in cores"@,
        }
    }

    /// The text that describes the error.
    pub fn message(&self) -> (r: String)
        ensures
            r@ == self.message_text(),
    {
        match self {
            PortError::DuplicatePort(name) => {
                let mut s = String::from_str("Port ");
                s.append(name.as_str());
                s.append(" appears twice in specification");
                s
            },
            PortError::PortInit { port, reason } => {
                let mut s = String::from_str("Port ");
                s.append(port.as_str());
                s.append(" could not be initialized ");
                s.append(reason.as_str());
                s
            },
            PortError::QueueInit { queue, port, reason } => {
                let mut s = String::from_str("Queue ");
                append_int(&mut s, *queue);
                s.append(" on port ");
                s.append(port.as_str());
                s.append(" could not be initialized ");
                s.append(reason.as_str());
                s
            },
            PortError::UnlistedCores(m) => {
                let mut s = String::from_str("Strict configuration selected but core(s) ");
                append_joined(&mut s, m);
                s.append(" appear in port configuration but not in cores");
                s
            },
        }
    }

    /// The error as it is displayed: the message after
    /// `"Port configuration error: "`.
    pub fn display(&self) -> (r: String)
        ensures
            r@ == "Port configuration error: "@ + self.message_text(),
    {
        let mut s = String::from_str("Port configuration error: ");
        let m = self.message();
        s.append(m.as_str());
        s
    }
}

/// `name` is one of `names`, compared as text.
pub open spec fn names_contain(names: Seq<String>, name: Seq<char>) -> bool {
    exists|i: int| 0 <= i < names.len() && #[trigger] names[i]@ == name
}

/// The state of setting up the system: the configured cores, whether the
/// configuration is strict, the ports made so far, and the core of each
/// receive queue made so far.
pub struct SystemInit {
    pub cores: Vec<i32>,
    pub strict: bool,
    pub port_names: Vec<String>,
    pub queue_cores: Vec<i32>,
}

/// What a sequence with one more element at its end contains.
proof fn lemma_push_contains(s: Seq<i32>, x: i32)
    ensures
        forall|y: i32| #[trigger] s.push(x).contains(y) <==> (s.contains(y) || y == x),
{
    assert forall|y: i32| #[trigger] s.push(x).contains(y) <==> (s.contains(y) || y == x) by {
        if s.contains(y) {
            let k = choose|k: int| 0 <= k < s.len() && s[k] == y;
            assert(s.push(x)[k] == y);
        }
        if s.push(x).contains(y) && y != x {
            let k = choose|k: int| 0 <= k < s.push(x).len() && s.push(x)[k] == y;
            assert(s[k] == y);
        }
        if y == x {
            assert(s.push(x)[s.len() as int] == x);
        }
    }
}

/// Whether `x` occurs in `v`.
fn vec_contains(v: &Vec<i32>, x: i32) -> (r: bool)
    ensures
        r == v@.contains(x),
{
    let mut i: usize = 0;
    while i < v.len()
        invariant
            i <= v@.len(),
            forall|k: int| 0 <= k < i ==> v@[k] != x,
        decreases v@.len() - i,
    {
        if v[i] == x {
            return true;
        }
        i += 1;
    }
    false
}

/// Appends `x` to `v` unless it occurs there already.
fn push_distinct(v: &mut Vec<i32>, x: i32)
    requires
        old(v)@.no_duplicates(),
    ensures
        final(v)@.no_duplicates(),
        forall|y: i32| #[trigger] final(v)@.contains(y) <==> (old(v)@.contains(y) || y == x),
{
    if !vec_contains(v, x) {
        v.push(x);
        proof {
            lemma_push_contains(old(v)@, x);
        }
    }
}

/// The distinct elements of `v`, in the order of their first occurrence,
/// appended to `out`.
fn extend_distinct(out: &mut Vec<i32>, v: &Vec<i32>)
    requires
        old(out)@.no_duplicates(),
    ensures
        final(out)@.no_duplicates(),
        forall|y: i32| #[trigger] final(out)@.contains(y) <==> (old(out)@.contains(y) || v@.contains(y)),
{
    let mut i: usize = 0;
    while i < v.len()
        invariant
            i <= v@.len(),
            out@.no_duplicates(),
            forall|y: i32|
                out@.contains(y) <==> (old(out)@.contains(y) || v@.subrange(0, i as int).contains(
                    y,
                )),
        decreases v@.len() - i,
    {
        push_distinct(out, v[i]);
        assert forall|y: i32|
            out@.contains(y) <==> (old(out)@.contains(y) || v@.subrange(
                0,
                i + 1,
            ).contains(y)) by {
            let s0 = v@.subrange(0, i as int);
            assert(v@.subrange(0, i + 1) =~= s0.push(v@[i as int]));
            lemma_push_contains(s0, v@[i as int]);
        }
        i += 1;
    }
    assert(v@.subrange(0, v@.len() as int) =~= v@);
}

impl SystemInit {
    /// The configuration is accepted: it is not strict, or every core that
    /// receives a queue is configured.
    pub open spec fn accepted(&self) -> bool {
        !self.strict || forall|c: i32| self.queue_cores@.contains(c) ==> self.cores@.contains(c)
    }

    /// `c` runs a scheduler: it is configured, or, in a configuration that is
    /// not strict, it receives a queue.
    pub open spec fn is_active(&self, c: i32) -> bool {
        self.cores@.contains(c) || (!self.strict && self.queue_cores@.contains(c))
    }

    /// Starts setting up a system with the configured `cores`, strict or
    /// not; no port or queue is made yet.
    pub fn new(cores: Vec<i32>, strict: bool) -> (r: SystemInit)
        ensures
            r.cores@ == cores@,
            r.strict == strict,
            r.port_names@.len() == 0,
            r.queue_cores@.len() == 0,
    {
        SystemInit { cores, strict, port_names: Vec::new(), queue_cores: Vec::new() }
    }

    /// Checks that a port named `name` may be made: it is refused when a port
    /// of that name was made already.
    pub fn check_port(&self, name: &String) -> (r: Result<(), PortError>)
        ensures
            r is Ok <==> !names_contain(self.port_names@, name@),
            r is Ok <==> forall|i: int|
                0 <= i < self.port_names@.len() ==> #[trigger] self.port_names@[i]@ != name@,
            r matches Err(e) ==> (e matches PortError::DuplicatePort(n) && n == *name),
    {
        let mut i: usize = 0;
        while i < self.port_names.len()
            invariant
                i <= self.port_names@.len(),
                forall|k: int| 0 <= k < i ==> #[trigger] self.port_names@[k]@ != name@,
            decreases self.port_names@.len() - i,
        {
            if self.port_names[i] == *name {
                return Err(PortError::DuplicatePort(name.clone()));
            }
            i += 1;
        }
        Ok(())
    }

    /// Records that the port `name` was made.
    pub fn add_port(&mut self, name: String)
        ensures
            final(self).port_names@ == old(self).port_names@.push(name),
            final(self).cores@ == old(self).cores@,
            final(self).strict == old(self).strict,
            final(self).queue_cores@ == old(self).queue_cores@,
    {
        self.port_names.push(name);
    }

    /// Records that a receive queue for `core` was made.
    pub fn add_queue(&mut self, core: i32)
        ensures
            final(self).queue_cores@ == old(self).queue_cores@.push(core),
            final(self).cores@ == old(self).cores@,
            final(self).strict == old(self).strict,
            final(self).port_names@ == old(self).port_names@,
    {
        self.queue_cores.push(core);
    }

    /// The cores that run a scheduler, each once: the configured cores, and,
    /// unless the configuration is strict, every core that receives a queue.
    /// A strict configuration in which a queue's core is not configured is
    /// refused, with those cores, each once.
    pub fn active_cores(&self) -> (r: Result<Vec<i32>, PortError>)
        ensures
            r is Ok <==> self.accepted(),
            !self.strict ==> r is Ok,
            self.strict && (exists|k: int|
                0 <= k < self.queue_cores@.len() && !self.cores@.contains(
                    #[trigger] self.queue_cores@[k],
                )) ==> r is Err,
            r matches Ok(v) ==> forall|c: i32|
                #[trigger] v@.contains(c) <==> (self.cores@.contains(c) || (!self.strict && exists|
                    k: int,
                | 0 <= k < self.queue_cores@.len() && self.queue_cores@[k] == c)),
            r matches Ok(v) ==> v@.no_duplicates() && forall|c: i32|
                #[trigger] v@.contains(c) <==> self.is_active(c),
            r matches Err(e) ==> (e matches PortError::UnlistedCores(m) && m@.len() > 0
                && m@.no_duplicates() && forall|c: i32|
                #[trigger] m@.contains(c) <==> (self.queue_cores@.contains(c)
                    && !self.cores@.contains(c))),
    {
        if self.strict {
            let mut missing: Vec<i32> = Vec::new();
            let mut i: usize = 0;
            while i < self.queue_cores.len()
                invariant
                    i <= self.queue_cores@.len(),
                    missing@.no_duplicates(),
                    forall|c: i32|
                        #[trigger] missing@.contains(c) <==> (self.queue_cores@.subrange(
                            0,
                            i as int,
                        ).contains(c) && !self.cores@.contains(c)),
                decreases self.queue_cores@.len() - i,
            {
                let c = self.queue_cores[i];
                let ghost s0 = self.queue_cores@.subrange(0, i as int);
                let ghost s1 = self.queue_cores@.subrange(0, i + 1);
                assert(s1 =~= s0.push(c));
                proof {
                    lemma_push_contains(s0, c);
                }
                if !vec_contains(&self.cores, c) {
                    push_distinct(&mut missing, c);
                }
                i += 1;
            }
            assert(self.queue_cores@.subrange(0, self.queue_cores@.len() as int)
                =~= self.queue_cores@);
            if missing.len() > 0 {
                assert(missing@.contains(missing@[0]));
                return Err(PortError::UnlistedCores(missing));
            }
            assert forall|c: i32| self.queue_cores@.contains(c) implies self.cores@.contains(c) by {
                if !self.cores@.contains(c) {
                    assert(missing@.contains(c));
                }
            }
            let mut active: Vec<i32> = Vec::new();
            extend_distinct(&mut active, &self.cores);
            assert forall|c: i32| #[trigger] active@.contains(c) <==> self.cores@.contains(c) by {
                assert(!Seq::<i32>::empty().contains(c));
            }
            Ok(active)
        } else {
            let mut active: Vec<i32> = Vec::new();
            extend_distinct(&mut active, &self.cores);
            let ghost first = active@;
            extend_distinct(&mut active, &self.queue_cores);
            assert forall|c: i32| #[trigger] active@.contains(c) <==> (self.cores@.contains(c)
                || self.queue_cores@.contains(c)) by {
                assert(!Seq::<i32>::empty().contains(c));
                assert(first.contains(c) <==> self.cores@.contains(c));
            }
            Ok(active)
        }
    }
    /// The receive queues handed to the scheduler of `core`: the positions,
    /// in the order they were made, of the queues made for that core. A core
    /// without queues gets none.
    pub fn queues_of_core(&self, core: i32) -> (r: Vec<usize>)
        ensures
            r@.len() <= self.queue_cores@.len(),
            forall|k: int| 0 <= k < r@.len() ==> #[trigger] r@[k] < self.queue_cores@.len(),
            forall|k: int| 0 <= k < r@.len() ==> self.queue_cores@[#[trigger] r@[k] as int] == core,
            forall|j: int, k: int| 0 <= j < k < r@.len() ==> r@[j] < r@[k],
            forall|q: int|
                0 <= q < self.queue_cores@.len() && self.queue_cores@[q] == core ==> r@.contains(
                    q as usize,
                ),
    {
        let mut r: Vec<usize> = Vec::new();
        let mut i: usize = 0;
        while i < self.queue_cores.len()
            invariant
                i <= self.queue_cores@.len(),
                r@.len() <= i,
                forall|k: int| 0 <= k < r@.len() ==> #[trigger] r@[k] < i,
                forall|k: int|
                    0 <= k < r@.len() ==> self.queue_cores@[#[trigger] r@[k] as int] == core,
                forall|j: int, k: int| 0 <= j < k < r@.len() ==> r@[j] < r@[k],
                forall|q: int|
                    0 <= q < i && self.queue_cores@[q] == core ==> r@.contains(q as usize),
            decreases self.queue_cores@.len() - i,
        {
            if self.queue_cores[i] == core {
                let ghost before = r@;
                r.push(i);
                assert forall|q: int|
                    0 <= q < i + 1 && self.queue_cores@[q] == core implies r@.contains(
                        q as usize,
                    ) by {
                    if q < i {
                        let k = choose|k: int| 0 <= k < before.len() && before[k] == q as usize;
                        assert(r@[k] == q as usize);
                    } else {
                        assert(r@[r@.len() - 1] == q as usize);
                    }
                }
            }
            i += 1;
        }
        r
    }
}

/// Port names are compared as whole texts: a name is among the names made
/// exactly when one of them is equal to it, character for character.
pub proof fn lemma_names_compared_whole(names: Seq<String>, name: Seq<char>)
    ensures
        names_contain(names, name) <==> exists|i: int| 0 <= i < names.len() && names[i]@ == name,
        forall|i: int| 0 <= i < names.len() && names[i]@ == name ==> names_contain(names, name),
        (forall|i: int| 0 <= i < names.len() ==> names[i]@ != name) ==> !names_contain(names, name),
{
    assert forall|i: int| 0 <= i < names.len() && names[i]@ == name implies names_contain(
        names,
        name,
    ) by {
        assert(names[i]@ == name);
    }
}

/// A strict configuration is refused as soon as any receive queue, at any
/// position, lies on a core that is not configured; a configuration that is
/// not strict is always accepted.
pub proof fn lemma_strict_refuses_unlisted(init: SystemInit, k: int)
    ensures
        !init.strict ==> init.accepted(),
        init.strict && 0 <= k < init.queue_cores@.len() && !init.cores@.contains(
            init.queue_cores@[k],
        ) ==> !init.accepted(),
{
    if init.strict && 0 <= k < init.queue_cores@.len() && !init.cores@.contains(
        init.queue_cores@[k],
    ) {
        assert(init.queue_cores@.contains(init.queue_cores@[k]));
    }
}

/// Which cores are active: in a strict configuration exactly the configured
/// ones; otherwise the configured ones and the core of every receive queue.
pub proof fn lemma_active_cores_are(init: SystemInit, c: i32)
    ensures
        init.strict ==> (init.is_active(c) <==> init.cores@.contains(c)),
        !init.strict ==> (init.is_active(c) <==> (init.cores@.contains(c) || exists|k: int|
            0 <= k < init.queue_cores@.len() && init.queue_cores@[k] == c)),
        forall|k: int|
            !init.strict && 0 <= k < init.queue_cores@.len() ==> init.is_active(
                #[trigger] init.queue_cores@[k],
            ),
        init.cores@.contains(c) ==> init.is_active(c),
{
    assert forall|k: int|
        !init.strict && 0 <= k < init.queue_cores@.len() implies init.is_active(
            #[trigger] init.queue_cores@[k],
        ) by {
        assert(init.queue_cores@.contains(init.queue_cores@[k]));
    }
}

/// In an accepted configuration every receive queue that was made is served
/// by a scheduler: its core is active.
pub proof fn lemma_every_queue_is_served(init: SystemInit, q: int)
    requires
        init.accepted(),
        0 <= q < init.queue_cores@.len(),
    ensures
        init.is_active(init.queue_cores@[q]),
{
    assert(init.queue_cores@.contains(init.queue_cores@[q]));
}

/// Why a pipeline could not be installed.
#[derive(Debug, Clone, Copy, PartialEq, Eq, Structural)]
pub enum SchedulerError {
    /// No scheduler runs on this core.
    NoRunningSchedulerOnCore(i32),
}

/// Checks that a scheduler runs on `core`, given the cores on which
/// schedulers were started; a pipeline can be installed only there.
pub fn check_scheduler_on_core(running: &Vec<i32>, core: i32) -> (r: Result<(), SchedulerError>)
    ensures
        running@.contains(core) ==> r == Ok::<(), SchedulerError>(()),
        !running@.contains(core) ==> r == Err::<(), SchedulerError>(
            SchedulerError::NoRunningSchedulerOnCore(core),
        ),
{
    if vec_contains(running, core) {
        Ok(())
    } else {
        Err(SchedulerError::NoRunningSchedulerOnCore(core))
    }
}

} // verus!
