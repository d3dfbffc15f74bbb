//! Bootstrap coordinator state: the single in-flight guard, the stored
//! child process, the port-collision check and the final result string.
//!
//! The guard is the only cross-invocation state of the pipeline. The
//! embedding application holds it behind its synchronization primitive
//! and serializes all guard operations; every serialization of two
//! concurrent entries then admits at most one of them, and the flag is
//! cleared on every exit path, so a failed bootstrap can always be
//! retried.

use vstd::prelude::*;
use vstd::string::StringExecFns;

use crate::text::dec_of;

verus! {

/// The supervised child process as the coordinator knows it: its chosen
/// port and an opaque handle key under which the embedding application
/// holds the real child.
#[derive(Clone, Copy, PartialEq, Eq, Structural, Debug)]
pub struct ManagedProcess {
    /// The port the process serves on.
    pub port: u16,
    /// Opaque key of the real process handle.
    pub handle: u64,
}

/// The process-wide bootstrap state: the in-flight flag and the current
/// managed process, if any. Created once at process start; never
/// recreated.
pub struct BootstrapState {
    in_flight: bool,
    process: Option<ManagedProcess>,
}

/// The guard transition: `granted` exactly when no invocation was in
/// flight, and the flag is set afterwards either way.
pub open spec fn begin_transition(
    pre: BootstrapState,
    post: BootstrapState,
    granted: bool,
) -> bool {
    &&& granted == !pre.in_flight()
    &&& post.in_flight()
    &&& post.process() == pre.process()
}

/// The port-collision rule: a candidate port equal to the stored
/// process's port is refused.
pub open spec fn select_port_spec(s: BootstrapState, candidate: u16) -> Option<u16> {
    match s.process() {
        Option::Some(p) => if candidate == p.port {
            Option::None
        } else {
            Option::Some(candidate)
        },
        Option::None => Option::Some(candidate),
    }
}

impl BootstrapState {
    /// Whether a bootstrap invocation is in flight.
    pub closed spec fn in_flight(self) -> bool {
        self.in_flight
    }

    /// The stored managed process; at most one exists at a time.
    pub closed spec fn process(self) -> Option<ManagedProcess> {
        self.process
    }

    /// The initial state: nothing in flight, no process.
    pub fn new() -> (r: BootstrapState)
        ensures
            !r.in_flight(),
            r.process() is None,
    {
        BootstrapState { in_flight: false, process: None }
    }

    /// The guarded entry: grants the bootstrap exactly when none is in
    /// flight, and marks one in flight. A caller that is refused fails
    /// immediately rather than queueing.
    pub fn try_begin(&mut self) -> (granted: bool)
        ensures
            begin_transition(*old(self), *final(self), granted),
    {
        if self.in_flight {
            false
        } else {
            self.in_flight = true;
            true
        }
    }

    /// Clears the in-flight flag; called on every exit path of an
    /// invocation, success and failure alike, so a failed bootstrap can
    /// always be retried.
    pub fn finish(&mut self)
        ensures
            !final(self).in_flight(),
            final(self).process() == old(self).process(),
    {
        self.in_flight = false;
    }

    /// Stores the freshly launched process, replacing any previous one:
    /// at most one managed process is ever stored.
    pub fn store_process(&mut self, p: ManagedProcess)
        ensures
            final(self).process() == Option::Some(p),
            final(self).in_flight() == old(self).in_flight(),
    {
        self.process = Some(p);
    }

    /// Takes and clears the stored process and clears the in-flight
    /// flag; idempotent, a second call finds nothing and changes
    /// nothing further.
    pub fn kill(&mut self) -> (r: Option<ManagedProcess>)
        ensures
            kill_transition(*old(self), *final(self), r),
    {
        self.in_flight = false;
        self.process.take()
    }

    /// The stored process's port, if one is stored.
    pub fn current_port(&self) -> (r: Option<u16>)
        ensures
            r == match self.process() {
                Option::Some(p) => Option::Some(p.port),
                Option::None => Option::<u16>::None,
            },
    {
        match &self.process {
            Some(p) => Some(p.port),
            None => None,
        }
    }

    /// Accepts a candidate port for a new launch unless the stored,
    /// possibly still listening process already uses it.
    pub fn select_port(&self, candidate: u16) -> (r: Option<u16>)
        ensures
            r == select_port_spec(*self, candidate),
    {
        match &self.process {
            Some(p) => if candidate == p.port {
                None
            } else {
                Some(candidate)
            },
            None => Some(candidate),
        }
    }
}

/// Concurrency: two entries through the guard, in whichever order their
/// compare-and-set operations serialize, are never both granted; and
/// from an idle state, exactly the first is granted.
pub proof fn lemma_at_most_one_bootstrap(
    s0: BootstrapState,
    s1: BootstrapState,
    s2: BootstrapState,
    granted1: bool,
    granted2: bool,
)
    requires
        begin_transition(s0, s1, granted1),
        begin_transition(s1, s2, granted2),
    ensures
        !(granted1 && granted2),
        !s0.in_flight() ==> granted1 && !granted2,
{
}

/// Port uniqueness: while a process is stored, a port the collision
/// rule grants never equals that process's port, so two sequential
/// bootstraps cannot select colliding ports while the first process
/// still holds its own.
pub proof fn lemma_no_port_collision(s: BootstrapState, candidate: u16)
    ensures
        match (select_port_spec(s, candidate), s.process()) {
            (Option::Some(granted), Option::Some(p)) => granted != p.port,
            _ => true,
        },
{
}

/// The kill transition: it hands back whatever process was stored and
/// leaves an idle state with no process.
pub open spec fn kill_transition(
    pre: BootstrapState,
    post: BootstrapState,
    taken: Option<ManagedProcess>,
) -> bool {
    &&& taken == pre.process()
    &&& post.process() is None
    &&& !post.in_flight()
}

/// Killing is idempotent: a second kill finds no process to terminate
/// and leaves the state observably as the first one did.
pub proof fn lemma_kill_idempotent(
    s0: BootstrapState,
    s1: BootstrapState,
    s2: BootstrapState,
    taken1: Option<ManagedProcess>,
    taken2: Option<ManagedProcess>,
)
    requires
        kill_transition(s0, s1, taken1),
        kill_transition(s1, s2, taken2),
    ensures
        taken2 is None,
        s2.in_flight() == s1.in_flight(),
        s2.process() == s1.process(),
{
}

/// The local endpoint URL for a chosen port.
pub fn format_endpoint(port: u16) -> (r: String)
    ensures
        r@ == "http://127.0.0.1:"@ + dec_of(port as nat),
{
    "http://127.0.0.1:".to_owned().concat(crate::text::u64_to_dec(port as u64).as_str())
}

/// The produced result: the endpoint URL, a line break, then the
/// credential.
pub fn format_result(port: u16, token: &str) -> (r: String)
    ensures
        r@ == "http://127.0.0.1:"@ + dec_of(port as nat) + "\n"@ + token@,
{
    let r = format_endpoint(port).concat("\n").concat(token);
    proof {
        assert(r@ =~= "http://127.0.0.1:"@ + dec_of(port as nat) + "\n"@ + token@);
    }
    r
}

} // verus!
