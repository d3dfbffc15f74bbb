//! Registry of discovered cast devices and the discovery guard.
//!
//! The network discovery itself is an external collaborator; this module
//! keeps its state: which devices have been announced, keyed by their
//! full service name, and whether a discovery loop is already running.

use vstd::prelude::*;
use vstd::string::StrSliceExecFns;

verus! {

/// A cast device as discovery announced it.
pub struct DiscoveredCast {
    /// Stable identifier of the device.
    pub id: String,
    /// Full service name; the registry's key.
    pub full_name: String,
    /// Human-readable name.
    pub name: String,
    /// Host name or address.
    pub address: String,
    /// Service port.
    pub port: u16,
}

/// The devices of `s` whose full name is not `full_name`, in order.
pub open spec fn without_name(s: Seq<DiscoveredCast>, full_name: Seq<char>) -> Seq<DiscoveredCast>
    decreases s.len(),
{
    if s.len() == 0 {
        s
    } else {
        let rest = without_name(s.drop_last(), full_name);
        if s[s.len() - 1].full_name@ == full_name {
            rest
        } else {
            rest.push(s[s.len() - 1])
        }
    }
}

/// State of the discovery subsystem: the guard flag and the announced
/// devices.
pub struct CastRunningState {
    running: bool,
    announced_devices: Vec<DiscoveredCast>,
}

impl CastRunningState {
    /// The announced devices, in announcement order.
    pub closed spec fn device_list(self) -> Seq<DiscoveredCast> {
        self.announced_devices@
    }

    /// Whether a discovery loop is already running.
    pub closed spec fn running(self) -> bool {
        self.running
    }

    /// Whether a discovery loop is already running.
    pub fn is_running(&self) -> (r: bool)
        ensures
            r == self.running(),
    {
        self.running
    }

    /// An empty registry with no discovery running.
    pub fn new() -> (r: CastRunningState)
        ensures
            !r.running(),
            r.device_list() == Seq::<DiscoveredCast>::empty(),
    {
        CastRunningState { running: false, announced_devices: Vec::new() }
    }

    /// The discovery guard: grants the start of a discovery loop
    /// exactly when none is running, and marks one running.
    pub fn try_begin_discovery(&mut self) -> (granted: bool)
        ensures
            granted == !old(self).running(),
            final(self).running(),
            final(self).device_list() == old(self).device_list(),
    {
        if self.running {
            false
        } else {
            self.running = true;
            true
        }
    }

    /// Appends a freshly announced device.
    pub fn add_discovered_device(&mut self, device: DiscoveredCast)
        ensures
            final(self).device_list() == old(self).device_list().push(device),
            final(self).running() == old(self).running(),
    {
        self.announced_devices.push(device);
    }

    /// Whether a device with this full name has been announced.
    pub fn contains_discovered_device(&self, full_name: String) -> (r: bool)
        ensures
            r == exists|i: int|
                0 <= i < self.device_list().len() && (#[trigger] self.device_list()[i].full_name@)
                    == full_name@,
    {
        let n = self.announced_devices.len();
        let mut i: usize = 0;
        while i < n
            invariant
                n == self.announced_devices@.len(),
                0 <= i <= n,
                forall|j: int|
                    0 <= j < i ==> (#[trigger] self.announced_devices@[j].full_name@)
                        != full_name@,
            decreases n - i,
        {
            if crate::text::str_eq(self.announced_devices[i].full_name.as_str(), full_name.as_str())
            {
                assert(self.device_list()[i as int].full_name@ == full_name@);
                return true;
            }
            i = i + 1;
        }
        false
    }

    /// Removes every device with this full name, keeping the others in
    /// order.
    pub fn remove_discovered_device(&mut self, full_name: String)
        ensures
            final(self).device_list() == without_name(old(self).device_list(), full_name@),
            final(self).running() == old(self).running(),
    {
        let n = self.announced_devices.len();
        let mut kept: Vec<DiscoveredCast> = Vec::new();
        let mut i: usize = 0;
        proof {
            assert(self.announced_devices@.take(0) =~= Seq::<DiscoveredCast>::empty());
        }
        while i < n
            invariant
                n == self.announced_devices@.len(),
                0 <= i <= n,
                kept@ == without_name(self.announced_devices@.take(i as int), full_name@),
            decreases n - i,
        {
            proof {
                assert(self.announced_devices@.take(i as int + 1).drop_last()
                    =~= self.announced_devices@.take(i as int));
            }
            let d = &self.announced_devices[i];
            if !crate::text::str_eq(d.full_name.as_str(), full_name.as_str()) {
                let copy = DiscoveredCast {
                    id: d.id.clone(),
                    full_name: d.full_name.clone(),
                    name: d.name.clone(),
                    address: d.address.clone(),
                    port: d.port,
                };
                assert(copy == self.announced_devices@[i as int]);
                kept.push(copy);
            }
            i = i + 1;
        }
        proof {
            assert(self.announced_devices@.take(n as int) =~= self.announced_devices@);
        }
        self.announced_devices = kept;
    }

    /// How many devices are announced.
    pub fn device_count(&self) -> (r: usize)
        ensures
            r == self.device_list().len(),
    {
        self.announced_devices.len()
    }

    /// Borrows the announced devices for reading.
    pub fn devices(&self) -> (r: &Vec<DiscoveredCast>)
        ensures
            r@ == self.device_list(),
    {
        &self.announced_devices
    }
}

} // verus!
