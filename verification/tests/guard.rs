//! The coordinator's concurrency guard, kill path and port selection.

use soulfire_client::cast::CastRunningState;
use soulfire_client::cast::DiscoveredCast;
use soulfire_client::coordinator::BootstrapState;
use soulfire_client::coordinator::ManagedProcess;

#[test]
fn guard_admits_exactly_one_invocation() {
    let mut state = BootstrapState::new();
    // Two concurrent callers serialize through the compare-and-set:
    // exactly the first is granted, the other fails immediately.
    let first = state.try_begin();
    let second = state.try_begin();
    assert!(first);
    assert!(!second);
    // After the in-flight invocation exits, a retry is granted again.
    state.finish();
    assert!(state.try_begin());
}

#[test]
fn guard_clears_on_failure_path() {
    let mut state = BootstrapState::new();
    assert!(state.try_begin());
    // The invocation failed; the flag is cleared on that exit path too.
    state.finish();
    assert!(state.try_begin());
}

#[test]
fn kill_is_idempotent() {
    let mut state = BootstrapState::new();
    assert!(state.try_begin());
    state.store_process(ManagedProcess { port: 40000, handle: 7 });
    state.finish();

    let taken = state.kill();
    assert_eq!(taken, Some(ManagedProcess { port: 40000, handle: 7 }));
    // A second kill finds nothing and changes nothing.
    assert_eq!(state.kill(), None);
    assert_eq!(state.current_port(), None);
}

#[test]
fn sequential_bootstraps_never_collide_on_ports() {
    let mut state = BootstrapState::new();
    assert!(state.try_begin());
    state.store_process(ManagedProcess { port: 40000, handle: 1 });
    state.finish();

    // The first process is still listening on its port; a second
    // bootstrap must not select it.
    assert!(state.try_begin());
    assert_eq!(state.select_port(40000), None);
    assert_eq!(state.select_port(40001), Some(40001));
    state.store_process(ManagedProcess { port: 40001, handle: 2 });
    state.finish();
    assert_eq!(state.current_port(), Some(40001));
}

fn device(full_name: &str) -> DiscoveredCast {
    DiscoveredCast {
        id: "id-1".to_string(),
        full_name: full_name.to_string(),
        name: "Living room".to_string(),
        address: "cast.local.".to_string(),
        port: 8009,
    }
}

#[test]
fn cast_registry_tracks_devices() {
    let mut state = CastRunningState::new();
    assert!(!state.is_running());
    assert!(state.try_begin_discovery());
    assert!(!state.try_begin_discovery());

    assert!(!state.contains_discovered_device("a._googlecast._tcp.local.".to_string()));
    state.add_discovered_device(device("a._googlecast._tcp.local."));
    state.add_discovered_device(device("b._googlecast._tcp.local."));
    assert!(state.contains_discovered_device("a._googlecast._tcp.local.".to_string()));
    assert_eq!(state.device_count(), 2);

    state.remove_discovered_device("a._googlecast._tcp.local.".to_string());
    assert!(!state.contains_discovered_device("a._googlecast._tcp.local.".to_string()));
    assert!(state.contains_discovered_device("b._googlecast._tcp.local.".to_string()));
    assert_eq!(state.device_count(), 1);
    assert_eq!(state.devices()[0].full_name, "b._googlecast._tcp.local.");
}
