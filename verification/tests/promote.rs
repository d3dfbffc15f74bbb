//! Scenarios of the atomic installer: the promote machine driven over
//! the filesystem model, including the fault cases.

use soulfire_client::install::apply_rename;
use soulfire_client::install::InstallFs;
use soulfire_client::install::InstallTransaction;
use soulfire_client::install::PromoteMachine;
use soulfire_client::install::RenameOp;

const OLD: u64 = 1;
const NEW: u64 = 2;

fn initial_fs() -> InstallFs {
    InstallFs { temp: Some(NEW), dest: Some(OLD), backup: None }
}

/// Drives one promote over the model, reporting the given outcome for
/// each operation in turn; returns the machine and the final model.
fn drive(dest_exists: bool, mut fs: InstallFs, outcomes: &[bool]) -> (PromoteMachine, InstallFs) {
    let (mut machine, first) = PromoteMachine::start(dest_exists);
    let mut op = Some(first);
    let mut i = 0;
    while let Some(current) = op {
        let ok = outcomes[i];
        i += 1;
        fs = apply_rename(fs, current, ok);
        op = machine.on_result(ok);
    }
    (machine, fs)
}

#[test]
fn promote_replaces_existing_artifact() {
    let (machine, fs) = drive(true, initial_fs(), &[true, true, true]);
    assert!(machine.is_complete());
    assert_eq!(fs.dest, Some(NEW));
    assert_eq!(fs.backup, None);
}

#[test]
fn promote_fresh_install() {
    let fs0 = InstallFs { temp: Some(NEW), dest: None, backup: None };
    let (machine, fs) = drive(false, fs0, &[true]);
    assert!(machine.is_complete());
    assert_eq!(fs.dest, Some(NEW));
}

#[test]
fn promote_restores_original_when_move_fails() {
    // The backup rename succeeds, the final rename is forced to fail,
    // the rollback succeeds: the original is back at the final path.
    let (machine, fs) = drive(true, initial_fs(), &[true, false, true]);
    assert!(machine.is_aborted());
    assert_eq!(fs.dest, Some(OLD));
    assert_eq!(fs.backup, None);
}

#[test]
fn promote_keeps_original_reachable_when_rollback_also_fails() {
    let (machine, fs) = drive(true, initial_fs(), &[true, false, false]);
    assert!(machine.is_aborted());
    // The final path is empty, but the original still sits at the
    // backup path: never is neither reachable.
    assert_eq!(fs.dest, None);
    assert_eq!(fs.backup, Some(OLD));
}

#[test]
fn promote_failed_backup_leaves_original_in_place() {
    let (machine, fs) = drive(true, initial_fs(), &[false]);
    assert!(machine.is_aborted());
    assert_eq!(fs.dest, Some(OLD));
}

#[test]
fn promote_tolerates_failed_backup_cleanup() {
    let (machine, fs) = drive(true, initial_fs(), &[true, true, false]);
    assert!(machine.is_complete());
    assert_eq!(fs.dest, Some(NEW));
    // The stale backup remains, which is harmless.
    assert_eq!(fs.backup, Some(OLD));
}

#[test]
fn promote_ops_follow_the_protocol() {
    let (mut machine, first) = PromoteMachine::start(true);
    assert!(matches!(first, RenameOp::DestToBackup));
    assert!(matches!(machine.on_result(true), Some(RenameOp::TempToDest)));
    assert!(matches!(machine.on_result(false), Some(RenameOp::BackupToDest)));
    assert!(machine.on_result(true).is_none());
    assert!(machine.is_aborted());
}

#[test]
fn transaction_derives_backup_path() {
    let tx = InstallTransaction::new(
        "/tmp/jvm-extract".to_string(),
        "/data/jvm-25".to_string(),
        1700000000,
    );
    assert_eq!(tx.temp_path, "/tmp/jvm-extract");
    assert_eq!(tx.final_path, "/data/jvm-25");
    assert_eq!(tx.backup_path, "/data/jvm-25.backup-1700000000");
}
