//! Atomic installer: promotes a validated temporary artifact into its
//! final location without ever leaving the final location half-written.
//!
//! When the final path already exists it is first renamed to a backup,
//! then the temporary artifact is renamed into place; on success the
//! backup is deleted, on failure the backup is renamed back. The machine
//! here makes those decisions; the embedding application performs each
//! rename and reports whether it succeeded. A rename either happens
//! entirely or leaves both paths untouched, which is what the filesystem
//! model below assumes of a failed operation.

use vstd::prelude::*;
use vstd::string::StringExecFns;

use crate::text::dec_of;

verus! {

/// The renames and deletions a promote operation is made of, named over
/// the three paths of one install transaction.
#[derive(Clone, Copy, PartialEq, Eq, Structural, Debug)]
pub enum RenameOp {
    /// Rename the existing final path to the backup path.
    DestToBackup,
    /// Rename the temporary path to the final path.
    TempToDest,
    /// Rename the backup path back to the final path.
    BackupToDest,
    /// Delete the backup path.
    DeleteBackup,
}

/// Model of the three paths during one promote operation: what content
/// (named by an opaque identifier) each currently holds.
#[derive(Clone, Copy, PartialEq, Eq, Structural, Debug)]
pub struct InstallFs {
    /// Content at the temporary path.
    pub temp: Option<u64>,
    /// Content at the final path.
    pub dest: Option<u64>,
    /// Content at the backup path.
    pub backup: Option<u64>,
}

/// The effect of one operation on the model: a successful rename moves
/// the content, a successful delete removes it, and a failed operation
/// leaves every path untouched.
pub open spec fn apply_op(fs: InstallFs, op: RenameOp, ok: bool) -> InstallFs {
    if !ok {
        fs
    } else {
        match op {
            RenameOp::DestToBackup => InstallFs { temp: fs.temp, dest: Option::None, backup: fs.dest },
            RenameOp::TempToDest => InstallFs { temp: Option::None, dest: fs.temp, backup: fs.backup },
            RenameOp::BackupToDest => InstallFs { temp: fs.temp, dest: fs.backup, backup: Option::None },
            RenameOp::DeleteBackup => InstallFs { temp: fs.temp, dest: fs.dest, backup: Option::None },
        }
    }
}

/// Executable twin of [`apply_op`], for driving the model alongside the
/// machine.
pub fn apply_rename(fs: InstallFs, op: RenameOp, ok: bool) -> (r: InstallFs)
    ensures
        r == apply_op(fs, op, ok),
{
    if !ok {
        fs
    } else {
        match op {
            RenameOp::DestToBackup => InstallFs { temp: fs.temp, dest: None, backup: fs.dest },
            RenameOp::TempToDest => InstallFs { temp: None, dest: fs.temp, backup: fs.backup },
            RenameOp::BackupToDest => InstallFs { temp: fs.temp, dest: fs.backup, backup: None },
            RenameOp::DeleteBackup => InstallFs { temp: fs.temp, dest: fs.dest, backup: None },
        }
    }
}

/// Where a promote operation stands: which operation it is waiting on,
/// or how it ended.
#[derive(Clone, Copy, PartialEq, Eq, Structural, Debug)]
pub enum PromoteState {
    /// Waiting for the existing final path to be renamed to the backup.
    Backing,
    /// Waiting for the temporary path to be renamed into place, with the
    /// old content held at the backup.
    Moving,
    /// Waiting for the temporary path to be renamed into place; the
    /// final path did not exist beforehand.
    MovingFresh,
    /// New content is in place; waiting for the backup to be deleted.
    Cleaning,
    /// The move failed; waiting for the backup to be renamed back.
    Restoring,
    /// The new artifact is at the final path.
    Complete,
    /// The promote failed; the error is propagated by the caller.
    Aborted,
}

/// The operation the machine waits on in state `s`; `None` in terminal
/// states.
pub open spec fn op_of(s: PromoteState) -> Option<RenameOp> {
    match s {
        PromoteState::Backing => Option::Some(RenameOp::DestToBackup),
        PromoteState::Moving => Option::Some(RenameOp::TempToDest),
        PromoteState::MovingFresh => Option::Some(RenameOp::TempToDest),
        PromoteState::Cleaning => Option::Some(RenameOp::DeleteBackup),
        PromoteState::Restoring => Option::Some(RenameOp::BackupToDest),
        PromoteState::Complete => Option::None,
        PromoteState::Aborted => Option::None,
    }
}

/// The next state after the awaited operation reports `ok`. A failed
/// backup deletion is not fatal: the new artifact is already in place.
pub open spec fn promote_next(s: PromoteState, ok: bool) -> PromoteState {
    match s {
        PromoteState::Backing => if ok {
            PromoteState::Moving
        } else {
            PromoteState::Aborted
        },
        PromoteState::Moving => if ok {
            PromoteState::Cleaning
        } else {
            PromoteState::Restoring
        },
        PromoteState::MovingFresh => if ok {
            PromoteState::Complete
        } else {
            PromoteState::Aborted
        },
        PromoteState::Cleaning => PromoteState::Complete,
        PromoteState::Restoring => PromoteState::Aborted,
        PromoteState::Complete => PromoteState::Complete,
        PromoteState::Aborted => PromoteState::Aborted,
    }
}

/// The machine driving one promote operation.
pub struct PromoteMachine {
    state: PromoteState,
    had_dest: bool,
}

/// The machine's well-formedness relation with the filesystem model:
/// `old_c` names the content initially at the final path, `new_c` the
/// validated content initially at the temporary path.
pub open spec fn promote_inv(
    s: PromoteState,
    had_dest: bool,
    fs: InstallFs,
    old_c: u64,
    new_c: u64,
) -> bool {
    match s {
        PromoteState::Backing => had_dest && fs.temp == Option::Some(new_c) && fs.dest
            == Option::Some(old_c) && fs.backup is None,
        PromoteState::Moving => had_dest && fs.temp == Option::Some(new_c) && fs.dest is None
            && fs.backup == Option::Some(old_c),
        PromoteState::MovingFresh => !had_dest && fs.temp == Option::Some(new_c) && fs.dest is None
            && fs.backup is None,
        PromoteState::Cleaning => had_dest && fs.dest == Option::Some(new_c) && fs.backup
            == Option::Some(old_c),
        PromoteState::Restoring => had_dest && fs.temp == Option::Some(new_c) && fs.dest is None
            && fs.backup == Option::Some(old_c),
        PromoteState::Complete => fs.dest == Option::Some(new_c),
        PromoteState::Aborted => {
            if had_dest {
                fs.dest == Option::Some(old_c) || (fs.dest is None && fs.backup == Option::Some(
                    old_c,
                ))
            } else {
                fs.dest is None
            }
        },
    }
}

/// The original content is never lost while it is still needed: at every
/// point of a promote over an existing final path, the final path holds
/// the old or the new content, or the backup holds the old one.
pub open spec fn content_preserved(fs: InstallFs, old_c: u64, new_c: u64) -> bool {
    fs.dest == Option::Some(old_c) || fs.dest == Option::Some(new_c) || fs.backup == Option::Some(
        old_c,
    )
}

impl PromoteMachine {
    /// Which state the machine is in.
    pub closed spec fn state(self) -> PromoteState {
        self.state
    }

    /// Whether the final path existed when the promote began.
    pub closed spec fn had_dest(self) -> bool {
        self.had_dest
    }

    /// Begins a promote; the caller reports whether the final path
    /// already exists and receives the first operation to perform.
    pub fn start(dest_exists: bool) -> (r: (PromoteMachine, RenameOp))
        ensures
            r.0.state() == if dest_exists {
                PromoteState::Backing
            } else {
                PromoteState::MovingFresh
            },
            r.0.had_dest() == dest_exists,
            Option::Some(r.1) == op_of(r.0.state()),
    {
        if dest_exists {
            (PromoteMachine { state: PromoteState::Backing, had_dest: true }, RenameOp::DestToBackup)
        } else {
            (
                PromoteMachine { state: PromoteState::MovingFresh, had_dest: false },
                RenameOp::TempToDest,
            )
        }
    }

    /// Reports the outcome of the operation the machine was waiting on;
    /// returns the next operation to perform, or `None` when the promote
    /// has completed or aborted.
    pub fn on_result(&mut self, ok: bool) -> (r: Option<RenameOp>)
        requires
            op_of(old(self).state()) is Some,
        ensures
            final(self).state() == promote_next(old(self).state(), ok),
            final(self).had_dest() == old(self).had_dest(),
            r == op_of(final(self).state()),
    {
        self.state = match self.state {
            PromoteState::Backing => if ok {
                PromoteState::Moving
            } else {
                PromoteState::Aborted
            },
            PromoteState::Moving => if ok {
                PromoteState::Cleaning
            } else {
                PromoteState::Restoring
            },
            PromoteState::MovingFresh => if ok {
                PromoteState::Complete
            } else {
                PromoteState::Aborted
            },
            PromoteState::Cleaning => PromoteState::Complete,
            PromoteState::Restoring => PromoteState::Aborted,
            PromoteState::Complete => PromoteState::Complete,
            PromoteState::Aborted => PromoteState::Aborted,
        };
        match self.state {
            PromoteState::Backing => Some(RenameOp::DestToBackup),
            PromoteState::Moving => Some(RenameOp::TempToDest),
            PromoteState::MovingFresh => Some(RenameOp::TempToDest),
            PromoteState::Cleaning => Some(RenameOp::DeleteBackup),
            PromoteState::Restoring => Some(RenameOp::BackupToDest),
            PromoteState::Complete => None,
            PromoteState::Aborted => None,
        }
    }

    /// Whether the promote has put the new artifact in place.
    pub fn is_complete(&self) -> (r: bool)
        ensures
            r == (self.state() == PromoteState::Complete),
    {
        matches!(self.state, PromoteState::Complete)
    }

    /// Whether the promote has failed.
    pub fn is_aborted(&self) -> (r: bool)
        ensures
            r == (self.state() == PromoteState::Aborted),
    {
        matches!(self.state, PromoteState::Aborted)
    }
}

/// The run of a promote: from state `s` over the model `fs`, performing
/// the awaited operation with each reported outcome in turn.
pub open spec fn promote_run(s: PromoteState, fs: InstallFs, results: Seq<bool>) -> (
    PromoteState,
    InstallFs,
)
    decreases results.len(),
{
    if results.len() == 0 {
        (s, fs)
    } else {
        match op_of(s) {
            Option::None => (s, fs),
            Option::Some(op) => promote_run(
                promote_next(s, results[0]),
                apply_op(fs, op, results[0]),
                results.drop_first(),
            ),
        }
    }
}

/// One step of a promote preserves the well-formedness relation.
pub proof fn lemma_promote_step_inv(
    s: PromoteState,
    op: RenameOp,
    had_dest: bool,
    fs: InstallFs,
    old_c: u64,
    new_c: u64,
    ok: bool,
)
    requires
        promote_inv(s, had_dest, fs, old_c, new_c),
        op_of(s) == Option::Some(op),
    ensures
        promote_inv(promote_next(s, ok), had_dest, apply_op(fs, op, ok), old_c, new_c),
{
}

/// A whole promote run preserves the well-formedness relation, whatever
/// outcomes the filesystem reports.
pub proof fn lemma_promote_run_inv(
    s: PromoteState,
    had_dest: bool,
    fs: InstallFs,
    old_c: u64,
    new_c: u64,
    results: Seq<bool>,
)
    requires
        promote_inv(s, had_dest, fs, old_c, new_c),
    ensures
        promote_inv(
            promote_run(s, fs, results).0,
            had_dest,
            promote_run(s, fs, results).1,
            old_c,
            new_c,
        ),
    decreases results.len(),
{
    if results.len() > 0 {
        match op_of(s) {
            Option::None => {},
            Option::Some(op) => {
                lemma_promote_step_inv(s, op, had_dest, fs, old_c, new_c, results[0]);
                lemma_promote_run_inv(
                    promote_next(s, results[0]),
                    had_dest,
                    apply_op(fs, op, results[0]),
                    old_c,
                    new_c,
                    results.drop_first(),
                );
            },
        }
    }
}

/// Atomicity under fault: whatever outcomes the filesystem reports, a
/// promote over an existing final path never reaches a point where both
/// the old and the new content are unreachable; and whenever it ends
/// complete, the new content is at the final path, while whenever it
/// ends aborted, the old content is at the final path or still held at
/// the backup.
pub proof fn lemma_promote_atomic(fs: InstallFs, old_c: u64, new_c: u64, results: Seq<bool>)
    requires
        fs.temp == Option::Some(new_c),
        fs.dest == Option::Some(old_c),
        fs.backup is None,
    ensures
        content_preserved(promote_run(PromoteState::Backing, fs, results).1, old_c, new_c),
        promote_run(PromoteState::Backing, fs, results).0 == PromoteState::Complete ==> promote_run(
            PromoteState::Backing,
            fs,
            results,
        ).1.dest == Option::Some(new_c),
        promote_run(PromoteState::Backing, fs, results).0 == PromoteState::Aborted ==> {
            let end = promote_run(PromoteState::Backing, fs, results).1;
            end.dest == Option::Some(old_c) || (end.dest is None && end.backup == Option::Some(
                old_c,
            ))
        },
{
    lemma_promote_run_inv(PromoteState::Backing, true, fs, old_c, new_c, results);
    lemma_promote_run_preserves(PromoteState::Backing, true, fs, old_c, new_c, results);
}

/// Helper for [`lemma_promote_atomic`]: every intermediate and final
/// model of a run from a well-formed state keeps the content reachable.
proof fn lemma_promote_run_preserves(
    s: PromoteState,
    had_dest: bool,
    fs: InstallFs,
    old_c: u64,
    new_c: u64,
    results: Seq<bool>,
)
    requires
        had_dest,
        promote_inv(s, had_dest, fs, old_c, new_c),
    ensures
        content_preserved(promote_run(s, fs, results).1, old_c, new_c),
    decreases results.len(),
{
    if results.len() == 0 {
    } else {
        match op_of(s) {
            Option::None => {},
            Option::Some(op) => {
                lemma_promote_step_inv(s, op, had_dest, fs, old_c, new_c, results[0]);
                lemma_promote_run_preserves(
                    promote_next(s, results[0]),
                    had_dest,
                    apply_op(fs, op, results[0]),
                    old_c,
                    new_c,
                    results.drop_first(),
                );
            },
        }
    }
}

/// The paths of one install transaction; created per install, alive only
/// for the duration of one promote.
pub struct InstallTransaction {
    /// Where the validated artifact currently sits.
    pub temp_path: String,
    /// Where it must become visible.
    pub final_path: String,
    /// Where the previous artifact is parked: the final path plus a
    /// timestamped suffix.
    pub backup_path: String,
}

impl InstallTransaction {
    /// Builds the transaction, deriving the backup path from the final
    /// path and a timestamp.
    pub fn new(temp_path: String, final_path: String, timestamp: u64) -> (r: InstallTransaction)
        ensures
            r.temp_path@ == temp_path@,
            r.final_path@ == final_path@,
            r.backup_path@ == final_path@ + ".backup-"@ + dec_of(timestamp as nat),
    {
        let backup_path = final_path.clone().concat(".backup-").concat(
            crate::text::u64_to_dec(timestamp).as_str(),
        );
        InstallTransaction { temp_path, final_path, backup_path }
    }
}

} // verus!
