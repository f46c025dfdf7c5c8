//! The lifecycle orchestrator.  Each container operation is an explicit
//! state machine: the machine decides, and the driver performs one
//! external action per step (a probe, a listing, a subprocess, a file
//! write) and hands the outcome back as an event.  Every transition,
//! including how each external failure is wrapped into the error
//! taxonomy, is pinned down by a transition relation; the only freedom
//! left open is the timestamp snapshot, which the clock decides.
//!
//! The machines enforce the order of operations: a container is
//! never unlocked while already unlocked, the integrity check runs
//! after the unlock and is scoped to faults stamped no earlier than the
//! snapshot taken then, a detected fault locks the mapping again before
//! the failure is surfaced, and a close unmounts before it locks.

use vstd::prelude::*;

verus! {

use crate::derivation::transfer_secret;
use crate::derivation::transfer_secret_spec;
use crate::errors::SecureContainerErr;
use crate::probes::check_container_open;
use crate::probes::check_integrity;
use crate::probes::check_lsblk;
use crate::probes::crypt_line_for;
use crate::probes::integrity_fault_since;
use crate::probes::lsblk_lists_name;
use crate::probes::mapper_line_for;
use crate::probes::check_container_mounted;
use crate::probes::integrity_unsupported;
use crate::requests::Close;
use crate::requests::Create;
use crate::requests::Export;
use crate::requests::Import;
use crate::requests::Open;
use crate::probes::check_functionality_of_integrity;
use vstd::utf8::encode_utf8;
use vstd::utf8::is_ascii_chars;
use vstd::string::StringExecFnsIsAscii;
use crate::validation::check_fields;
use crate::validation::validate_spec;
use vstd::string::StringExecFns;

/// How an external command failed: it could not be started, it exited
/// with a failure status (the payload is its diagnostic output), or its
/// output was not valid text.
pub enum CmdFailure {
    Launch(String),
    Exit(String),
    Decode(String),
}

/// How a file operation failed.
pub enum FileFailure {
    Create(String),
    Write(String),
    OpenFile(String),
    Read(String),
}

/// One external action the driver must perform next.
pub enum Action {
    /// Probe the environment for validation: is `mount_point` an
    /// existing directory, is there a file at `path`, and is that file
    /// a valid encrypted container.
    ProbeEnv { mount_point: Option<String>, path: Option<String> },
    /// Is there a file at `path`?
    ProbeFile { path: String },
    /// Is `path` an existing directory?
    ProbeDir { path: String },
    /// Run the plain block-device listing and capture its output.
    ListBlockDevices,
    /// Run the detailed block-device listing (name, type, mount point).
    ListBlockDevicesDetailed,
    /// List the mapper-device directory.
    ListMapperDevices,
    /// Read the kernel log with sortable timestamps.
    ReadKernelLog,
    /// Drive one hardware derivation session for `id` and hand back the
    /// encoded secret.
    DeriveSecret { id: String },
    /// Create a zero-filled backing file of `size` MB named
    /// `namespace` under `path`.
    CreateBackingFile { size: i32, path: String, namespace: String },
    /// Format the file at `device_path` as an encrypted container, the
    /// secret piped to standard input.
    FormatContainer { device_path: String, secret: String },
    /// Unlock the container at `path` under the mapping name
    /// `namespace`, the secret piped to standard input.
    Unlock { path: String, namespace: String, secret: String },
    /// Close the mapping `namespace`.
    Lock { namespace: String },
    /// Create a filesystem on the mapped device `namespace`.
    MakeFilesystem { namespace: String },
    /// Mount the mapped device `namespace` at `mount_point`.
    Mount { mount_point: String, namespace: String },
    /// Unmount whatever is mounted at `mount_point`.
    Unmount { mount_point: String },
    /// Replace `old_secret` with `new_secret` on the container at
    /// `path`, both piped to standard input.
    ChangeSecret { path: String, old_secret: String, new_secret: String },
    /// Append one entry to the auto-open registry file.
    AppendRegistry { mount_point: String, path: String, namespace: String, id: String },
}

/// One outcome the driver hands back.
pub enum Event {
    /// Answers `ProbeEnv`.
    Env { mount_point_is_dir: bool, path_is_file: bool, path_is_container: bool },
    /// Answers `ProbeFile` and `ProbeDir`.
    Flag(bool),
    /// Answers the listing and log actions: the captured output text.
    Output(Result<String, CmdFailure>),
    /// Answers `DeriveSecret`.
    Secret(Result<String, SecureContainerErr>),
    /// Answers the acting commands (format, unlock, lock, make a
    /// filesystem, mount, unmount, change secret).
    Done(Result<(), CmdFailure>),
    /// Answers `CreateBackingFile` and `AppendRegistry`.
    Stored(Result<(), FileFailure>),
}

/// The error owed to a failure of the block-device listing.
pub open spec fn lsblk_err(f: CmdFailure) -> SecureContainerErr {
    match f {
        CmdFailure::Launch(e) => SecureContainerErr::LsblkError(e),
        CmdFailure::Exit(e) => SecureContainerErr::LsblkError(e),
        CmdFailure::Decode(e) => SecureContainerErr::ReadingStdoutError(e),
    }
}

/// The error owed to a failure of the mapper-directory listing.
pub open spec fn ls_err(f: CmdFailure) -> SecureContainerErr {
    match f {
        CmdFailure::Launch(e) => SecureContainerErr::LsError(e),
        CmdFailure::Exit(e) => SecureContainerErr::LsError(e),
        CmdFailure::Decode(e) => SecureContainerErr::ReadingStdoutError(e),
    }
}

/// The error owed to a failure of the disk-encryption tool or the log
/// reader.
pub open spec fn cryptsetup_err(f: CmdFailure) -> SecureContainerErr {
    match f {
        CmdFailure::Launch(e) => SecureContainerErr::CryptsetupError(e),
        CmdFailure::Exit(e) => SecureContainerErr::CryptsetupError(e),
        CmdFailure::Decode(e) => SecureContainerErr::ReadingStdoutError(e),
    }
}

/// The error owed to a failure of filesystem creation.
pub open spec fn mkfs_err(f: CmdFailure) -> SecureContainerErr {
    match f {
        CmdFailure::Launch(e) => SecureContainerErr::MkfsError(e),
        CmdFailure::Exit(e) => SecureContainerErr::MkfsError(e),
        CmdFailure::Decode(e) => SecureContainerErr::MkfsError(e),
    }
}

/// The error owed to a failed mount.
pub open spec fn mount_err(f: CmdFailure) -> SecureContainerErr {
    match f {
        CmdFailure::Launch(e) => SecureContainerErr::MountError(e),
        CmdFailure::Exit(e) => SecureContainerErr::MountError(e),
        CmdFailure::Decode(e) => SecureContainerErr::MountError(e),
    }
}

/// The error owed to a failed unmount.
pub open spec fn umount_err(f: CmdFailure) -> SecureContainerErr {
    match f {
        CmdFailure::Launch(e) => SecureContainerErr::UmountError(e),
        CmdFailure::Exit(e) => SecureContainerErr::UmountError(e),
        CmdFailure::Decode(e) => SecureContainerErr::UmountError(e),
    }
}

/// The error owed to a failed file operation.
pub open spec fn file_err(f: FileFailure) -> SecureContainerErr {
    match f {
        FileFailure::Create(e) => SecureContainerErr::FileCreationError(e),
        FileFailure::Write(e) => SecureContainerErr::FileWriteError(e),
        FileFailure::OpenFile(e) => SecureContainerErr::FileOpenError(e),
        FileFailure::Read(e) => SecureContainerErr::FileReadError(e),
    }
}

/// Wraps a block-device listing failure.
fn map_lsblk_err(f: CmdFailure) -> (r: SecureContainerErr)
    ensures
        r == lsblk_err(f),
{
    match f {
        CmdFailure::Launch(e) => SecureContainerErr::LsblkError(e),
        CmdFailure::Exit(e) => SecureContainerErr::LsblkError(e),
        CmdFailure::Decode(e) => SecureContainerErr::ReadingStdoutError(e),
    }
}

/// Wraps a mapper-directory listing failure.
fn map_ls_err(f: CmdFailure) -> (r: SecureContainerErr)
    ensures
        r == ls_err(f),
{
    match f {
        CmdFailure::Launch(e) => SecureContainerErr::LsError(e),
        CmdFailure::Exit(e) => SecureContainerErr::LsError(e),
        CmdFailure::Decode(e) => SecureContainerErr::ReadingStdoutError(e),
    }
}

/// Wraps a disk-encryption-tool failure.
fn map_cryptsetup_err(f: CmdFailure) -> (r: SecureContainerErr)
    ensures
        r == cryptsetup_err(f),
{
    match f {
        CmdFailure::Launch(e) => SecureContainerErr::CryptsetupError(e),
        CmdFailure::Exit(e) => SecureContainerErr::CryptsetupError(e),
        CmdFailure::Decode(e) => SecureContainerErr::ReadingStdoutError(e),
    }
}

/// Wraps a filesystem-creation failure.
fn map_mkfs_err(f: CmdFailure) -> (r: SecureContainerErr)
    ensures
        r == mkfs_err(f),
{
    match f {
        CmdFailure::Launch(e) => SecureContainerErr::MkfsError(e),
        CmdFailure::Exit(e) => SecureContainerErr::MkfsError(e),
        CmdFailure::Decode(e) => SecureContainerErr::MkfsError(e),
    }
}

/// Wraps a mount failure.
fn map_mount_err(f: CmdFailure) -> (r: SecureContainerErr)
    ensures
        r == mount_err(f),
{
    match f {
        CmdFailure::Launch(e) => SecureContainerErr::MountError(e),
        CmdFailure::Exit(e) => SecureContainerErr::MountError(e),
        CmdFailure::Decode(e) => SecureContainerErr::MountError(e),
    }
}

/// Wraps an unmount failure.
fn map_umount_err(f: CmdFailure) -> (r: SecureContainerErr)
    ensures
        r == umount_err(f),
{
    match f {
        CmdFailure::Launch(e) => SecureContainerErr::UmountError(e),
        CmdFailure::Exit(e) => SecureContainerErr::UmountError(e),
        CmdFailure::Decode(e) => SecureContainerErr::UmountError(e),
    }
}

/// Wraps a file-operation failure.
fn map_file_err(f: FileFailure) -> (r: SecureContainerErr)
    ensures
        r == file_err(f),
{
    match f {
        FileFailure::Create(e) => SecureContainerErr::FileCreationError(e),
        FileFailure::Write(e) => SecureContainerErr::FileWriteError(e),
        FileFailure::OpenFile(e) => SecureContainerErr::FileOpenError(e),
        FileFailure::Read(e) => SecureContainerErr::FileReadError(e),
    }
}

/// Relies on chrono::Local::now, formatted as `%Y-%m-%dT%H:%M`: the
/// current local time in a sortable date-time form.  The clock decides
/// the result, so nothing is promised of it.
#[verifier::external_body]
fn now_timestamp() -> String {
    chrono::Local::now().format("%Y-%m-%dT%H:%M").to_string()
}

/// The state of one open operation.
pub enum OpenFlow {
    /// Awaiting the environment probes for validation.
    Validating { req: Open },
    /// Awaiting the detailed listing: the container must not already be
    /// unlocked.
    CheckingOpen { req: Open },
    /// Awaiting the derived device-bound secret.
    Deriving { req: Open },
    /// Awaiting the plain listing, taken before the unlock: did a
    /// mapping with this name pre-exist?
    CheckingPreexisting { req: Open, secret: String },
    /// Awaiting the unlock outcome.
    Unlocking { req: Open, preexisting: bool },
    /// Awaiting the kernel log; only faults stamped at or after `since`
    /// (snapshotted right after the unlock) count.
    CheckingIntegrity { req: Open, preexisting: bool, since: String },
    /// A fault was found: awaiting the undoing lock before failing.
    LockingAfterFault { req: Open },
    /// Awaiting filesystem creation on the freshly mapped device.
    MakingFilesystem { req: Open },
    /// Awaiting the mount.
    Mounting { req: Open },
    Done,
    Failed { error: SecureContainerErr },
}

impl OpenFlow {
    /// Whether the operation is still running.
    pub open spec fn in_progress(self) -> bool {
        !(self is Done || self is Failed)
    }

    /// The event kind the state is waiting on.
    pub open spec fn accepts(self, e: Event) -> bool {
        match (self, e) {
            (OpenFlow::Validating { .. }, Event::Env { .. }) => true,
            (OpenFlow::CheckingOpen { .. }, Event::Output(_)) => true,
            (OpenFlow::Deriving { .. }, Event::Secret(_)) => true,
            (OpenFlow::CheckingPreexisting { .. }, Event::Output(_)) => true,
            (OpenFlow::Unlocking { .. }, Event::Done(_)) => true,
            (OpenFlow::CheckingIntegrity { .. }, Event::Output(_)) => true,
            (OpenFlow::LockingAfterFault { .. }, Event::Done(_)) => true,
            (OpenFlow::MakingFilesystem { .. }, Event::Done(_)) => true,
            (OpenFlow::Mounting { .. }, Event::Done(_)) => true,
            _ => false,
        }
    }

    /// Starts an open: first the environment is probed for validation.
    pub fn start(req: Open) -> (r: (OpenFlow, Action))
        ensures
            r.0 == (OpenFlow::Validating { req }),
            r.1 == (Action::ProbeEnv {
                mount_point: Some(req.mount_point),
                path: Some(req.path),
            }),
    {
        let action = Action::ProbeEnv {
            mount_point: Some(req.mount_point.clone()),
            path: Some(req.path.clone()),
        };
        (OpenFlow::Validating { req }, action)
    }

    /// Feeds the outcome of the pending action and returns the next
    /// state with the next action, if one is owed.
    pub fn step(self, event: Event) -> (r: (OpenFlow, Option<Action>))
        requires
            self.accepts(event),
        ensures
            open_transition(self, event, r.0, r.1),
    {
        match (self, event) {
            (
                OpenFlow::Validating { req },
                Event::Env { mount_point_is_dir, path_is_file, path_is_container },
            ) => {
                let checked = check_fields(
                    None,
                    Some(mount_point_is_dir),
                    Some(req.path.as_str()),
                    path_is_file,
                    path_is_container,
                    Some(req.namespace.as_str()),
                    Some(req.id.as_str()),
                );
                match checked {
                    Ok(()) => (
                        OpenFlow::CheckingOpen { req },
                        Some(Action::ListBlockDevicesDetailed),
                    ),
                    Err(error) => (OpenFlow::Failed { error }, None),
                }
            },
            (OpenFlow::CheckingOpen { req }, Event::Output(res)) => match res {
                Ok(text) => {
                    if check_container_open(req.namespace.as_str(), text.as_str()) {
                        (OpenFlow::Failed { error: SecureContainerErr::ContainerOpen }, None)
                    } else {
                        let action = Action::DeriveSecret { id: req.id.clone() };
                        (OpenFlow::Deriving { req }, Some(action))
                    }
                },
                Err(f) => (OpenFlow::Failed { error: map_lsblk_err(f) }, None),
            },
            (OpenFlow::Deriving { req }, Event::Secret(res)) => match res {
                Ok(secret) => (
                    OpenFlow::CheckingPreexisting { req, secret },
                    Some(Action::ListBlockDevices),
                ),
                Err(error) => (OpenFlow::Failed { error }, None),
            },
            (OpenFlow::CheckingPreexisting { req, secret }, Event::Output(res)) => match res {
                Ok(text) => {
                    let preexisting = check_lsblk(req.namespace.as_str(), text.as_str());
                    let action = Action::Unlock {
                        path: req.path.clone(),
                        namespace: req.namespace.clone(),
                        secret,
                    };
                    (OpenFlow::Unlocking { req, preexisting }, Some(action))
                },
                Err(f) => (OpenFlow::Failed { error: map_lsblk_err(f) }, None),
            },
            (OpenFlow::Unlocking { req, preexisting }, Event::Done(res)) => match res {
                Ok(()) => {
                    let since = now_timestamp();
                    (
                        OpenFlow::CheckingIntegrity { req, preexisting, since },
                        Some(Action::ReadKernelLog),
                    )
                },
                Err(f) => (OpenFlow::Failed { error: map_cryptsetup_err(f) }, None),
            },
            (OpenFlow::CheckingIntegrity { req, preexisting, since }, Event::Output(res)) =>
                match res {
                Ok(log) => {
                    if !check_integrity(since.as_str(), log.as_str()) {
                        let action = Action::Lock { namespace: req.namespace.clone() };
                        (OpenFlow::LockingAfterFault { req }, Some(action))
                    } else if !preexisting {
                        let action = Action::MakeFilesystem { namespace: req.namespace.clone() };
                        (OpenFlow::MakingFilesystem { req }, Some(action))
                    } else {
                        let action = Action::Mount {
                            mount_point: req.mount_point.clone(),
                            namespace: req.namespace.clone(),
                        };
                        (OpenFlow::Mounting { req }, Some(action))
                    }
                },
                Err(f) => (OpenFlow::Failed { error: map_cryptsetup_err(f) }, None),
            },
            (OpenFlow::LockingAfterFault { req: _ }, Event::Done(res)) => match res {
                Ok(()) => (OpenFlow::Failed { error: SecureContainerErr::IntegrityError }, None),
                Err(f) => (OpenFlow::Failed { error: map_cryptsetup_err(f) }, None),
            },
            (OpenFlow::MakingFilesystem { req }, Event::Done(res)) => match res {
                Ok(()) => {
                    let action = Action::Mount {
                        mount_point: req.mount_point.clone(),
                        namespace: req.namespace.clone(),
                    };
                    (OpenFlow::Mounting { req }, Some(action))
                },
                Err(f) => (OpenFlow::Failed { error: map_mkfs_err(f) }, None),
            },
            (OpenFlow::Mounting { req: _ }, Event::Done(res)) => match res {
                Ok(()) => (OpenFlow::Done, None),
                Err(f) => (OpenFlow::Failed { error: map_mount_err(f) }, None),
            },
            // excluded by the precondition
            _ => (OpenFlow::Done, None),
        }
    }
}

/// The transition relation of the open operation: exact but for the
/// timestamp snapshot, which the clock decides.
pub open spec fn open_transition(s: OpenFlow, e: Event, t: OpenFlow, a: Option<Action>) -> bool {
    match (s, e) {
        (
            OpenFlow::Validating { req },
            Event::Env { mount_point_is_dir, path_is_file, path_is_container },
        ) => {
            match validate_spec(
                None,
                Some(mount_point_is_dir),
                Some(req.path@),
                path_is_file,
                path_is_container,
                Some(req.namespace@),
                Some(req.id@),
            ) {
                Ok(()) => t == (OpenFlow::CheckingOpen { req }) && a == Some(
                    Action::ListBlockDevicesDetailed,
                ),
                Err(error) => t == (OpenFlow::Failed { error }) && a is None,
            }
        },
        (OpenFlow::CheckingOpen { req }, Event::Output(res)) => match res {
            Ok(text) => {
                if crypt_line_for(text@, req.namespace@) {
                    t == (OpenFlow::Failed { error: SecureContainerErr::ContainerOpen }) && a
                        is None
                } else {
                    t == (OpenFlow::Deriving { req }) && a == Some(Action::DeriveSecret {
                        id: req.id,
                    })
                }
            },
            Err(f) => t == (OpenFlow::Failed { error: lsblk_err(f) }) && a is None,
        },
        (OpenFlow::Deriving { req }, Event::Secret(res)) => match res {
            Ok(secret) => t == (OpenFlow::CheckingPreexisting { req, secret }) && a == Some(
                Action::ListBlockDevices,
            ),
            Err(error) => t == (OpenFlow::Failed { error }) && a is None,
        },
        (OpenFlow::CheckingPreexisting { req, secret }, Event::Output(res)) => match res {
            Ok(text) => t == (OpenFlow::Unlocking {
                req,
                preexisting: lsblk_lists_name(text@, req.namespace@),
            }) && a == Some(Action::Unlock { path: req.path, namespace: req.namespace, secret }),
            Err(f) => t == (OpenFlow::Failed { error: lsblk_err(f) }) && a is None,
        },
        (OpenFlow::Unlocking { req, preexisting }, Event::Done(res)) => match res {
            Ok(()) => (t matches OpenFlow::CheckingIntegrity {
                req: treq,
                preexisting: tpre,
                since: _,
            } && treq == req && tpre == preexisting) && a == Some(Action::ReadKernelLog),
            Err(f) => t == (OpenFlow::Failed { error: cryptsetup_err(f) }) && a is None,
        },
        (OpenFlow::CheckingIntegrity { req, preexisting, since }, Event::Output(res)) => match res {
            Ok(log) => {
                if integrity_fault_since(log@, since@) {
                    t == (OpenFlow::LockingAfterFault { req }) && a == Some(Action::Lock {
                        namespace: req.namespace,
                    })
                } else if !preexisting {
                    t == (OpenFlow::MakingFilesystem { req }) && a == Some(
                        Action::MakeFilesystem { namespace: req.namespace },
                    )
                } else {
                    t == (OpenFlow::Mounting { req }) && a == Some(Action::Mount {
                        mount_point: req.mount_point,
                        namespace: req.namespace,
                    })
                }
            },
            Err(f) => t == (OpenFlow::Failed { error: cryptsetup_err(f) }) && a is None,
        },
        (OpenFlow::LockingAfterFault { .. }, Event::Done(res)) => match res {
            Ok(()) => t == (OpenFlow::Failed { error: SecureContainerErr::IntegrityError }) && a
                is None,
            Err(f) => t == (OpenFlow::Failed { error: cryptsetup_err(f) }) && a is None,
        },
        (OpenFlow::MakingFilesystem { req }, Event::Done(res)) => match res {
            Ok(()) => t == (OpenFlow::Mounting { req }) && a == Some(Action::Mount {
                mount_point: req.mount_point,
                namespace: req.namespace,
            }),
            Err(f) => t == (OpenFlow::Failed { error: mkfs_err(f) }) && a is None,
        },
        (OpenFlow::Mounting { .. }, Event::Done(res)) => match res {
            Ok(()) => t == OpenFlow::Done && a is None,
            Err(f) => t == (OpenFlow::Failed { error: mount_err(f) }) && a is None,
        },
        _ => false,
    }
}

/// The state of one close operation.  Order matters: the unmount must
/// precede the lock, because the mapping cannot be removed while a
/// filesystem is mounted on it.
pub enum CloseFlow {
    /// Awaiting the environment probe for validation.
    Validating { req: Close },
    /// Awaiting the unmount outcome.
    Unmounting { req: Close },
    /// Awaiting the lock outcome.
    Locking,
    Done,
    Failed { error: SecureContainerErr },
}

impl CloseFlow {
    /// Whether the operation is still running.
    pub open spec fn in_progress(self) -> bool {
        !(self is Done || self is Failed)
    }

    /// The event kind the state is waiting on.
    pub open spec fn accepts(self, e: Event) -> bool {
        match (self, e) {
            (CloseFlow::Validating { .. }, Event::Env { .. }) => true,
            (CloseFlow::Unmounting { .. }, Event::Done(_)) => true,
            (CloseFlow::Locking, Event::Done(_)) => true,
            _ => false,
        }
    }

    /// Starts a close: first the mount point is probed for validation.
    pub fn start(req: Close) -> (r: (CloseFlow, Action))
        ensures
            r.0 == (CloseFlow::Validating { req }),
            r.1 == (Action::ProbeEnv { mount_point: Some(req.mount_point), path: None }),
    {
        let action = Action::ProbeEnv {
            mount_point: Some(req.mount_point.clone()),
            path: None,
        };
        (CloseFlow::Validating { req }, action)
    }

    /// Feeds the outcome of the pending action.
    pub fn step(self, event: Event) -> (r: (CloseFlow, Option<Action>))
        requires
            self.accepts(event),
        ensures
            close_transition(self, event, r.0, r.1),
    {
        match (self, event) {
            (
                CloseFlow::Validating { req },
                Event::Env { mount_point_is_dir, path_is_file, path_is_container },
            ) => {
                let checked = check_fields(
                    None,
                    Some(mount_point_is_dir),
                    None,
                    path_is_file,
                    path_is_container,
                    Some(req.namespace.as_str()),
                    None,
                );
                match checked {
                    Ok(()) => {
                        let action = Action::Unmount { mount_point: req.mount_point.clone() };
                        (CloseFlow::Unmounting { req }, Some(action))
                    },
                    Err(error) => (CloseFlow::Failed { error }, None),
                }
            },
            (CloseFlow::Unmounting { req }, Event::Done(res)) => match res {
                Ok(()) => (
                    CloseFlow::Locking,
                    Some(Action::Lock { namespace: req.namespace }),
                ),
                Err(f) => (CloseFlow::Failed { error: map_umount_err(f) }, None),
            },
            (CloseFlow::Locking, Event::Done(res)) => match res {
                Ok(()) => (CloseFlow::Done, None),
                Err(f) => (CloseFlow::Failed { error: map_cryptsetup_err(f) }, None),
            },
            // excluded by the precondition
            _ => (CloseFlow::Done, None),
        }
    }
}

/// The backing-file path of a container: `path`/`namespace`.
pub open spec fn device_path_spec(path: Seq<char>, ns: Seq<char>) -> Seq<char> {
    path + seq!['/'] + ns
}

/// Joins the backing directory and the container name into the
/// backing-file path.
fn join_path(path: &str, ns: &str) -> (r: String)
    ensures
        r@ == device_path_spec(path@, ns@),
{
    proof {
        reveal_strlit("/");
        assert("/"@ =~= seq!['/']);
    }
    path.to_owned().concat("/").concat(ns)
}

/// The state of one create operation.  Creation is deliberately not
/// transactional: a step that fails aborts the operation and earlier
/// effects, such as an allocated backing file, are left in place.
pub enum CreateFlow {
    /// Awaiting the environment probe for validation.
    Validating { req: Create },
    /// Awaiting the probe for a file already at the backing path.
    CheckingFile { req: Create },
    /// Awaiting the plain listing: the mapping name must be free.
    CheckingName { req: Create },
    /// Awaiting the probe for the backing directory.
    CheckingDir { req: Create },
    /// Awaiting the allocation of the zero-filled backing file.
    CreatingFile { req: Create },
    /// Awaiting the derived secret the container is formatted with.
    DerivingFormatSecret { req: Create },
    /// Awaiting the formatting of the backing file.
    Formatting { req: Create },
    /// Awaiting the kernel log: a missing self-test for the
    /// authenticated-encryption algorithm only warns.
    CheckingIntegritySupport { req: Create },
    /// Running the embedded open operation.
    Opening { req: Create, warned: bool, inner: OpenFlow },
    /// Awaiting the registry append for automatic opening.
    Registering { warned: bool },
    /// Finished; `warned` reports the missing-self-test diagnostic.
    Done { warned: bool },
    Failed { error: SecureContainerErr },
}

/// How the create operation wraps each outcome of its embedded open:
/// success moves on to registration when automatic opening was asked
/// for, an open failure is the create failure, and anything else keeps
/// the open running.
pub open spec fn create_glue(
    req: Create,
    warned: bool,
    ti: OpenFlow,
    ai: Option<Action>,
    t: CreateFlow,
    a: Option<Action>,
) -> bool {
    match ti {
        OpenFlow::Done => {
            if req.auto_open {
                t == (CreateFlow::Registering { warned }) && a == Some(Action::AppendRegistry {
                    mount_point: req.mount_point,
                    path: req.path,
                    namespace: req.namespace,
                    id: req.id,
                })
            } else {
                t == (CreateFlow::Done { warned }) && a is None
            }
        },
        OpenFlow::Failed { error } => t == (CreateFlow::Failed { error }) && a is None,
        _ => t == (CreateFlow::Opening { req, warned, inner: ti }) && a == ai,
    }
}

/// The transition relation of the create operation.
pub open spec fn create_transition(s: CreateFlow, e: Event, t: CreateFlow, a: Option<Action>)
    -> bool {
    match (s, e) {
        (
            CreateFlow::Validating { req },
            Event::Env { mount_point_is_dir, path_is_file, path_is_container },
        ) => {
            match validate_spec(
                Some(req.size),
                Some(mount_point_is_dir),
                None,
                path_is_file,
                path_is_container,
                Some(req.namespace@),
                Some(req.id@),
            ) {
                Ok(()) => t == (CreateFlow::CheckingFile { req }) && (a matches Some(
                    Action::ProbeFile { path },
                ) && path@ == device_path_spec(req.path@, req.namespace@)),
                Err(error) => t == (CreateFlow::Failed { error }) && a is None,
            }
        },
        (CreateFlow::CheckingFile { req }, Event::Flag(found)) => {
            if found {
                t == (CreateFlow::Failed { error: SecureContainerErr::FileExists }) && a is None
            } else {
                t == (CreateFlow::CheckingName { req }) && a == Some(Action::ListBlockDevices)
            }
        },
        (CreateFlow::CheckingName { req }, Event::Output(res)) => match res {
            Ok(text) => {
                if lsblk_lists_name(text@, req.namespace@) {
                    t == (CreateFlow::Failed { error: SecureContainerErr::ContainerNameExists })
                        && a is None
                } else {
                    t == (CreateFlow::CheckingDir { req }) && a == Some(Action::ProbeDir {
                        path: req.path,
                    })
                }
            },
            Err(f) => t == (CreateFlow::Failed { error: lsblk_err(f) }) && a is None,
        },
        (CreateFlow::CheckingDir { req }, Event::Flag(found)) => {
            if !found {
                t == (CreateFlow::Failed { error: SecureContainerErr::PathNotExists }) && a
                    is None
            } else {
                t == (CreateFlow::CreatingFile { req }) && a == Some(Action::CreateBackingFile {
                    size: req.size,
                    path: req.path,
                    namespace: req.namespace,
                })
            }
        },
        (CreateFlow::CreatingFile { req }, Event::Stored(res)) => match res {
            Ok(()) => t == (CreateFlow::DerivingFormatSecret { req }) && a == Some(
                Action::DeriveSecret { id: req.id },
            ),
            Err(f) => t == (CreateFlow::Failed { error: file_err(f) }) && a is None,
        },
        (CreateFlow::DerivingFormatSecret { req }, Event::Secret(res)) => match res {
            Ok(secret) => t == (CreateFlow::Formatting { req }) && (a matches Some(
                Action::FormatContainer { device_path, secret: s },
            ) && device_path@ == device_path_spec(req.path@, req.namespace@) && s == secret),
            Err(_) => (t matches CreateFlow::Failed { error } && error matches
                SecureContainerErr::StdinError(m) && m@ == "Error getting password"@) && a
                is None,
        },
        (CreateFlow::Formatting { req }, Event::Done(res)) => match res {
            Ok(()) => t == (CreateFlow::CheckingIntegritySupport { req }) && a == Some(
                Action::ReadKernelLog,
            ),
            Err(f) => t == (CreateFlow::Failed { error: cryptsetup_err(f) }) && a is None,
        },
        (CreateFlow::CheckingIntegritySupport { req }, Event::Output(res)) => match res {
            Ok(log) => {
                (t matches CreateFlow::Opening { req: treq, warned, inner: tinner } && treq == req
                    && warned == integrity_unsupported(log@) && (tinner matches
                OpenFlow::Validating { req: oreq } && oreq.mount_point == req.mount_point
                    && oreq.path@ == device_path_spec(req.path@, req.namespace@) && oreq.namespace
                    == req.namespace && oreq.id == req.id)) && (a matches Some(Action::ProbeEnv {
                    mount_point: Some(mp),
                    path: Some(p),
                }) && mp == req.mount_point && p@ == device_path_spec(req.path@, req.namespace@))
            },
            Err(f) => t == (CreateFlow::Failed { error: cryptsetup_err(f) }) && a is None,
        },
        (CreateFlow::Opening { req, warned, inner }, e2) => {
            exists|ti: OpenFlow, ai: Option<Action>|
                #[trigger] open_transition(inner, e2, ti, ai) && create_glue(
                    req,
                    warned,
                    ti,
                    ai,
                    t,
                    a,
                )
        },
        (CreateFlow::Registering { warned }, Event::Stored(res)) => match res {
            Ok(()) => t == (CreateFlow::Done { warned }) && a is None,
            Err(f) => t == (CreateFlow::Failed { error: file_err(f) }) && a is None,
        },
        _ => false,
    }
}

impl CreateFlow {
    /// Whether the operation is still running.
    pub open spec fn in_progress(self) -> bool {
        !(self is Done || self is Failed)
    }

    /// The event kind the state is waiting on.
    pub open spec fn accepts(self, e: Event) -> bool {
        match (self, e) {
            (CreateFlow::Validating { .. }, Event::Env { .. }) => true,
            (CreateFlow::CheckingFile { .. }, Event::Flag(_)) => true,
            (CreateFlow::CheckingName { .. }, Event::Output(_)) => true,
            (CreateFlow::CheckingDir { .. }, Event::Flag(_)) => true,
            (CreateFlow::CreatingFile { .. }, Event::Stored(_)) => true,
            (CreateFlow::DerivingFormatSecret { .. }, Event::Secret(_)) => true,
            (CreateFlow::Formatting { .. }, Event::Done(_)) => true,
            (CreateFlow::CheckingIntegritySupport { .. }, Event::Output(_)) => true,
            (CreateFlow::Opening { inner, .. }, _) => inner.accepts(e),
            (CreateFlow::Registering { .. }, Event::Stored(_)) => true,
            _ => false,
        }
    }

    /// Starts a create: first the mount point is probed for validation.
    pub fn start(req: Create) -> (r: (CreateFlow, Action))
        ensures
            r.0 == (CreateFlow::Validating { req }),
            r.1 == (Action::ProbeEnv { mount_point: Some(req.mount_point), path: None }),
    {
        let action = Action::ProbeEnv {
            mount_point: Some(req.mount_point.clone()),
            path: None,
        };
        (CreateFlow::Validating { req }, action)
    }

    /// Feeds the outcome of the pending action.
    pub fn step(self, event: Event) -> (r: (CreateFlow, Option<Action>))
        requires
            self.accepts(event),
        ensures
            create_transition(self, event, r.0, r.1),
    {
        match (self, event) {
            (
                CreateFlow::Validating { req },
                Event::Env { mount_point_is_dir, path_is_file, path_is_container },
            ) => {
                let checked = check_fields(
                    Some(req.size),
                    Some(mount_point_is_dir),
                    None,
                    path_is_file,
                    path_is_container,
                    Some(req.namespace.as_str()),
                    Some(req.id.as_str()),
                );
                match checked {
                    Ok(()) => {
                        let action = Action::ProbeFile {
                            path: join_path(req.path.as_str(), req.namespace.as_str()),
                        };
                        (CreateFlow::CheckingFile { req }, Some(action))
                    },
                    Err(error) => (CreateFlow::Failed { error }, None),
                }
            },
            (CreateFlow::CheckingFile { req }, Event::Flag(found)) => {
                if found {
                    (CreateFlow::Failed { error: SecureContainerErr::FileExists }, None)
                } else {
                    (CreateFlow::CheckingName { req }, Some(Action::ListBlockDevices))
                }
            },
            (CreateFlow::CheckingName { req }, Event::Output(res)) => match res {
                Ok(text) => {
                    if check_lsblk(req.namespace.as_str(), text.as_str()) {
                        (
                            CreateFlow::Failed {
                                error: SecureContainerErr::ContainerNameExists,
                            },
                            None,
                        )
                    } else {
                        let action = Action::ProbeDir { path: req.path.clone() };
                        (CreateFlow::CheckingDir { req }, Some(action))
                    }
                },
                Err(f) => (CreateFlow::Failed { error: map_lsblk_err(f) }, None),
            },
            (CreateFlow::CheckingDir { req }, Event::Flag(found)) => {
                if !found {
                    (CreateFlow::Failed { error: SecureContainerErr::PathNotExists }, None)
                } else {
                    let action = Action::CreateBackingFile {
                        size: req.size,
                        path: req.path.clone(),
                        namespace: req.namespace.clone(),
                    };
                    (CreateFlow::CreatingFile { req }, Some(action))
                }
            },
            (CreateFlow::CreatingFile { req }, Event::Stored(res)) => match res {
                Ok(()) => {
                    let action = Action::DeriveSecret { id: req.id.clone() };
                    (CreateFlow::DerivingFormatSecret { req }, Some(action))
                },
                Err(f) => (CreateFlow::Failed { error: map_file_err(f) }, None),
            },
            (CreateFlow::DerivingFormatSecret { req }, Event::Secret(res)) => match res {
                Ok(secret) => {
                    let action = Action::FormatContainer {
                        device_path: join_path(req.path.as_str(), req.namespace.as_str()),
                        secret,
                    };
                    (CreateFlow::Formatting { req }, Some(action))
                },
                Err(_) => (
                    CreateFlow::Failed {
                        error: SecureContainerErr::StdinError(
                            "Error getting password".to_owned(),
                        ),
                    },
                    None,
                ),
            },
            (CreateFlow::Formatting { req }, Event::Done(res)) => match res {
                Ok(()) => (
                    CreateFlow::CheckingIntegritySupport { req },
                    Some(Action::ReadKernelLog),
                ),
                Err(f) => (CreateFlow::Failed { error: map_cryptsetup_err(f) }, None),
            },
            (CreateFlow::CheckingIntegritySupport { req }, Event::Output(res)) => match res {
                Ok(log) => {
                    let warned = !check_functionality_of_integrity(log.as_str());
                    let open_req = Open {
                        mount_point: req.mount_point.clone(),
                        path: join_path(req.path.as_str(), req.namespace.as_str()),
                        namespace: req.namespace.clone(),
                        id: req.id.clone(),
                    };
                    let (inner, action) = OpenFlow::start(open_req);
                    (CreateFlow::Opening { req, warned, inner }, Some(action))
                },
                Err(f) => (CreateFlow::Failed { error: map_cryptsetup_err(f) }, None),
            },
            (CreateFlow::Opening { req, warned, inner }, e2) => {
                let ghost inner0 = inner;
                let (inner2, act) = inner.step(e2);
                proof {
                    assert(open_transition(inner0, e2, inner2, act));
                }
                match inner2 {
                    OpenFlow::Done => {
                        if req.auto_open {
                            let action = Action::AppendRegistry {
                                mount_point: req.mount_point.clone(),
                                path: req.path.clone(),
                                namespace: req.namespace.clone(),
                                id: req.id.clone(),
                            };
                            (CreateFlow::Registering { warned }, Some(action))
                        } else {
                            (CreateFlow::Done { warned }, None)
                        }
                    },
                    OpenFlow::Failed { error } => (CreateFlow::Failed { error }, None),
                    other => (CreateFlow::Opening { req, warned, inner: other }, act),
                }
            },
            (CreateFlow::Registering { warned }, Event::Stored(res)) => match res {
                Ok(()) => (CreateFlow::Done { warned }, None),
                Err(f) => (CreateFlow::Failed { error: map_file_err(f) }, None),
            },
            // excluded by the precondition
            _ => (CreateFlow::Done { warned: false }, None),
        }
    }
}

/// The secret Export installs on the container: the transfer secret
/// derived from the caller's secret with the namespace as salt.
pub open spec fn export_replacement_secret(secret: Seq<u8>, ns: Seq<u8>) -> Seq<char> {
    transfer_secret_spec(secret, ns)
}

/// The secret Import presents as the container's current one.
pub open spec fn import_presented_secret(secret: Seq<u8>, ns: Seq<u8>) -> Seq<char> {
    transfer_secret_spec(secret, ns)
}

/// Export and Import use byte-identical key-derivation parameters: for
/// the same caller secret and namespace, the secret Export installed is
/// exactly the one Import presents, so an exported container imported
/// with the same secret can be unlocked with the locally derived secret
/// again.
pub proof fn lemma_export_import_secrets_agree(secret: Seq<u8>, ns: Seq<u8>)
    ensures
        export_replacement_secret(secret, ns) == import_presented_secret(secret, ns),
{
}

/// The state of one export operation.  The container must be fully
/// closed: neither unlocked nor mounted.
pub enum ExportFlow {
    /// Awaiting the environment probes for validation.
    Validating { req: Export },
    /// Awaiting the detailed listing: the container must not be
    /// unlocked.
    CheckingOpen { req: Export },
    /// Awaiting the mapper listing: the container must not be mounted.
    CheckingMounted { req: Export },
    /// Awaiting the device-bound secret; the transfer secret is already
    /// fixed.
    Deriving { req: Export, transfer: String },
    /// Awaiting the secret change on the container.
    ChangingSecret,
    Done,
    Failed { error: SecureContainerErr },
}

/// The transition relation of the export operation.
pub open spec fn export_transition(s: ExportFlow, e: Event, t: ExportFlow, a: Option<Action>)
    -> bool {
    match (s, e) {
        (
            ExportFlow::Validating { req },
            Event::Env { mount_point_is_dir, path_is_file, path_is_container },
        ) => {
            match validate_spec(
                None,
                None,
                Some(req.path@),
                path_is_file,
                path_is_container,
                Some(req.namespace@),
                Some(req.id@),
            ) {
                Ok(()) => {
                    if req.secret@.len() == 0 || !is_ascii_chars(req.secret@) {
                        t == (ExportFlow::Failed { error: SecureContainerErr::SecertError })
                            && a is None
                    } else {
                        t == (ExportFlow::CheckingOpen { req }) && a == Some(
                            Action::ListBlockDevicesDetailed,
                        )
                    }
                },
                Err(error) => t == (ExportFlow::Failed { error }) && a is None,
            }
        },
        (ExportFlow::CheckingOpen { req }, Event::Output(res)) => match res {
            Ok(text) => {
                if crypt_line_for(text@, req.namespace@) {
                    t == (ExportFlow::Failed { error: SecureContainerErr::ContainerOpen }) && a
                        is None
                } else {
                    t == (ExportFlow::CheckingMounted { req }) && a == Some(
                        Action::ListMapperDevices,
                    )
                }
            },
            Err(f) => t == (ExportFlow::Failed { error: lsblk_err(f) }) && a is None,
        },
        (ExportFlow::CheckingMounted { req }, Event::Output(res)) => match res {
            Ok(text) => {
                if mapper_line_for(text@, req.namespace@) {
                    t == (ExportFlow::Failed { error: SecureContainerErr::ContainerMounted })
                        && a is None
                } else {
                    (t matches ExportFlow::Deriving { req: treq, transfer } && treq == req
                        && transfer@ == export_replacement_secret(
                        encode_utf8(req.secret@),
                        encode_utf8(req.namespace@),
                    )) && a == Some(Action::DeriveSecret { id: req.id })
                }
            },
            Err(f) => t == (ExportFlow::Failed { error: ls_err(f) }) && a is None,
        },
        (ExportFlow::Deriving { req, transfer }, Event::Secret(res)) => match res {
            Ok(device_secret) => t == ExportFlow::ChangingSecret && a == Some(
                Action::ChangeSecret {
                    path: req.path,
                    old_secret: device_secret,
                    new_secret: transfer,
                },
            ),
            Err(error) => t == (ExportFlow::Failed { error }) && a is None,
        },
        (ExportFlow::ChangingSecret, Event::Done(res)) => match res {
            Ok(()) => t == ExportFlow::Done && a is None,
            Err(f) => t == (ExportFlow::Failed { error: cryptsetup_err(f) }) && a is None,
        },
        _ => false,
    }
}

impl ExportFlow {
    /// Whether the operation is still running.
    pub open spec fn in_progress(self) -> bool {
        !(self is Done || self is Failed)
    }

    /// The event kind the state is waiting on.
    pub open spec fn accepts(self, e: Event) -> bool {
        match (self, e) {
            (ExportFlow::Validating { .. }, Event::Env { .. }) => true,
            (ExportFlow::CheckingOpen { .. }, Event::Output(_)) => true,
            (ExportFlow::CheckingMounted { .. }, Event::Output(_)) => true,
            (ExportFlow::Deriving { .. }, Event::Secret(_)) => true,
            (ExportFlow::ChangingSecret, Event::Done(_)) => true,
            _ => false,
        }
    }

    /// Starts an export: first the path is probed for validation.
    pub fn start(req: Export) -> (r: (ExportFlow, Action))
        ensures
            r.0 == (ExportFlow::Validating { req }),
            r.1 == (Action::ProbeEnv { mount_point: None, path: Some(req.path) }),
    {
        let action = Action::ProbeEnv { mount_point: None, path: Some(req.path.clone()) };
        (ExportFlow::Validating { req }, action)
    }

    /// Feeds the outcome of the pending action.  The length bound keeps
    /// the transfer-secret derivation below the hash function's message
    /// limit.
    pub fn step(self, event: Event) -> (r: (ExportFlow, Option<Action>))
        requires
            self.accepts(event),
            self matches ExportFlow::CheckingMounted { req } ==> encode_utf8(req.secret@).len()
                < 0x1000000000000000 && encode_utf8(req.namespace@).len() < 0x1000000000000000,
        ensures
            export_transition(self, event, r.0, r.1),
    {
        match (self, event) {
            (
                ExportFlow::Validating { req },
                Event::Env { mount_point_is_dir: _, path_is_file, path_is_container },
            ) => {
                let checked = check_fields(
                    None,
                    None,
                    Some(req.path.as_str()),
                    path_is_file,
                    path_is_container,
                    Some(req.namespace.as_str()),
                    Some(req.id.as_str()),
                );
                match checked {
                    Ok(()) => {
                        if req.secret.as_str().is_empty() || !req.secret.is_ascii() {
                            (
                                ExportFlow::Failed { error: SecureContainerErr::SecertError },
                                None,
                            )
                        } else {
                            (
                                ExportFlow::CheckingOpen { req },
                                Some(Action::ListBlockDevicesDetailed),
                            )
                        }
                    },
                    Err(error) => (ExportFlow::Failed { error }, None),
                }
            },
            (ExportFlow::CheckingOpen { req }, Event::Output(res)) => match res {
                Ok(text) => {
                    if check_container_open(req.namespace.as_str(), text.as_str()) {
                        (ExportFlow::Failed { error: SecureContainerErr::ContainerOpen }, None)
                    } else {
                        (ExportFlow::CheckingMounted { req }, Some(Action::ListMapperDevices))
                    }
                },
                Err(f) => (ExportFlow::Failed { error: map_lsblk_err(f) }, None),
            },
            (ExportFlow::CheckingMounted { req }, Event::Output(res)) => match res {
                Ok(text) => {
                    if check_container_mounted(req.namespace.as_str(), text.as_str()) {
                        (
                            ExportFlow::Failed { error: SecureContainerErr::ContainerMounted },
                            None,
                        )
                    } else {
                        let transfer = transfer_secret(
                            req.secret.as_str(),
                            req.namespace.as_str(),
                        );
                        let action = Action::DeriveSecret { id: req.id.clone() };
                        (ExportFlow::Deriving { req, transfer }, Some(action))
                    }
                },
                Err(f) => (ExportFlow::Failed { error: map_ls_err(f) }, None),
            },
            (ExportFlow::Deriving { req, transfer }, Event::Secret(res)) => match res {
                Ok(device_secret) => {
                    let action = Action::ChangeSecret {
                        path: req.path,
                        old_secret: device_secret,
                        new_secret: transfer,
                    };
                    (ExportFlow::ChangingSecret, Some(action))
                },
                Err(error) => (ExportFlow::Failed { error }, None),
            },
            (ExportFlow::ChangingSecret, Event::Done(res)) => match res {
                Ok(()) => (ExportFlow::Done, None),
                Err(f) => (ExportFlow::Failed { error: map_cryptsetup_err(f) }, None),
            },
            // excluded by the precondition
            _ => (ExportFlow::Done, None),
        }
    }
}

/// The state of one import operation: the exact inverse of an export.
pub enum ImportFlow {
    /// Awaiting the environment probes for validation.
    Validating { req: Import },
    /// Awaiting the device-bound secret; the presented transfer secret
    /// is already fixed.
    Deriving { req: Import, transfer: String },
    /// Awaiting the secret change on the container.
    ChangingSecret,
    Done,
    Failed { error: SecureContainerErr },
}

/// The transition relation of the import operation.
pub open spec fn import_transition(s: ImportFlow, e: Event, t: ImportFlow, a: Option<Action>)
    -> bool {
    match (s, e) {
        (
            ImportFlow::Validating { req },
            Event::Env { mount_point_is_dir, path_is_file, path_is_container },
        ) => {
            match validate_spec(
                None,
                None,
                Some(req.path@),
                path_is_file,
                path_is_container,
                Some(req.namespace@),
                Some(req.id@),
            ) {
                Ok(()) => (t matches ImportFlow::Deriving { req: treq, transfer } && treq == req
                    && transfer@ == import_presented_secret(
                    encode_utf8(req.secret@),
                    encode_utf8(req.namespace@),
                )) && a == Some(Action::DeriveSecret { id: req.id }),
                Err(error) => t == (ImportFlow::Failed { error }) && a is None,
            }
        },
        (ImportFlow::Deriving { req, transfer }, Event::Secret(res)) => match res {
            Ok(device_secret) => t == ImportFlow::ChangingSecret && a == Some(
                Action::ChangeSecret {
                    path: req.path,
                    old_secret: transfer,
                    new_secret: device_secret,
                },
            ),
            Err(error) => t == (ImportFlow::Failed { error }) && a is None,
        },
        (ImportFlow::ChangingSecret, Event::Done(res)) => match res {
            Ok(()) => t == ImportFlow::Done && a is None,
            Err(f) => t == (ImportFlow::Failed { error: cryptsetup_err(f) }) && a is None,
        },
        _ => false,
    }
}

impl ImportFlow {
    /// Whether the operation is still running.
    pub open spec fn in_progress(self) -> bool {
        !(self is Done || self is Failed)
    }

    /// The event kind the state is waiting on.
    pub open spec fn accepts(self, e: Event) -> bool {
        match (self, e) {
            (ImportFlow::Validating { .. }, Event::Env { .. }) => true,
            (ImportFlow::Deriving { .. }, Event::Secret(_)) => true,
            (ImportFlow::ChangingSecret, Event::Done(_)) => true,
            _ => false,
        }
    }

    /// Starts an import: first the path is probed for validation.
    pub fn start(req: Import) -> (r: (ImportFlow, Action))
        ensures
            r.0 == (ImportFlow::Validating { req }),
            r.1 == (Action::ProbeEnv { mount_point: None, path: Some(req.path) }),
    {
        let action = Action::ProbeEnv { mount_point: None, path: Some(req.path.clone()) };
        (ImportFlow::Validating { req }, action)
    }

    /// Feeds the outcome of the pending action.  The length bound keeps
    /// the transfer-secret derivation below the hash function's message
    /// limit.
    pub fn step(self, event: Event) -> (r: (ImportFlow, Option<Action>))
        requires
            self.accepts(event),
            self matches ImportFlow::Validating { req } ==> encode_utf8(req.secret@).len()
                < 0x1000000000000000 && encode_utf8(req.namespace@).len() < 0x1000000000000000,
        ensures
            import_transition(self, event, r.0, r.1),
    {
        match (self, event) {
            (
                ImportFlow::Validating { req },
                Event::Env { mount_point_is_dir: _, path_is_file, path_is_container },
            ) => {
                let checked = check_fields(
                    None,
                    None,
                    Some(req.path.as_str()),
                    path_is_file,
                    path_is_container,
                    Some(req.namespace.as_str()),
                    Some(req.id.as_str()),
                );
                match checked {
                    Ok(()) => {
                        let transfer = transfer_secret(
                            req.secret.as_str(),
                            req.namespace.as_str(),
                        );
                        let action = Action::DeriveSecret { id: req.id.clone() };
                        (ImportFlow::Deriving { req, transfer }, Some(action))
                    },
                    Err(error) => (ImportFlow::Failed { error }, None),
                }
            },
            (ImportFlow::Deriving { req, transfer }, Event::Secret(res)) => match res {
                Ok(device_secret) => {
                    let action = Action::ChangeSecret {
                        path: req.path,
                        old_secret: transfer,
                        new_secret: device_secret,
                    };
                    (ImportFlow::ChangingSecret, Some(action))
                },
                Err(error) => (ImportFlow::Failed { error }, None),
            },
            (ImportFlow::ChangingSecret, Event::Done(res)) => match res {
                Ok(()) => (ImportFlow::Done, None),
                Err(f) => (ImportFlow::Failed { error: map_cryptsetup_err(f) }, None),
            },
            // excluded by the precondition
            _ => (ImportFlow::Done, None),
        }
    }
}

/// The transition relation of the close operation.
pub open spec fn close_transition(s: CloseFlow, e: Event, t: CloseFlow, a: Option<Action>) -> bool {
    match (s, e) {
        (
            CloseFlow::Validating { req },
            Event::Env { mount_point_is_dir, path_is_file, path_is_container },
        ) => {
            match validate_spec(
                None,
                Some(mount_point_is_dir),
                None,
                path_is_file,
                path_is_container,
                Some(req.namespace@),
                None,
            ) {
                Ok(()) => t == (CloseFlow::Unmounting { req }) && a == Some(Action::Unmount {
                    mount_point: req.mount_point,
                }),
                Err(error) => t == (CloseFlow::Failed { error }) && a is None,
            }
        },
        (CloseFlow::Unmounting { req }, Event::Done(res)) => match res {
            Ok(()) => t == CloseFlow::Locking && a == Some(Action::Lock {
                namespace: req.namespace,
            }),
            Err(f) => t == (CloseFlow::Failed { error: umount_err(f) }) && a is None,
        },
        (CloseFlow::Locking, Event::Done(res)) => match res {
            Ok(()) => t == CloseFlow::Done && a is None,
            Err(f) => t == (CloseFlow::Failed { error: cryptsetup_err(f) }) && a is None,
        },
        _ => false,
    }
}

} // verus!
