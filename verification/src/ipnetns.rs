//! The namespace switch engine and the isolated execution wrapper, as
//! decision logic: each engine is a state machine whose phases name the one
//! system call to perform next, and whose transitions consume that call's
//! outcome as a plain value. The surrounding process runs the loop; the
//! transitions decide the order of steps, which failures are fatal, what
//! every error carries, and that every descriptor the engine opens is closed
//! on every path.

use vstd::prelude::*;
use vstd::string::StringExecFns;
use vstd::string::StringSliceAdditionalSpecFns;

use crate::netlink::IpError;

verus! {

/// The runtime directory holding one bind-mounted reference file per named
/// network namespace.
pub const NETNS_RUN_DIR: &'static str = "/var/run/netns/";

/// The directory holding per-namespace override files for `/etc`.
pub const ETC_NETNS_DIR: &'static str = "/etc/netns/";

/// The longest namespace name for which `/etc` overrides are attempted.
pub const NS_NAME_MAX: usize = 255;

/// The path of a namespace's reference file.
pub fn netns_path(ns_name: &str) -> (r: String)
    ensures
        r@ == NETNS_RUN_DIR@ + ns_name@,
{
    let mut p = NETNS_RUN_DIR.to_owned();
    p.append(ns_name);
    p
}

/// The directory of a namespace's `/etc` override files.
pub fn etc_netns_dir(ns_name: &str) -> (r: String)
    ensures
        r@ == ETC_NETNS_DIR@ + ns_name@,
{
    let mut p = ETC_NETNS_DIR.to_owned();
    p.append(ns_name);
    p
}

/// Whether the `/etc` override step is skipped outright: it is for a
/// namespace name longer than the length bound.
pub fn bind_etc_skip(ns_name: &str) -> (r: bool)
    ensures
        r == ((ns_name.spec_bytes().len() as usize) > NS_NAME_MAX),
{
    ns_name.len() > NS_NAME_MAX
}

/// The source path of one `/etc` override file of a namespace.
pub fn bind_source_path(ns_name: &str, file_name: &str) -> (r: String)
    ensures
        r@ == ETC_NETNS_DIR@ + ns_name@ + "/"@ + file_name@,
{
    let mut p = ETC_NETNS_DIR.to_owned();
    p.append(ns_name);
    p.append("/");
    p.append(file_name);
    p
}

/// The target path an `/etc` override file is bind-mounted onto.
pub fn bind_target_path(file_name: &str) -> (r: String)
    ensures
        r@ == "/etc/"@ + file_name@,
{
    let mut p = "/etc/".to_owned();
    p.append(file_name);
    p
}

/// The outcome of one system call, as the engine reads it: success, or the
/// operating system's error text.
#[derive(Debug, PartialEq, Eq)]
pub enum CallOutcome {
    Succeeded,
    Failed { os_err: String },
}

/// The phases of entering a named network namespace: open the reference
/// file (read-only, close-on-exec), switch the network namespace to the open
/// descriptor, close the descriptor whether or not the switch succeeded, and
/// finish with the recorded result.
#[derive(Debug, PartialEq, Eq)]
pub enum EnterPhase {
    /// Open the reference file at `netns_path` of the namespace's name.
    OpenRef,
    /// Switch the network namespace to `fd`.
    SwitchNs { fd: i32 },
    /// Close `fd`; `failure` is the switch failure still to be reported.
    CloseRef { fd: i32, failure: Option<IpError> },
    /// Finished with this result.
    Done { result: Result<(), IpError> },
}

/// The first phase of entering a namespace: open its reference file.
pub fn enter_start() -> (r: EnterPhase)
    ensures
        r == EnterPhase::OpenRef,
{
    EnterPhase::OpenRef
}

/// Consumes the outcome of the open: an open descriptor moves on to the
/// namespace switch; a failure ends the engine with an error carrying the
/// namespace's name and the OS error text.
pub fn enter_after_open(ns_name: &str, outcome: Result<i32, String>) -> (next: EnterPhase)
    ensures
        match outcome {
            Ok(fd) => next == (EnterPhase::SwitchNs { fd }),
            Err(os_err) => next matches EnterPhase::Done {
                result: Err(IpError::Resource { name, os_err: e }),
            } && name@ == ns_name@ && e == os_err,
        },
{
    match outcome {
        Ok(fd) => EnterPhase::SwitchNs { fd },
        Err(os_err) => EnterPhase::Done {
            result: Err(IpError::Resource { name: ns_name.to_owned(), os_err }),
        },
    }
}

/// Consumes the outcome of the namespace switch. Either way the descriptor
/// is closed next; a switch failure is recorded, to be reported after the
/// close, as an error carrying the namespace's name and the OS error text.
pub fn enter_after_switch(ns_name: &str, fd: i32, outcome: CallOutcome) -> (next: EnterPhase)
    ensures
        match outcome {
            CallOutcome::Succeeded => next == (EnterPhase::CloseRef { fd, failure: None }),
            CallOutcome::Failed { os_err } => next matches EnterPhase::CloseRef {
                fd: f,
                failure: Some(IpError::Resource { name, os_err: e }),
            } && f == fd && name@ == ns_name@ && e == os_err,
        },
{
    match outcome {
        CallOutcome::Succeeded => EnterPhase::CloseRef { fd, failure: None },
        CallOutcome::Failed { os_err } => EnterPhase::CloseRef {
            fd,
            failure: Some(IpError::Resource { name: ns_name.to_owned(), os_err }),
        },
    }
}

/// Consumes the outcome of the close: a close failure wins over a recorded
/// switch failure; otherwise the recorded failure, or success, is the
/// engine's result.
pub fn enter_after_close(failure: Option<IpError>, outcome: Result<(), String>) -> (next:
    EnterPhase)
    ensures
        match outcome {
            Ok(()) => next == (EnterPhase::Done {
                result: match failure {
                    None => Ok(()),
                    Some(e) => Err(e),
                },
            }),
            Err(os_err) => next matches EnterPhase::Done {
                result: Err(IpError::Resource { name, os_err: e }),
            } && name@ == "close"@ && e == os_err,
        },
{
    match outcome {
        Ok(()) => match failure {
            None => EnterPhase::Done { result: Ok(()) },
            Some(e) => EnterPhase::Done { result: Err(e) },
        },
        Err(os_err) => EnterPhase::Done {
            result: Err(IpError::Resource { name: "close".to_owned(), os_err }),
        },
    }
}

/// Descriptor discipline of the enter engine: once the reference file is
/// open, both continuations of the switch phase close exactly that
/// descriptor before the engine can finish, whatever the switch and close
/// outcomes are.
pub proof fn lemma_enter_closes_descriptor(
    ns_name: Seq<char>,
    fd: i32,
    switch_outcome: CallOutcome,
)
    ensures
        forall|ns: &str, next: EnterPhase|
            ns@ == ns_name && call_ensures(enter_after_switch, (ns, fd, switch_outcome), next)
                ==> (next matches EnterPhase::CloseRef { fd: f, .. } && f == fd),
{
}

/// The phases of the full isolation switch: enter the network namespace,
/// unshare a new mount namespace, re-slave the root mount recursively so
/// later mount changes cannot leak to the host, detach `/sys` (best effort),
/// on a failed detach ask whether the existing `/sys` mount is read-only,
/// mount a fresh `/sys` (read-only exactly when the old one was and could
/// not be detached), then bind the `/etc` overrides (each one best effort).
#[derive(Debug, PartialEq, Eq)]
pub enum SwitchPhase {
    /// Run the enter engine for the namespace first.
    EnterNs,
    /// Unshare the mount namespace.
    UnshareMount,
    /// Re-slave the root mount, recursively.
    MakeRootSlave,
    /// Detach-unmount `/sys`.
    DetachSys,
    /// Ask whether the still-mounted `/sys` is read-only.
    CheckSysReadOnly,
    /// Mount a fresh `/sys`, read-only iff `read_only`.
    MountSys { read_only: bool },
    /// Bind every `/etc` override file of the namespace, best effort.
    BindEtc,
    /// Finished with this result.
    Done { result: Result<(), IpError> },
}

/// The first phase of the full isolation switch: enter the namespace.
pub fn switch_start() -> (r: SwitchPhase)
    ensures
        r == SwitchPhase::EnterNs,
{
    SwitchPhase::EnterNs
}

/// Consumes the enter engine's result: on success the mount namespace is
/// unshared next; an enter failure ends the switch with that same error.
pub fn switch_after_enter(result: Result<(), IpError>) -> (next: SwitchPhase)
    ensures
        match result {
            Ok(()) => next == SwitchPhase::UnshareMount,
            Err(e) => next == (SwitchPhase::Done { result: Err(e) }),
        },
{
    match result {
        Ok(()) => SwitchPhase::UnshareMount,
        Err(e) => SwitchPhase::Done { result: Err(e) },
    }
}

/// Consumes the outcome of the mount-namespace unshare: fatal on failure.
pub fn switch_after_unshare(outcome: CallOutcome) -> (next: SwitchPhase)
    ensures
        match outcome {
            CallOutcome::Succeeded => next == SwitchPhase::MakeRootSlave,
            CallOutcome::Failed { os_err } => next matches SwitchPhase::Done {
                result: Err(IpError::Resource { name, os_err: e }),
            } && name@ == "unshare"@ && e == os_err,
        },
{
    match outcome {
        CallOutcome::Succeeded => SwitchPhase::MakeRootSlave,
        CallOutcome::Failed { os_err } => SwitchPhase::Done {
            result: Err(IpError::Resource { name: "unshare".to_owned(), os_err }),
        },
    }
}

/// Consumes the outcome of re-slaving the root mount: fatal on failure.
pub fn switch_after_root_slave(outcome: CallOutcome) -> (next: SwitchPhase)
    ensures
        match outcome {
            CallOutcome::Succeeded => next == SwitchPhase::DetachSys,
            CallOutcome::Failed { os_err } => next matches SwitchPhase::Done {
                result: Err(IpError::Resource { name, os_err: e }),
            } && name@ == "/"@ && e == os_err,
        },
{
    match outcome {
        CallOutcome::Succeeded => SwitchPhase::DetachSys,
        CallOutcome::Failed { os_err } => SwitchPhase::Done {
            result: Err(IpError::Resource { name: "/".to_owned(), os_err }),
        },
    }
}

/// Consumes the outcome of the `/sys` detach. A failed detach is not fatal:
/// the engine then asks whether the existing mount is read-only, to carry
/// that flag over to the fresh mount.
pub fn switch_after_detach_sys(detached: bool) -> (next: SwitchPhase)
    ensures
        detached ==> next == (SwitchPhase::MountSys { read_only: false }),
        !detached ==> next == SwitchPhase::CheckSysReadOnly,
{
    if detached {
        SwitchPhase::MountSys { read_only: false }
    } else {
        SwitchPhase::CheckSysReadOnly
    }
}

/// Consumes the answer about the still-mounted `/sys`: the fresh mount is
/// read-only exactly when the old mount was reported read-only; an
/// unanswerable query counts as not read-only.
pub fn switch_after_check_read_only(read_only: Option<bool>) -> (next: SwitchPhase)
    ensures
        next == (SwitchPhase::MountSys { read_only: read_only == Some(true) }),
{
    match read_only {
        Some(true) => SwitchPhase::MountSys { read_only: true },
        _ => SwitchPhase::MountSys { read_only: false },
    }
}

/// Consumes the outcome of mounting the fresh `/sys`: fatal on failure; on
/// success only the best-effort `/etc` binds remain.
pub fn switch_after_mount_sys(outcome: CallOutcome) -> (next: SwitchPhase)
    ensures
        match outcome {
            CallOutcome::Succeeded => next == SwitchPhase::BindEtc,
            CallOutcome::Failed { os_err } => next matches SwitchPhase::Done {
                result: Err(IpError::Resource { name, os_err: e }),
            } && name@ == "/sys"@ && e == os_err,
        },
{
    match outcome {
        CallOutcome::Succeeded => SwitchPhase::BindEtc,
        CallOutcome::Failed { os_err } => SwitchPhase::Done {
            result: Err(IpError::Resource { name: "/sys".to_owned(), os_err }),
        },
    }
}

/// Ends the switch after the `/etc` binds: they are best effort, so the
/// switch succeeds however many of them failed (failed binds are only
/// reported by the surrounding process, never fatal).
pub fn switch_after_bind_etc(failed_binds: usize) -> (next: SwitchPhase)
    ensures
        next == (SwitchPhase::Done { result: Ok(()) }),
{
    let _ = failed_binds;
    SwitchPhase::Done { result: Ok(()) }
}

/// What a child process of the isolated execution wrapper lived through:
/// the namespace/mount switch failed, or the caller-supplied work failed, or
/// everything completed.
#[derive(Debug, PartialEq, Eq, Clone, Copy, Structural)]
pub enum ChildOutcome {
    SwitchFailed,
    WorkFailed,
    Completed,
}

/// The exit status a child reports for an outcome: zero exactly on full
/// completion, and one for a failure of either stage.
pub open spec fn spec_child_exit_status(o: ChildOutcome) -> i32 {
    match o {
        ChildOutcome::SwitchFailed => 1,
        ChildOutcome::WorkFailed => 1,
        ChildOutcome::Completed => 0,
    }
}

/// The exit status of a child of the isolated execution wrapper: the parent
/// observes zero exactly when the switch succeeded and the work reported
/// success.
pub fn child_exit_status(o: ChildOutcome) -> (r: i32)
    ensures
        r == spec_child_exit_status(o),
        (r == 0) <==> o is Completed,
{
    match o {
        ChildOutcome::Completed => 0,
        _ => 1,
    }
}

/// Failing work is never reported as success: when the caller-supplied work
/// fails inside the child, the parent observes a nonzero exit status.
pub proof fn lemma_failed_work_reports_failure()
    ensures
        spec_child_exit_status(ChildOutcome::WorkFailed) != 0,
{
}

/// The verdict of deleting a namespace's reference file: the unmount of the
/// reference is best effort (a failure is only reported, never fatal), and
/// the unlink decides; an unlink failure carries the reference file's path
/// and the OS error text.
pub fn del_verdict(netns_path: &str, unlink_outcome: Result<(), String>) -> (r: Result<
    (),
    IpError,
>)
    ensures
        match unlink_outcome {
            Ok(()) => r == Ok::<(), IpError>(()),
            Err(os_err) => r matches Err(IpError::Resource { name, os_err: e }) && name@
                == netns_path@ && e == os_err,
        },
{
    match unlink_outcome {
        Ok(()) => Ok(()),
        Err(os_err) => Err(IpError::Resource { name: netns_path.to_owned(), os_err }),
    }
}

} // verus!
