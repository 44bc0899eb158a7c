//! Supervision of the forked child that runs the isolated work, and the
//! fixed environment of the commands run inside the sandbox.
use vstd::prelude::*;
use crate::text::{owned, push_signed_decimal, signed_decimal};

verus! {

/// Where a failure of the process layer comes from.
#[derive(PartialEq, Eq, Structural, Clone, Copy, Debug)]
pub enum ErrorKind {
    /// An external command could not be started or exited unsuccessfully.
    Command,
    /// A system call or a file operation of the isolated work failed.
    System,
    /// The child could not be forked or the result channel could not be created.
    Spawn,
    /// The child exited with status zero but its result could not be read.
    ChannelUnreadable,
    /// The child exited with this non-zero status and sent no readable result.
    ChildExited(i32),
    /// Waiting for the child, or relaying its signal, failed.
    Wait,
}

/// A failure of the process layer: its origin and a readable message.
pub struct Error {
    pub kind: ErrorKind,
    pub msg: String,
}

impl Error {
    /// An error of the given origin with the given message.
    pub fn new(kind: ErrorKind, msg: &str) -> (r: Error)
        ensures
            r.kind == kind,
            r.msg@ == msg@,
    {
        Error { kind, msg: owned(msg) }
    }

    /// The origin of the failure.
    pub fn kind(&self) -> (r: ErrorKind)
        ensures
            r == self.kind,
    {
        self.kind
    }

    /// The message of the failure.
    pub fn message(&self) -> (r: String)
        ensures
            r@ == self.msg@,
    {
        owned(self.msg.as_str())
    }
}

/// What the wait on the child reported.
#[derive(PartialEq, Eq, Structural, Clone, Copy, Debug)]
pub enum WaitEvent {
    /// The child exited with this status.
    Exited(i32),
    /// The child was stopped by this job-control signal.
    Stopped(i32),
    /// The child was terminated by this signal.
    Signaled(i32),
    /// The child was resumed, or some other event the supervisor ignores.
    Other,
    /// The wait itself failed.
    Failed,
}

/// What the supervisor does after a wait event.
#[derive(PartialEq, Eq, Structural, Clone, Copy, Debug)]
pub enum WaitDecision {
    /// Read the child's outcome from the channel and conclude with the exit status.
    Collect(i32),
    /// Stop the supervisor itself; once resumed, continue the child and wait again.
    StopSelfThenContinueChild,
    /// Raise this signal against the supervisor itself.
    Reraise(i32),
    /// Wait again.
    KeepWaiting,
    /// Give up: waiting for the child failed.
    Abort,
}

/// The decision that the supervisor takes on a wait event.
pub open spec fn decision_of(event: WaitEvent) -> WaitDecision {
    match event {
        WaitEvent::Exited(status) => WaitDecision::Collect(status),
        WaitEvent::Stopped(_) => WaitDecision::StopSelfThenContinueChild,
        WaitEvent::Signaled(signal) => WaitDecision::Reraise(signal),
        WaitEvent::Other => WaitDecision::KeepWaiting,
        WaitEvent::Failed => WaitDecision::Abort,
    }
}

/// Whether the supervisor's wait loop goes on after this decision.
pub open spec fn continues(d: WaitDecision) -> bool {
    d is StopSelfThenContinueChild || d is KeepWaiting || d is Reraise
}

/// Decides how the supervisor reacts to a wait event on its child.
pub fn on_wait_event(event: WaitEvent) -> (r: WaitDecision)
    ensures
        r == decision_of(event),
{
    match event {
        WaitEvent::Exited(status) => WaitDecision::Collect(status),
        WaitEvent::Stopped(_) => WaitDecision::StopSelfThenContinueChild,
        WaitEvent::Signaled(signal) => WaitDecision::Reraise(signal),
        WaitEvent::Other => WaitDecision::KeepWaiting,
        WaitEvent::Failed => WaitDecision::Abort,
    }
}

/// The kind of the error synthesized when no outcome could be read from the channel.
pub open spec fn unread_kind(status: i32) -> ErrorKind {
    if status == 0 {
        ErrorKind::ChannelUnreadable
    } else {
        ErrorKind::ChildExited(status)
    }
}

/// Whether `r` is how the supervisor concludes once the child exited with
/// `status` and the channel yielded `received` (`None`: unreadable).
pub open spec fn concludes<T>(
    status: i32,
    received: Option<Result<T, Error>>,
    r: Result<T, Error>,
) -> bool {
    match received {
        Some(outcome) => r == outcome,
        None => r is Err && r->Err_0.kind == unread_kind(status),
    }
}

/// Concludes the supervision of a child that exited with `status`: the value
/// read from the channel is returned as it is, whatever the status; only when
/// nothing could be read is an error synthesized, which tells an unreadable
/// channel after a clean exit apart from a failing exit status.
pub fn conclude<T>(status: i32, received: Option<Result<T, Error>>) -> (r: Result<T, Error>)
    ensures
        concludes(status, received, r),
        received is None && status == 0 ==> r->Err_0.msg@ == "unable to read the child process result"@,
        received is None && status != 0 ==> r->Err_0.msg@ == "child exited with status "@
            + signed_decimal(status as int),
{
    match received {
        Some(outcome) => outcome,
        None => {
            if status == 0 {
                Err(Error::new(ErrorKind::ChannelUnreadable, "unable to read the child process result"))
            } else {
                let mut msg = owned("child exited with status ");
                push_signed_decimal(&mut msg, status);
                Err(Error { kind: ErrorKind::ChildExited(status), msg })
            }
        },
    }
}

/// Whether `events` is a run of wait events in which the child is stopped
/// and resumed, or reports nothing of note, any number of times, and then
/// exits with `status`.
pub open spec fn stops_then_exit(events: Seq<WaitEvent>, status: i32) -> bool {
    &&& events.len() > 0
    &&& events.last() == WaitEvent::Exited(status)
    &&& forall|i: int|
        0 <= i < events.len() - 1 ==> (#[trigger] events[i] is Stopped || events[i] is Other)
}

/// The supervisor hands back exactly the value that the work returned in the
/// child: whatever stops and resumptions come first, the wait loop goes on
/// until the child exits cleanly, then collects the outcome, and concluding
/// on the successful outcome `v` yields `v` itself.
pub proof fn lemma_returns_work_value<T>(events: Seq<WaitEvent>, v: T, r: Result<T, Error>)
    requires
        stops_then_exit(events, 0),
        concludes(0, Some(Ok(v)), r),
    ensures
        forall|i: int| 0 <= i < events.len() - 1 ==> continues(#[trigger] decision_of(events[i])),
        decision_of(events.last()) == WaitDecision::Collect(0),
        r == Ok::<T, Error>(v),
{
    assert forall|i: int| 0 <= i < events.len() - 1 implies continues(#[trigger] decision_of(events[i])) by {
        assert(events[i] is Stopped || events[i] is Other);
    }
}

/// Job control is relayed: when the child is stopped, the supervisor stops
/// itself, continues the child once it is resumed, and keeps waiting rather
/// than returning.
pub proof fn lemma_stop_is_relayed(signal: i32)
    ensures
        decision_of(WaitEvent::Stopped(signal)) == WaitDecision::StopSelfThenContinueChild,
        continues(decision_of(WaitEvent::Stopped(signal))),
{
}

/// A child killed by a signal makes the supervisor raise that same signal
/// against itself.
pub proof fn lemma_signal_is_mirrored(signal: i32)
    ensures
        decision_of(WaitEvent::Signaled(signal)) == WaitDecision::Reraise(signal),
{
}

/// The two failure origins stay apart: without a readable outcome, a clean
/// exit is reported as an unreadable channel and a failing exit as the exit
/// status, and an error that the child sent is handed back unchanged.
pub proof fn lemma_failures_distinguished<T>(
    status: i32,
    sent: Error,
    r_sent: Result<T, Error>,
    r_unread: Result<T, Error>,
)
    requires
        concludes(status, Some(Err(sent)), r_sent),
        concludes(status, None, r_unread),
    ensures
        r_sent == Err::<T, Error>(sent),
        r_unread is Err,
        status == 0 ==> r_unread->Err_0.kind == ErrorKind::ChannelUnreadable,
        status != 0 ==> r_unread->Err_0.kind == ErrorKind::ChildExited(status),
{
}

/// The exit status of the child: zero when its outcome was sent, one otherwise.
pub fn child_exit_status(sent: bool) -> (r: i32)
    ensures
        r == (if sent { 0i32 } else { 1i32 }),
{
    if sent {
        0
    } else {
        1
    }
}

/// Judges a finished external command: success when it exited
/// successfully, else an error of the command origin that carries the
/// command's name and its captured output.
pub fn check_command(program: &str, succeeded: bool, output: &str) -> (r: Result<(), Error>)
    ensures
        r is Ok <==> succeeded,
        r is Err ==> r->Err_0.kind == ErrorKind::Command && r->Err_0.msg@ == "the `"@ + program@
            + "` command returned non-zero status:\n"@ + output@,
{
    if succeeded {
        return Ok(());
    }
    let mut msg = owned("the `");
    msg.append(program);
    msg.append("` command returned non-zero status:\n");
    msg.append(output);
    Err(Error { kind: ErrorKind::Command, msg })
}

/// The search path of every command run inside the sandbox.
pub open spec fn sandbox_path() -> Seq<char> {
    "/nix/var/nix/profiles/default/bin:/usr/sbin:/usr/bin:/sbin:/bin"@
}

/// The environment every command inside the sandbox runs with, in place of
/// the caller's: a fixed search path including the Nix profile, the
/// temporary directory and the home directory.
pub fn command_environment() -> (r: Vec<(String, String)>)
    ensures
        r@.len() == 3,
        r@[0].0@ == "PATH"@,
        r@[0].1@ == sandbox_path(),
        r@[1].0@ == "TMPDIR"@,
        r@[1].1@ == "/tmp"@,
        r@[2].0@ == "HOME"@,
        r@[2].1@ == "/root"@,
{
    let mut r: Vec<(String, String)> = Vec::new();
    r.push((owned("PATH"), owned("/nix/var/nix/profiles/default/bin:/usr/sbin:/usr/bin:/sbin:/bin")));
    r.push((owned("TMPDIR"), owned("/tmp")));
    r.push((owned("HOME"), owned("/root")));
    r
}

} // verus!
