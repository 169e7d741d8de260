//! One backup: the two sides of a subvolume, and the three phases that
//! carry a new snapshot from the source to the target.

use vstd::prelude::*;
use crate::command::{bare, exec, executed, format_command, rendered, Command, CommandView};
use crate::failure::{message_text, verdict_view, Failure, FailureView};
use crate::host::{Host, HostView, Outcome, Reply, ReplyView, Request, RequestView};
use crate::mount::Mount;

verus! {

/// `name` inside the directory `dir`: the directory, a slash unless the
/// directory is empty or ends in one, and the name. The name is taken as
/// it is written, so the path stays inside the directory even where the
/// name starts with a slash.
pub open spec fn child_text(dir: Seq<char>, name: Seq<char>) -> Seq<char> {
    if dir.len() > 0 && dir.last() != '/' {
        dir + seq!['/'] + name
    } else {
        dir + name
    }
}

/// The path of `name` inside the directory `dir`.
pub fn child(dir: &str, name: &str) -> (path: String)
    ensures
        path@ == child_text(dir@, name@),
{
    let dir_len: usize = dir.unicode_len();
    let mut path = String::from_str(dir);
    if dir_len > 0 && dir.get_char(dir_len - 1) != '/' {
        proof {
            reveal_strlit("/");
        }
        path.append("/");
    }
    path.append(name);
    path
}

/// Where the new snapshot stays until it is committed: beside the
/// committed one, under its path with `-new` behind it.
pub open spec fn staged_text(base: Seq<char>) -> Seq<char> {
    base + "-new"@
}

/// The path at which the new snapshot stays until it takes the place of
/// the committed one at `base`.
pub fn staged(base: &str) -> (path: String)
    ensures
        path@ == staged_text(base@),
{
    let mut path = String::from_str(base);
    path.append("-new");
    path
}

/// One side of a backup.
#[derive(Debug, PartialEq, Eq)]
pub struct Subvolume {
    /// On the source, the live subvolume; on the target, the directory
    /// that receives.
    pub path: String,
    /// The snapshot that was committed last, the parent of the next
    /// transfer.
    pub base: String,
    /// Where the new snapshot stays until it is committed.
    pub snapshot: String,
}

/// A subvolume with its paths as sequences of characters.
pub struct SubvolumeView {
    pub path: Seq<char>,
    pub base: Seq<char>,
    pub snapshot: Seq<char>,
}

impl View for Subvolume {
    type V = SubvolumeView;

    open spec fn view(&self) -> SubvolumeView {
        SubvolumeView { path: self.path@, base: self.base@, snapshot: self.snapshot@ }
    }
}

impl SubvolumeView {
    /// Whether the new snapshot has the path of the committed one with
    /// `-new` behind it.
    pub open spec fn well_formed(self) -> bool {
        self.snapshot == staged_text(self.base)
    }
}

/// The command that deletes the committed snapshot of a side.
pub open spec fn delete_command(side: SubvolumeView) -> CommandView {
    bare("btrfs"@).arg("subvolume"@).arg("delete"@).arg(side.base)
}

/// The line that shows the rename of the new snapshot to the committed
/// one.
pub open spec fn rename_line(side: SubvolumeView) -> Seq<char> {
    "mv "@ + side.snapshot + " "@ + side.base
}

/// The command that takes a read-only snapshot of the live source.
pub open spec fn snapshot_command(source: SubvolumeView) -> CommandView {
    bare("btrfs"@).arg("subvolume"@).arg("snapshot"@).arg("-r"@).arg(source.path).arg(
        source.snapshot,
    )
}

/// The command that sends what the new snapshot holds beyond its parent.
pub open spec fn send_command(source: SubvolumeView) -> CommandView {
    bare("btrfs"@).arg("send"@).arg("-p"@).arg(source.base).arg(source.snapshot)
}

/// The command that receives a snapshot into the target.
pub open spec fn receive_command(target: SubvolumeView) -> CommandView {
    bare("btrfs"@).arg("receive"@).arg(target.path)
}

/// The line that shows a sender piped into a receiver.
pub open spec fn pipeline_line(send: CommandView, receive: CommandView) -> Seq<char> {
    rendered(send) + " | "@ + rendered(receive)
}

/// How the reply to a rename is judged: only a refusal by the operating
/// system is a failure.
pub open spec fn rename_verdict(reply: ReplyView) -> Result<(), FailureView> {
    match reply {
        ReplyView::Failed { reason } => Err(FailureView::FilesystemOpFailed { reason }),
        _ => Ok(()),
    }
}

/// Committing one side: the committed snapshot is deleted, and if that
/// failed nothing follows. The rename is shown next. In a dry run that is
/// all; otherwise the new snapshot is renamed to the committed one.
pub open spec fn swapped(side: SubvolumeView, host: HostView) -> Outcome<Result<(), FailureView>> {
    let deleted = executed(delete_command(side), host);
    if deleted.value is Err {
        deleted
    } else {
        let shown = deleted.host.asked(RequestView::Print { line: rename_line(side) });
        if host.dry_run {
            Outcome { host: shown, value: Ok(()) }
        } else {
            Outcome {
                host: shown.asked(RequestView::Rename { from: side.snapshot, to: side.base }),
                value: rename_verdict(shown.answer()),
            }
        }
    }
}

impl Subvolume {
    /// Puts the new snapshot in the place of the committed one.
    pub fn finalize(&mut self, host: &mut Host) -> (result: Result<(), Failure>)
        ensures
            *final(self) == *old(self),
            final(host)@ == swapped(old(self)@, old(host)@).host,
            verdict_view(result) == swapped(old(self)@, old(host)@).value,
    {
        let cmd = Command::new("btrfs").arg("subvolume").arg("delete").arg(self.base.as_str());
        match exec(cmd, host) {
            Err(failure) => {
                return Err(failure);
            },
            Ok(()) => {},
        }
        let mut line = String::from_str("mv ");
        line.append(self.snapshot.as_str());
        line.append(" ");
        line.append(self.base.as_str());
        host.ask(Request::Print { line });
        if host.dry_run {
            return Ok(());
        }
        match host.ask(Request::Rename { from: self.snapshot.clone(), to: self.base.clone() }) {
            Reply::Failed { reason } => Err(Failure::FilesystemOpFailed { reason }),
            _ => Ok(()),
        }
    }
}

/// Where a backup stands: on its way, or failed for good.
#[derive(Debug, PartialEq, Eq)]
pub enum State {
    /// A phase failed. Nothing leads out of this state.
    Failed(Failure),
    /// No phase has failed so far.
    InProgress { source: Subvolume, target: Subvolume },
}

/// A state with its texts as sequences of characters.
pub enum StateView {
    Failed(FailureView),
    InProgress { source: SubvolumeView, target: SubvolumeView },
}

impl View for State {
    type V = StateView;

    open spec fn view(&self) -> StateView {
        match *self {
            State::Failed(failure) => StateView::Failed(failure@),
            State::InProgress { source, target } => StateView::InProgress {
                source: source@,
                target: target@,
            },
        }
    }
}

impl StateView {
    /// Whether both sides are well formed; a failed state has no sides.
    pub open spec fn well_formed(self) -> bool {
        match self {
            StateView::Failed(_) => true,
            StateView::InProgress { source, target } => source.well_formed()
                && target.well_formed(),
        }
    }
}

/// The failure that a refusal by the operating system stands for, where a
/// process was to be started or waited for.
pub open spec fn not_started(reply: ReplyView) -> FailureView
    recommends
        reply is Failed,
{
    FailureView::SpawnFailed { reason: reply->reason }
}

/// The transfer of one snapshot. The pipeline is shown first, and in a dry
/// run that is all. Otherwise the sender is started; if it cannot be
/// started the transfer ends there. The receiver is started on the output
/// of the sender and waited for, and after it the sender is waited for,
/// whatever became of the receiver, so that no sender is left behind. A
/// receiver that cannot be started is the failure of the transfer, and so
/// is a receiver that did not end with status zero. Only after a receiver
/// that succeeded does the sender's own end count.
pub open spec fn piped(source: SubvolumeView, target: SubvolumeView, host: HostView) -> Outcome<
    Result<(), FailureView>,
> {
    let send = send_command(source);
    let receive = receive_command(target);
    let shown = host.asked(RequestView::Print { line: pipeline_line(send, receive) });
    let spawned = shown.asked(RequestView::Spawn { command: send });
    let received = spawned.asked(RequestView::Receive { command: receive });
    let waited = received.asked(RequestView::Wait);
    if host.dry_run {
        Outcome { host: shown, value: Ok(()) }
    } else if shown.answer() is Failed {
        Outcome { host: spawned, value: Err(not_started(shown.answer())) }
    } else if spawned.answer() is Failed {
        Outcome { host: waited, value: Err(not_started(spawned.answer())) }
    } else if !spawned.answer().success() {
        Outcome { host: waited, value: Err(FailureView::ReceiveFailed) }
    } else if received.answer() is Failed {
        Outcome { host: waited, value: Err(not_started(received.answer())) }
    } else if !received.answer().success() {
        Outcome { host: waited, value: Err(FailureView::SendFailed) }
    } else {
        Outcome { host: waited, value: Ok(()) }
    }
}

/// The transfer phase of a state: nothing for a failed one.
pub open spec fn transferred(state: StateView, host: HostView) -> Outcome<
    Result<(), FailureView>,
> {
    match state {
        StateView::Failed(_) => Outcome { host, value: Ok(()) },
        StateView::InProgress { source, target } => piped(source, target, host),
    }
}

/// The commit phase of a state: nothing for a failed one; otherwise the
/// target is committed first, and the source only after the target
/// succeeded.
pub open spec fn committed(state: StateView, host: HostView) -> Outcome<Result<(), FailureView>> {
    match state {
        StateView::Failed(_) => Outcome { host, value: Ok(()) },
        StateView::InProgress { source, target } => {
            let first = swapped(target, host);
            if first.value is Err {
                first
            } else {
                swapped(source, first.host)
            }
        },
    }
}

impl State {
    /// Commits the target, and after it the source.
    pub fn finalize(&mut self, host: &mut Host) -> (result: Result<(), Failure>)
        ensures
            *final(self) == *old(self),
            final(host)@ == committed(old(self)@, old(host)@).host,
            verdict_view(result) == committed(old(self)@, old(host)@).value,
    {
        match self {
            State::Failed(_) => Ok(()),
            State::InProgress { source, target } => {
                match target.finalize(host) {
                    Err(failure) => {
                        return Err(failure);
                    },
                    Ok(()) => {},
                }
                source.finalize(host)
            },
        }
    }

    /// Sends the new snapshot of the source into the target.
    pub fn replicate(&mut self, host: &mut Host) -> (result: Result<(), Failure>)
        ensures
            *final(self) == *old(self),
            final(host)@ == transferred(old(self)@, old(host)@).host,
            verdict_view(result) == transferred(old(self)@, old(host)@).value,
    {
        match &*self {
            State::Failed(_) => Ok(()),
            State::InProgress { source, target } => {
                let send_command = Command::new("btrfs").arg("send").arg("-p").arg(
                    source.base.as_str(),
                ).arg(source.snapshot.as_str());
                let receive_command = Command::new("btrfs").arg("receive").arg(
                    target.path.as_str(),
                );
                let mut line = format_command(&send_command);
                line.append(" | ");
                line.append(format_command(&receive_command).as_str());
                host.ask(Request::Print { line });
                if host.dry_run {
                    return Ok(());
                }
                if let Reply::Failed { reason } = host.ask(
                    Request::Spawn { command: send_command },
                ) {
                    return Err(Failure::SpawnFailed { reason });
                }
                let status = host.ask(Request::Receive { command: receive_command });
                if let Reply::Failed { reason } = status {
                    let _ = host.ask(Request::Wait);
                    return Err(Failure::SpawnFailed { reason });
                }
                if !status.success() {
                    let _ = host.ask(Request::Wait);
                    return Err(Failure::ReceiveFailed);
                }
                let status = host.ask(Request::Wait);
                if let Reply::Failed { reason } = status {
                    return Err(Failure::SpawnFailed { reason });
                }
                if !status.success() {
                    return Err(Failure::SendFailed);
                }
                Ok(())
            },
        }
    }
}

/// The three phases of a backup, in the order in which a run goes
/// through them.
#[derive(Clone, Copy, Debug, PartialEq, Eq)]
pub enum Phase {
    /// The new snapshot of the source is taken.
    Stage,
    /// It is sent to the target.
    Transfer,
    /// It takes the place of the committed snapshot, on the target and
    /// after it on the source.
    Commit,
}

impl Phase {
    /// The most requests that the phase makes for one backup.
    pub open spec fn most_requests(self) -> nat {
        match self {
            Phase::Stage => 2,
            Phase::Transfer => 4,
            Phase::Commit => 8,
        }
    }
}

/// One named backup and where it stands. Only its own phases change
/// where it stands, so a backup that has failed stays failed.
#[derive(Debug, PartialEq, Eq)]
pub struct Backup {
    name: String,
    state: State,
}

/// A backup with its texts as sequences of characters.
pub struct BackupView {
    pub name: Seq<char>,
    pub state: StateView,
}

impl View for Backup {
    type V = BackupView;

    closed spec fn view(&self) -> BackupView {
        BackupView { name: self.name@, state: self.state@ }
    }
}

/// A backup at the start of a run. On the source the live subvolume lies
/// in the mount under the name, the committed snapshot in the directory
/// `snapshots` of the mount under the name; the target receives into its
/// mount and keeps the committed snapshot there under the name. On both
/// sides the new snapshot has the path of the committed one with `-new`
/// behind it.
pub open spec fn laid_out(
    name: Seq<char>,
    source_mount: Seq<char>,
    target_mount: Seq<char>,
) -> BackupView {
    let source_base = child_text(child_text(source_mount, "snapshots"@), name);
    let target_base = child_text(target_mount, name);
    BackupView {
        name,
        state: StateView::InProgress {
            source: SubvolumeView {
                path: child_text(source_mount, name),
                base: source_base,
                snapshot: staged_text(source_base),
            },
            target: SubvolumeView {
                path: target_mount,
                base: target_base,
                snapshot: staged_text(target_base),
            },
        },
    }
}

impl BackupView {
    /// Whether, on both sides of a backup on its way, the new snapshot
    /// has the path of the committed one with `-new` behind it.
    pub open spec fn well_formed(self) -> bool {
        self.state.well_formed()
    }

    /// Whether no phase has failed.
    pub open spec fn succeeded(self) -> bool {
        self.state is InProgress
    }

    /// The backup after a phase that ended with `verdict`: a failure is
    /// kept as the state, a success changes nothing.
    pub open spec fn settled(self, verdict: Result<(), FailureView>) -> BackupView {
        match verdict {
            Ok(()) => self,
            Err(failure) => BackupView { name: self.name, state: StateView::Failed(failure) },
        }
    }

    /// Running one command for a backup: nothing for a failed one.
    pub open spec fn commanded(self, command: CommandView, host: HostView) -> Outcome<BackupView> {
        match self.state {
            StateView::Failed(_) => Outcome { host, value: self },
            StateView::InProgress { .. } => {
                let ran = executed(command, host);
                Outcome { host: ran.host, value: self.settled(ran.value) }
            },
        }
    }

    /// The first phase: a read-only snapshot of the live source.
    pub open spec fn prepared(self, host: HostView) -> Outcome<BackupView> {
        match self.state {
            StateView::Failed(_) => Outcome { host, value: self },
            StateView::InProgress { source, .. } => self.commanded(snapshot_command(source), host),
        }
    }

    /// The second phase: the transfer.
    pub open spec fn replicated(self, host: HostView) -> Outcome<BackupView> {
        let moved = transferred(self.state, host);
        Outcome { host: moved.host, value: self.settled(moved.value) }
    }

    /// The third phase: the commit.
    pub open spec fn finalized(self, host: HostView) -> Outcome<BackupView> {
        let kept = committed(self.state, host);
        Outcome { host: kept.host, value: self.settled(kept.value) }
    }

    /// The backup and the host after one phase.
    pub open spec fn through(self, phase: Phase, host: HostView) -> Outcome<BackupView> {
        match phase {
            Phase::Stage => self.prepared(host),
            Phase::Transfer => self.replicated(host),
            Phase::Commit => self.finalized(host),
        }
    }

    /// The one line that tells how the backup ended.
    pub open spec fn summary(self, dry_run: bool) -> Seq<char> {
        let told = "Backup "@ + self.name + ": "@ + match self.state {
            StateView::Failed(failure) => message_text(failure),
            StateView::InProgress { .. } => "Success"@,
        };
        if dry_run {
            told + " (DRY RUN)"@
        } else {
            told
        }
    }

    /// Printing the summary; the result tells whether the backup
    /// succeeded.
    pub open spec fn summarized(self, host: HostView) -> Outcome<bool> {
        Outcome {
            host: host.asked(RequestView::Print { line: self.summary(host.dry_run) }),
            value: self.succeeded(),
        }
    }
}

impl Backup {
    /// A backup of the subvolume `name` from one mount to the other, with
    /// no phase run yet. Every path of it lies inside its mount, whatever
    /// the name holds.
    pub fn new(name: String, source_mount: &Mount, target_mount: &Mount) -> (backup: Backup)
        ensures
            backup@ == laid_out(name@, source_mount@, target_mount@),
            backup@.well_formed(),
    {
        let source_base = child(
            child(source_mount.0.as_str(), "snapshots").as_str(),
            name.as_str(),
        );
        let target_base = child(target_mount.0.as_str(), name.as_str());
        Backup {
            state: State::InProgress {
                source: Subvolume {
                    path: child(source_mount.0.as_str(), name.as_str()),
                    snapshot: staged(source_base.as_str()),
                    base: source_base,
                },
                target: Subvolume {
                    path: target_mount.0.clone(),
                    snapshot: staged(target_base.as_str()),
                    base: target_base,
                },
            },
            name,
        }
    }

    /// The name of the subvolume, as it is shown in the summary.
    pub fn name(&self) -> (name: &String)
        ensures
            name@ == self@.name,
    {
        &self.name
    }

    /// Where the backup stands.
    pub fn state(&self) -> (state: &State)
        ensures
            state@ == self@.state,
    {
        &self.state
    }

    /// Runs one command unless the backup has failed, and keeps its
    /// failure as the state.
    pub fn exec(&mut self, cmd: Command, host: &mut Host)
        ensures
            final(self)@ == old(self)@.commanded(cmd@, old(host)@).value,
            final(host)@ == old(self)@.commanded(cmd@, old(host)@).host,
            old(self)@.state is Failed ==> final(self)@ == old(self)@ && final(host)@ == old(
                host,
            )@,
    {
        match &self.state {
            State::Failed(_) => (),
            State::InProgress { .. } => {
                if let Err(failure) = exec(cmd, host) {
                    self.state = State::Failed(failure);
                    return ;
                }
            },
        }
    }

    /// Takes the new snapshot of the source.
    pub fn prepare(&mut self, host: &mut Host)
        ensures
            final(self)@ == old(self)@.prepared(old(host)@).value,
            final(host)@ == old(self)@.prepared(old(host)@).host,
            old(self)@.state is Failed ==> final(self)@ == old(self)@ && final(host)@ == old(
                host,
            )@,
    {
        match &self.state {
            State::Failed(_) => (),
            State::InProgress { source, .. } => {
                let cmd = Command::new("btrfs").arg("subvolume").arg("snapshot").arg("-r").arg(
                    source.path.as_str(),
                ).arg(source.snapshot.as_str());
                self.exec(cmd, host);
            },
        }
    }

    /// Transfers the new snapshot to the target.
    pub fn replicate(&mut self, host: &mut Host)
        ensures
            final(self)@ == old(self)@.replicated(old(host)@).value,
            final(host)@ == old(self)@.replicated(old(host)@).host,
            old(self)@.state is Failed ==> final(self)@ == old(self)@ && final(host)@ == old(
                host,
            )@,
    {
        if let Err(failure) = self.state.replicate(host) {
            self.state = State::Failed(failure);
        }
    }

    /// Commits the new snapshot on both sides.
    pub fn finalize(&mut self, host: &mut Host)
        ensures
            final(self)@ == old(self)@.finalized(old(host)@).value,
            final(host)@ == old(self)@.finalized(old(host)@).host,
            old(self)@.state is Failed ==> final(self)@ == old(self)@ && final(host)@ == old(
                host,
            )@,
    {
        if let Err(failure) = self.state.finalize(host) {
            self.state = State::Failed(failure);
        }
    }

    /// Runs one phase.
    pub fn perform(&mut self, phase: Phase, host: &mut Host)
        ensures
            final(self)@ == old(self)@.through(phase, old(host)@).value,
            final(host)@ == old(self)@.through(phase, old(host)@).host,
            old(self)@.state is Failed ==> final(self)@ == old(self)@ && final(host)@ == old(
                host,
            )@,
    {
        match phase {
            Phase::Stage => self.prepare(host),
            Phase::Transfer => self.replicate(host),
            Phase::Commit => self.finalize(host),
        }
    }

    /// Prints how the backup ended and tells whether it succeeded.
    pub fn print_summary(self, host: &mut Host) -> (success: bool)
        ensures
            success == self@.summarized(old(host)@).value,
            final(host)@ == self@.summarized(old(host)@).host,
    {
        let mut line = String::from_str("Backup ");
        line.append(self.name.as_str());
        line.append(": ");
        let success = match &self.state {
            State::Failed(failure) => {
                line.append(failure.message().as_str());
                false
            },
            State::InProgress { .. } => {
                line.append("Success");
                true
            },
        };
        if host.dry_run {
            line.append(" (DRY RUN)");
        }
        host.ask(Request::Print { line });
        success
    }
}

} // verus!
