//! A whole run: both mounts, every backup through the three phases one
//! phase at a time, the summaries, and the exit status.

use vstd::prelude::*;
use crate::backup::{laid_out, Backup, BackupView, Phase};
use crate::failure::{message_text, Failure, FailureView};
use crate::host::{Host, HostView, Outcome, Reply, ReplyView, Request, RequestView};
use crate::laws::{law_dry_run_only_prints, law_one_request_ahead};
use crate::mount::{mounted, released, Mount};
use crate::text::views;

verus! {

/// What a run works on.
#[derive(Debug, PartialEq, Eq)]
pub struct Settings {
    /// The device that holds the source.
    pub source_disk: String,
    /// Where the source is mounted.
    pub source_mount: String,
    /// The device that holds the target.
    pub target_disk: String,
    /// Where the target is mounted.
    pub target_mount: String,
    /// The names of the subvolumes to back up, in the order of the run.
    pub subvolumes: Vec<String>,
}

/// Settings with their texts as sequences of characters.
pub struct SettingsView {
    pub source_disk: Seq<char>,
    pub source_mount: Seq<char>,
    pub target_disk: Seq<char>,
    pub target_mount: Seq<char>,
    pub subvolumes: Seq<Seq<char>>,
}

impl View for Settings {
    type V = SettingsView;

    open spec fn view(&self) -> SettingsView {
        SettingsView {
            source_disk: self.source_disk@,
            source_mount: self.source_mount@,
            target_disk: self.target_disk@,
            target_mount: self.target_mount@,
            subvolumes: views(self.subvolumes@),
        }
    }
}

/// The option that both file systems are mounted with: the root of the
/// file system, whatever its default subvolume is.
pub open spec fn root_option() -> Option<Seq<char>> {
    Some("subvol=/"@)
}

/// The backups of a run before any phase, one for each name.
pub open spec fn roster(settings: SettingsView) -> Seq<BackupView> {
    Seq::new(
        settings.subvolumes.len(),
        |i: int| laid_out(settings.subvolumes[i], settings.source_mount, settings.target_mount),
    )
}

/// One phase on every backup, from the first to the last.
pub open spec fn swept(backups: Seq<BackupView>, phase: Phase, host: HostView) -> Outcome<
    Seq<BackupView>,
>
    decreases backups.len(),
{
    if backups.len() == 0 {
        Outcome { host, value: backups }
    } else {
        let before = swept(backups.drop_last(), phase, host);
        let last = backups.last().through(phase, before.host);
        Outcome { host: last.host, value: before.value.push(last.value) }
    }
}

/// The three phases, each on every backup before the next begins.
pub open spec fn batch(backups: Seq<BackupView>, host: HostView) -> Outcome<Seq<BackupView>> {
    let staged = swept(backups, Phase::Stage, host);
    let moved = swept(staged.value, Phase::Transfer, staged.host);
    swept(moved.value, Phase::Commit, moved.host)
}

/// Whether every backup succeeded.
pub open spec fn all_succeeded(backups: Seq<BackupView>) -> bool {
    forall|i: int| 0 <= i < backups.len() ==> (#[trigger] backups[i]).succeeded()
}

/// Whether a backup has failed.
pub open spec fn some_failed(backups: Seq<BackupView>) -> bool {
    exists|i: int| 0 <= i < backups.len() && (#[trigger] backups[i]).state is Failed
}

/// The summaries from the first to the last; the result tells whether
/// every backup succeeded.
pub open spec fn reported(backups: Seq<BackupView>, host: HostView) -> Outcome<bool>
    decreases backups.len(),
{
    if backups.len() == 0 {
        Outcome { host, value: true }
    } else {
        let before = reported(backups.drop_last(), host);
        let last = backups.last().summarized(before.host);
        Outcome { host: last.host, value: before.value && last.value }
    }
}

/// The most requests that a run makes from its start to its exit
/// status: eight for the mounts, and fifteen for each backup.
pub open spec fn most_requests(settings: SettingsView) -> nat {
    8 + 15 * settings.subvolumes.len()
}

/// Whether both mounts of a run succeed.
pub open spec fn mounts_held(settings: SettingsView, host: HostView) -> bool {
    let first = mounted(settings.source_mount, settings.source_disk, root_option(), host);
    let second = mounted(settings.target_mount, settings.target_disk, root_option(), first.host);
    first.value is Ok && second.value is Ok
}

/// The backups at the end of a run in which both mounts succeeded.
pub open spec fn finished(settings: SettingsView, host: HostView) -> Seq<BackupView> {
    let first = mounted(settings.source_mount, settings.source_disk, root_option(), host);
    let second = mounted(settings.target_mount, settings.target_disk, root_option(), first.host);
    batch(roster(settings), second.host).value
}

/// A run. The source is mounted, and after it the target: if the first
/// fails nothing follows, if the second fails the source is released.
/// With both mounts held the backups go through their phases and are
/// summed up; the target is released, and the source after it. The result
/// is the failure to mount, or whether every backup succeeded.
pub open spec fn ran(settings: SettingsView, host: HostView) -> Outcome<Result<bool, FailureView>> {
    let first = mounted(settings.source_mount, settings.source_disk, root_option(), host);
    let second = mounted(settings.target_mount, settings.target_disk, root_option(), first.host);
    let done = batch(roster(settings), second.host);
    let told = reported(done.value, done.host);
    if first.value is Err {
        Outcome { host: first.host, value: Err(first.value->Err_0) }
    } else if second.value is Err {
        Outcome {
            host: released(settings.source_mount, second.host),
            value: Err(second.value->Err_0),
        }
    } else {
        Outcome {
            host: released(settings.source_mount, released(settings.target_mount, told.host)),
            value: Ok(told.value),
        }
    }
}

/// The view of what a run returns.
pub open spec fn result_view(result: Result<bool, Failure>) -> Result<bool, FailureView> {
    match result {
        Ok(success) => Ok(success),
        Err(failure) => Err(failure@),
    }
}

/// Runs one phase on every backup, from the first to the last.
pub fn pass(backups: &mut Vec<Backup>, phase: Phase, host: &mut Host)
    ensures
        views(final(backups)@) == swept(views(old(backups)@), phase, old(host)@).value,
        final(host)@ == swept(views(old(backups)@), phase, old(host)@).host,
{
    let ghost start = views(backups@);
    let ghost first = host@;
    let count: usize = backups.len();
    let mut i: usize = 0;
    while i < count
        invariant
            i <= count,
            backups@.len() == count,
            start.len() == count,
            forall|j: int| i <= j < count ==> backups@[j]@ == start[j],
            views(backups@).take(i as int) == swept(start.take(i as int), phase, first).value,
            host@ == swept(start.take(i as int), phase, first).host,
        decreases count - i,
    {
        let ghost before = views(backups@);
        backups[i].perform(phase, host);
        proof {
            assert(start.take(i + 1).drop_last() =~= start.take(i as int));
            assert(views(backups@).take(i + 1) =~= before.take(i as int).push(
                backups@[i as int]@,
            ));
        }
        i = i + 1;
    }
    assert(start.take(count as int) =~= start);
}

/// Prints the summary of every backup; tells whether all succeeded.
pub fn report(backups: Vec<Backup>, host: &mut Host) -> (success: bool)
    ensures
        success == reported(views(backups@), old(host)@).value,
        final(host)@ == reported(views(backups@), old(host)@).host,
{
    let ghost all = views(backups@);
    let ghost first = host@;
    let mut success = true;
    for backup in it: backups
        invariant
            it.seq().len() == all.len(),
            forall|j: int| 0 <= j < all.len() ==> it.seq()[j]@ == all[j],
            success == reported(all.take(it.index() as int), first).value,
            host@ == reported(all.take(it.index() as int), first).host,
    {
        proof {
            let i = it.index() as int;
            assert(all.take(i + 1).drop_last() =~= all.take(i));
        }
        let one = backup.print_summary(host);
        success = success && one;
    }
    assert(all.take(all.len() as int) =~= all);
    success
}

/// Backs up every subvolume of the settings.
///
/// The result counts where the host is not waiting at the end. Where it
/// is, the run has gone beyond the known replies, and the request that
/// waits is to be performed first.
pub fn run(settings: &Settings, host: &mut Host) -> (result: Result<bool, Failure>)
    ensures
        final(host)@ == ran(settings@, old(host)@).host,
        result_view(result) == ran(settings@, old(host)@).value,
        old(host).dry_run ==> final(host)@.prints_since(old(host)@) && result_view(result) == Ok::<
            bool,
            FailureView,
        >(true),
{
    proof {
        if host.dry_run {
            law_dry_run_only_prints(settings@, host@);
        }
    }
    let source_mount = match Mount::new(
        settings.source_mount.clone(),
        settings.source_disk.as_str(),
        Some("subvol=/"),
        host,
    ) {
        Ok(held) => held,
        Err(failure) => {
            return Err(failure);
        },
    };
    let target_mount = match Mount::new(
        settings.target_mount.clone(),
        settings.target_disk.as_str(),
        Some("subvol=/"),
        host,
    ) {
        Ok(held) => held,
        Err(failure) => {
            source_mount.release(host);
            return Err(failure);
        },
    };

    let mut backups: Vec<Backup> = Vec::new();
    let count: usize = settings.subvolumes.len();
    let mut i: usize = 0;
    while i < count
        invariant
            i <= count,
            count == settings.subvolumes@.len(),
            source_mount@ == settings@.source_mount,
            target_mount@ == settings@.target_mount,
            backups@.len() == i,
            forall|j: int| 0 <= j < i ==> backups@[j]@ == roster(settings@)[j],
        decreases count - i,
    {
        backups.push(Backup::new(settings.subvolumes[i].clone(), &source_mount, &target_mount));
        i = i + 1;
    }
    assert(views(backups@) =~= roster(settings@));

    pass(&mut backups, Phase::Stage, host);
    pass(&mut backups, Phase::Transfer, host);
    pass(&mut backups, Phase::Commit, host);

    let success = report(backups, host);

    target_mount.release(host);
    source_mount.release(host);
    Ok(success)
}

/// The exit status that tells how a run ended: 2 where a mount failed
/// and no backup was tried, 1 where a backup failed, 0 where every backup
/// succeeded.
pub open spec fn exit_status(value: Result<bool, FailureView>) -> i32 {
    match value {
        Err(_) => 2,
        Ok(success) => if success {
            0
        } else {
            1
        },
    }
}

/// The end of a run: a failure to mount is written to standard error.
/// The result is the exit status.
pub open spec fn concluded(value: Result<bool, FailureView>, host: HostView) -> Outcome<i32> {
    Outcome {
        host: match value {
            Err(failure) => host.asked(
                RequestView::Complain { line: "Error: "@ + message_text(failure) },
            ),
            Ok(_) => host,
        },
        value: exit_status(value),
    }
}

/// A run from its start to its exit status, with the replies of `script`.
pub open spec fn played(dry_run: bool, settings: SettingsView, script: Seq<ReplyView>) -> Outcome<
    i32,
> {
    let end = ran(settings, HostView::fresh(dry_run, script));
    concluded(end.value, end.host)
}

/// Ends a run: tells of a failure to mount, and gives the exit status.
pub fn conclude(result: &Result<bool, Failure>, host: &mut Host) -> (status: i32)
    ensures
        status == concluded(result_view(*result), old(host)@).value,
        final(host)@ == concluded(result_view(*result), old(host)@).host,
{
    match result {
        Err(failure) => {
            let mut line = String::from_str("Error: ");
            line.append(failure.message().as_str());
            host.ask(Request::Complain { line });
            2
        },
        Ok(success) => if *success {
            0
        } else {
            1
        },
    }
}

/// Where a run stands once the known replies are used up.
#[derive(Debug, PartialEq, Eq)]
pub enum Progress {
    /// This request is to be performed next, and its reply added to the
    /// script.
    Pending(Request),
    /// The run is over; the process exits with this status.
    Finished { exit_code: i32 },
}

/// Carries a run as far as the replies of `script` reach. The caller
/// performs the pending request, puts its reply at the end of the script,
/// and asks again, until the run is finished. Each call goes over the run
/// from its start; the laws show that the requests that were performed
/// come again unchanged, and that the run is finished after no more
/// replies than `most_requests` tells.
pub fn advance(dry_run: bool, settings: &Settings, script: Vec<Reply>) -> (progress: Progress)
    ensures
        match progress {
            Progress::Pending(request) => {
                &&& played(dry_run, settings@, views(script@)).host.waiting()
                &&& played(dry_run, settings@, views(script@)).host.journal.len() == script@.len()
                    + 1
                &&& request@ == played(
                    dry_run,
                    settings@,
                    views(script@),
                ).host.journal[script@.len() as int]
            },
            Progress::Finished { exit_code } => {
                &&& !played(dry_run, settings@, views(script@)).host.waiting()
                &&& exit_code == played(dry_run, settings@, views(script@)).value
            },
        },
{
    proof {
        law_one_request_ahead(dry_run, settings@, views(script@));
    }
    let mut host = Host::new(dry_run, script);
    let result = run(settings, &mut host);
    let exit_code = conclude(&result, &mut host);
    match host.pending() {
        Some(request) => Progress::Pending(request),
        None => Progress::Finished { exit_code },
    }
}

} // verus!
