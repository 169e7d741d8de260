//! What holds of every run, stated over the model of a run and proved.

use vstd::prelude::*;
use crate::backup::{
    child_text, committed, laid_out, piped, pipeline_line, receive_command, send_command,
    snapshot_command, swapped, transferred, BackupView, Phase, StateView, SubvolumeView,
};
use crate::command::{executed, rendered};
use crate::failure::FailureView;
use crate::host::{HostView, Outcome, ReplyView, RequestView};
use crate::lemmas::{
    lemma_child_with_end, lemma_children_apart, lemma_released, lemma_reported, lemma_run,
    lemma_run_agrees, lemma_run_waits, lemma_same_end, lemma_swept, lemma_swept_at,
};
use crate::mount::{mount_command, mounted, release_requests, released};
use crate::orchestrator::{
    all_succeeded, batch, concluded, exit_status, finished, most_requests, mounts_held, played,
    ran, reported, root_option, roster, some_failed, swept, SettingsView,
};

verus! {

/// The new snapshot never lies at the path of the committed one: on both
/// sides of a backup as it is laid out, the two paths differ.
pub proof fn law_new_snapshot_is_apart(
    name: Seq<char>,
    source_mount: Seq<char>,
    target_mount: Seq<char>,
)
    ensures
        laid_out(name, source_mount, target_mount).well_formed(),
        laid_out(name, source_mount, target_mount).state->source.snapshot != laid_out(
            name,
            source_mount,
            target_mount,
        ).state->source.base,
        laid_out(name, source_mount, target_mount).state->target.snapshot != laid_out(
            name,
            source_mount,
            target_mount,
        ).state->target.base,
{
    reveal_strlit("-new");
}

/// Every path of a backup lies inside its mount, whatever the name holds:
/// the live subvolume and both snapshots of the source begin with the
/// source mount, both snapshots in its directory `snapshots`, and both
/// snapshots of the target begin with the target mount.
pub proof fn law_paths_lie_inside_the_mounts(
    name: Seq<char>,
    source_mount: Seq<char>,
    target_mount: Seq<char>,
)
    ensures
        ({
            let state = laid_out(name, source_mount, target_mount).state;
            let kept = child_text(source_mount, "snapshots"@);
            &&& source_mount.is_prefix_of(state->source.path)
            &&& source_mount.is_prefix_of(kept)
            &&& kept.is_prefix_of(state->source.base)
            &&& kept.is_prefix_of(state->source.snapshot)
            &&& state->target.path == target_mount
            &&& target_mount.is_prefix_of(state->target.base)
            &&& target_mount.is_prefix_of(state->target.snapshot)
        }),
{
}

/// Backups of different names lie apart. Where neither name is the other
/// with `-new` behind it, no committed or new snapshot of the one has the
/// path of a committed or new snapshot of the other, on the source and on
/// the target; and the live subvolumes of the source differ wherever the
/// names do.
pub proof fn law_layouts_are_apart(
    one: Seq<char>,
    other: Seq<char>,
    source_mount: Seq<char>,
    target_mount: Seq<char>,
)
    requires
        one != other,
        one != other + "-new"@,
        other != one + "-new"@,
    ensures
        ({
            let first = laid_out(one, source_mount, target_mount).state;
            let second = laid_out(other, source_mount, target_mount).state;
            &&& first->source.path != second->source.path
            &&& first->source.base != second->source.base
            &&& first->source.base != second->source.snapshot
            &&& first->source.snapshot != second->source.base
            &&& first->source.snapshot != second->source.snapshot
            &&& first->target.base != second->target.base
            &&& first->target.base != second->target.snapshot
            &&& first->target.snapshot != second->target.base
            &&& first->target.snapshot != second->target.snapshot
        }),
{
    let kept = child_text(source_mount, "snapshots"@);
    let end = "-new"@;
    lemma_child_with_end(kept, one, end);
    lemma_child_with_end(kept, other, end);
    lemma_child_with_end(target_mount, one, end);
    lemma_child_with_end(target_mount, other, end);
    if child_text(source_mount, one) == child_text(source_mount, other) {
        lemma_children_apart(source_mount, one, other);
    }
    if child_text(kept, one) == child_text(kept, other) {
        lemma_children_apart(kept, one, other);
    }
    if child_text(kept, one) == child_text(kept, other + end) {
        lemma_children_apart(kept, one, other + end);
    }
    if child_text(kept, one + end) == child_text(kept, other) {
        lemma_children_apart(kept, one + end, other);
    }
    if child_text(kept, one + end) == child_text(kept, other + end) {
        lemma_children_apart(kept, one + end, other + end);
        lemma_same_end(one, other, end);
    }
    if child_text(target_mount, one) == child_text(target_mount, other) {
        lemma_children_apart(target_mount, one, other);
    }
    if child_text(target_mount, one) == child_text(target_mount, other + end) {
        lemma_children_apart(target_mount, one, other + end);
    }
    if child_text(target_mount, one + end) == child_text(target_mount, other) {
        lemma_children_apart(target_mount, one + end, other);
    }
    if child_text(target_mount, one + end) == child_text(target_mount, other + end) {
        lemma_children_apart(target_mount, one + end, other + end);
        lemma_same_end(one, other, end);
    }
}

/// A failed backup is at its end: whatever phase is run on it, with
/// whatever host, nothing is asked of the host and the backup stays as it
/// is, with the failure that it kept first.
pub proof fn law_failure_is_final(backup: BackupView, phase: Phase, host: HostView)
    requires
        backup.state is Failed,
    ensures
        backup.through(phase, host) == (Outcome { host, value: backup }),
{
}

/// A phase leaves a backup as it was or fails it; it never changes the
/// name, nor the paths of a backup that goes on. So a backup that is well
/// formed stays so.
pub proof fn law_phase_keeps_or_fails(backup: BackupView, phase: Phase, host: HostView)
    ensures
        backup.through(phase, host).value.name == backup.name,
        backup.through(phase, host).value.state == backup.state || (backup.state is InProgress
            && backup.through(phase, host).value.state is Failed),
        backup.well_formed() ==> backup.through(phase, host).value.well_formed(),
{
}

/// The failure of a phase is kept as it came: a backup on its way whose
/// snapshot, transfer or commit fails is failed with that very failure.
pub proof fn law_failure_is_kept(backup: BackupView, host: HostView, failure: FailureView)
    requires
        backup.state is InProgress,
    ensures
        executed(snapshot_command(backup.state->source), host).value == Err::<(), FailureView>(
            failure,
        ) ==> backup.through(Phase::Stage, host).value.state == StateView::Failed(failure),
        transferred(backup.state, host).value == Err::<(), FailureView>(failure)
            ==> backup.through(Phase::Transfer, host).value.state == StateView::Failed(failure),
        committed(backup.state, host).value == Err::<(), FailureView>(failure) ==> backup.through(
            Phase::Commit,
            host,
        ).value.state == StateView::Failed(failure),
{
}

/// The summary of a dry run is the summary of a run with the note of the
/// dry run behind it, and tells the same of success.
pub proof fn law_dry_run_summary(backup: BackupView, dry: HostView, live: HostView)
    requires
        dry.dry_run,
        !live.dry_run,
    ensures
        backup.summary(true) == backup.summary(false) + " (DRY RUN)"@,
        backup.summarized(dry).value == backup.summarized(live).value,
        backup.summarized(dry).host == dry.asked(
            RequestView::Print { line: backup.summary(false) + " (DRY RUN)"@ },
        ),
        backup.summarized(live).host == live.asked(
            RequestView::Print { line: backup.summary(false) },
        ),
{
}

/// In a transfer that is no dry run, where the sender was started and
/// the receiver did not end with status zero, the sender is waited for
/// all the same: the transfer asks for exactly the pipeline line, the
/// sender, the receiver and the wait. The failure is the receiver's,
/// whatever the wait brings.
pub proof fn law_receiver_failure_waits_for_sender(
    source: SubvolumeView,
    target: SubvolumeView,
    host: HostView,
)
    requires
        !host.dry_run,
        host.journal.len() + 2 < host.script.len(),
        !(host.upcoming(1) is Failed),
        !(host.upcoming(2) is Failed),
        !host.upcoming(2).success(),
    ensures
        piped(source, target, host).value == Err::<(), FailureView>(FailureView::ReceiveFailed),
        piped(source, target, host).host.journal == host.journal.push(
            RequestView::Print {
                line: pipeline_line(send_command(source), receive_command(target)),
            },
        ).push(RequestView::Spawn { command: send_command(source) }).push(
            RequestView::Receive { command: receive_command(target) },
        ).push(RequestView::Wait),
{
}

/// In a transfer that is no dry run, a sender that was started is waited
/// for, whatever became of the receiver: the transfer asks for exactly the
/// pipeline line, the sender, the receiver and the wait. Where the
/// receiver could not be started, that is the failure of the transfer.
pub proof fn law_started_sender_is_waited_for(
    source: SubvolumeView,
    target: SubvolumeView,
    host: HostView,
)
    requires
        !host.dry_run,
        host.journal.len() + 2 < host.script.len(),
        !(host.upcoming(1) is Failed),
    ensures
        piped(source, target, host).host.journal == host.journal.push(
            RequestView::Print {
                line: pipeline_line(send_command(source), receive_command(target)),
            },
        ).push(RequestView::Spawn { command: send_command(source) }).push(
            RequestView::Receive { command: receive_command(target) },
        ).push(RequestView::Wait),
        host.upcoming(2) is Failed ==> piped(source, target, host).value == Err::<
            (),
            FailureView,
        >(FailureView::SpawnFailed { reason: host.upcoming(2)->reason }),
{
}

/// Where the commit of the target fails, the commit of the source is not
/// tried: the state's commit asks what the target's commit asks and no
/// more, and fails as the target's commit failed.
pub proof fn law_target_failure_spares_source(
    source: SubvolumeView,
    target: SubvolumeView,
    host: HostView,
)
    requires
        swapped(target, host).value is Err,
    ensures
        committed(StateView::InProgress { source, target }, host) == swapped(target, host),
{
}

/// A dry run performs nothing. From its first request to its last it
/// asks only for lines to be printed: no command is started and nothing
/// is renamed. Every backup ends as it began, and the run tells of
/// success.
pub proof fn law_dry_run_only_prints(settings: SettingsView, host: HostView)
    requires
        host.dry_run,
    ensures
        ran(settings, host).host.continues(host),
        ran(settings, host).host.prints_since(host),
        ran(settings, host).value == Ok::<bool, FailureView>(true),
        concluded(ran(settings, host).value, ran(settings, host).host) == (Outcome {
            host: ran(settings, host).host,
            value: 0i32,
        }),
        mounts_held(settings, host),
        finished(settings, host) == roster(settings),
{
    lemma_run(settings, host);
}

/// A run in which no reply tells of a failure ends as a dry run ends:
/// every backup as it began, and the run tells of success.
pub proof fn law_run_without_failure_succeeds(settings: SettingsView, host: HostView)
    requires
        host.obliging(),
    ensures
        ran(settings, host).value == Ok::<bool, FailureView>(true),
        mounts_held(settings, host),
        finished(settings, host) == roster(settings),
{
    lemma_run(settings, host);
}

/// The exit status of a run is 2 exactly when a mount failed, 1 exactly
/// when both mounts succeeded and a backup ended failed, and 0 exactly
/// when both mounts succeeded and every backup succeeded.
pub proof fn law_exit_status(settings: SettingsView, host: HostView)
    ensures
        exit_status(ran(settings, host).value) == 2 <==> !mounts_held(settings, host),
        exit_status(ran(settings, host).value) == 1 <==> mounts_held(settings, host)
            && some_failed(finished(settings, host)),
        exit_status(ran(settings, host).value) == 0 <==> mounts_held(settings, host)
            && all_succeeded(finished(settings, host)),
{
    let first = mounted(settings.source_mount, settings.source_disk, root_option(), host);
    let second = mounted(settings.target_mount, settings.target_disk, root_option(), first.host);
    let done = batch(roster(settings), second.host);
    lemma_reported(done.value, done.host);
}

/// In a pass every backup has its turn, whatever became of the backups
/// before it: it goes through the phase with the host as they left it.
pub proof fn law_every_backup_has_its_turn(
    backups: Seq<BackupView>,
    phase: Phase,
    host: HostView,
    i: int,
)
    requires
        0 <= i < backups.len(),
    ensures
        swept(backups, phase, host).value.len() == backups.len(),
        swept(backups, phase, host).value[i] == backups[i].through(
            phase,
            swept(backups.take(i), phase, host).host,
        ).value,
        swept(backups.take(i + 1), phase, host).host == backups[i].through(
            phase,
            swept(backups.take(i), phase, host).host,
        ).host,
{
    lemma_swept_at(backups, phase, host, i);
}

/// A backup that has failed takes no part in a pass: the pass asks
/// nothing for it and leaves it as it is.
pub proof fn law_pass_skips_failed(backups: Seq<BackupView>, phase: Phase, host: HostView, i: int)
    requires
        0 <= i < backups.len(),
        backups[i].state is Failed,
    ensures
        swept(backups, phase, host).value[i] == backups[i],
        swept(backups.take(i + 1), phase, host).host == swept(backups.take(i), phase, host).host,
{
    lemma_swept_at(backups, phase, host, i);
}

/// The failure that a backup kept first is the one it ends the run with:
/// a backup that is failed after the first pass, or after the second, is
/// the same after the third.
pub proof fn law_first_failure_stays(backups: Seq<BackupView>, host: HostView, i: int)
    requires
        0 <= i < backups.len(),
    ensures
        batch(backups, host).value.len() == backups.len(),
        swept(backups, Phase::Stage, host).value[i].state is Failed ==> batch(
            backups,
            host,
        ).value[i] == swept(backups, Phase::Stage, host).value[i],
        swept(
            swept(backups, Phase::Stage, host).value,
            Phase::Transfer,
            swept(backups, Phase::Stage, host).host,
        ).value[i].state is Failed ==> batch(backups, host).value[i] == swept(
            swept(backups, Phase::Stage, host).value,
            Phase::Transfer,
            swept(backups, Phase::Stage, host).host,
        ).value[i],
{
    let staged = swept(backups, Phase::Stage, host);
    let moved = swept(staged.value, Phase::Transfer, staged.host);
    lemma_swept(backups, Phase::Stage, host);
    lemma_swept_at(staged.value, Phase::Transfer, staged.host, i);
    lemma_swept_at(moved.value, Phase::Commit, moved.host, i);
}

/// A run is never more than one request ahead of the replies: from its
/// start to its exit status it makes every request that has a reply in
/// the script, and at most one that has none.
pub proof fn law_one_request_ahead(dry_run: bool, settings: SettingsView, script: Seq<ReplyView>)
    ensures
        played(dry_run, settings, script).host.orderly(),
        played(dry_run, settings, script).host.script == script,
        played(dry_run, settings, script).host.dry_run == dry_run,
{
    lemma_run(settings, HostView::fresh(dry_run, script));
}

/// A mount that a run holds is released before the run ends, whatever
/// became of the backups. A run that is finished and held the source has
/// the release of the source as its last requests; where it held the
/// target too, the release of the target comes directly before. And a run
/// that could not mount the source stops at that.
pub proof fn law_held_mounts_are_released(settings: SettingsView, host: HostView)
    requires
        !ran(settings, host).host.waiting(),
    ensures
        ({
            let first = mounted(settings.source_mount, settings.source_disk, root_option(), host);
            let journal = ran(settings, host).host.journal;
            let source = release_requests(settings.source_mount, host.dry_run);
            let target = release_requests(settings.target_mount, host.dry_run);
            let end = journal.len() as int;
            &&& first.value is Err ==> ran(settings, host).host == first.host
            &&& first.value is Ok ==> source.len() <= end && journal.subrange(
                end - source.len(),
                end,
            ) == source
            &&& mounts_held(settings, host) ==> source.len() + target.len() <= end
                && journal.subrange(end - source.len() - target.len(), end - source.len())
                == target
        }),
{
    let first = mounted(settings.source_mount, settings.source_disk, root_option(), host);
    let second = mounted(settings.target_mount, settings.target_disk, root_option(), first.host);
    let done = batch(roster(settings), second.host);
    let told = reported(done.value, done.host);
    let journal = ran(settings, host).host.journal;
    let source = release_requests(settings.source_mount, host.dry_run);
    let target = release_requests(settings.target_mount, host.dry_run);
    let end = journal.len() as int;
    lemma_run(settings, host);
    if first.value is Ok && second.value is Err {
        lemma_released(settings.source_mount, second.host);
        assert(journal.subrange(end - source.len(), end) =~= source);
    } else if first.value is Ok {
        let left = released(settings.target_mount, told.host);
        lemma_released(settings.source_mount, left);
        lemma_released(settings.target_mount, told.host);
        assert(journal == told.host.journal + target + source);
        assert(journal.subrange(end - source.len(), end) =~= source);
        assert(journal.subrange(end - source.len() - target.len(), end - source.len())
            =~= target);
    }
}

/// The requests of a transfer come in their order in every run: a
/// receiver is asked for directly after a sender, and only where the
/// sender was started; the wait is asked for directly after a receiver.
pub proof fn law_transfers_in_order(dry_run: bool, settings: SettingsView, script: Seq<ReplyView>)
    ensures
        played(dry_run, settings, script).host.in_order(),
{
    lemma_run(settings, HostView::fresh(dry_run, script));
}

/// No run leaves a sender behind. In every run a sender that was started
/// is followed directly by its receiver, and the receiver, once its reply
/// is known, directly by the wait for the sender. So in a run that is
/// finished every sender that was started has been waited for, before any
/// other sender is started.
pub proof fn law_no_sender_is_left_behind(
    dry_run: bool,
    settings: SettingsView,
    script: Seq<ReplyView>,
)
    ensures
        played(dry_run, settings, script).host.reaped(),
        !played(dry_run, settings, script).host.waiting() ==> forall|i: int|
            0 <= i < played(dry_run, settings, script).host.journal.len() && (#[trigger] played(
                dry_run,
                settings,
                script,
            ).host.journal[i]) is Spawn && !(script[i] is Failed) ==> {
                &&& i + 2 < played(dry_run, settings, script).host.journal.len()
                &&& played(dry_run, settings, script).host.journal[i + 1] is Receive
                &&& played(dry_run, settings, script).host.journal[i + 2] is Wait
            },
{
    lemma_run(settings, HostView::fresh(dry_run, script));
}

/// A run begins by showing the command that mounts the source: with no
/// reply known, that line is the one request made, and the run waits for
/// its reply.
pub proof fn law_run_begins(dry_run: bool, settings: SettingsView)
    ensures
        played(dry_run, settings, Seq::empty()).host.journal == seq![
            RequestView::Print {
                line: rendered(
                    mount_command(settings.source_mount, settings.source_disk, root_option()),
                ),
            },
        ],
        played(dry_run, settings, Seq::empty()).host.waiting(),
{
    lemma_run_waits(settings, HostView::fresh(dry_run, Seq::empty()));
}

/// A run comes to its end: from its start to its exit status it makes no
/// more than eight requests and fifteen for each backup, and with as many
/// replies it is finished.
pub proof fn law_run_ends(dry_run: bool, settings: SettingsView, script: Seq<ReplyView>)
    ensures
        played(dry_run, settings, script).host.journal.len() <= most_requests(settings),
        script.len() >= most_requests(settings) ==> !played(
            dry_run,
            settings,
            script,
        ).host.waiting(),
{
    lemma_run(settings, HostView::fresh(dry_run, script));
}

/// Replies that come later change nothing that came before. Of two runs
/// with the same settings, where one script begins with the whole of the
/// other, the run with the longer script makes every request that the
/// other makes, in the same order. And where the run with the shorter
/// script is finished, both make the same requests and end with the same
/// exit status.
pub proof fn law_known_replies_decide(
    dry_run: bool,
    settings: SettingsView,
    short: Seq<ReplyView>,
    long: Seq<ReplyView>,
)
    requires
        short.len() <= long.len(),
        forall|i: int| 0 <= i < short.len() ==> short[i] == long[i],
    ensures
        played(dry_run, settings, short).host.journal.len() <= played(
            dry_run,
            settings,
            long,
        ).host.journal.len(),
        forall|i: int|
            0 <= i < played(dry_run, settings, short).host.journal.len() ==> played(
                dry_run,
                settings,
                long,
            ).host.journal[i] == played(dry_run, settings, short).host.journal[i],
        !played(dry_run, settings, short).host.waiting() ==> {
            &&& played(dry_run, settings, long).host.journal == played(
                dry_run,
                settings,
                short,
            ).host.journal
            &&& played(dry_run, settings, long).value == played(dry_run, settings, short).value
        },
{
    let a = HostView::fresh(dry_run, short);
    let b = HostView::fresh(dry_run, long);
    lemma_run_agrees(settings, a, b);
    if !played(dry_run, settings, short).host.waiting() {
        assert(played(dry_run, settings, long).host.journal =~= played(
            dry_run,
            settings,
            short,
        ).host.journal);
    }
}

} // verus!
