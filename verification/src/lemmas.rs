//! Steps on the way to the laws, one for each part of a run: what the
//! part does to the journal, and that two runs which know the same
//! replies go the same way.

use vstd::prelude::*;
use crate::backup::{
    child_text, committed, delete_command, piped, rename_line, snapshot_command, swapped,
    transferred, BackupView, Phase, StateView, SubvolumeView,
};
use crate::command::{executed, rendered, CommandView};
use crate::failure::FailureView;
use crate::host::{HostView, RequestView};
use crate::mount::{mount_command, mounted, release_requests, released, unmount_command};
use crate::orchestrator::{
    all_succeeded, batch, concluded, finished, most_requests, mounts_held, ran, reported,
    root_option, roster, some_failed, swept, SettingsView,
};

verus! {

/// Two texts that begin alike and are equal end alike.
pub proof fn lemma_same_start(start: Seq<char>, one: Seq<char>, other: Seq<char>)
    requires
        start + one == start + other,
    ensures
        one == other,
{
    assert(one =~= (start + one).subrange(start.len() as int, (start + one).len() as int));
    assert(other =~= (start + other).subrange(
        start.len() as int,
        (start + other).len() as int,
    ));
}

/// Two texts that end alike and are equal begin alike.
pub proof fn lemma_same_end(one: Seq<char>, other: Seq<char>, end: Seq<char>)
    requires
        one + end == other + end,
    ensures
        one == other,
{
    assert(one =~= (one + end).subrange(0, one.len() as int));
    assert(other =~= (other + end).subrange(0, other.len() as int));
}

/// Inside one directory two names have one path only where they are one
/// name.
pub proof fn lemma_children_apart(dir: Seq<char>, one: Seq<char>, other: Seq<char>)
    requires
        child_text(dir, one) == child_text(dir, other),
    ensures
        one == other,
{
    if dir.len() > 0 && dir.last() != '/' {
        lemma_same_start(dir + seq!['/'], one, other);
    } else {
        lemma_same_start(dir, one, other);
    }
}

/// A name with something behind it lies, inside a directory, at the path
/// of the name with the same behind it.
pub proof fn lemma_child_with_end(dir: Seq<char>, name: Seq<char>, end: Seq<char>)
    ensures
        child_text(dir, name + end) == child_text(dir, name) + end,
{
    if dir.len() > 0 && dir.last() != '/' {
        assert(dir + seq!['/'] + (name + end) =~= dir + seq!['/'] + name + end);
    } else {
        assert(dir + (name + end) =~= dir + name + end);
    }
}

/// What every part of a run does to the host. It adds requests at the end
/// of the journal, no more than `most` of them, and none to a journal that
/// waits. It never leaves more than one request without a reply, keeps the
/// requests of a transfer in their order, leaves no sender behind, and in
/// a dry run adds only lines to print.
pub open spec fn follows(after: HostView, before: HostView, most: nat) -> bool {
    &&& after.continues(before)
    &&& after.journal.len() <= before.journal.len() + most
    &&& before.orderly() ==> after.orderly()
    &&& before.in_order() ==> after.in_order()
    &&& before.orderly() && before.reaped() ==> after.reaped()
    &&& before.dry_run ==> after.prints_since(before)
}

/// One part after another does what each part does, with as many requests
/// as both together.
pub proof fn lemma_follows_on(
    first: HostView,
    second: HostView,
    third: HostView,
    most: nat,
    more: nat,
)
    requires
        follows(second, first, most),
        follows(third, second, more),
    ensures
        follows(third, first, most + more),
{
}

/// A request that belongs to no transfer does what every part does.
pub proof fn lemma_asked(host: HostView, request: RequestView)
    requires
        !(request is Spawn),
        !(request is Receive),
        !(request is Wait),
        host.dry_run ==> request is Print,
    ensures
        follows(host.asked(request), host, 1),
{
}

/// A command does what every part does. It succeeds in a dry run, and
/// where no reply tells of a failure.
pub proof fn lemma_executed(command: CommandView, host: HostView)
    ensures
        follows(executed(command, host).host, host, 2),
        host.dry_run || host.obliging() ==> executed(command, host).value == Ok::<
            (),
            FailureView,
        >(()),
{
    let line = RequestView::Print { line: rendered(command) };
    let shown = host.asked(line);
    lemma_asked(host, line);
    if !host.dry_run {
        lemma_asked(shown, RequestView::Status { command });
        lemma_follows_on(host, shown, shown.asked(RequestView::Status { command }), 1, 1);
    }
}

/// The commit of one side does what every part does. It succeeds in a dry
/// run, and where no reply tells of a failure.
pub proof fn lemma_swapped(side: SubvolumeView, host: HostView)
    ensures
        follows(swapped(side, host).host, host, 4),
        host.dry_run || host.obliging() ==> swapped(side, host).value == Ok::<(), FailureView>(
            (),
        ),
{
    let deleted = executed(delete_command(side), host);
    lemma_executed(delete_command(side), host);
    if deleted.value is Ok {
        let line = RequestView::Print { line: rename_line(side) };
        let rename = RequestView::Rename { from: side.snapshot, to: side.base };
        let shown = deleted.host.asked(line);
        lemma_asked(deleted.host, line);
        lemma_follows_on(host, deleted.host, shown, 2, 1);
        if !host.dry_run {
            lemma_asked(shown, rename);
            lemma_follows_on(host, shown, shown.asked(rename), 3, 1);
        }
    }
}

/// A transfer does what every part does. It succeeds in a dry run, and
/// where no reply tells of a failure.
pub proof fn lemma_transferred(state: StateView, host: HostView)
    ensures
        follows(transferred(state, host).host, host, 4),
        host.dry_run || host.obliging() ==> transferred(state, host).value == Ok::<
            (),
            FailureView,
        >(()),
{
}

/// A commit does what every part does. It succeeds in a dry run, and
/// where no reply tells of a failure.
pub proof fn lemma_committed(state: StateView, host: HostView)
    ensures
        follows(committed(state, host).host, host, 8),
        host.dry_run || host.obliging() ==> committed(state, host).value == Ok::<(), FailureView>(
            (),
        ),
{
    match state {
        StateView::Failed(_) => {},
        StateView::InProgress { source, target } => {
            let first = swapped(target, host);
            lemma_swapped(target, host);
            lemma_swapped(source, first.host);
            lemma_follows_on(host, first.host, swapped(source, first.host).host, 4, 4);
        },
    }
}

/// A phase does what every part does. It leaves the backup as it was in
/// a dry run, and where no reply tells of a failure.
pub proof fn lemma_through(backup: BackupView, phase: Phase, host: HostView)
    ensures
        follows(backup.through(phase, host).host, host, phase.most_requests()),
        host.dry_run || host.obliging() ==> backup.through(phase, host).value == backup,
{
    match phase {
        Phase::Stage => {
            match backup.state {
                StateView::Failed(_) => {},
                StateView::InProgress { source, .. } => {
                    lemma_executed(snapshot_command(source), host);
                },
            }
        },
        Phase::Transfer => {
            lemma_transferred(backup.state, host);
        },
        Phase::Commit => {
            lemma_committed(backup.state, host);
        },
    }
}

/// A pass keeps the number of backups and does what every part does. It
/// leaves every backup as it was in a dry run, and where no reply tells
/// of a failure.
pub proof fn lemma_swept(backups: Seq<BackupView>, phase: Phase, host: HostView)
    ensures
        swept(backups, phase, host).value.len() == backups.len(),
        follows(swept(backups, phase, host).host, host, backups.len() * phase.most_requests()),
        host.dry_run || host.obliging() ==> swept(backups, phase, host).value == backups,
    decreases backups.len(),
{
    if backups.len() > 0 {
        let rest = backups.drop_last();
        let before = swept(rest, phase, host);
        lemma_swept(rest, phase, host);
        lemma_through(backups.last(), phase, before.host);
        lemma_follows_on(
            host,
            before.host,
            backups.last().through(phase, before.host).host,
            rest.len() * phase.most_requests(),
            phase.most_requests(),
        );
        assert(rest.len() * phase.most_requests() + phase.most_requests() == backups.len()
            * phase.most_requests()) by (nonlinear_arith)
            requires
                rest.len() + 1 == backups.len(),
        ;
        if host.dry_run || host.obliging() {
            assert(rest.push(backups.last()) =~= backups);
        }
    } else {
        assert(backups.len() * phase.most_requests() == 0) by (nonlinear_arith)
            requires
                backups.len() == 0,
        ;
    }
}

/// The three passes keep the number of backups and do what every part
/// does. They leave every backup as it was in a dry run, and where no
/// reply tells of a failure.
pub proof fn lemma_batch(backups: Seq<BackupView>, host: HostView)
    ensures
        batch(backups, host).value.len() == backups.len(),
        follows(batch(backups, host).host, host, 14 * backups.len()),
        host.dry_run || host.obliging() ==> batch(backups, host).value == backups,
{
    let staged = swept(backups, Phase::Stage, host);
    let moved = swept(staged.value, Phase::Transfer, staged.host);
    let done = swept(moved.value, Phase::Commit, moved.host);
    lemma_swept(backups, Phase::Stage, host);
    lemma_swept(staged.value, Phase::Transfer, staged.host);
    lemma_swept(moved.value, Phase::Commit, moved.host);
    lemma_follows_on(host, staged.host, moved.host, 2 * backups.len(), 4 * backups.len());
    lemma_follows_on(host, moved.host, done.host, 6 * backups.len(), 8 * backups.len());
}

/// The summaries do what every part does, and tell of success exactly
/// when every backup succeeded, which is when none has failed.
pub proof fn lemma_reported(backups: Seq<BackupView>, host: HostView)
    ensures
        follows(reported(backups, host).host, host, backups.len()),
        reported(backups, host).host.prints_since(host),
        reported(backups, host).value == all_succeeded(backups),
        all_succeeded(backups) == !some_failed(backups),
    decreases backups.len(),
{
    if backups.len() > 0 {
        let rest = backups.drop_last();
        let before = reported(rest, host);
        let line = RequestView::Print { line: backups.last().summary(host.dry_run) };
        lemma_reported(rest, host);
        lemma_asked(before.host, line);
        lemma_follows_on(host, before.host, before.host.asked(line), rest.len(), 1);
        assert forall|i: int| 0 <= i < rest.len() implies rest[i] == backups[i] by {}
        if reported(backups, host).value {
            assert forall|i: int| 0 <= i < backups.len() implies (#[trigger] backups[i]).state
                is InProgress by {
                if i < rest.len() {
                    assert(rest[i].succeeded());
                }
            }
        }
    }
}

/// A run, to its exit status, does what every part does. In a dry run,
/// and where no reply tells of a failure, both mounts are held, every
/// backup ends as it began, and the run tells of success.
pub proof fn lemma_run(settings: SettingsView, host: HostView)
    ensures
        follows(
            concluded(ran(settings, host).value, ran(settings, host).host).host,
            host,
            most_requests(settings),
        ),
        follows(ran(settings, host).host, host, most_requests(settings)),
        host.dry_run || host.obliging() ==> {
            &&& ran(settings, host).value == Ok::<bool, FailureView>(true)
            &&& mounts_held(settings, host)
            &&& finished(settings, host) == roster(settings)
        },
{
    let source = mount_command(settings.source_mount, settings.source_disk, root_option());
    let target = mount_command(settings.target_mount, settings.target_disk, root_option());
    let first = executed(source, host);
    let second = executed(target, first.host);
    let count = settings.subvolumes.len();
    lemma_executed(source, host);
    lemma_executed(target, first.host);
    lemma_follows_on(host, first.host, second.host, 2, 2);
    if first.value is Err {
        lemma_complained(first.value->Err_0, first.host);
        lemma_follows_on(host, first.host, ran(settings, host).host, 2, 0);
    } else if second.value is Err {
        let left = released(settings.source_mount, second.host);
        lemma_executed(unmount_command(settings.source_mount), second.host);
        lemma_follows_on(host, second.host, left, 4, 2);
        lemma_complained(second.value->Err_0, left);
    } else {
        let done = batch(roster(settings), second.host);
        let told = reported(done.value, done.host);
        let left = released(settings.target_mount, told.host);
        let gone = released(settings.source_mount, left);
        lemma_batch(roster(settings), second.host);
        lemma_reported(done.value, done.host);
        lemma_executed(unmount_command(settings.target_mount), told.host);
        lemma_executed(unmount_command(settings.source_mount), left);
        lemma_follows_on(host, second.host, done.host, 4, 14 * count);
        lemma_follows_on(host, done.host, told.host, 4 + 14 * count, count);
        lemma_follows_on(host, told.host, left, 4 + 15 * count, 2);
        lemma_follows_on(host, left, gone, 6 + 15 * count, 2);
    }
}

/// The line that tells of a failure to mount does what every part does,
/// outside a dry run.
pub proof fn lemma_complained(failure: FailureView, host: HostView)
    requires
        !host.dry_run,
    ensures
        follows(concluded(Err(failure), host).host, host, 1),
{
}

/// A release that is not left waiting adds its requests to the journal,
/// and was not asked of a host that waited.
pub proof fn lemma_released(mount: Seq<char>, host: HostView)
    requires
        !released(mount, host).waiting(),
    ensures
        !host.waiting(),
        released(mount, host).dry_run == host.dry_run,
        released(mount, host).journal == host.journal + release_requests(mount, host.dry_run),
{
    assert(released(mount, host).journal =~= host.journal + release_requests(
        mount,
        host.dry_run,
    ));
}

/// A run whose first mount is left waiting makes no further request.
pub proof fn lemma_run_waits(settings: SettingsView, host: HostView)
    requires
        executed(
            mount_command(settings.source_mount, settings.source_disk, root_option()),
            host,
        ).host.waiting(),
    ensures
        concluded(ran(settings, host).value, ran(settings, host).host).host == executed(
            mount_command(settings.source_mount, settings.source_disk, root_option()),
            host,
        ).host,
{
    let first = mounted(settings.source_mount, settings.source_disk, root_option(), host);
    let second = mounted(settings.target_mount, settings.target_disk, root_option(), first.host);
    let done = batch(roster(settings), second.host);
    let told = reported(done.value, done.host);
    let left = released(settings.target_mount, told.host);
    lemma_executed(
        mount_command(settings.target_mount, settings.target_disk, root_option()),
        first.host,
    );
    lemma_executed(unmount_command(settings.source_mount), second.host);
    lemma_batch(roster(settings), second.host);
    lemma_reported(done.value, done.host);
    lemma_executed(unmount_command(settings.target_mount), told.host);
    lemma_executed(unmount_command(settings.source_mount), left);
}

/// In a pass each backup goes through the phase with the host as the
/// backups before it left it.
pub proof fn lemma_swept_at(backups: Seq<BackupView>, phase: Phase, host: HostView, i: int)
    requires
        0 <= i < backups.len(),
    ensures
        swept(backups, phase, host).value.len() == backups.len(),
        swept(backups, phase, host).value[i] == backups[i].through(
            phase,
            swept(backups.take(i), phase, host).host,
        ).value,
        swept(backups.take(i + 1), phase, host).host == backups[i].through(
            phase,
            swept(backups.take(i), phase, host).host,
        ).host,
    decreases backups.len(),
{
    lemma_swept(backups.drop_last(), phase, host);
    assert(backups.take(i + 1).drop_last() =~= backups.take(i));
    if i == backups.len() - 1 {
        assert(backups.take(i) =~= backups.drop_last());
    } else {
        lemma_swept_at(backups.drop_last(), phase, host, i);
        assert(backups.drop_last().take(i) =~= backups.take(i));
        assert(backups.drop_last().take(i + 1) =~= backups.take(i + 1));
    }
}

/// A request keeps two hosts in agreement, and both get the same reply
/// unless the shorter one is left waiting.
pub proof fn lemma_asked_agrees(
    short: HostView,
    long: HostView,
    request: RequestView,
    other: RequestView,
)
    requires
        short.agrees_with(long),
        !short.waiting() ==> request == other,
    ensures
        short.asked(request).agrees_with(long.asked(other)),
        !short.asked(request).waiting() ==> short.answer() == long.answer(),
{
}

/// A command keeps two hosts in agreement, and ends alike on both unless
/// the shorter one is left waiting.
pub proof fn lemma_executed_agrees(
    short: HostView,
    long: HostView,
    command: CommandView,
    other: CommandView,
)
    requires
        short.agrees_with(long),
        !short.waiting() ==> command == other,
    ensures
        executed(command, short).host.agrees_with(executed(other, long).host),
        !executed(command, short).host.waiting() ==> executed(command, short).value == executed(
            other,
            long,
        ).value,
{
    let line = RequestView::Print { line: rendered(command) };
    let other_line = RequestView::Print { line: rendered(other) };
    lemma_asked_agrees(short, long, line, other_line);
    lemma_asked_agrees(
        short.asked(line),
        long.asked(other_line),
        RequestView::Status { command },
        RequestView::Status { command: other },
    );
}

/// The commit of one side keeps two hosts in agreement, and ends alike
/// on both unless the shorter one is left waiting.
pub proof fn lemma_swapped_agrees(
    short: HostView,
    long: HostView,
    side: SubvolumeView,
    other: SubvolumeView,
)
    requires
        short.agrees_with(long),
        !short.waiting() ==> side == other,
    ensures
        swapped(side, short).host.agrees_with(swapped(other, long).host),
        !swapped(side, short).host.waiting() ==> swapped(side, short).value == swapped(
            other,
            long,
        ).value,
{
    lemma_executed_agrees(short, long, delete_command(side), delete_command(other));
    lemma_swapped(side, short);
    lemma_swapped(other, long);
}

/// A transfer between two sides keeps two hosts in agreement, and ends
/// alike on both unless the shorter one is left waiting.
pub proof fn lemma_piped_agrees(
    short: HostView,
    long: HostView,
    source: SubvolumeView,
    target: SubvolumeView,
)
    requires
        short.agrees_with(long),
    ensures
        piped(source, target, short).host.agrees_with(piped(source, target, long).host),
        !piped(source, target, short).host.waiting() ==> piped(source, target, short).value
            == piped(source, target, long).value,
{
}

/// A transfer keeps two hosts in agreement, and ends alike on both
/// unless the shorter one is left waiting.
pub proof fn lemma_transferred_agrees(
    short: HostView,
    long: HostView,
    state: StateView,
    other: StateView,
)
    requires
        short.agrees_with(long),
        !short.waiting() ==> state == other,
    ensures
        transferred(state, short).host.agrees_with(transferred(other, long).host),
        !transferred(state, short).host.waiting() ==> transferred(state, short).value
            == transferred(other, long).value,
{
    lemma_transferred(state, short);
    lemma_transferred(other, long);
    if !short.waiting() {
        match state {
            StateView::Failed(_) => {},
            StateView::InProgress { source, target } => {
                lemma_piped_agrees(short, long, source, target);
            },
        }
    }
}

/// A commit keeps two hosts in agreement, and ends alike on both unless
/// the shorter one is left waiting.
pub proof fn lemma_committed_agrees(
    short: HostView,
    long: HostView,
    state: StateView,
    other: StateView,
)
    requires
        short.agrees_with(long),
        !short.waiting() ==> state == other,
    ensures
        committed(state, short).host.agrees_with(committed(other, long).host),
        !committed(state, short).host.waiting() ==> committed(state, short).value == committed(
            other,
            long,
        ).value,
{
    lemma_committed(state, short);
    lemma_committed(other, long);
    if !short.waiting() {
        match state {
            StateView::Failed(_) => {},
            StateView::InProgress { source, target } => {
                let first = swapped(target, short);
                let second = swapped(target, long);
                lemma_swapped_agrees(short, long, target, target);
                lemma_swapped(target, short);
                lemma_swapped(source, second.host);
                lemma_swapped_agrees(first.host, second.host, source, source);
            },
        }
    }
}

/// A phase keeps two hosts in agreement, and leaves the backup alike on
/// both unless the shorter one is left waiting.
pub proof fn lemma_through_agrees(
    short: HostView,
    long: HostView,
    backup: BackupView,
    other: BackupView,
    phase: Phase,
)
    requires
        short.agrees_with(long),
        !short.waiting() ==> backup == other,
    ensures
        backup.through(phase, short).host.agrees_with(other.through(phase, long).host),
        !backup.through(phase, short).host.waiting() ==> backup.through(phase, short).value
            == other.through(phase, long).value,
{
    lemma_through(backup, phase, short);
    lemma_through(other, phase, long);
    if !short.waiting() {
        match phase {
            Phase::Stage => {
                match backup.state {
                    StateView::Failed(_) => {},
                    StateView::InProgress { source, .. } => {
                        lemma_executed_agrees(
                            short,
                            long,
                            snapshot_command(source),
                            snapshot_command(source),
                        );
                    },
                }
            },
            Phase::Transfer => {
                lemma_transferred_agrees(short, long, backup.state, backup.state);
            },
            Phase::Commit => {
                lemma_committed_agrees(short, long, backup.state, backup.state);
            },
        }
    }
}

/// A pass keeps two hosts in agreement, and leaves the backups alike on
/// both unless the shorter one is left waiting.
pub proof fn lemma_swept_agrees(
    short: HostView,
    long: HostView,
    backups: Seq<BackupView>,
    others: Seq<BackupView>,
    phase: Phase,
)
    requires
        short.agrees_with(long),
        !short.waiting() ==> backups == others,
    ensures
        swept(backups, phase, short).host.agrees_with(swept(others, phase, long).host),
        !swept(backups, phase, short).host.waiting() ==> swept(backups, phase, short).value
            == swept(others, phase, long).value,
    decreases backups.len(),
{
    lemma_swept(backups, phase, short);
    lemma_swept(others, phase, long);
    if !short.waiting() && backups.len() > 0 {
        let rest = backups.drop_last();
        let before = swept(rest, phase, short);
        let beside = swept(rest, phase, long);
        lemma_swept_agrees(short, long, rest, rest, phase);
        lemma_swept(rest, phase, short);
        lemma_through(backups.last(), phase, before.host);
        lemma_through_agrees(before.host, beside.host, backups.last(), backups.last(), phase);
    }
}

/// The three passes keep two hosts in agreement, and leave the backups
/// alike on both unless the shorter one is left waiting.
pub proof fn lemma_batch_agrees(short: HostView, long: HostView, backups: Seq<BackupView>)
    requires
        short.agrees_with(long),
    ensures
        batch(backups, short).host.agrees_with(batch(backups, long).host),
        !batch(backups, short).host.waiting() ==> batch(backups, short).value == batch(
            backups,
            long,
        ).value,
{
    let staged = swept(backups, Phase::Stage, short);
    let beside = swept(backups, Phase::Stage, long);
    let moved = swept(staged.value, Phase::Transfer, staged.host);
    let along = swept(beside.value, Phase::Transfer, beside.host);
    lemma_swept(staged.value, Phase::Transfer, staged.host);
    lemma_swept(moved.value, Phase::Commit, moved.host);
    lemma_swept_agrees(short, long, backups, backups, Phase::Stage);
    lemma_swept_agrees(staged.host, beside.host, staged.value, beside.value, Phase::Transfer);
    lemma_swept_agrees(moved.host, along.host, moved.value, along.value, Phase::Commit);
}

/// The summaries keep two hosts in agreement, and tell alike on both
/// unless the shorter one is left waiting.
pub proof fn lemma_reported_agrees(
    short: HostView,
    long: HostView,
    backups: Seq<BackupView>,
    others: Seq<BackupView>,
)
    requires
        short.agrees_with(long),
        !short.waiting() ==> backups == others,
    ensures
        reported(backups, short).host.agrees_with(reported(others, long).host),
        !reported(backups, short).host.waiting() ==> reported(backups, short).value == reported(
            others,
            long,
        ).value,
    decreases backups.len(),
{
    lemma_reported(backups, short);
    lemma_reported(others, long);
    if !short.waiting() && backups.len() > 0 {
        let rest = backups.drop_last();
        let before = reported(rest, short);
        let beside = reported(rest, long);
        lemma_reported_agrees(short, long, rest, rest);
        lemma_reported(rest, short);
        lemma_asked_agrees(
            before.host,
            beside.host,
            RequestView::Print { line: backups.last().summary(short.dry_run) },
            RequestView::Print { line: backups.last().summary(long.dry_run) },
        );
    }
}

/// A run, to its exit status, keeps two hosts in agreement, and ends
/// alike on both unless the shorter one is left waiting.
pub proof fn lemma_run_agrees(settings: SettingsView, short: HostView, long: HostView)
    requires
        short.agrees_with(long),
    ensures
        concluded(ran(settings, short).value, ran(settings, short).host).host.agrees_with(
            concluded(ran(settings, long).value, ran(settings, long).host).host,
        ),
        !concluded(ran(settings, short).value, ran(settings, short).host).host.waiting()
            ==> ran(settings, short).value == ran(settings, long).value,
{
    let source = mount_command(settings.source_mount, settings.source_disk, root_option());
    let target = mount_command(settings.target_mount, settings.target_disk, root_option());
    let leave_source = unmount_command(settings.source_mount);
    let leave_target = unmount_command(settings.target_mount);
    let first = executed(source, short);
    let first_long = executed(source, long);
    let second = executed(target, first.host);
    let second_long = executed(target, first_long.host);
    let done = batch(roster(settings), second.host);
    let done_long = batch(roster(settings), second_long.host);
    let told = reported(done.value, done.host);
    let told_long = reported(done_long.value, done_long.host);
    let left = executed(leave_target, told.host);
    let left_long = executed(leave_target, told_long.host);
    lemma_executed_agrees(short, long, source, source);
    lemma_executed_agrees(first.host, first_long.host, target, target);
    lemma_executed_agrees(second.host, second_long.host, leave_source, leave_source);
    lemma_batch_agrees(second.host, second_long.host, roster(settings));
    lemma_reported_agrees(done.host, done_long.host, done.value, done_long.value);
    lemma_executed_agrees(told.host, told_long.host, leave_target, leave_target);
    lemma_executed_agrees(left.host, left_long.host, leave_source, leave_source);
    lemma_run(settings, short);
    lemma_run(settings, long);
    lemma_executed(source, short);
    lemma_executed(target, first.host);
    lemma_executed(leave_source, second.host);
    lemma_batch(roster(settings), second.host);
    lemma_reported(done.value, done.host);
    lemma_executed(leave_target, told.host);
    lemma_executed(leave_source, left.host);
}

} // verus!
