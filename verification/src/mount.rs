//! A mounted file system, held from the moment it is mounted until it is
//! released.

use vstd::prelude::*;
use crate::command::{bare, exec, executed, rendered, Command, CommandView};
use crate::failure::{Failure, FailureView};
use crate::host::{Host, HostView, Outcome, RequestView};

verus! {

/// A file system that was mounted at the path it holds.
#[derive(Debug)]
pub struct Mount(pub String);

impl View for Mount {
    type V = Seq<char>;

    open spec fn view(&self) -> Seq<char> {
        self.0@
    }
}

/// The text of a mount option, if one is given.
pub open spec fn option_text(option: Option<&str>) -> Option<Seq<char>> {
    match option {
        Some(text) => Some(text@),
        None => None,
    }
}

/// The command that mounts `disk` at `mount`, with `-o` and the option
/// before the two paths where an option is given.
pub open spec fn mount_command(
    mount: Seq<char>,
    disk: Seq<char>,
    option: Option<Seq<char>>,
) -> CommandView {
    let start = match option {
        Some(text) => bare("mount"@).arg("-o"@).arg(text),
        None => bare("mount"@),
    };
    start.arg(disk).arg(mount)
}

/// The command that unmounts what is mounted at `mount`.
pub open spec fn unmount_command(mount: Seq<char>) -> CommandView {
    bare("umount"@).arg(mount)
}

/// Mounting: the mount command is run. Where it succeeds the mount is
/// held; its failure is the failure to mount.
pub open spec fn mounted(
    mount: Seq<char>,
    disk: Seq<char>,
    option: Option<Seq<char>>,
    host: HostView,
) -> Outcome<Result<Seq<char>, FailureView>> {
    let ran = executed(mount_command(mount, disk, option), host);
    Outcome {
        host: ran.host,
        value: match ran.value {
            Ok(()) => Ok(mount),
            Err(failure) => Err(failure),
        },
    }
}

/// The view of a mount that is held, or of the failure to mount.
pub open spec fn held_view(result: Result<Mount, Failure>) -> Result<Seq<char>, FailureView> {
    match result {
        Ok(held) => Ok(held@),
        Err(failure) => Err(failure@),
    }
}

/// The requests that release a mount: the line of the unmount command,
/// and outside a dry run the command itself.
pub open spec fn release_requests(mount: Seq<char>, dry_run: bool) -> Seq<RequestView> {
    let shown = seq![RequestView::Print { line: rendered(unmount_command(mount)) }];
    if dry_run {
        shown
    } else {
        shown.push(RequestView::Status { command: unmount_command(mount) })
    }
}

/// Releasing: the unmount command is run, and what comes of it is ignored.
pub open spec fn released(mount: Seq<char>, host: HostView) -> HostView {
    executed(unmount_command(mount), host).host
}

impl Mount {
    /// Mounts `disk` at `mount`. The mount is held exactly when the
    /// command succeeded.
    pub fn new(mount: String, disk: &str, option: Option<&str>, host: &mut Host) -> (result:
        Result<Mount, Failure>)
        ensures
            final(host)@ == mounted(mount@, disk@, option_text(option), old(host)@).host,
            held_view(result) == mounted(mount@, disk@, option_text(option), old(host)@).value,
    {
        let mut cmd = Command::new("mount");
        if let Some(text) = option {
            cmd = cmd.arg("-o").arg(text);
        }
        cmd = cmd.arg(disk).arg(mount.as_str());
        match exec(cmd, host) {
            Ok(()) => Ok(Mount(mount)),
            Err(failure) => Err(failure),
        }
    }

    /// Unmounts. A failure to unmount is not reported and stops nothing.
    pub fn release(self, host: &mut Host)
        ensures
            final(host)@ == released(self@, old(host)@),
    {
        let cmd = Command::new("umount").arg(self.0.as_str());
        let _ = exec(cmd, host);
    }
}

} // verus!
