//! A command line as data: the program and its arguments, and the one line
//! of text that shows it to the operator.

use vstd::prelude::*;
use crate::failure::{verdict_view, Failure, FailureView};
use crate::host::{Host, HostView, Outcome, Reply, ReplyView, Request, RequestView};
use crate::text::{join, joined, views};

verus! {

/// A program to start and the arguments to hand to it, in order.
#[derive(Debug, PartialEq, Eq)]
pub struct Command {
    pub program: String,
    pub args: Vec<String>,
}

/// A command with its texts as sequences of characters.
pub struct CommandView {
    pub program: Seq<char>,
    pub args: Seq<Seq<char>>,
}

impl View for Command {
    type V = CommandView;

    open spec fn view(&self) -> CommandView {
        CommandView { program: self.program@, args: views(self.args@) }
    }
}

impl CommandView {
    /// The same command with one more argument at the end.
    pub open spec fn arg(self, arg: Seq<char>) -> CommandView {
        CommandView { program: self.program, args: self.args.push(arg) }
    }
}

/// The command that starts `program` without arguments.
pub open spec fn bare(program: Seq<char>) -> CommandView {
    CommandView { program, args: Seq::empty() }
}

/// A command on one line: the program, a space, and the arguments with a
/// space between each two. A command without arguments ends in that space.
pub open spec fn rendered(command: CommandView) -> Seq<char> {
    command.program + " "@ + joined(command.args, " "@)
}

impl Command {
    /// A command that starts `program` without arguments.
    pub fn new(program: &str) -> (command: Command)
        ensures
            command@ == bare(program@),
    {
        let command = Command { program: String::from_str(program), args: Vec::new() };
        assert(command@.args =~= Seq::empty());
        command
    }

    /// Adds one argument at the end.
    pub fn arg(self, arg: &str) -> (command: Command)
        ensures
            command@ == self@.arg(arg@),
    {
        let mut command = self;
        command.args.push(String::from_str(arg));
        assert(command@.args =~= self@.args.push(arg@));
        command
    }
}

impl Clone for Command {
    fn clone(&self) -> (copy: Command)
        ensures
            copy@ == self@,
    {
        let mut args: Vec<String> = Vec::new();
        let count: usize = self.args.len();
        let mut i: usize = 0;
        while i < count
            invariant
                i <= count,
                count == self.args@.len(),
                args@.len() == i,
                forall|j: int| 0 <= j < i ==> args@[j] == self.args@[j],
            decreases count - i,
        {
            args.push(self.args[i].clone());
            i = i + 1;
        }
        assert(views(args@) =~= views(self.args@));
        Command { program: self.program.clone(), args }
    }
}

/// Writes the command on one line, as the operator reads it.
pub fn format_command(cmd: &Command) -> (line: String)
    ensures
        line@ == rendered(cmd@),
{
    let mut line = cmd.program.clone();
    line.append(" ");
    line.append(join(&cmd.args, " ").as_str());
    line
}

/// How the end of a process that was waited for is judged: status zero is
/// success, any other status, a signal, and a process that could not be
/// started are each a failure of their own.
pub open spec fn exit_verdict(reply: ReplyView) -> Result<(), FailureView> {
    match reply {
        ReplyView::Done => Ok(()),
        ReplyView::Exited { code } => if code != 0 {
            Err(FailureView::CommandFailed { exit_code: code })
        } else {
            Ok(())
        },
        ReplyView::Signaled => Err(FailureView::CommandSignaled),
        ReplyView::Failed { reason } => Err(FailureView::SpawnFailed { reason }),
    }
}

/// Running one command: its line is printed first. In a dry run that is
/// all, and the result is success. Otherwise the command is started and
/// waited for, and its end is judged.
pub open spec fn executed(command: CommandView, host: HostView) -> Outcome<
    Result<(), FailureView>,
> {
    let shown = host.asked(RequestView::Print { line: rendered(command) });
    if host.dry_run {
        Outcome { host: shown, value: Ok(()) }
    } else {
        Outcome {
            host: shown.asked(RequestView::Status { command }),
            value: exit_verdict(shown.answer()),
        }
    }
}

/// Shows the command and, unless this is a dry run, runs it to its end.
pub fn exec(cmd: Command, host: &mut Host) -> (result: Result<(), Failure>)
    ensures
        final(host)@ == executed(cmd@, old(host)@).host,
        verdict_view(result) == executed(cmd@, old(host)@).value,
{
    host.ask(Request::Print { line: format_command(&cmd) });
    if host.dry_run {
        return Ok(());
    }
    match host.ask(Request::Status { command: cmd }) {
        Reply::Done => Ok(()),
        Reply::Exited { code } => if code != 0 {
            Err(Failure::CommandFailed { exit_code: code })
        } else {
            Ok(())
        },
        Reply::Signaled => Err(Failure::CommandSignaled),
        Reply::Failed { reason } => Err(Failure::SpawnFailed { reason }),
    }
}

} // verus!
