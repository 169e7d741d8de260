//! The machine that a run talks to, as a record of a conversation.
//!
//! The library starts no process and touches no file. It asks: each thing
//! to be done is a [`Request`], and what came of it is a [`Reply`]. A
//! [`Host`] holds the replies that are known so far and writes down every
//! request in order. The first request that has no reply yet is the one to
//! perform next; from there on nothing more is written down.

use vstd::prelude::*;
use crate::command::{Command, CommandView};
use crate::text::views;

verus! {

/// One thing for the caller to do.
#[derive(Debug, PartialEq, Eq)]
pub enum Request {
    /// Write the line to standard output.
    Print { line: String },
    /// Write the line to standard error.
    Complain { line: String },
    /// Start the command and wait until it ends.
    Status { command: Command },
    /// Start the command with its standard output held open for a reader,
    /// and do not wait.
    Spawn { command: Command },
    /// Start the command with the output of the spawned process as its
    /// standard input, and wait until it ends.
    Receive { command: Command },
    /// Wait until the spawned process ends.
    Wait,
    /// Rename `from` to `to` on the file system.
    Rename { from: String, to: String },
}

/// A request with its texts as sequences of characters.
pub enum RequestView {
    Print { line: Seq<char> },
    Complain { line: Seq<char> },
    Status { command: CommandView },
    Spawn { command: CommandView },
    Receive { command: CommandView },
    Wait,
    Rename { from: Seq<char>, to: Seq<char> },
}

impl View for Request {
    type V = RequestView;

    open spec fn view(&self) -> RequestView {
        match *self {
            Request::Print { line } => RequestView::Print { line: line@ },
            Request::Complain { line } => RequestView::Complain { line: line@ },
            Request::Status { command } => RequestView::Status { command: command@ },
            Request::Spawn { command } => RequestView::Spawn { command: command@ },
            Request::Receive { command } => RequestView::Receive { command: command@ },
            Request::Wait => RequestView::Wait,
            Request::Rename { from, to } => RequestView::Rename { from: from@, to: to@ },
        }
    }
}

impl Clone for Request {
    fn clone(&self) -> (copy: Request)
        ensures
            copy@ == self@,
    {
        match self {
            Request::Print { line } => Request::Print { line: line.clone() },
            Request::Complain { line } => Request::Complain { line: line.clone() },
            Request::Status { command } => Request::Status { command: command.clone() },
            Request::Spawn { command } => Request::Spawn { command: command.clone() },
            Request::Receive { command } => Request::Receive { command: command.clone() },
            Request::Wait => Request::Wait,
            Request::Rename { from, to } => Request::Rename { from: from.clone(), to: to.clone() },
        }
    }
}

/// What came of one request.
#[derive(Debug, PartialEq, Eq)]
pub enum Reply {
    /// It was done. Of a process that was waited for: it exited with
    /// status zero.
    Done,
    /// The process exited with this status.
    Exited { code: i32 },
    /// The process was ended by a signal.
    Signaled,
    /// The operating system refused; `reason` is what it said.
    Failed { reason: String },
}

/// A reply with its text as a sequence of characters.
pub enum ReplyView {
    Done,
    Exited { code: i32 },
    Signaled,
    Failed { reason: Seq<char> },
}

impl View for Reply {
    type V = ReplyView;

    open spec fn view(&self) -> ReplyView {
        match *self {
            Reply::Done => ReplyView::Done,
            Reply::Exited { code } => ReplyView::Exited { code },
            Reply::Signaled => ReplyView::Signaled,
            Reply::Failed { reason } => ReplyView::Failed { reason: reason@ },
        }
    }
}

impl Clone for Reply {
    fn clone(&self) -> (copy: Reply)
        ensures
            copy@ == self@,
    {
        match self {
            Reply::Done => Reply::Done,
            Reply::Exited { code } => Reply::Exited { code: *code },
            Reply::Signaled => Reply::Signaled,
            Reply::Failed { reason } => Reply::Failed { reason: reason.clone() },
        }
    }
}

impl ReplyView {
    /// Whether a process that was waited for ended with status zero.
    pub open spec fn success(self) -> bool {
        self == ReplyView::Done || self == (ReplyView::Exited { code: 0 })
    }
}

impl Reply {
    /// Whether a process that was waited for ended with status zero.
    pub fn success(&self) -> (yes: bool)
        ensures
            yes == self@.success(),
    {
        match self {
            Reply::Done => true,
            Reply::Exited { code } => *code == 0,
            _ => false,
        }
    }
}

/// The conversation so far.
#[derive(Debug)]
pub struct Host {
    /// In a dry run commands and renames are shown and not performed.
    pub dry_run: bool,
    /// The replies that are known, the oldest first: the reply at an index
    /// answers the request at the same index of the journal.
    pub script: Vec<Reply>,
    /// The requests made so far, the oldest first.
    pub journal: Vec<Request>,
}

/// A host with its texts as sequences of characters.
pub struct HostView {
    pub dry_run: bool,
    pub script: Seq<ReplyView>,
    pub journal: Seq<RequestView>,
}

impl View for Host {
    type V = HostView;

    open spec fn view(&self) -> HostView {
        HostView {
            dry_run: self.dry_run,
            script: views(self.script@),
            journal: views(self.journal@),
        }
    }
}

/// What a part of a run leaves behind: the host after it, and its result.
pub struct Outcome<T> {
    pub host: HostView,
    pub value: T,
}

impl HostView {
    /// A host at the start of a conversation of which `script` is known.
    pub open spec fn fresh(dry_run: bool, script: Seq<ReplyView>) -> HostView {
        HostView { dry_run, script, journal: Seq::empty() }
    }

    /// Whether the last request of the journal has no reply yet.
    pub open spec fn waiting(self) -> bool {
        self.journal.len() > self.script.len()
    }

    /// The reply that is known for the request that is `ahead` places
    /// after the next one.
    pub open spec fn upcoming(self, ahead: int) -> ReplyView
        recommends
            0 <= ahead,
            self.journal.len() + ahead < self.script.len(),
    {
        self.script[self.journal.len() + ahead]
    }

    /// What the next request is answered with: the reply at its place in
    /// the script, and `Done` where the script has ended.
    pub open spec fn answer(self) -> ReplyView {
        if self.journal.len() < self.script.len() {
            self.script[self.journal.len() as int]
        } else {
            ReplyView::Done
        }
    }

    /// The host after one more request: it is written down, unless an
    /// earlier request is still waiting for its reply.
    pub open spec fn asked(self, request: RequestView) -> HostView {
        if self.waiting() {
            self
        } else {
            HostView { journal: self.journal.push(request), ..self }
        }
    }
}

impl HostView {
    /// Whether this host is `earlier` some requests later: the mode and
    /// the script are the same, the journal begins with the earlier one,
    /// and nothing was added to a journal that was waiting.
    pub open spec fn continues(self, earlier: HostView) -> bool {
        &&& self.dry_run == earlier.dry_run
        &&& self.script == earlier.script
        &&& earlier.journal.len() <= self.journal.len()
        &&& forall|i: int| 0 <= i < earlier.journal.len() ==> self.journal[i] == earlier.journal[i]
        &&& earlier.waiting() ==> self == earlier
    }

    /// Whether at most one request is without its reply.
    pub open spec fn orderly(self) -> bool {
        self.journal.len() <= self.script.len() + 1
    }

    /// Whether `longer` knows every reply that this host knows, and has
    /// made every request that this host has made, in the same order; and
    /// no more than these, unless this host is waiting.
    pub open spec fn agrees_with(self, longer: HostView) -> bool {
        &&& self.dry_run == longer.dry_run
        &&& self.script.len() <= longer.script.len()
        &&& forall|i: int| 0 <= i < self.script.len() ==> self.script[i] == longer.script[i]
        &&& self.journal.len() <= longer.journal.len()
        &&& forall|i: int| 0 <= i < self.journal.len() ==> self.journal[i] == longer.journal[i]
        &&& !self.waiting() ==> self.journal.len() == longer.journal.len()
    }

    /// Whether every receiver comes directly after a sender that was
    /// started, and every wait directly after a receiver.
    pub open spec fn in_order(self) -> bool {
        forall|i: int|
            0 <= i < self.journal.len() ==> {
                &&& (#[trigger] self.journal[i]) is Receive ==> {
                    &&& 1 <= i <= self.script.len()
                    &&& self.journal[i - 1] is Spawn
                    &&& !(self.script[i - 1] is Failed)
                }
                &&& self.journal[i] is Wait ==> {
                    &&& 2 <= i <= self.script.len()
                    &&& self.journal[i - 1] is Receive
                }
            }
    }

    /// Whether no sender is left behind: every sender that was started is
    /// followed directly by its receiver, and the receiver, once its reply
    /// is known, directly by the wait for the sender.
    pub open spec fn reaped(self) -> bool {
        forall|i: int|
            0 <= i < self.journal.len() && i < self.script.len() && (
            #[trigger] self.journal[i]) is Spawn && !(self.script[i] is Failed) ==> {
                &&& i + 1 < self.journal.len()
                &&& self.journal[i + 1] is Receive
                &&& i + 1 < self.script.len() ==> {
                    &&& i + 2 < self.journal.len()
                    &&& self.journal[i + 2] is Wait
                }
            }
    }

    /// Whether every reply that is known tells of success.
    pub open spec fn obliging(self) -> bool {
        forall|i: int| 0 <= i < self.script.len() ==> (#[trigger] self.script[i]).success()
    }

    /// Whether every request made since `earlier` is a line to print.
    pub open spec fn prints_since(self, earlier: HostView) -> bool {
        forall|i: int|
            earlier.journal.len() <= i < self.journal.len() ==> self.journal[i] is Print
    }
}

impl Host {
    /// A host at the start of a conversation of which `script` is known.
    pub fn new(dry_run: bool, script: Vec<Reply>) -> (host: Host)
        ensures
            host@ == HostView::fresh(dry_run, views(script@)),
    {
        let host = Host { dry_run, script, journal: Vec::new() };
        assert(host@.journal =~= Seq::empty());
        host
    }

    /// Makes one request and returns its reply.
    pub fn ask(&mut self, request: Request) -> (reply: Reply)
        ensures
            final(self)@ == old(self)@.asked(request@),
            reply@ == old(self)@.answer(),
    {
        let at: usize = self.journal.len();
        if at < self.script.len() {
            self.journal.push(request);
            assert(self@.journal =~= old(self)@.journal.push(request@));
            self.script[at].clone()
        } else if at == self.script.len() {
            self.journal.push(request);
            assert(self@.journal =~= old(self)@.journal.push(request@));
            Reply::Done
        } else {
            Reply::Done
        }
    }

    /// The request that waits for its reply, if there is one.
    pub fn pending(&self) -> (request: Option<Request>)
        ensures
            match request {
                Some(request) => self@.waiting() && request@ == self@.journal.last(),
                None => !self@.waiting(),
            },
    {
        let count: usize = self.journal.len();
        if count > self.script.len() {
            Some(self.journal[count - 1].clone())
        } else {
            None
        }
    }
}

} // verus!
