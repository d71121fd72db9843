//! Commands, and the shells that run them.

use vstd::prelude::*;
use vstd::string::StringExecFns;

verus! {

/// The program through which an elevated command is run.
pub const ELEVATION_PROGRAM: &'static str = "sudo";

/// One command for a shell: the program, its arguments in order, and whether
/// it is to run with administrative rights.
#[derive(Clone, Debug, PartialEq, Eq)]
pub struct CommandInvocation {
    pub command: String,
    pub arguments: Vec<String>,
    pub elevated: bool,
}

/// What a [`CommandInvocation`] says, as plain text.
pub ghost struct CommandInvocationView {
    pub command: Seq<char>,
    pub arguments: Seq<Seq<char>>,
    pub elevated: bool,
}

impl View for CommandInvocation {
    type V = CommandInvocationView;

    open spec fn view(&self) -> CommandInvocationView {
        CommandInvocationView {
            command: self.command@,
            arguments: self.arguments.deep_view(),
            elevated: self.elevated,
        }
    }
}

impl DeepView for CommandInvocation {
    type V = CommandInvocationView;

    open spec fn deep_view(&self) -> CommandInvocationView {
        self@
    }
}

impl CommandInvocationView {
    /// The words of the process that carries this invocation out: the command
    /// and its arguments, behind the elevation program where it is elevated.
    pub open spec fn words(self) -> Seq<Seq<char>> {
        if self.elevated {
            seq![ELEVATION_PROGRAM@, self.command] + self.arguments
        } else {
            seq![self.command] + self.arguments
        }
    }
}

/// Owned copies of `texts`, in order.
fn owned_texts(texts: &[&str]) -> (owned: Vec<String>)
    ensures
        owned.deep_view() == texts.deep_view(),
{
    let mut owned: Vec<String> = Vec::new();
    let mut i: usize = 0;
    while i < texts.len()
        invariant
            i <= texts.len(),
            owned.len() == i,
            forall|k: int| 0 <= k < i ==> owned[k]@ == texts[k]@,
        decreases texts.len() - i,
    {
        owned.push(String::from_str(texts[i]));
        i += 1;
    }
    owned
}

impl CommandInvocation {
    /// The invocation of `command` on `arguments`.
    pub fn new(command: &str, arguments: &[&str], elevated: bool) -> (invocation: CommandInvocation)
        ensures
            invocation@ == (CommandInvocationView {
                command: command@,
                arguments: arguments.deep_view(),
                elevated,
            }),
    {
        CommandInvocation {
            command: String::from_str(command),
            arguments: owned_texts(arguments),
            elevated,
        }
    }

    /// The words of the process to start for this invocation, the program
    /// first.
    pub fn words(&self) -> (words: Vec<String>)
        ensures
            words.deep_view() == self@.words(),
    {
        let mut words: Vec<String> = Vec::new();
        if self.elevated {
            words.push(String::from_str(ELEVATION_PROGRAM));
        }
        words.push(self.command.clone());
        let ghost head = words.deep_view();
        let lead: usize = words.len();
        let mut i: usize = 0;
        while i < self.arguments.len()
            invariant
                i <= self.arguments.len(),
                words.len() == lead + i,
                lead == head.len(),
                forall|k: int| 0 <= k < lead ==> words[k]@ == head[k],
                forall|k: int| 0 <= k < i ==> words[lead + k]@ == self.arguments[k]@,
            decreases self.arguments.len() - i,
        {
            words.push(self.arguments[i].clone());
            i += 1;
        }
        assert(words.deep_view() =~= head + self.arguments.deep_view());
        words
    }
}

/// The commands handed to a shell, oldest first.
pub type InvocationLog = Seq<CommandInvocationView>;

/// Runs commands.
///
/// A shell blocks until the command has ended and does not return where the
/// command could not be run. What it was handed is kept in `invocations`,
/// which is ghost: an implementation in unverified code gives it a body that
/// is never run, such as `unreachable!()`.
pub trait Shell {
    /// The commands handed to this shell so far, oldest first.
    spec fn invocations(&self) -> InvocationLog;

    /// Runs `command` on `arguments` with the rights of the caller.
    fn run(&mut self, command: &str, arguments: &[&str])
        ensures
            final(self).invocations() == old(self).invocations().push(
                (CommandInvocationView {
                    command: command@,
                    arguments: arguments.deep_view(),
                    elevated: false,
                }),
            ),
    ;

    /// Runs `command` on `arguments` with administrative rights.
    fn sudo_run(&mut self, command: &str, arguments: &[&str])
        ensures
            final(self).invocations() == old(self).invocations().push(
                (CommandInvocationView {
                    command: command@,
                    arguments: arguments.deep_view(),
                    elevated: true,
                }),
            ),
    ;
}

/// A shell for dry runs: it runs nothing and keeps what it was handed.
pub struct RecordingShell {
    pub calls: Vec<CommandInvocation>,
}

impl RecordingShell {
    /// A shell that was handed nothing yet.
    pub fn new() -> (shell: RecordingShell)
        ensures
            shell.invocations() == Seq::<CommandInvocationView>::empty(),
    {
        RecordingShell { calls: Vec::new() }
    }

    fn record(&mut self, invocation: CommandInvocation)
        ensures
            final(self).invocations() == old(self).invocations().push(invocation@),
    {
        self.calls.push(invocation);
    }
}

impl Shell for RecordingShell {
    open spec fn invocations(&self) -> InvocationLog {
        self.calls.deep_view()
    }

    fn run(&mut self, command: &str, arguments: &[&str]) {
        self.record(CommandInvocation::new(command, arguments, false));
    }

    fn sudo_run(&mut self, command: &str, arguments: &[&str]) {
        self.record(CommandInvocation::new(command, arguments, true));
    }
}

} // verus!
