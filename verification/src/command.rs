//! The requests that a backend puts to its desktop environment's control
//! tool, and the answers that come back.
//!
//! The library decides what is asked and what an answer means; running the
//! tool is left to the caller, who hands back what the tool printed.

use vstd::prelude::*;

verus! {

/// One invocation of a control tool: the program and its arguments.
#[derive(Clone, Debug, PartialEq, Eq)]
pub struct Command {
    pub program: String,
    pub args: Vec<String>,
}

/// An invocation, to specifications.
pub struct CommandModel {
    pub program: Seq<char>,
    pub args: Seq<Seq<char>>,
}

impl View for Command {
    type V = CommandModel;

    open spec fn view(&self) -> CommandModel {
        CommandModel { program: self.program@, args: self.args@.map_values(|a: String| a@) }
    }
}

/// The models of a list of invocations.
pub open spec fn command_models(commands: Seq<Command>) -> Seq<CommandModel> {
    commands.map_values(|c: Command| c@)
}

/// What a control tool left behind when it ended.
#[derive(Clone, Debug, PartialEq, Eq)]
pub struct CommandOutput {
    /// Whether the tool reported success.
    pub success: bool,
    pub stdout: Vec<u8>,
    pub stderr: Vec<u8>,
}

/// How an invocation went.
#[derive(Clone, Debug, PartialEq, Eq)]
pub enum CommandOutcome {
    /// The tool could not be started.
    NotStarted,
    /// The tool ran and ended.
    Finished(CommandOutput),
}

/// The text that bytes stand for when every malformed sequence in them is
/// replaced by U+FFFD.
pub uninterp spec fn lossy_text(bytes: Seq<u8>) -> Seq<char>;

/// `String::from_utf8_lossy`: the text of the bytes, with U+FFFD in place of
/// what is not UTF-8. The text is a function of the bytes alone.
#[verifier::external_body]
pub(crate) fn text_of(bytes: &Vec<u8>) -> (s: String)
    ensures
        s@ == lossy_text(bytes@),
{
    String::from_utf8_lossy(bytes).into_owned()
}

/// The invocation of `program` with the arguments `args`.
pub open spec fn request(program: Seq<char>, args: Seq<Seq<char>>) -> CommandModel {
    CommandModel { program, args }
}

/// Whether every invocation of the list could be started.
pub open spec fn all_started(outcomes: Seq<CommandOutcome>) -> bool {
    forall|i: int| 0 <= i < outcomes.len() ==> #[trigger] outcomes[i] is Finished
}

impl Command {
    /// An invocation of `program` without arguments.
    pub fn new(program: &str) -> (c: Command)
        ensures
            c@ == request(program@, Seq::empty()),
    {
        let c = Command { program: program.to_owned(), args: Vec::new() };
        assert(c@.args == Seq::<Seq<char>>::empty());
        c
    }

    /// This invocation with one more argument.
    pub fn arg(self, arg: &str) -> (c: Command)
        ensures
            c@ == request(self@.program, self@.args.push(arg@)),
    {
        let mut args = self.args;
        args.push(arg.to_owned());
        let c = Command { program: self.program, args };
        assert(c@.args == self@.args.push(arg@));
        c
    }
}

/// Whether every invocation of the list could be started.
pub fn every_started(outcomes: &Vec<CommandOutcome>) -> (b: bool)
    ensures
        b == all_started(outcomes@),
{
    let mut i: usize = 0;
    while i < outcomes.len()
        invariant
            i <= outcomes.len(),
            forall|k: int| 0 <= k < i ==> #[trigger] outcomes@[k] is Finished,
        decreases outcomes.len() - i,
    {
        match &outcomes[i] {
            CommandOutcome::NotStarted => {
                return false;
            },
            CommandOutcome::Finished(_) => {},
        }
        i += 1;
    }
    true
}

/// `head` followed by `tail`.
pub fn chain(head: &str, tail: &str) -> (s: String)
    ensures
        s@ == head@ + tail@,
{
    head.to_owned().concat(tail)
}

} // verus!
