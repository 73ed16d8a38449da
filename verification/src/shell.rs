//! The serial shell: what it is built from, and what each input leads to.
//!
//! The line editor itself is the `ushell` crate. This module supplies its
//! parts and decides what a parsed command, a control byte or a failed read
//! leads to; carrying the decision out is left to the caller.

use ushell::autocomplete::StaticAutocomplete;
use ushell::history::LRUHistory;
use vstd::prelude::*;
use vstd::string::StringSliceAdditionalSpecFns;
use vstd::utf8::{decode_utf8, encode_utf8_decode_utf8};

verus! {

/// Longest command line the shell accepts, in bytes.
pub const CMD_LEN: usize = 16;

/// Number of past command lines the shell remembers.
pub const HISTORY_SIZE: usize = 4;

/// Number of commands the shell completes.
pub const COMMANDS: usize = 2;

/// The help banner.
pub const HELP: &'static str = "\r\n\
\x1b[31mL\x1b[32mE\x1b[34mD\x1b[33m Shell\x1b[0m\r\n\r\n\
USAGE:\r\n\
\x20 command [arg]\r\n\r\n\
COMMANDS:\r\n\
\x20 clear     Clear screen\r\n\
\x20 help      Print this message\r\n\n";

/// `ushell::history::LRUHistory`: the bounded command history of the line
/// editor.
#[verifier::external_type_specification]
#[verifier::external_body]
pub struct ExLruHistory<const LEN: usize, const CAP: usize>(LRUHistory<LEN, CAP>);

/// `ushell::autocomplete::StaticAutocomplete`: a fixed set of words that the
/// line editor completes.
#[verifier::external_type_specification]
#[verifier::external_body]
pub struct ExStaticAutocomplete<const N: usize>(StaticAutocomplete<N>);

/// The command lines a history holds, most recent first.
pub uninterp spec fn history_entries(history: LRUHistory<CMD_LEN, HISTORY_SIZE>) -> Seq<Seq<char>>;

/// The words an autocomplete completes, in the order it tries them.
pub uninterp spec fn autocomplete_words(autocomplete: StaticAutocomplete<COMMANDS>) -> Seq<
    Seq<char>,
>;

/// `<LRUHistory as Default>::default`: a history that holds no command line.
#[verifier::external_body]
fn empty_history() -> (history: LRUHistory<CMD_LEN, HISTORY_SIZE>)
    ensures
        history_entries(history) == Seq::<Seq<char>>::empty(),
{
    LRUHistory::default()
}

/// The constructor of the tuple struct `StaticAutocomplete`: an autocomplete
/// over the two given words, tried in the order given.
#[verifier::external_body]
fn autocomplete_over(first: &'static str, second: &'static str) -> (autocomplete:
    StaticAutocomplete<COMMANDS>)
    ensures
        autocomplete_words(autocomplete) == seq![first@, second@],
{
    StaticAutocomplete([first, second])
}

/// The history the shell starts with: empty, with room for
/// [`HISTORY_SIZE`] command lines of up to [`CMD_LEN`] bytes.
pub fn shell_history() -> (history: LRUHistory<CMD_LEN, HISTORY_SIZE>)
    ensures
        history_entries(history) == Seq::<Seq<char>>::empty(),
{
    empty_history()
}

/// The autocomplete of the shell: it completes `clear` and `help`.
pub fn shell_autocomplete() -> (autocomplete: StaticAutocomplete<COMMANDS>)
    ensures
        autocomplete_words(autocomplete) == seq!["clear"@, "help"@],
{
    autocomplete_over("clear", "help")
}

/// What the caller has to do in answer to an input.
#[derive(Clone, Copy, Debug, PartialEq, Eq)]
pub enum ShellAction {
    /// Clear the terminal.
    ClearScreen,
    /// Print the given text.
    Print(&'static str),
    /// Do nothing and go on with the next input.
    Nothing,
}

/// What one turn of the line editor came back with.
#[derive(Clone, Copy, Debug, PartialEq, Eq)]
pub enum ShellEvent<'a> {
    /// A command line was entered: its first word and the rest.
    Command(&'a str, &'a str),
    /// A control byte was read.
    Control(u8),
    /// Reading or writing the serial transport failed.
    TransportError,
    /// No input was pending.
    Idle,
}

/// The action a command leads to: `clear` clears the screen; `help`, and
/// every other command as well, prints the help banner.
pub open spec fn dispatch(cmd: Seq<char>) -> ShellAction {
    if cmd == "clear"@ {
        ShellAction::ClearScreen
    } else {
        ShellAction::Print(HELP)
    }
}

/// The action an event leads to. No event ends the loop: a control byte, a
/// failed transfer and an idle turn all lead to the next turn.
pub open spec fn reaction(event: ShellEvent) -> ShellAction {
    match event {
        ShellEvent::Command(cmd, _) => dispatch(cmd@),
        _ => ShellAction::Nothing,
    }
}

/// Whether two strings hold the same text.
pub fn same_text(a: &str, b: &str) -> (same: bool)
    ensures
        same == (a@ == b@),
{
    let x = a.as_bytes();
    let y = b.as_bytes();
    proof {
        encode_utf8_decode_utf8(a@);
        encode_utf8_decode_utf8(b@);
    }
    if x.len() != y.len() {
        return false;
    }
    let mut i: usize = 0;
    while i < x.len()
        invariant
            i <= x@.len(),
            x@.len() == y@.len(),
            x@.take(i as int) == y@.take(i as int),
            x@ == a.spec_bytes(),
            y@ == b.spec_bytes(),
            a@ == decode_utf8(a.spec_bytes()),
            b@ == decode_utf8(b.spec_bytes()),
        decreases x@.len() - i,
    {
        if x[i] != y[i] {
            assert(x@[i as int] != y@[i as int]);
            return false;
        }
        i = i + 1;
        assert(x@.take(i as int) =~= x@.take(i - 1).push(x@[i - 1]));
        assert(y@.take(i as int) =~= y@.take(i - 1).push(y@[i - 1]));
    }
    assert(x@.take(i as int) =~= x@);
    assert(y@.take(i as int) =~= y@);
    true
}

/// The command environment of the shell.
#[derive(Clone, Copy, Debug, PartialEq, Eq)]
pub struct Env {}

impl Env {
    /// Creates a new [`Env`].
    pub fn new() -> (env: Env) {
        Env {  }
    }

    /// Decides what a command leads to. The arguments play no part.
    pub fn command(&mut self, cmd: &str, _args: &str) -> (action: ShellAction)
        ensures
            action == dispatch(cmd@),
            *final(self) == *old(self),
    {
        if same_text(cmd, "clear") {
            ShellAction::ClearScreen
        } else if same_text(cmd, "help") {
            ShellAction::Print(HELP)
        } else {
            ShellAction::Print(HELP)
        }
    }

    /// Decides what a control byte leads to: nothing, whichever byte it is.
    pub fn control(&mut self, _code: u8) -> (action: ShellAction)
        ensures
            action == ShellAction::Nothing,
            *final(self) == *old(self),
    {
        ShellAction::Nothing
    }

    /// Decides what one turn of the line editor leads to.
    pub fn on_event(&mut self, event: ShellEvent) -> (action: ShellAction)
        ensures
            action == reaction(event),
            *final(self) == *old(self),
    {
        match event {
            ShellEvent::Command(cmd, args) => self.command(cmd, args),
            ShellEvent::Control(code) => self.control(code),
            ShellEvent::TransportError => ShellAction::Nothing,
            ShellEvent::Idle => ShellAction::Nothing,
        }
    }
}

} // verus!
