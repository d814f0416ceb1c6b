//! The command grammar shared by every transport.

use vstd::prelude::*;
use vstd::string::*;

verus! {

/// One unit of client input, classified.
#[derive(Debug, PartialEq, Eq)]
pub enum Command {
    /// Show the list of commands.
    Help,
    /// End the session.
    Quit,
    /// Anything else: text for the model, carried as it arrived.
    Prompt(String),
}

/// The mathematical value of a [`Command`].
pub enum CommandView {
    Help,
    Quit,
    Prompt(Seq<char>),
}

impl View for Command {
    type V = CommandView;

    open spec fn view(&self) -> CommandView {
        match self {
            Command::Help => CommandView::Help,
            Command::Quit => CommandView::Quit,
            Command::Prompt(text) => CommandView::Prompt(text@),
        }
    }
}

/// The word that asks for the command list.
pub open spec fn help_word() -> Seq<char> {
    seq!['/', 'h', 'e', 'l', 'p']
}

/// The word that ends the session.
pub open spec fn quit_word() -> Seq<char> {
    seq!['/', 'q', 'u', 'i', 't']
}

/// What a unit of input means: a command word at the very start decides,
/// whatever follows it; all other text is a prompt.
pub open spec fn classify_spec(input: Seq<char>) -> CommandView {
    if help_word().is_prefix_of(input) {
        CommandView::Help
    } else if quit_word().is_prefix_of(input) {
        CommandView::Quit
    } else {
        CommandView::Prompt(input)
    }
}

/// Whether `input` begins with `word`.
pub fn starts_with(input: &str, word: &str) -> (found: bool)
    ensures
        found == word@.is_prefix_of(input@),
{
    let n: usize = word.unicode_len();
    let m: usize = input.unicode_len();
    if m < n {
        return false;
    }
    let mut i: usize = 0;
    while i < n
        invariant
            i <= n <= m,
            n == word@.len(),
            m == input@.len(),
            forall|j: int| 0 <= j < i ==> word@[j] == input@[j],
        decreases n - i,
    {
        if word.get_char(i) != input.get_char(i) {
            assert(word@[i as int] != input@.subrange(0, word@.len() as int)[i as int]);
            return false;
        }
        i += 1;
    }
    assert(word@ =~= input@.subrange(0, word@.len() as int));
    true
}

/// Classifies one unit of client input.
pub fn classify(input: &str) -> (command: Command)
    ensures
        command@ == classify_spec(input@),
{
    proof {
        reveal_strlit("/help");
        reveal_strlit("/quit");
        assert("/help"@ =~= help_word());
        assert("/quit"@ =~= quit_word());
    }
    if starts_with(input, "/help") {
        Command::Help
    } else if starts_with(input, "/quit") {
        Command::Quit
    } else {
        Command::Prompt(input.to_owned())
    }
}

} // verus!
