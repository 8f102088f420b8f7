//! The commands of the prompt: how a line of input is split into words and
//! which command the words spell.

use vstd::prelude::*;
use crate::amount::{is_decimal, Amount};
use crate::text::{characters, same_text};

verus! {

/// Whether `c` separates words: a space, a tab, a line feed or a carriage
/// return.
pub open spec fn is_blank(c: char) -> bool {
    c == ' ' || c == '\t' || c == '\n' || c == '\r'
}

/// Where the word that starts at `from` ends: the first position at or after
/// `from` that holds a blank, or the end of the line.
pub open spec fn word_end(line: Seq<char>, from: int) -> int
    decreases line.len() - from,
{
    if from < 0 || from >= line.len() || is_blank(line[from]) {
        from
    } else {
        word_end(line, from + 1)
    }
}

/// A word that starts inside the line ends after its start and inside the
/// line.
pub proof fn lemma_word_end_bounds(line: Seq<char>, from: int)
    requires
        0 <= from <= line.len(),
    ensures
        from <= word_end(line, from) <= line.len(),
        from < line.len() && !is_blank(line[from]) ==> from < word_end(line, from),
    decreases line.len() - from,
{
    if from < line.len() && !is_blank(line[from]) {
        lemma_word_end_bounds(line, from + 1);
    }
}

/// The words of `line` from position `from` on: the longest runs of
/// characters that hold no blank, in the order in which they stand.
pub open spec fn words_from(line: Seq<char>, from: int) -> Seq<Seq<char>>
    decreases line.len() - from,
{
    if from < 0 || from >= line.len() {
        Seq::empty()
    } else if is_blank(line[from]) {
        words_from(line, from + 1)
    } else {
        proof {
            lemma_word_end_bounds(line, from);
        }
        seq![line.subrange(from, word_end(line, from))] + words_from(
            line,
            word_end(line, from),
        )
    }
}

/// The words of `line`.
pub open spec fn words(line: Seq<char>) -> Seq<Seq<char>> {
    words_from(line, 0)
}

/// Whether `c` separates words.
pub fn blank(c: char) -> (yes: bool)
    ensures
        yes == is_blank(c),
{
    c == ' ' || c == '\t' || c == '\n' || c == '\r'
}

/// Splits a line into its words.
pub fn split_words(line: &str) -> (list: Vec<String>)
    ensures
        list.deep_view() == words(line@),
{
    let symbols = characters(line);
    let length: usize = symbols.len();
    let mut list: Vec<String> = Vec::new();
    let mut at: usize = 0;
    while at < length
        invariant
            at <= length,
            length == line@.len(),
            symbols@ == line@,
            words(line@) == list.deep_view() + words_from(line@, at as int),
        decreases length - at,
    {
        if blank(symbols[at]) {
            at = at + 1;
        } else {
            let start: usize = at;
            while at < length && !blank(symbols[at])
                invariant
                    start <= at <= length,
                    length == line@.len(),
                    symbols@ == line@,
                    start < length,
                    !is_blank(line@[start as int]),
                    word_end(line@, start as int) == word_end(line@, at as int),
                decreases length - at,
            {
                at = at + 1;
            }
            let word = String::from_str(line.substring_char(start, at));
            list.push(word);
            proof {
                lemma_word_end_bounds(line@, start as int);
            }
        }
    }
    list
}

/// A command of the prompt.
#[derive(Debug, Clone, PartialEq, Eq)]
pub enum Command {
    /// Show the summary of the commands.
    Help,
    /// Look up the rate from one currency to another.
    Rate { from: String, to: String },
    /// List every rate of a base currency.
    Rates { base: String },
    /// Convert an amount from one currency to another.
    Convert { from: String, to: String, amount: Amount },
    /// Leave the prompt.
    Exit,
}

/// What a command holds.
pub enum CommandView {
    Help,
    Rate { from: Seq<char>, to: Seq<char> },
    Rates { base: Seq<char> },
    Convert { from: Seq<char>, to: Seq<char>, amount: Seq<char> },
    Exit,
}

impl View for Command {
    type V = CommandView;

    open spec fn view(&self) -> CommandView {
        match *self {
            Command::Help => CommandView::Help,
            Command::Rate { from, to } => CommandView::Rate { from: from@, to: to@ },
            Command::Rates { base } => CommandView::Rates { base: base@ },
            Command::Convert { from, to, amount } => CommandView::Convert {
                from: from@,
                to: to@,
                amount: amount@,
            },
            Command::Exit => CommandView::Exit,
        }
    }
}

/// Why a line of input spells no command.
#[derive(Debug, Clone, Copy, PartialEq, Eq, Structural)]
pub enum ParseFailure {
    /// The line holds no word.
    Empty,
    /// The first word names no command.
    UnknownCommand,
    /// The command has too few or too many arguments.
    WrongArguments,
    /// The amount is no decimal numeral without a sign.
    InvalidAmount,
}

impl ParseFailure {
    /// The one-line message of each failure.
    pub open spec fn message_text(self) -> Seq<char> {
        match self {
            ParseFailure::Empty => "Type help for a list of commands."@,
            ParseFailure::UnknownCommand => "Unknown command. Type help for a list of commands."@,
            ParseFailure::WrongArguments => "Wrong number of arguments. Type help for a list of commands."@,
            ParseFailure::InvalidAmount => "The amount must be a non-negative decimal number."@,
        }
    }

    /// The message shown to the user for this failure.
    pub fn message(&self) -> (text: String)
        ensures
            text@ == self.message_text(),
    {
        match self {
            ParseFailure::Empty => String::from_str("Type help for a list of commands."),
            ParseFailure::UnknownCommand => String::from_str(
                "Unknown command. Type help for a list of commands.",
            ),
            ParseFailure::WrongArguments => String::from_str(
                "Wrong number of arguments. Type help for a list of commands.",
            ),
            ParseFailure::InvalidAmount => String::from_str(
                "The amount must be a non-negative decimal number.",
            ),
        }
    }
}

/// The command that a list of words spells. The first word names the
/// command, the others are its arguments: `help`, `exit` and `quit` take
/// none, `rates` a base currency, `rate` two currencies, and `convert` two
/// currencies and an amount.
pub open spec fn command_of(list: Seq<Seq<char>>) -> Result<CommandView, ParseFailure> {
    if list.len() == 0 {
        Err(ParseFailure::Empty)
    } else if list[0] == "help"@ {
        if list.len() == 1 {
            Ok(CommandView::Help)
        } else {
            Err(ParseFailure::WrongArguments)
        }
    } else if list[0] == "exit"@ || list[0] == "quit"@ {
        if list.len() == 1 {
            Ok(CommandView::Exit)
        } else {
            Err(ParseFailure::WrongArguments)
        }
    } else if list[0] == "rates"@ {
        if list.len() == 2 {
            Ok(CommandView::Rates { base: list[1] })
        } else {
            Err(ParseFailure::WrongArguments)
        }
    } else if list[0] == "rate"@ {
        if list.len() == 3 {
            Ok(CommandView::Rate { from: list[1], to: list[2] })
        } else {
            Err(ParseFailure::WrongArguments)
        }
    } else if list[0] == "convert"@ {
        if list.len() != 4 {
            Err(ParseFailure::WrongArguments)
        } else if is_decimal(list[3]) {
            Ok(CommandView::Convert { from: list[1], to: list[2], amount: list[3] })
        } else {
            Err(ParseFailure::InvalidAmount)
        }
    } else {
        Err(ParseFailure::UnknownCommand)
    }
}

/// The outcome of reading a command, with the command replaced by what it
/// holds.
pub open spec fn read_view(outcome: Result<Command, ParseFailure>) -> Result<
    CommandView,
    ParseFailure,
> {
    match outcome {
        Ok(command) => Ok(command@),
        Err(failure) => Err(failure),
    }
}

/// Reads the command that a list of words spells.
pub fn read_command(list: &Vec<String>) -> (outcome: Result<Command, ParseFailure>)
    ensures
        read_view(outcome) == command_of(list.deep_view()),
{
    let count: usize = list.len();
    if count == 0 {
        return Err(ParseFailure::Empty);
    }
    let name = list[0].as_str();
    if same_text(name, "help") {
        if count == 1 {
            Ok(Command::Help)
        } else {
            Err(ParseFailure::WrongArguments)
        }
    } else if same_text(name, "exit") || same_text(name, "quit") {
        if count == 1 {
            Ok(Command::Exit)
        } else {
            Err(ParseFailure::WrongArguments)
        }
    } else if same_text(name, "rates") {
        if count == 2 {
            Ok(Command::Rates { base: list[1].clone() })
        } else {
            Err(ParseFailure::WrongArguments)
        }
    } else if same_text(name, "rate") {
        if count == 3 {
            Ok(Command::Rate { from: list[1].clone(), to: list[2].clone() })
        } else {
            Err(ParseFailure::WrongArguments)
        }
    } else if same_text(name, "convert") {
        if count != 4 {
            return Err(ParseFailure::WrongArguments);
        }
        match Amount::from_text(list[3].as_str()) {
            Some(amount) => Ok(
                Command::Convert { from: list[1].clone(), to: list[2].clone(), amount },
            ),
            None => Err(ParseFailure::InvalidAmount),
        }
    } else {
        Err(ParseFailure::UnknownCommand)
    }
}

/// Reads the command that a line of input spells.
pub fn parse_command(line: &str) -> (outcome: Result<Command, ParseFailure>)
    ensures
        read_view(outcome) == command_of(words(line@)),
{
    let list = split_words(line);
    read_command(&list)
}

/// The summary of the commands.
pub open spec fn help_summary() -> Seq<char> {
    "Commands: help | rate <from> <to> | rates <base> | convert <from> <to> <amount> | exit"@
}

/// The summary of the commands that `help` shows.
pub fn help_text() -> (text: String)
    ensures
        text@ == help_summary(),
{
    String::from_str(
        "Commands: help | rate <from> <to> | rates <base> | convert <from> <to> <amount> | exit",
    )
}

} // verus!
