//! The commands that can be typed on the command line.

use vstd::prelude::*;
use vstd::string::*;
use crate::text::{
    chars_of, split_words, starts_with, str_eq, strip_prefixes, trim_start_matches, words,
};

verus! {

/// A command.
#[derive(Debug)]
pub enum Command {
    /// `url <value>`: talk to the endpoint `value`.
    SetUrl(String),
    /// `context <name>`: use the context `name`.
    SwitchContext(String),
    /// `context-add <name> <url> [<limit>]`: set the context `name`.
    AddContext { name: String, url: String, runs_limit: Option<usize> },
    /// `contexts`: show the list of contexts.
    Contexts,
    /// `runs`: show the list of all runs.
    Runs,
    /// `pipelines`: show the list of pipelines.
    Pipelines,
    /// `debug`: report the state of the dashboard.
    Debug,
    /// `q`: quit.
    Quit,
    /// Anything else; it is passed over in silence.
    Unknown,
}

/// A command as a mathematical value.
pub enum CommandModel {
    SetUrl(Seq<char>),
    SwitchContext(Seq<char>),
    AddContext { name: Seq<char>, url: Seq<char>, runs_limit: Option<usize> },
    Contexts,
    Runs,
    Pipelines,
    Debug,
    Quit,
    Unknown,
}

impl View for Command {
    type V = CommandModel;

    open spec fn view(&self) -> CommandModel {
        match self {
            Command::SetUrl(url) => CommandModel::SetUrl(url@),
            Command::SwitchContext(name) => CommandModel::SwitchContext(name@),
            Command::AddContext { name, url, runs_limit } => CommandModel::AddContext {
                name: name@,
                url: url@,
                runs_limit: *runs_limit,
            },
            Command::Contexts => CommandModel::Contexts,
            Command::Runs => CommandModel::Runs,
            Command::Pipelines => CommandModel::Pipelines,
            Command::Debug => CommandModel::Debug,
            Command::Quit => CommandModel::Quit,
            Command::Unknown => CommandModel::Unknown,
        }
    }
}

/// A command that names a known command but lacks an argument.
#[derive(Debug, Clone, Copy, PartialEq, Eq, Structural)]
pub enum CommandSyntaxError {
    /// `context-add` with less than a name and a URL.
    MissingArgument,
}

impl CommandSyntaxError {
    /// The text that describes the error.
    pub open spec fn text(&self) -> Seq<char> {
        "Invalid context-add command. Format: context-add <name> <url> [<runs_limit>]"@
    }

    /// The text that describes the error.
    pub fn message(&self) -> (r: String)
        ensures
            r@ == self.text(),
    {
        String::from_str(
            "Invalid context-add command. Format: context-add <name> <url> [<runs_limit>]",
        )
    }
}

/// Whether a character is a decimal digit.
pub open spec fn is_digit(c: char) -> bool {
    '0' <= c <= '9'
}

/// The number that a sequence of decimal digits writes.
pub open spec fn digits_value(s: Seq<char>) -> int
    decreases s.len(),
{
    if s.len() == 0 {
        0
    } else {
        digits_value(s.drop_last()) * 10 + (s.last() as int - '0' as int)
    }
}

/// The digits of a number text: the text without a plus sign at its start.
pub open spec fn unsigned_part(s: Seq<char>) -> Seq<char> {
    if s.len() > 0 && s[0] == '+' {
        s.drop_first()
    } else {
        s
    }
}

/// The number that a text writes: decimal digits, at least one, after at
/// most one plus sign, that write a number no larger than a machine word
/// holds. Any other text writes no number.
pub open spec fn parsed_number(s: Seq<char>) -> Option<usize> {
    let digits = unsigned_part(s);
    if digits.len() > 0 && (forall|i: int| 0 <= i < digits.len() ==> is_digit(#[trigger] digits[i]))
        && digits_value(digits) <= usize::MAX {
        Some(digits_value(digits) as usize)
    } else {
        None
    }
}

proof fn lemma_digits_value_grows(s: Seq<char>, k: int)
    requires
        0 <= k <= s.len(),
        forall|i: int| 0 <= i < s.len() ==> is_digit(#[trigger] s[i]),
    ensures
        0 <= digits_value(s.take(k)) <= digits_value(s),
    decreases s.len() - k,
{
    if k == s.len() {
        assert(s.take(k) =~= s);
        lemma_digits_value_nonnegative(s);
    } else {
        lemma_digits_value_grows(s, k + 1);
        assert(s.take(k + 1).drop_last() =~= s.take(k));
        assert(is_digit(s[k]));
        lemma_digits_value_nonnegative(s.take(k));
    }
}

proof fn lemma_digits_value_nonnegative(s: Seq<char>)
    requires
        forall|i: int| 0 <= i < s.len() ==> is_digit(#[trigger] s[i]),
    ensures
        0 <= digits_value(s),
    decreases s.len(),
{
    if s.len() > 0 {
        assert(is_digit(s[s.len() - 1]));
        lemma_digits_value_nonnegative(s.drop_last());
    }
}

/// Reads a number from a text.
pub fn parse_number(text: &str) -> (r: Option<usize>)
    ensures
        r == parsed_number(text@),
{
    let v = chars_of(text);
    let start: usize = if v.len() > 0 && v[0] == '+' {
        1
    } else {
        0
    };
    let ghost digits = unsigned_part(v@);
    assert(digits =~= v@.skip(start as int));
    if start == v.len() {
        return None;
    }
    let mut value: usize = 0;
    let mut i: usize = start;
    assert(digits.take(0) =~= Seq::<char>::empty());
    while i < v.len()
        invariant
            start <= i <= v.len(),
            digits == v@.skip(start as int),
            digits == unsigned_part(text@),
            forall|k: int| 0 <= k < i - start ==> is_digit(#[trigger] digits[k]),
            value == digits_value(digits.take(i - start)),
        decreases v.len() - i,
    {
        let c = v[i];
        assert(digits[i - start] == c);
        if !('0' <= c && c <= '9') {
            assert(!is_digit(digits[i - start]));
            return None;
        }
        let d: usize = (c as u32 - '0' as u32) as usize;
        assert(digits.take(i - start + 1).drop_last() =~= digits.take(i - start));
        if value > (usize::MAX - d) / 10 {
            proof {
                assert(digits_value(digits.take(i - start + 1)) == value * 10 + d);
                if forall|k: int| 0 <= k < digits.len() ==> is_digit(#[trigger] digits[k]) {
                    lemma_digits_value_grows(digits, i - start + 1);
                }
            }
            return None;
        }
        value = value * 10 + d;
        i += 1;
    }
    assert(digits.take(v.len() - start) =~= digits);
    Some(value)
}

/// The optional third argument of `context-add`: the run limit, if it is
/// there and writes a number.
pub open spec fn limit_argument(args: Seq<Seq<char>>) -> Option<usize> {
    if args.len() > 2 {
        parsed_number(args[2])
    } else {
        None
    }
}

/// The command that a line writes. A line that starts with `url `,
/// `context ` or `context-add ` is that command, and what follows the
/// keyword, taken off as often as it stands there, holds its arguments.
/// Any other line is a command only as a whole.
pub open spec fn parsed_command(line: Seq<char>) -> Result<CommandModel, CommandSyntaxError> {
    if "url "@.is_prefix_of(line) {
        Ok(CommandModel::SetUrl(strip_prefixes(line, "url "@)))
    } else if "context "@.is_prefix_of(line) {
        Ok(CommandModel::SwitchContext(strip_prefixes(line, "context "@)))
    } else if "context-add "@.is_prefix_of(line) {
        let args = words(strip_prefixes(line, "context-add "@));
        if args.len() < 2 {
            Err(CommandSyntaxError::MissingArgument)
        } else {
            Ok(
                CommandModel::AddContext {
                    name: args[0],
                    url: args[1],
                    runs_limit: limit_argument(args),
                },
            )
        }
    } else if line == "contexts"@ {
        Ok(CommandModel::Contexts)
    } else if line == "runs"@ {
        Ok(CommandModel::Runs)
    } else if line == "pipelines"@ {
        Ok(CommandModel::Pipelines)
    } else if line == "debug"@ {
        Ok(CommandModel::Debug)
    } else if line == "q"@ {
        Ok(CommandModel::Quit)
    } else {
        Ok(CommandModel::Unknown)
    }
}

/// The command as a mathematical value, or the error.
pub open spec fn command_model(r: Result<Command, CommandSyntaxError>) -> Result<
    CommandModel,
    CommandSyntaxError,
> {
    match r {
        Ok(c) => Ok(c@),
        Err(e) => Err(e),
    }
}

/// Reads a command from a line.
pub fn parse_command(line: &str) -> (r: Result<Command, CommandSyntaxError>)
    ensures
        command_model(r) == parsed_command(line@),
{
    if starts_with(line, "url ") {
        Ok(Command::SetUrl(trim_start_matches(line, "url ")))
    } else if starts_with(line, "context ") {
        Ok(Command::SwitchContext(trim_start_matches(line, "context ")))
    } else if starts_with(line, "context-add ") {
        let rest = trim_start_matches(line, "context-add ");
        let args = split_words(rest.as_str());
        if args.len() < 2 {
            return Err(CommandSyntaxError::MissingArgument);
        }
        let ghost model = args.deep_view();
        assert(model[0] == args[0]@ && model[1] == args[1]@);
        let runs_limit = if args.len() > 2 {
            assert(model[2] == args[2]@);
            parse_number(args[2].as_str())
        } else {
            None
        };
        Ok(Command::AddContext { name: args[0].clone(), url: args[1].clone(), runs_limit })
    } else if str_eq(line, "contexts") {
        Ok(Command::Contexts)
    } else if str_eq(line, "runs") {
        Ok(Command::Runs)
    } else if str_eq(line, "pipelines") {
        Ok(Command::Pipelines)
    } else if str_eq(line, "debug") {
        Ok(Command::Debug)
    } else if str_eq(line, "q") {
        Ok(Command::Quit)
    } else {
        Ok(Command::Unknown)
    }
}

} // verus!
