use vstd::prelude::*;
use vstd::string::StringExecFns;

use crate::text::{decimal, to_decimal};
use crate::logger::paint::{bold, cyan, escape, green, grey, packed, red, starts_escape, yellow};

verus! {

/// How grave a log record is.
#[derive(Debug, Clone, Copy, PartialEq, Eq, Structural)]
pub enum Level {
    Error,
    Warn,
    Info,
    Debug,
    Trace,
}

impl Level {
    /// The name of the level as a log line shows it.
    pub open spec fn label(self) -> Seq<char> {
        match self {
            Level::Error => seq!['E', 'r', 'r', 'o', 'r'],
            Level::Warn => seq!['W', 'a', 'r', 'n'],
            Level::Info => seq!['I', 'n', 'f', 'o'],
            Level::Debug => seq!['D', 'e', 'b', 'u', 'g'],
            Level::Trace => seq!['T', 'r', 'a', 'c', 'e'],
        }
    }

    /// The number of the colour in which the level is shown: red, yellow,
    /// green, grey, cyan.
    pub open spec fn color(self) -> Seq<char> {
        match self {
            Level::Error => seq!['3', '1'],
            Level::Warn => seq!['3', '3'],
            Level::Info => seq!['3', '2'],
            Level::Debug => seq!['3', '7'],
            Level::Trace => seq!['3', '6'],
        }
    }

    /// The name of the level in bold and in its colour. `reset` goes back
    /// to the colours set for the thread.
    pub open spec fn painted(self, reset: Seq<char>) -> Seq<char> {
        escape() + seq!['1', ';'] + self.color() + seq!['m'] + self.label() + reset
    }

    /// The name of the level as a log line shows it.
    pub fn name(self) -> (name: &'static str)
        ensures
            name@ == self.label(),
    {
        proof {
            reveal_strlit("Error");
            reveal_strlit("Warn");
            reveal_strlit("Info");
            reveal_strlit("Debug");
            reveal_strlit("Trace");
        }
        let name = match self {
            Level::Error => "Error",
            Level::Warn => "Warn",
            Level::Info => "Info",
            Level::Debug => "Debug",
            Level::Trace => "Trace",
        };
        assert(name@ =~= self.label());
        name
    }

    /// The name of the level in bold and in its colour.
    pub fn paint(self) -> (painted: String)
        ensures
            exists|reset: Seq<char>| painted@ == self.painted(reset),
    {
        let name = String::from_str(self.name());
        let ghost label = self.label();
        assert(!starts_escape(label));
        let colored = match self {
            Level::Error => red(name),
            Level::Warn => yellow(name),
            Level::Info => green(name),
            Level::Debug => grey(name),
            Level::Trace => cyan(name),
        };
        let ghost reset = choose|reset: Seq<char>| colored@ == packed(self.color(), label, reset);
        assert(colored@ == escape() + self.color() + seq!['m'] + label + reset);
        assert(starts_escape(colored@));
        let painted = bold(colored);
        proof {
            assert(painted@ == escape() + seq!['1'] + seq![';'] + colored@.skip(2));
            assert(colored@.skip(2) =~= self.color() + seq!['m'] + label + reset);
            assert(painted@ =~= self.painted(reset));
        }
        painted
    }
}

/// Where a log record comes from, as a log line shows it: the module, or a
/// question mark, and the line, or 0.
pub open spec fn origin_of(module: Option<Seq<char>>, line: Option<u32>) -> Seq<char> {
    seq![' ', '<'] + (match module {
        Some(path) => path,
        None => seq!['?'],
    }) + seq!['('] + decimal(
        match line {
            Some(line) => line as nat,
            None => 0nat,
        },
    ) + seq![')', '>', ':']
}

/// A log line: the painted level, the painted origin, a blank, the message
/// and a line feed.
pub open spec fn line_of(level: Seq<char>, origin: Seq<char>, message: Seq<char>) -> Seq<char> {
    level + origin + seq![' '] + message + seq!['\n']
}

/// Where a log record comes from, as a log line shows it.
pub fn origin(module: Option<&str>, line: Option<u32>) -> (text: String)
    ensures
        text@ == origin_of(text_of(module), line),
{
    proof {
        reveal_strlit(" <");
        reveal_strlit("?");
        reveal_strlit("(");
        reveal_strlit(")");
        reveal_strlit(">:");
    }
    let mut text = String::from_str(" <");
    text.append(
        match module {
            Some(path) => path,
            None => "?",
        },
    );
    text.append("(");
    let number = to_decimal(
        match line {
            Some(line) => line,
            None => 0,
        },
    );
    text.append(number.as_str());
    text.append(")");
    text.append(">:");
    assert(text@ =~= origin_of(text_of(module), line));
    text
}

/// Puts a log line together from its painted level, its painted origin and
/// its message.
pub fn assemble(level: String, origin: &str, message: &str) -> (line: String)
    ensures
        line@ == line_of(level@, origin@, message@),
{
    proof {
        reveal_strlit(" ");
        reveal_strlit("\n");
    }
    let mut line = level;
    line.append(origin);
    line.append(" ");
    line.append(message);
    line.append("\n");
    assert(line@ =~= line_of(level@, origin@, message@));
    line
}

/// The log line of a record: the level in bold and in its colour, the
/// origin in grey, a blank, the message and a line feed. `after_level` and
/// `after_origin` go back to the colours set for the thread.
pub open spec fn record_line(
    level: Level,
    module: Option<Seq<char>>,
    line: Option<u32>,
    message: Seq<char>,
    after_level: Seq<char>,
    after_origin: Seq<char>,
) -> Seq<char> {
    line_of(level.painted(after_level), packed(seq!['3', '7'], origin_of(module, line), after_origin), message)
}

/// What a text is in a contract, if there is a text.
pub open spec fn text_of(text: Option<&str>) -> Option<Seq<char>> {
    match text {
        Some(text) => Some(text@),
        None => None,
    }
}

/// The log line of a record. What goes back to the thread's colours after
/// the level and after the origin is the terminal library's to say.
pub fn log_line(level: Level, module: Option<&str>, line: Option<u32>, message: &str) -> (text: String)
    ensures
        exists|after_level: Seq<char>, after_origin: Seq<char>|
            text@ == #[trigger] record_line(level, text_of(module), line, message@, after_level, after_origin),
{
    let painted = level.paint();
    let from = grey(origin(module, line));
    let ghost after_level = choose|reset: Seq<char>| painted@ == level.painted(reset);
    let ghost plain = origin_of(text_of(module), line);
    let ghost after_origin = choose|reset: Seq<char>| from@ == packed(seq!['3', '7'], plain, reset);
    let text = assemble(painted, from.as_str(), message);
    assert(text@ == record_line(level, text_of(module), line, message@, after_level, after_origin));
    text
}

} // verus!
