//! What to do with the arguments that the program was started with.

use crate::text::texts;
use vstd::prelude::*;
use vstd::string::StringExecFns;

verus! {

/// What the program is asked to do.
#[derive(Debug)]
pub enum Command<'a> {
    /// Show this line and end well, without fetching anything.
    Usage(String),
    /// Fetch the listing and search it for this keyword.
    Search(&'a str),
}

/// The mathematical value of a [`Command`].
pub enum Plan {
    Usage(Seq<char>),
    Search(Seq<char>),
}

impl<'a> View for Command<'a> {
    type V = Plan;

    open spec fn view(&self) -> Plan {
        match self {
            Command::Usage(line) => Plan::Usage(line@),
            Command::Search(keyword) => Plan::Search(keyword@),
        }
    }
}

/// The line that tells how to start the program called `program`.
pub open spec fn usage_line(program: Seq<char>) -> Seq<char> {
    "Usage: "@ + program + " search term"@
}

/// What an argument list asks for. The list starts with the program's name;
/// the argument after it is the keyword, taken as it stands, and any further
/// argument is ignored. Without a keyword the usage line is shown.
pub open spec fn planned(args: Seq<Seq<char>>) -> Plan
    recommends
        args.len() >= 1,
{
    if args.len() < 2 {
        Plan::Usage(usage_line(args[0]))
    } else {
        Plan::Search(args[1])
    }
}

/// Writes the usage line for the program called `program`.
pub fn usage(program: &str) -> (line: String)
    ensures
        line@ == usage_line(program@),
{
    let mut line = "Usage: ".to_owned();
    line.append(program);
    line.append(" search term");
    line
}

/// Decides what to do with the arguments of the process, the program's name
/// first. An empty list is no argument list of a process.
pub fn plan<'a>(args: &'a Vec<String>) -> (command: Command<'a>)
    requires
        args.len() >= 1,
    ensures
        command@ == planned(texts(args@)),
{
    if args.len() < 2 {
        Command::Usage(usage(args[0].as_str()))
    } else {
        Command::Search(args[1].as_str())
    }
}

} // verus!
