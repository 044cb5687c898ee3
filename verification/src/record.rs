//! What a log record becomes: the text of its line, and the two copies of
//! it that leave the tee.

use vstd::prelude::*;
use vstd::string::*;
use crate::level::Level;

verus! {

/// The line of a record: level, target and message, one space between them.
pub open spec fn entry_text(level: Level, target: Seq<char>, message: Seq<char>) -> Seq<char> {
    level.name() + seq![' '] + target + seq![' '] + message
}

/// What the console receives for a record: its line and a line feed.
pub open spec fn console_text(level: Level, target: Seq<char>, message: Seq<char>) -> Seq<char> {
    entry_text(level, target, message) + seq!['\n']
}

/// Formats the line of a record as `<LEVEL> <TARGET> <MESSAGE>`.
pub fn entry(level: Level, target: &str, message: &str) -> (line: String)
    ensures
        line@ == entry_text(level, target@, message@),
{
    let mut line = level.label();
    line.append(" ");
    line.append(target);
    line.append(" ");
    line.append(message);
    proof {
        reveal_strlit(" ");
        assert(" "@ =~= seq![' ']);
        assert(line@ =~= entry_text(level, target@, message@));
    }
    line
}

/// The two copies of one admitted record: the text written to the console
/// as part of the logging call, and the message handed to the sink afterwards.
#[derive(Clone, Debug, PartialEq, Eq)]
pub struct Emission {
    pub console: String,
    pub sink: String,
}

/// Mathematical value of an [`Emission`].
pub struct EmissionView {
    pub console: Seq<char>,
    pub sink: Seq<char>,
}

impl View for Emission {
    type V = EmissionView;

    open spec fn view(&self) -> EmissionView {
        EmissionView { console: self.console@, sink: self.sink@ }
    }
}

/// The emission of a record: its line with a line feed for the console, and
/// the same line without it for the sink.
pub open spec fn emission_of(level: Level, target: Seq<char>, message: Seq<char>) -> EmissionView {
    EmissionView {
        console: console_text(level, target, message),
        sink: entry_text(level, target, message),
    }
}

/// Produces what the tee sends out for one admitted record: exactly one
/// console line and exactly one sink message, both carrying the same entry.
pub fn emission(level: Level, target: &str, message: &str) -> (out: Emission)
    ensures
        out@ == emission_of(level, target@, message@),
{
    let sink = entry(level, target, message);
    let mut console = sink.clone();
    console.append("\n");
    proof {
        reveal_strlit("\n");
        assert("\n"@ =~= seq!['\n']);
    }
    Emission { console, sink }
}

/// What the tee sends out for a record, given the filter's verdict on it:
/// nothing for a rejected record, one emission for an admitted one.
pub open spec fn teed(admitted: bool, level: Level, target: Seq<char>, message: Seq<char>) -> Option<EmissionView> {
    if admitted {
        Some(emission_of(level, target, message))
    } else {
        None
    }
}

/// View of an optional emission.
pub open spec fn emission_view(out: Option<Emission>) -> Option<EmissionView> {
    match out {
        Some(emission) => Some(emission@),
        None => None,
    }
}

/// Tees one record once the filter has decided on it.
pub fn tee_record(admitted: bool, level: Level, target: &str, message: &str) -> (out: Option<Emission>)
    ensures
        emission_view(out) == teed(admitted, level, target@, message@),
{
    if admitted {
        Some(emission(level, target, message))
    } else {
        None
    }
}

} // verus!
