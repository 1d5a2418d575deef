//! An event handler that writes a line of text per event, filtered by a level. The lines
//! are kept until the caller takes them to print.

use crate::log::LogLevel;
use crate::step::event::{EventData, NewSequenceEvent};
use crate::step::msg_handler::EventHandler;
use crate::step::StepDetails;
use crate::text::{join2, join3, join4, join5};
use vstd::prelude::*;

verus! {

/// The text for a step's start.
pub open spec fn start_text(level: LogLevel, title: Seq<char>, description: Seq<char>, msg: Seq<char>) -> Option<Seq<char>> {
    match level {
        LogLevel::Verbose => Some(title + "\n"@ + description + "\n"@ + msg),
        LogLevel::Info => Some("Begin: "@ + title + "\n"@ + description),
        _ => None,
    }
}

/// The text for a step's successful end.
pub open spec fn end_text(level: LogLevel, title: Seq<char>, msg: Seq<char>) -> Option<Seq<char>> {
    match level {
        LogLevel::Verbose => Some(title + " Completed\n"@ + msg),
        LogLevel::Info => Some("End: "@ + title),
        _ => None,
    }
}

/// The text for a skipped step.
pub open spec fn skipped_text(level: LogLevel, title: Seq<char>, msg: Seq<char>) -> Option<Seq<char>> {
    match level {
        LogLevel::Verbose => Some(title + ": "@ + msg),
        LogLevel::Info => Some("progress: "@ + title + ": "@ + msg),
        _ => None,
    }
}

/// The text for a failed step: shown at every level but `Silent`.
pub open spec fn error_text(level: LogLevel, title: Seq<char>, msg: Seq<char>) -> Option<Seq<char>> {
    match level {
        LogLevel::Silent => None,
        _ => Some("Error: "@ + title + "\n"@ + msg),
    }
}

/// `r` holds the text `t`, if any.
pub open spec fn text_is(r: Option<String>, t: Option<Seq<char>>) -> bool {
    match (r, t) {
        (Some(s), Some(u)) => s@ == u,
        (None, None) => true,
        _ => false,
    }
}

pub fn start_line(level: LogLevel, step: &StepDetails, data: &EventData) -> (r: Option<String>)
    ensures
        text_is(r, start_text(level, step.title@, step.description@, data.msg@)),
{
    match level {
        LogLevel::Verbose => Some(
            join5(step.title.as_str(), "\n", step.description.as_str(), "\n", data.msg.as_str()),
        ),
        LogLevel::Info => Some(join4("Begin: ", step.title.as_str(), "\n", step.description.as_str())),
        _ => None,
    }
}

pub fn end_line(level: LogLevel, step: &StepDetails, data: &EventData) -> (r: Option<String>)
    ensures
        text_is(r, end_text(level, step.title@, data.msg@)),
{
    match level {
        LogLevel::Verbose => Some(join3(step.title.as_str(), " Completed\n", data.msg.as_str())),
        LogLevel::Info => Some(join2("End: ", step.title.as_str())),
        _ => None,
    }
}

pub fn skipped_line(level: LogLevel, step: &StepDetails, data: &EventData) -> (r: Option<String>)
    ensures
        text_is(r, skipped_text(level, step.title@, data.msg@)),
{
    match level {
        LogLevel::Verbose => Some(join3(step.title.as_str(), ": ", data.msg.as_str())),
        LogLevel::Info => Some(join4("progress: ", step.title.as_str(), ": ", data.msg.as_str())),
        _ => None,
    }
}

pub fn error_line(level: LogLevel, step: &StepDetails, data: &EventData) -> (r: Option<String>)
    ensures
        text_is(r, error_text(level, step.title@, data.msg@)),
{
    match level {
        LogLevel::Silent => None,
        _ => Some(join4("Error: ", step.title.as_str(), "\n", data.msg.as_str())),
    }
}

/// Handler that reports progress as lines of text.
pub struct ConsoleLogEventHandler {
    pub msg_level: LogLevel,
    /// Lines written and not yet taken.
    pub lines: Vec<String>,
}

impl ConsoleLogEventHandler {
    pub fn new(msg_level: LogLevel) -> (r: ConsoleLogEventHandler)
        ensures
            r.msg_level == msg_level,
            r.lines@.len() == 0,
    {
        ConsoleLogEventHandler { msg_level, lines: Vec::new() }
    }

    /// Hands out the lines written so far, oldest first, and forgets them.
    pub fn take_lines(&mut self) -> (r: Vec<String>)
        ensures
            r@ == old(self).lines@,
            final(self).lines@.len() == 0,
            final(self).msg_level == old(self).msg_level,
    {
        let mut taken = Vec::new();
        std::mem::swap(&mut taken, &mut self.lines);
        taken
    }

    /// Keeps a line, if there is one.
    pub fn write(&mut self, line: Option<String>)
        ensures
            final(self).msg_level == old(self).msg_level,
            wrote(old(self).lines@, final(self).lines@, text_of(line)),
    {
        if let Some(l) = line {
            let ghost before = self.lines@;
            self.lines.push(l);
            assert(self.lines@.drop_last() =~= before);
        }
    }
}

/// The text of a line, if there is one.
pub open spec fn text_of(line: Option<String>) -> Option<Seq<char>> {
    match line {
        Some(l) => Some(l@),
        None => None,
    }
}

/// `after` is `before` with a line of text `t` added, if there is one.
pub open spec fn wrote(before: Seq<String>, after: Seq<String>, t: Option<Seq<char>>) -> bool {
    match t {
        Some(u) => after.len() == before.len() + 1 && after.drop_last() == before && after.last()@ == u,
        None => after == before,
    }
}

/// `after` is `before` with the line `t`, if any, written and the level kept.
pub open spec fn console_wrote(before: ConsoleLogEventHandler, after: ConsoleLogEventHandler, t: Option<Seq<char>>) -> bool {
    after.msg_level == before.msg_level && wrote(before.lines@, after.lines@, t)
}

impl EventHandler for ConsoleLogEventHandler {
    open spec fn sequence_started(before: Self, details: NewSequenceEvent, after: Self) -> bool {
        after == before
    }

    open spec fn sequence_ended(before: Self, details: EventData, after: Self) -> bool {
        after == before
    }

    open spec fn step_started(before: Self, step: StepDetails, details: EventData, after: Self) -> bool {
        console_wrote(
            before,
            after,
            start_text(before.msg_level, step.title@, step.description@, details.msg@),
        )
    }

    open spec fn step_was_skipped(before: Self, step: StepDetails, details: EventData, after: Self) -> bool {
        console_wrote(before, after, skipped_text(before.msg_level, step.title@, details.msg@))
    }

    open spec fn step_ended(before: Self, step: StepDetails, details: EventData, after: Self) -> bool {
        console_wrote(before, after, end_text(before.msg_level, step.title@, details.msg@))
    }

    open spec fn step_failed(before: Self, step: StepDetails, details: EventData, after: Self) -> bool {
        console_wrote(before, after, error_text(before.msg_level, step.title@, details.msg@))
    }

    fn sequence_start(&mut self, details: NewSequenceEvent) {
    }

    fn sequence_end(&mut self, details: &EventData) {
    }

    fn step_start(&mut self, step: StepDetails, data: &EventData) {
        let line = start_line(self.msg_level, &step, data);
        assert(text_of(line) == start_text(self.msg_level, step.title@, step.description@, data.msg@));
        self.write(line);
    }

    fn step_end(&mut self, step: StepDetails, data: &EventData) {
        let line = end_line(self.msg_level, &step, data);
        assert(text_of(line) == end_text(self.msg_level, step.title@, data.msg@));
        self.write(line);
    }

    fn step_skipped(&mut self, step: StepDetails, data: &EventData) {
        let line = skipped_line(self.msg_level, &step, data);
        assert(text_of(line) == skipped_text(self.msg_level, step.title@, data.msg@));
        self.write(line);
    }

    fn step_error(&mut self, step: StepDetails, data: &EventData) {
        let line = error_line(self.msg_level, &step, data);
        assert(text_of(line) == error_text(self.msg_level, step.title@, data.msg@));
        self.write(line);
    }
}

} // verus!
