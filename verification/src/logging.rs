//! What is logged: lines, and events with named fields.
use crate::text;
use vstd::prelude::*;

verus! {

/// How much a line or an event matters.
#[derive(Clone, Copy, PartialEq, Eq, Structural, Debug)]
pub enum Level {
    Info,
    Warn,
}

/// A line to log.
#[derive(Debug)]
pub struct Line {
    pub level: Level,
    pub text: String,
}

/// The line that a [`Line`] stands for.
#[verifier::ext_equal]
pub struct LineView {
    pub level: Level,
    pub text: Seq<char>,
}

impl View for Line {
    type V = LineView;

    open spec fn view(&self) -> LineView {
        LineView { level: self.level, text: self.text@ }
    }
}

/// An event to log, with its name and its fields in order.
#[derive(Debug)]
pub struct Event {
    pub level: Level,
    pub name: String,
    pub fields: Vec<(String, String)>,
}

/// The event that an [`Event`] stands for.
#[verifier::ext_equal]
pub struct EventView {
    pub level: Level,
    pub name: Seq<char>,
    pub fields: Seq<(Seq<char>, Seq<char>)>,
}

impl View for Event {
    type V = EventView;

    open spec fn view(&self) -> EventView {
        EventView { level: self.level, name: self.name@, fields: text::entries(self.fields@) }
    }
}

/// The lines that some [`Line`]s stand for.
pub open spec fn line_views(lines: Seq<Line>) -> Seq<LineView> {
    Seq::new(lines.len(), |i: int| lines[i]@)
}

/// The event of an optional event.
pub open spec fn event_view(event: Option<Event>) -> Option<EventView> {
    match event {
        Some(event) => Some(event@),
        None => None,
    }
}

/// A line that informs.
pub open spec fn info(text: Seq<char>) -> LineView {
    LineView { level: Level::Info, text }
}

/// A line that warns.
pub open spec fn warn(text: Seq<char>) -> LineView {
    LineView { level: Level::Warn, text }
}

/// A line and an event stand for what they hold, and so do several lines, in order.
pub proof fn law_lines_and_events(line: Line, event: Event, lines: Seq<Line>)
    ensures
        line@.level == line.level && line@.text == line.text@,
        event@.level == event.level && event@.name == event.name@,
        event@.fields.len() == event.fields@.len(),
        forall|i: int|
            0 <= i < event.fields@.len() ==> #[trigger] event@.fields[i] == (
                event.fields@[i].0@,
                event.fields@[i].1@,
            ),
        line_views(lines.push(line)) == line_views(lines).push(line@),
        line_views(Seq::empty()).len() == 0,
        event_view(Some(event)) == Some(event@),
        event_view(None) is None,
        info(line.text@) == (LineView { level: Level::Info, text: line.text@ }),
        warn(line.text@) == (LineView { level: Level::Warn, text: line.text@ }),
{
}

} // verus!
