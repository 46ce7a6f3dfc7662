//! The state shared by ingestion and control: the display mode and the
//! history of raw lines.

use vstd::prelude::*;
use vstd::string::*;
use crate::buffer::{CircularBuffer, LOG_REPLAY_CAPACITY, most_recent};
use crate::logs::{
    Color, FormattedLog, ParsableLog, RecordView, compact_view, detailed_view, known_in,
    try_parse_known_log, unrecognized_view,
};

verus! {

/// How much of a line's structure is shown.
#[derive(Debug, PartialEq, Eq, PartialOrd, Ord, Clone, Copy, Structural)]
pub enum FormatType {
    Compact,
    Detailed,
    Raw,
}

/// What ingestion and control share: the mode that lines are shown in, and
/// the most recent raw lines.
#[derive(Debug)]
pub struct CliState {
    pub format_type: FormatType,
    pub last_logs: CircularBuffer,
}

impl CliState {
    /// Appends a raw line to the history.
    pub fn insert_log(&mut self, log: String)
        ensures
            final(self).format_type == old(self).format_type,
            final(self).last_logs@ == old(self).last_logs@.push(log@),
            final(self).last_logs@.lines() == most_recent(
                old(self).last_logs@.lines().push(log@),
                LOG_REPLAY_CAPACITY as nat,
            ),
    {
        self.last_logs.push(log);
    }

    /// The raw lines held, oldest first.
    pub fn get_logs(&self) -> (lines: Vec<String>)
        ensures
            lines.deep_view() == self.last_logs@.lines(),
            lines.len() <= LOG_REPLAY_CAPACITY,
    {
        self.last_logs.get_all()
    }
}

/// What is shown for a line: the line itself, or a record made of it.
#[derive(Debug, PartialEq)]
pub enum Rendered {
    Verbatim(String),
    Record(FormattedLog),
}

/// What is shown for a line.
pub enum RenderedView {
    Verbatim(Seq<char>),
    Record(RecordView),
}

impl View for Rendered {
    type V = RenderedView;

    open spec fn view(&self) -> RenderedView {
        match self {
            Rendered::Verbatim(line) => RenderedView::Verbatim(line@),
            Rendered::Record(record) => RenderedView::Record(record@),
        }
    }
}

/// What is shown for `line` under `mode`. Raw shows the line as it came,
/// whatever it holds. The other modes show a line of a known shape in that
/// shape's short or detailed view, and any other line as unrecognized.
pub open spec fn rendering(line: Seq<char>, mode: FormatType) -> RenderedView {
    match mode {
        FormatType::Raw => RenderedView::Verbatim(line),
        FormatType::Compact => RenderedView::Record(
            match known_in(line) {
                Some(log) => compact_view(log),
                None => unrecognized_view(line),
            },
        ),
        FormatType::Detailed => RenderedView::Record(
            match known_in(line) {
                Some(log) => detailed_view(log),
                None => unrecognized_view(line),
            },
        ),
    }
}

impl RenderedView {
    /// Whether no name occurs twice in the payload of what is shown.
    pub open spec fn names_once(self) -> bool {
        match self {
            RenderedView::Verbatim(_) => true,
            RenderedView::Record(record) => record.names_once(),
        }
    }
}

/// Whether `shown` is what replaying `lines` under `mode` shows: one entry
/// for each line, in order, each as `rendering` gives it.
pub open spec fn replays(shown: Seq<RenderedView>, lines: Seq<Seq<char>>, mode: FormatType) -> bool {
    &&& shown.len() == lines.len()
    &&& forall|i: int| 0 <= i < lines.len() ==> #[trigger] shown[i] == rendering(lines[i], mode)
}

/// What a list of rendered lines shows.
pub open spec fn rendered_view(shown: Seq<Rendered>) -> Seq<RenderedView> {
    Seq::new(shown.len(), |i: int| shown[i]@)
}

/// Makes of a line what is shown for it under `format_type`.
pub fn handle_line(line: &str, format_type: &FormatType) -> (shown: Rendered)
    ensures
        shown@ == rendering(line@, *format_type),
        shown@.names_once(),
{
    if *format_type == FormatType::Raw {
        return Rendered::Verbatim(String::from_str(line));
    }
    if let Some(log) = try_parse_known_log(line) {
        let compact = match format_type {
            FormatType::Compact => log.format_compact(),
            FormatType::Detailed => log.format_detailed(),
            FormatType::Raw => {
                return Rendered::Verbatim(String::from_str(line));
            },
        };
        Rendered::Record(compact)
    } else {
        Rendered::Record(FormattedLog::unrecognized(line))
    }
}

/// Renders every line of the history, oldest first, under the mode that
/// holds now.
pub fn replay(context: &CliState) -> (shown: Vec<Rendered>)
    ensures
        replays(rendered_view(shown@), context.last_logs@.lines(), context.format_type),
        forall|i: int| 0 <= i < shown.len() ==> (#[trigger] shown[i])@.names_once(),
{
    let lines = context.get_logs();
    let mut shown: Vec<Rendered> = Vec::new();
    let mut i: usize = 0;
    while i < lines.len()
        invariant
            i <= lines.len(),
            shown.len() == i,
            lines.deep_view() == context.last_logs@.lines(),
            forall|k: int|
                0 <= k < i ==> (#[trigger] shown[k])@ == rendering(
                    context.last_logs@.lines()[k],
                    context.format_type,
                ) && shown[k]@.names_once(),
        decreases lines.len() - i,
    {
        let format_type = context.format_type;
        shown.push(handle_line(lines[i].as_str(), &format_type));
        i = i + 1;
    }
    shown
}

impl CliState {
    /// Takes in what one read of the stream gave. An empty read is the end
    /// of the stream: nothing is stored and `None` comes back. Any other line
    /// is appended to the history, whatever the mode, and the mode to show it
    /// under comes back.
    pub fn receive(&mut self, line: &str) -> (mode: Option<FormatType>)
        ensures
            line@.len() == 0 ==> mode is None && *final(self) == *old(self),
            line@.len() > 0 ==> mode == Some(old(self).format_type) && final(self).format_type == old(
                self,
            ).format_type && final(self).last_logs@ == old(self).last_logs@.push(line@),
    {
        if line.is_empty() {
            return None;
        }
        self.insert_log(String::from_str(line));
        Some(self.format_type)
    }
}

/// Replaying the same history twice under the same mode shows the same.
pub proof fn law_replay_shows_the_same(
    first: Seq<RenderedView>,
    second: Seq<RenderedView>,
    lines: Seq<Seq<char>>,
    mode: FormatType,
)
    requires
        replays(first, lines, mode),
        replays(second, lines, mode),
    ensures
        first == second,
{
}

/// Under every mode but raw, a line of no known shape is shown as
/// unrecognized: as it came, in blue, without payload.
pub proof fn law_unknown_lines_are_unrecognized(line: Seq<char>, mode: FormatType)
    requires
        known_in(line) is None,
        mode != FormatType::Raw,
    ensures
        rendering(line, mode) == RenderedView::Record(unrecognized_view(line)),
        unrecognized_view(line).msg == line,
        unrecognized_view(line).extra is None,
        unrecognized_view(line).color_overwrite == Some(Color::Blue),
{
}

/// Under the raw mode every line is shown as it came, whatever shape it has.
pub proof fn law_raw_shows_lines_unchanged(line: Seq<char>)
    ensures
        rendering(line, FormatType::Raw) == RenderedView::Verbatim(line),
{
}

} // verus!
