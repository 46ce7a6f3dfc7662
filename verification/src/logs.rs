//! Records ready for display, and the known shapes of log lines.

use vstd::prelude::*;
use vstd::string::*;
use serde_json::Value;
use crate::json::{
    JsonKind, JsonTree, Members, distinct_names, json_object, json_parse, json_pretty, kind_of, members_view,
    object_of, parse_value, pretty_text, value_tree,
};
use crate::logs::knex::{KnexLog, KnexView, knex_in, knex_of};
use crate::logs::standard::{StandardLog, StandardView, standard_in, standard_of};
use crate::text::{trim, trim_of};
use crate::time::LogTime;

pub mod knex;
pub mod standard;

verus! {

/// Foreground colours that records and their parts are shown in.
#[derive(Debug, Clone, Copy, PartialEq, Eq, Structural)]
pub enum Color {
    Blue,
    Cyan,
    White,
    Yellow,
}

/// A log line made ready for display.
#[derive(Debug, PartialEq)]
pub struct FormattedLog {
    pub date: LogTime,
    pub msg: String,
    pub extra: Option<Vec<(String, Value)>>,
    pub color_overwrite: Option<Color>,
}

/// What a record says: its stamp, its message, its structured payload as
/// named contents, and the colour that replaces the default one.
pub struct RecordView {
    pub date: LogTime,
    pub msg: Seq<char>,
    pub extra: Option<Members>,
    pub color_overwrite: Option<Color>,
}

impl RecordView {
    /// Whether no name occurs twice in the payload.
    pub open spec fn names_once(self) -> bool {
        match self.extra {
            Some(members) => distinct_names(members),
            None => true,
        }
    }
}

impl View for FormattedLog {
    type V = RecordView;

    open spec fn view(&self) -> RecordView {
        RecordView {
            date: self.date,
            msg: self.msg@,
            extra: match self.extra {
                Some(members) => Some(members_view(members@)),
                None => None,
            },
            color_overwrite: self.color_overwrite,
        }
    }
}

/// A known shape of log line: read from a line, shown short or in detail.
pub trait ParsableLog: Sized + View {
    /// What a line of text holds, where it has this shape.
    spec fn shape_in(line: Seq<char>) -> Option<Self::V>;

    /// The short view of what a line holds.
    spec fn compact_record(log: Self::V) -> RecordView;

    /// The detailed view of what a line holds.
    spec fn detailed_record(log: Self::V) -> RecordView;

    /// The short view. No name occurs twice in its payload.
    fn format_compact(&self) -> (record: FormattedLog)
        ensures
            record@ == Self::compact_record(self@),
            record@.names_once(),
    ;

    /// The detailed view. No name occurs twice in its payload.
    fn format_detailed(&self) -> (record: FormattedLog)
        ensures
            record@ == Self::detailed_record(self@),
            record@.names_once(),
    ;

    /// Reads a line; `None` where the line does not have this shape.
    fn from_line(line: &str) -> (log: Option<Self>)
        ensures
            match log {
                Some(log) => Self::shape_in(line@) == Some(log@),
                None => Self::shape_in(line@) is None,
            },
    ;
}

/// A line of a known shape.
#[derive(Debug)]
pub enum ParsedLog {
    Standard(StandardLog),
    Query(KnexLog),
}

/// What a line of a known shape holds.
pub enum ParsedView {
    Standard(StandardView),
    Query(KnexView),
}

impl View for ParsedLog {
    type V = ParsedView;

    open spec fn view(&self) -> ParsedView {
        match self {
            ParsedLog::Standard(log) => ParsedView::Standard(log@),
            ParsedLog::Query(log) => ParsedView::Query(log@),
        }
    }
}

/// The known shape that a value has: standard where it is one, query where
/// it is not standard and is a query, none otherwise.
pub open spec fn known_of(tree: JsonTree) -> Option<ParsedView> {
    match standard_of(tree) {
        Some(log) => Some(ParsedView::Standard(log)),
        None => match knex_of(tree) {
            Some(log) => Some(ParsedView::Query(log)),
            None => None,
        },
    }
}

/// The known shape that a line of text has.
pub open spec fn known_in(line: Seq<char>) -> Option<ParsedView> {
    match json_parse(line) {
        Some(tree) => known_of(tree),
        None => None,
    }
}

/// The short view of a line of a known shape.
pub open spec fn compact_view(log: ParsedView) -> RecordView {
    match log {
        ParsedView::Standard(log) => standard::compact_of(log),
        ParsedView::Query(log) => knex::compact_of(log),
    }
}

/// The detailed view of a line of a known shape.
pub open spec fn detailed_view(log: ParsedView) -> RecordView {
    match log {
        ParsedView::Standard(log) => standard::detailed_of(log),
        ParsedView::Query(log) => knex::detailed_of(log),
    }
}

/// The record for a line of no known shape: the line as it came, in blue,
/// without payload, stamped with the moment it is shown.
pub open spec fn unrecognized_view(line: Seq<char>) -> RecordView {
    RecordView { date: LogTime::Now, msg: line, extra: None, color_overwrite: Some(Color::Blue) }
}

impl FormattedLog {
    /// The record for a line of no known shape.
    pub fn unrecognized(line: &str) -> (record: FormattedLog)
        ensures
            record@ == unrecognized_view(line@),
    {
        FormattedLog {
            date: LogTime::Now,
            msg: String::from_str(line),
            extra: None,
            color_overwrite: Some(Color::Blue),
        }
    }
}

/// Tries the known shapes on `value` in their order; the first that fits
/// decides.
pub fn classify(value: &Value) -> (log: Option<ParsedLog>)
    ensures
        match log {
            Some(log) => known_of(value_tree(*value)) == Some(log@),
            None => known_of(value_tree(*value)) is None,
        },
{
    if let Some(v) = StandardLog::from_value(value) {
        Some(ParsedLog::Standard(v))
    } else if let Some(v) = KnexLog::from_value(value) {
        Some(ParsedLog::Query(v))
    } else {
        None
    }
}

/// Reads `line` as one of the known shapes.
pub fn try_parse_known_log(line: &str) -> (log: Option<ParsedLog>)
    ensures
        match log {
            Some(log) => known_in(line@) == Some(log@),
            None => known_in(line@) is None,
        },
{
    match parse_value(line) {
        Some(value) => classify(&value),
        None => None,
    }
}

impl ParsableLog for ParsedLog {
    open spec fn shape_in(line: Seq<char>) -> Option<ParsedView> {
        known_in(line)
    }

    open spec fn compact_record(log: ParsedView) -> RecordView {
        compact_view(log)
    }

    open spec fn detailed_record(log: ParsedView) -> RecordView {
        detailed_view(log)
    }

    fn format_compact(&self) -> (record: FormattedLog) {
        match self {
            ParsedLog::Standard(log) => log.format_compact(),
            ParsedLog::Query(log) => log.format_compact(),
        }
    }

    fn format_detailed(&self) -> (record: FormattedLog) {
        match self {
            ParsedLog::Standard(log) => log.format_detailed(),
            ParsedLog::Query(log) => log.format_detailed(),
        }
    }

    fn from_line(line: &str) -> (log: Option<Self>) {
        try_parse_known_log(line)
    }
}

/// A line that fits the standard shape is a standard line, whether or not it
/// fits the query shape too.
pub proof fn law_standard_shape_comes_first(line: Seq<char>)
    requires
        standard_in(line) is Some,
        knex_in(line) is Some,
    ensures
        known_in(line) == Some(ParsedView::Standard(standard_in(line)->0)),
{
}

/// Text that is no JSON value has no known shape.
pub proof fn law_known_shapes_are_json(line: Seq<char>)
    requires
        json_parse(line) is None,
    ensures
        known_in(line) is None,
        standard_in(line) is None,
        knex_in(line) is None,
{
}

/// A line is of a known shape exactly if it fits one of the shapes; a line
/// that fits none has no parsed form.
pub proof fn law_known_iff_some_shape_fits(line: Seq<char>)
    ensures
        known_in(line) is Some <==> (standard_in(line) is Some || knex_in(line) is Some),
{
}

/// A piece of text with the colour asked for it. Where `structured` holds,
/// the text is shown as the object or array it reads as, each part in the
/// colour of its kind, in place of `color`.
#[derive(Debug, PartialEq)]
pub struct Piece {
    pub text: String,
    pub color: Color,
    pub structured: bool,
}

/// What a piece says and how it is shown.
pub struct PieceView {
    pub text: Seq<char>,
    pub color: Color,
    pub structured: bool,
}

impl View for Piece {
    type V = PieceView;

    open spec fn view(&self) -> PieceView {
        PieceView { text: self.text@, color: self.color, structured: self.structured }
    }
}

/// What printing a record writes: the stamp in its colour and a space, the
/// message, and, where there is a payload, a line break and the payload; a
/// line break ends it.
#[derive(Debug, PartialEq)]
pub struct Printout {
    pub date: LogTime,
    pub date_color: Color,
    pub message: Piece,
    pub payload: Option<Piece>,
}

/// What a printout says.
pub struct PrintoutView {
    pub date: LogTime,
    pub date_color: Color,
    pub message: PieceView,
    pub payload: Option<PieceView>,
}

impl View for Printout {
    type V = PrintoutView;

    open spec fn view(&self) -> PrintoutView {
        PrintoutView {
            date: self.date,
            date_color: self.date_color,
            message: self.message@,
            payload: match self.payload {
                Some(piece) => Some(piece@),
                None => None,
            },
        }
    }
}

/// Whether a text reads as an object or an array.
pub open spec fn reads_as_structure(text: Seq<char>) -> bool {
    match json_parse(text) {
        Some(JsonTree::Object(_)) => true,
        Some(JsonTree::List(_)) => true,
        _ => false,
    }
}

/// A piece of text shown in `color` throughout.
pub open spec fn solid_piece(text: Seq<char>, color: Color) -> PieceView {
    PieceView { text, color, structured: false }
}

/// A piece of text for which `color` is asked.
pub open spec fn piece_of(text: Seq<char>, color: Color) -> PieceView {
    PieceView { text, color, structured: reads_as_structure(text) }
}

/// The printout of a record: the stamp in cyan; the message without the
/// white space around it, in the record's colour or in white, whatever it
/// reads as; the payload as one indented object without the white space
/// around it, for which cyan is asked.
pub open spec fn printout_of(record: RecordView) -> PrintoutView {
    PrintoutView {
        date: record.date,
        date_color: Color::Cyan,
        message: solid_piece(
            trim_of(record.msg),
            match record.color_overwrite {
                Some(color) => color,
                None => Color::White,
            },
        ),
        payload: match record.extra {
            Some(members) => Some(
                piece_of(trim_of(json_pretty(json_object(members))), Color::Cyan),
            ),
            None => None,
        },
    }
}

/// Decides how `text` is shown where `color` is asked for it.
pub fn print_color(text: &str, color: Color) -> (piece: Piece)
    ensures
        piece@ == piece_of(text@, color),
{
    let mut structured = false;
    if let Some(parsed) = parse_value(text) {
        let kind = kind_of(&parsed);
        if kind == JsonKind::Object || kind == JsonKind::List {
            structured = true;
        }
    }
    Piece { text: String::from_str(text), color, structured }
}

impl FormattedLog {
    /// Lays the record out for printing.
    pub fn print(&self) -> (printout: Printout)
        ensures
            printout@ == printout_of(self@),
    {
        let color = match self.color_overwrite {
            Some(color) => color,
            None => Color::White,
        };
        let message = Piece { text: trim(self.msg.as_str()), color, structured: false };
        let payload = match &self.extra {
            Some(extra) => {
                let object = object_of(extra);
                let pretty = pretty_text(&object);
                Some(print_color(trim(pretty.as_str()).as_str(), Color::Cyan))
            },
            None => None,
        };
        Printout { date: self.date, date_color: Color::Cyan, message, payload }
    }
}

} // verus!
