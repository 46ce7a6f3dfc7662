//! The query log line: an object with the text of an SQL statement.

use vstd::prelude::*;
use vstd::string::*;
use serde_json::Value;
use crate::fields::{find, given, member};
use crate::json::{
    JsonKind, JsonTree, Members, array_items, compact_text, copy_of, items_view, json_compact,
    json_parse, kind_of, members_view, object_members, parse_value, text_of, value_tree,
};
use crate::logs::{Color, FormattedLog, ParsableLog, RecordView};
use crate::text::texts_view;
use crate::time::LogTime;

verus! {

/// The values that stand in for the placeholders of a statement.
#[derive(Debug, PartialEq)]
pub enum SqlParams {
    Named(Vec<(String, String)>),
    Indexed(Vec<String>),
    Plain,
}

/// The values for the placeholders, as texts.
pub enum SqlParamsView {
    Named(Seq<(Seq<char>, Seq<char>)>),
    Indexed(Seq<Seq<char>>),
    Plain,
}

/// Named values as pairs of texts.
pub open spec fn pairs_view(pairs: Seq<(String, String)>) -> Seq<(Seq<char>, Seq<char>)> {
    Seq::new(pairs.len(), |i: int| (pairs[i].0@, pairs[i].1@))
}

impl View for SqlParams {
    type V = SqlParamsView;

    open spec fn view(&self) -> SqlParamsView {
        match self {
            SqlParams::Named(pairs) => SqlParamsView::Named(pairs_view(pairs@)),
            SqlParams::Indexed(values) => SqlParamsView::Indexed(texts_view(values@)),
            SqlParams::Plain => SqlParamsView::Plain,
        }
    }
}

/// The statement as `sqlformat` lays it out: `params` in place of the
/// placeholders, `spaces` spaces to a level of indentation, reserved words in
/// capitals where `uppercase` says so, `gap` line breaks between statements.
pub uninterp spec fn sql_layout(
    sql: Seq<char>,
    params: SqlParamsView,
    spaces: u8,
    uppercase: bool,
    gap: u8,
) -> Seq<char>;

/// Whether a character is one of the digits `0` to `9`.
pub open spec fn is_digit(c: char) -> bool {
    '0' <= c <= '9'
}

/// Whether the digits that start at `from`, up to the first character that
/// is no digit, are all zeros. Where no digit stands at `from`, that holds.
pub open spec fn zeros_from(sql: Seq<char>, from: int) -> bool
    decreases sql.len() - from,
{
    if from < 0 || from >= sql.len() || !is_digit(sql[from]) {
        true
    } else if sql[from] == '0' {
        zeros_from(sql, from + 1)
    } else {
        false
    }
}

/// Whether a dollar sign at `at` is followed by digits, one at least, that
/// are all zeros.
pub open spec fn zero_placeholder_at(sql: Seq<char>, at: int) -> bool {
    &&& 0 <= at
    &&& at + 1 < sql.len()
    &&& sql[at] == '$'
    &&& sql[at + 1] == '0'
    &&& zeros_from(sql, at + 2)
}

/// Whether the statement holds a dollar sign followed by a number made of
/// zeros alone: a placeholder that counts from one and yet names the
/// position zero.
pub open spec fn names_parameter_zero(sql: Seq<char>) -> bool {
    exists|at: int| zero_placeholder_at(sql, at)
}

/// `sqlformat::format`: the statement laid out. With positional values the
/// formatter subtracts one from the number behind a dollar sign, which a
/// number of zeros alone does not allow; such statements are left out. The
/// text depends on the arguments alone.
#[verifier::external_body]
fn format_sql(sql: &str, params: &SqlParams, spaces: u8, uppercase: bool, gap: u8) -> (text: String)
    requires
        params is Indexed ==> !names_parameter_zero(sql@),
    ensures
        text@ == sql_layout(sql@, params@, spaces, uppercase, gap),
{
    let params = match params {
        SqlParams::Named(pairs) => sqlformat::QueryParams::Named(pairs.clone()),
        SqlParams::Indexed(values) => sqlformat::QueryParams::Indexed(values.clone()),
        SqlParams::Plain => sqlformat::QueryParams::None,
    };
    let indent = sqlformat::Indent::Spaces(spaces);
    let options = sqlformat::FormatOptions { indent, uppercase, lines_between_queries: gap };
    sqlformat::format(sql, &params, options)
}

/// Looks for a dollar sign followed by a number made of zeros alone.
pub fn has_parameter_zero(sql: &str) -> (found: bool)
    ensures
        found == names_parameter_zero(sql@),
{
    let mut after_dollar = false;
    let mut in_zeros = false;
    let ghost mut start: int = 0;
    for c in it: sql.chars()
        invariant
            it.seq() == sql@,
            !(after_dollar && in_zeros),
            after_dollar ==> it.index() > 0 && sql@[it.index() - 1] == '$',
            !after_dollar && !in_zeros && it.index() > 0 ==> sql@[it.index() - 1] != '$',
            in_zeros ==> 0 <= start && start + 2 <= it.index() && sql@[start] == '$' && sql@[start
                + 1] == '0' && sql@[it.index() - 1] == '0' && zeros_from(sql@, start + 2)
                == zeros_from(sql@, it.index()),
            forall|k: int|
                0 <= k && k + 1 < it.index() && !(in_zeros && k == start) ==> !zero_placeholder_at(
                    sql@,
                    k,
                ),
    {
        if in_zeros {
            if c != '0' {
                if '0' <= c && c <= '9' {
                    in_zeros = false;
                } else {
                    assert(zero_placeholder_at(sql@, start));
                    return true;
                }
            }
        } else if after_dollar && c == '0' {
            proof {
                start = it.index() - 1;
            }
            after_dollar = false;
            in_zeros = true;
        } else {
            after_dollar = c == '$';
        }
    }
    proof {
        if in_zeros {
            assert(zero_placeholder_at(sql@, start));
        }
    }
    in_zeros
}

/// A line of the query shape: an object whose `sql` member is a string.
#[derive(Debug)]
pub struct KnexLog {
    sql: String,
    bindings: Option<Value>,
}

/// What a query line holds: the statement, and the bound values as given.
pub struct KnexView {
    pub sql: Seq<char>,
    pub bindings: Option<JsonTree>,
}

impl View for KnexLog {
    type V = KnexView;

    closed spec fn view(&self) -> KnexView {
        KnexView {
            sql: self.sql@,
            bindings: match self.bindings {
                Some(value) => Some(value_tree(value)),
                None => None,
            },
        }
    }
}

/// The query line that a value holds, if it has that shape.
pub open spec fn knex_of(tree: JsonTree) -> Option<KnexView> {
    match tree {
        JsonTree::Object(members) => match member(members, "sql"@) {
            Some(JsonTree::Text(sql)) => Some(
                KnexView { sql, bindings: given(member(members, "bindings"@)) },
            ),
            _ => None,
        },
        _ => None,
    }
}

/// The query line that a line of text holds, if it is one.
pub open spec fn knex_in(line: Seq<char>) -> Option<KnexView> {
    match json_parse(line) {
        Some(tree) => knex_of(tree),
        None => None,
    }
}

/// A bound value as it is written into the statement: a string between
/// single quotes, anything else as its JSON text.
pub open spec fn literal_of(tree: JsonTree) -> Seq<char> {
    match tree {
        JsonTree::Text(text) => "'"@ + text + "'"@,
        other => json_compact(other),
    }
}

/// The values for the placeholders: positional from an array, named from an
/// object, none otherwise. Positional values are not used on a statement
/// that names the position zero.
pub open spec fn params_of(log: KnexView) -> SqlParamsView {
    match log.bindings {
        Some(JsonTree::List(items)) => if names_parameter_zero(log.sql) {
            SqlParamsView::Plain
        } else {
            SqlParamsView::Indexed(Seq::new(items.len(), |i: int| literal_of(items[i])))
        },
        Some(JsonTree::Object(members)) => SqlParamsView::Named(
            Seq::new(members.len(), |i: int| (members[i].0, literal_of(members[i].1))),
        ),
        _ => SqlParamsView::Plain,
    }
}

/// The short view: the statement laid out with two spaces to a level and
/// reserved words in capitals, the bound values in place.
pub open spec fn compact_of(log: KnexView) -> RecordView {
    RecordView {
        date: LogTime::Now,
        msg: "SQL query (might be different than the actual query):\n"@ + sql_layout(
            log.sql,
            params_of(log),
            2,
            true,
            0,
        ),
        extra: None,
        color_overwrite: Some(Color::Yellow),
    }
}

/// The detailed view: the statement as it came, the bound values as payload.
pub open spec fn detailed_of(log: KnexView) -> RecordView {
    RecordView {
        date: LogTime::Now,
        msg: log.sql,
        extra: Some(
            match log.bindings {
                Some(bindings) => seq![("bidings"@, bindings)],
                None => Seq::empty(),
            },
        ),
        color_overwrite: Some(Color::Blue),
    }
}

/// Writes a bound value as it goes into the statement.
fn literal(value: &Value) -> (text: String)
    ensures
        text@ == literal_of(value_tree(*value)),
{
    match text_of(value) {
        Some(inner) => {
            let mut text = String::from_str("'");
            text.append(inner.as_str());
            text.append("'");
            text
        },
        None => compact_text(value),
    }
}

impl KnexLog {
    /// The statement as it came.
    pub fn sql(&self) -> (sql: &String)
        ensures
            sql@ == self@.sql,
    {
        &self.sql
    }

    /// Reads a query line from `value`.
    pub fn from_value(value: &Value) -> (log: Option<KnexLog>)
        ensures
            match log {
                Some(log) => knex_of(value_tree(*value)) == Some(log@),
                None => knex_of(value_tree(*value)) is None,
            },
    {
        let members = object_members(value)?;
        let sql = text_of(find(&members, "sql")?)?;
        let bindings = match find(&members, "bindings") {
            Some(field) => match kind_of(field) {
                JsonKind::Null => None,
                _ => Some(copy_of(field)),
            },
            None => None,
        };
        Some(KnexLog { sql, bindings })
    }

    /// The values for the placeholders of the statement.
    pub fn params(&self) -> (params: SqlParams)
        ensures
            params@ == params_of(self@),
    {
        let bindings = match &self.bindings {
            Some(bindings) => bindings,
            None => {
                return SqlParams::Plain;
            },
        };
        if let Some(items) = array_items(bindings) {
            if has_parameter_zero(self.sql.as_str()) {
                return SqlParams::Plain;
            }
            let mut values: Vec<String> = Vec::new();
            let mut i: usize = 0;
            while i < items.len()
                invariant
                    i <= items.len(),
                    values.len() == i,
                    forall|k: int|
                        0 <= k < i ==> (#[trigger] values[k])@ == literal_of(value_tree(items[k])),
                decreases items.len() - i,
            {
                values.push(literal(&items[i]));
                i = i + 1;
            }
            let params = SqlParams::Indexed(values);
            assert(params@->Indexed_0 =~= Seq::new(
                items_view(items@).len(),
                |i: int| literal_of(items_view(items@)[i]),
            ));
            return params;
        }
        if let Some(members) = object_members(bindings) {
            let mut pairs: Vec<(String, String)> = Vec::new();
            let mut i: usize = 0;
            while i < members.len()
                invariant
                    i <= members.len(),
                    pairs.len() == i,
                    forall|k: int|
                        0 <= k < i ==> (#[trigger] pairs[k]).0@ == members[k].0@ && pairs[k].1@
                            == literal_of(value_tree(members[k].1)),
                decreases members.len() - i,
            {
                pairs.push((members[i].0.clone(), literal(&members[i].1)));
                i = i + 1;
            }
            let params = SqlParams::Named(pairs);
            assert(params@->Named_0 =~= Seq::new(
                members_view(members@).len(),
                |i: int| (members_view(members@)[i].0, literal_of(members_view(members@)[i].1)),
            ));
            return params;
        }
        SqlParams::Plain
    }
}

impl ParsableLog for KnexLog {
    open spec fn shape_in(line: Seq<char>) -> Option<KnexView> {
        knex_in(line)
    }

    open spec fn compact_record(log: KnexView) -> RecordView {
        compact_of(log)
    }

    open spec fn detailed_record(log: KnexView) -> RecordView {
        detailed_of(log)
    }

    fn format_compact(&self) -> (record: FormattedLog) {
        let params = self.params();
        let layout = format_sql(self.sql.as_str(), &params, 2, true, 0);
        let mut msg = String::from_str("SQL query (might be different than the actual query):\n");
        msg.append(layout.as_str());
        FormattedLog {
            date: LogTime::Now,
            msg,
            extra: None,
            color_overwrite: Some(Color::Yellow),
        }
    }

    fn format_detailed(&self) -> (record: FormattedLog) {
        let msg = self.sql.clone();
        let mut bindings_map: Vec<(String, Value)> = Vec::new();
        if let Some(b) = &self.bindings {
            bindings_map.push((String::from_str("bidings"), copy_of(b)));
        }
        let record = FormattedLog {
            date: LogTime::Now,
            msg,
            extra: Some(bindings_map),
            color_overwrite: Some(Color::Blue),
        };
        assert(record@.extra->0 =~= detailed_of(self@).extra->0);
        record
    }

    fn from_line(line: &str) -> (log: Option<Self>) {
        match parse_value(line) {
            Some(value) => KnexLog::from_value(&value),
            None => None,
        }
    }
}

/// An object without an `sql` member that is a string is no query line,
/// whatever else it holds.
pub proof fn law_statement_is_required(members: Members)
    requires
        !(member(members, "sql"@) is Some && member(members, "sql"@)->0 is Text),
    ensures
        knex_of(JsonTree::Object(members)) is None,
{
}

/// The detailed view shows the statement as it came and always has a
/// payload; the short view never has one.
pub proof fn law_views_of_a_query(log: KnexView)
    ensures
        detailed_of(log).msg == log.sql,
        detailed_of(log).extra is Some,
        detailed_of(log).extra->0.len() == if log.bindings is Some {
            1nat
        } else {
            0nat
        },
        compact_of(log).extra is None,
{
}

} // verus!
