//! The standard log line: an object with a numeric `level`.

use vstd::prelude::*;
use vstd::string::*;
use serde_json::Value;
use crate::fields::{
    JsonNumeral, JsonObject, field_tree, find, given, member, member_from, object_view, optional_i32, optional_object,
    optional_text, optional_u64, read_i32, read_object, read_text, read_u64, text_view,
};
use crate::json::{
    JsonKind, JsonNumber, JsonTree, Members, distinct_names, json_parse, json_pretty, kind_of, members_view,
    object_members, parse_value, pretty_text, text_of, value_tree,
};
use crate::logs::{FormattedLog, ParsableLog, RecordView};
use crate::text::{decimal, decimal_text};
use crate::time::{moment, moment_of};

verus! {

fn default_none<T>() -> (none: Option<T>)
    ensures
        none is None,
{
    None
}

/// The `data` member of a standard line: whatever the service attached to it.
#[derive(Debug)]
pub struct InternalDataLog {
    internal_context: Option<JsonObject>,
    context: Option<JsonObject>,
    status_code: Option<i32>,
    name: Option<String>,
    http_code: Option<i32>,
    err: Option<JsonObject>,
    req: Option<JsonObject>,
    body: Option<JsonObject>,
    error: Option<JsonObject>,
    options: Option<JsonObject>,
    response: Option<JsonObject>,
}

/// What the `data` member holds.
pub struct DataView {
    pub internal_context: Option<Members>,
    pub context: Option<Members>,
    pub status_code: Option<i32>,
    pub name: Option<Seq<char>>,
    pub http_code: Option<i32>,
    pub err: Option<Members>,
    pub req: Option<Members>,
    pub body: Option<Members>,
    pub error: Option<Members>,
    pub options: Option<Members>,
    pub response: Option<Members>,
}

impl View for InternalDataLog {
    type V = DataView;

    closed spec fn view(&self) -> DataView {
        DataView {
            internal_context: object_view(self.internal_context),
            context: object_view(self.context),
            status_code: self.status_code,
            name: text_view(self.name),
            http_code: self.http_code,
            err: object_view(self.err),
            req: object_view(self.req),
            body: object_view(self.body),
            error: object_view(self.error),
            options: object_view(self.options),
            response: object_view(self.response),
        }
    }
}

/// The `data` member read from an object. Each member is optional; one that
/// is given in another form than its place asks for spoils the whole.
pub open spec fn data_of(tree: JsonTree) -> Option<DataView> {
    match tree {
        JsonTree::Object(members) => {
            let internal_context = optional_object(member(members, "internalContext"@));
            let context = optional_object(member(members, "context"@));
            let status_code = optional_i32(member(members, "statusCode"@));
            let name = optional_text(member(members, "name"@));
            let http_code = optional_i32(member(members, "httpCode"@));
            let err = optional_object(member(members, "err"@));
            let req = optional_object(member(members, "req"@));
            let body = optional_object(member(members, "body"@));
            let error = optional_object(member(members, "error"@));
            let options = optional_object(member(members, "options"@));
            let response = optional_object(member(members, "response"@));
            if internal_context is Some && context is Some && status_code is Some && name is Some
                && http_code is Some && err is Some && req is Some && body is Some && error is Some
                && options is Some && response is Some {
                Some(
                    DataView {
                        internal_context: internal_context->0,
                        context: context->0,
                        status_code: status_code->0,
                        name: name->0,
                        http_code: http_code->0,
                        err: err->0,
                        req: req->0,
                        body: body->0,
                        error: error->0,
                        options: options->0,
                        response: response->0,
                    },
                )
            } else {
                None
            }
        },
        _ => None,
    }
}

/// An optional `data` member.
pub open spec fn optional_data(field: Option<JsonTree>) -> Option<Option<DataView>> {
    match given(field) {
        None => Some(None),
        Some(tree) => match data_of(tree) {
            Some(data) => Some(Some(data)),
            None => None,
        },
    }
}

/// The `data` of an optional record.
pub open spec fn data_view(data: Option<InternalDataLog>) -> Option<DataView> {
    match data {
        Some(data) => Some(data@),
        None => None,
    }
}

impl InternalDataLog {
    /// Reads the `data` member from `value`.
    pub fn from_value(value: &Value) -> (data: Option<InternalDataLog>)
        ensures
            match data {
                Some(data) => data_of(value_tree(*value)) == Some(data@),
                None => data_of(value_tree(*value)) is None,
            },
    {
        let members = object_members(value)?;
        let internal_context = read_object(find(&members, "internalContext"))?;
        let context = read_object(find(&members, "context"))?;
        let status_code = read_i32(find(&members, "statusCode"))?;
        let name = read_text(find(&members, "name"))?;
        let http_code = read_i32(find(&members, "httpCode"))?;
        let err = read_object(find(&members, "err"))?;
        let req = read_object(find(&members, "req"))?;
        let body = read_object(find(&members, "body"))?;
        let error = read_object(find(&members, "error"))?;
        let options = read_object(find(&members, "options"))?;
        let response = read_object(find(&members, "response"))?;
        Some(
            InternalDataLog {
                internal_context,
                context,
                status_code,
                name,
                http_code,
                err,
                req,
                body,
                error,
                options,
                response,
            },
        )
    }
}

/// Reads an optional `data` member.
fn read_data(field: Option<&Value>) -> (read: Option<Option<InternalDataLog>>)
    ensures
        match read {
            Some(data) => optional_data(field_tree(field)) == Some(data_view(data)),
            None => optional_data(field_tree(field)) is None,
        },
{
    match field {
        None => Some(None),
        Some(value) => match kind_of(value) {
            JsonKind::Null => Some(None),
            _ => Some(Some(InternalDataLog::from_value(value)?)),
        },
    }
}

/// A line of the standard shape. It matches any object with a number as
/// its `level` whose other known members, where given, have the form their
/// place asks for.
#[derive(Debug)]
pub struct StandardLog {
    level: JsonNumeral,
    time: Option<u64>,
    pid: Option<i32>,
    hostname: Option<String>,
    name: Option<String>,
    data: Option<InternalDataLog>,
    msg: Option<String>,
    msg_obj: Option<JsonObject>,
}

/// What a standard line holds. `time` is in milliseconds of the epoch; of
/// `msg` and `msg_obj` at most one is there, by the form of the `msg` member.
pub struct StandardView {
    pub level: JsonNumber,
    pub time: Option<u64>,
    pub pid: Option<i32>,
    pub hostname: Option<Seq<char>>,
    pub name: Option<Seq<char>>,
    pub data: Option<DataView>,
    pub msg: Option<Seq<char>>,
    pub msg_obj: Option<Members>,
}

impl View for StandardLog {
    type V = StandardView;

    closed spec fn view(&self) -> StandardView {
        StandardView {
            level: self.level@,
            time: self.time,
            pid: self.pid,
            hostname: text_view(self.hostname),
            name: text_view(self.name),
            data: data_view(self.data),
            msg: text_view(self.msg),
            msg_obj: object_view(self.msg_obj),
        }
    }
}

/// The severity: any number. It must be there.
pub open spec fn level_of(field: Option<JsonTree>) -> Option<JsonNumber> {
    match field {
        Some(JsonTree::Number(number)) => Some(number),
        _ => None,
    }
}

/// The message where the `msg` member is a string.
pub open spec fn plain_message(field: Option<JsonTree>) -> Option<Seq<char>> {
    match field {
        Some(JsonTree::Text(text)) => Some(text),
        _ => None,
    }
}

/// The message where the `msg` member is an object.
pub open spec fn object_message(field: Option<JsonTree>) -> Option<Members> {
    match field {
        Some(JsonTree::Object(members)) => Some(members),
        _ => None,
    }
}

/// The standard line that a value holds, if it has that shape.
pub open spec fn standard_of(tree: JsonTree) -> Option<StandardView> {
    match tree {
        JsonTree::Object(members) => {
            let level = level_of(member(members, "level"@));
            let time = optional_u64(member(members, "time"@));
            let pid = optional_i32(member(members, "pid"@));
            let hostname = optional_text(member(members, "hostname"@));
            let name = optional_text(member(members, "name"@));
            let data = optional_data(member(members, "data"@));
            if level is Some && time is Some && pid is Some && hostname is Some && name is Some
                && data is Some {
                Some(
                    StandardView {
                        level: level->0,
                        time: time->0,
                        pid: pid->0,
                        hostname: hostname->0,
                        name: name->0,
                        data: data->0,
                        msg: plain_message(member(members, "msg"@)),
                        msg_obj: object_message(member(members, "msg"@)),
                    },
                )
            } else {
                None
            }
        },
        _ => None,
    }
}

/// The standard line that a line of text holds, if it is one.
pub open spec fn standard_in(line: Seq<char>) -> Option<StandardView> {
    match json_parse(line) {
        Some(tree) => standard_of(tree),
        None => None,
    }
}

/// The `url` member of the request, where the line carries a request.
pub open spec fn url_of(log: StandardView) -> Option<JsonTree> {
    match log.data {
        Some(data) => match data.req {
            Some(req) => member(req, "url"@),
            None => None,
        },
        None => None,
    }
}

/// The name of the error answered with.
pub open spec fn error_part(log: StandardView) -> Seq<char> {
    match log.data {
        Some(data) => match data.name {
            Some(name) => " - Responding with error "@ + name,
            None => Seq::empty(),
        },
        None => Seq::empty(),
    }
}

/// The HTTP code answered with.
pub open spec fn code_part(log: StandardView) -> Seq<char> {
    match log.data {
        Some(data) => match data.http_code {
            Some(code) => " - HTTP code "@ + decimal_text(code as int),
            None => Seq::empty(),
        },
        None => Seq::empty(),
    }
}

/// The URL asked for; nothing after the dash where `url` is no string.
pub open spec fn url_part(log: StandardView) -> Seq<char> {
    match url_of(log) {
        Some(JsonTree::Text(url)) => " - "@ + url,
        Some(_) => " - "@,
        None => Seq::empty(),
    }
}

/// The message, from its plain form or else from its object form.
pub open spec fn message_part(log: StandardView) -> Seq<char> {
    (match log.msg {
        Some(msg) => " - "@ + msg,
        None => Seq::empty(),
    }) + (match log.msg_obj {
        Some(members) => json_pretty(JsonTree::Object(members)),
        None => Seq::empty(),
    })
}

/// What both views start with: error name, HTTP code, URL, message.
pub open spec fn headline(log: StandardView) -> Seq<char> {
    error_part(log) + code_part(log) + url_part(log) + message_part(log)
}

/// The response body, where the line carries one.
pub open spec fn body_of(log: StandardView) -> Option<Members> {
    match log.data {
        Some(data) => data.body,
        None => None,
    }
}

/// The short view: the headline, and the response body as payload with a
/// marker that announces it.
pub open spec fn compact_of(log: StandardView) -> RecordView {
    RecordView {
        date: moment_of(log.time),
        msg: headline(log) + (match body_of(log) {
            Some(_) => " - Responding with"@,
            None => Seq::empty(),
        }),
        extra: body_of(log),
        color_overwrite: None,
    }
}

/// One labelled payload entry for an object that is there.
pub open spec fn labelled(label: Seq<char>, object: Option<Members>) -> Members {
    match object {
        Some(members) => seq![(label, JsonTree::Object(members))],
        None => Seq::empty(),
    }
}

/// The nested objects that the detailed view shows, each under its label.
pub open spec fn context_of(log: StandardView) -> Members {
    match log.data {
        Some(data) => labelled("internalContext"@, data.internal_context) + labelled(
            "req"@,
            data.req,
        ) + labelled("dataBody"@, data.body),
        None => Seq::empty(),
    }
}

/// The detailed view: the headline, and the nested objects as payload where
/// there is any.
pub open spec fn detailed_of(log: StandardView) -> RecordView {
    RecordView {
        date: moment_of(log.time),
        msg: headline(log),
        extra: if context_of(log).len() > 0 {
            Some(context_of(log))
        } else {
            None
        },
        color_overwrite: None,
    }
}

impl StandardLog {
    /// The severity.
    pub fn level(&self) -> (level: &JsonNumeral)
        ensures
            level@ == self@.level,
    {
        &self.level
    }

    /// The time of the line, in milliseconds of the epoch.
    pub fn time(&self) -> (time: Option<u64>)
        ensures
            time == self@.time,
    {
        self.time
    }

    /// The process that wrote the line.
    pub fn pid(&self) -> (pid: Option<i32>)
        ensures
            pid == self@.pid,
    {
        self.pid
    }

    /// The host that the line was written on.
    pub fn hostname(&self) -> (hostname: &Option<String>)
        ensures
            text_view(*hostname) == self@.hostname,
    {
        &self.hostname
    }

    /// The subsystem that wrote the line.
    pub fn name(&self) -> (name: &Option<String>)
        ensures
            text_view(*name) == self@.name,
    {
        &self.name
    }

    /// Reads a standard line from `value`.
    pub fn from_value(value: &Value) -> (log: Option<StandardLog>)
        ensures
            match log {
                Some(log) => standard_of(value_tree(*value)) == Some(log@),
                None => standard_of(value_tree(*value)) is None,
            },
    {
        let members = object_members(value)?;
        let level = JsonNumeral::from_value(find(&members, "level")?)?;
        let time = read_u64(find(&members, "time"))?;
        let pid = read_i32(find(&members, "pid"))?;
        let hostname = read_text(find(&members, "hostname"))?;
        let name = read_text(find(&members, "name"))?;
        let data = read_data(find(&members, "data"))?;
        let mut log = StandardLog {
            level,
            time,
            pid,
            hostname,
            name,
            data,
            msg: default_none(),
            msg_obj: default_none(),
        };
        match find(&members, "msg") {
            Some(field) => match kind_of(field) {
                JsonKind::Text => {
                    log.msg = text_of(field);
                },
                JsonKind::Object => {
                    log.msg_obj = JsonObject::from_value(field);
                },
                _ => {},
            },
            None => {},
        }
        Some(log)
    }

    /// The headline that both views start with.
    fn headline(&self) -> (log: String)
        ensures
            log@ == headline(self@),
    {
        let mut log = String::new();
        if let Some(data) = &self.data {
            if let Some(name) = &data.name {
                log.append(" - Responding with error ");
                log.append(name.as_str());
            }
        }
        if let Some(data) = &self.data {
            if let Some(http_code) = &data.http_code {
                log.append(" - HTTP code ");
                let code = decimal(*http_code);
                log.append(code.as_str());
            }
        }
        if let Some(data) = &self.data {
            if let Some(req) = &data.req {
                let members = req.members();
                if let Some(url) = find(&members, "url") {
                    log.append(" - ");
                    if let Some(text) = text_of(url) {
                        log.append(text.as_str());
                    }
                }
            }
        }
        if let Some(msg) = &self.msg {
            log.append(" - ");
            log.append(msg.as_str());
        }
        if let Some(msg) = &self.msg_obj {
            let object = msg.value();
            let pretty = pretty_text(&object);
            log.append(pretty.as_str());
        }
        log
    }
}

impl ParsableLog for StandardLog {
    open spec fn shape_in(line: Seq<char>) -> Option<StandardView> {
        standard_in(line)
    }

    open spec fn compact_record(log: StandardView) -> RecordView {
        compact_of(log)
    }

    open spec fn detailed_record(log: StandardView) -> RecordView {
        detailed_of(log)
    }

    fn format_compact(&self) -> (record: FormattedLog) {
        let time = moment(self.time);
        let mut log = self.headline();
        let mut extra: Option<Vec<(String, Value)>> = None;
        if let Some(data) = &self.data {
            if let Some(body) = &data.body {
                extra = Some(body.members());
                log.append(" - Responding with");
            }
        }
        FormattedLog { date: time, msg: log, extra, color_overwrite: None }
    }

    fn format_detailed(&self) -> (record: FormattedLog) {
        let time = moment(self.time);
        let log = self.headline();
        let mut extra: Vec<(String, Value)> = Vec::new();
        if let Some(data) = &self.data {
            if let Some(internal_context) = &data.internal_context {
                extra.push((String::from_str("internalContext"), internal_context.value()));
            }
            if let Some(req) = &data.req {
                extra.push((String::from_str("req"), req.value()));
            }
            if let Some(body) = &data.body {
                extra.push((String::from_str("dataBody"), body.value()));
            }
        }
        assert(members_view(extra@) =~= context_of(self@));
        proof {
            law_detailed_labels_are_distinct(self@);
        }
        FormattedLog {
            date: time,
            msg: log,
            extra: if extra.len() > 0 {
                Some(extra)
            } else {
                None
            },
            color_overwrite: None,
        }
    }

    fn from_line(line: &str) -> (log: Option<Self>) {
        match parse_value(line) {
            Some(value) => StandardLog::from_value(&value),
            None => None,
        }
    }
}

/// An object without a `level` member, or with one that is no number, is
/// no standard line, whatever else it holds.
pub proof fn law_level_is_required(members: Members)
    requires
        level_of(member(members, "level"@)) is None,
    ensures
        standard_of(JsonTree::Object(members)) is None,
{
}

/// Every number is a severity: an object whose `level` is a number, be it
/// large, negative or no integer, is a standard line where nothing else
/// spoils it.
pub proof fn law_every_number_is_a_level(members: Members, number: JsonNumber)
    requires
        member(members, "level"@) == Some(JsonTree::Number(number)),
        optional_u64(member(members, "time"@)) is Some,
        optional_i32(member(members, "pid"@)) is Some,
        optional_text(member(members, "hostname"@)) is Some,
        optional_text(member(members, "name"@)) is Some,
        optional_data(member(members, "data"@)) is Some,
    ensures
        standard_of(JsonTree::Object(members)) is Some,
        standard_of(JsonTree::Object(members))->0.level == number,
{
}

/// A line that holds a number as `level` and a string as `msg`, and nothing
/// else, is a standard line; both views show a dash and the message, without
/// payload.
pub proof fn law_level_and_message_suffice(number: JsonNumber, message: Seq<char>)
    ensures
        ({
            let tree = JsonTree::Object(
                seq![("level"@, JsonTree::Number(number)), ("msg"@, JsonTree::Text(message))],
            );
            &&& standard_of(tree) is Some
            &&& standard_of(tree)->0.level == number
            &&& compact_of(standard_of(tree)->0).msg == " - "@ + message
            &&& detailed_of(standard_of(tree)->0).msg == " - "@ + message
            &&& compact_of(standard_of(tree)->0).extra is None
            &&& detailed_of(standard_of(tree)->0).extra is None
        }),
{
    reveal_strlit("level");
    reveal_strlit("msg");
    reveal_strlit("time");
    reveal_strlit("pid");
    reveal_strlit("hostname");
    reveal_strlit("name");
    reveal_strlit("data");
    reveal_with_fuel(member_from, 4);
    assert("level"@.len() == 5 && "msg"@.len() == 3 && "time"@.len() == 4 && "name"@.len() == 4
        && "data"@.len() == 4 && "hostname"@.len() == 8);
    assert("pid"@[0] == 'p' && "msg"@[0] == 'm');
}

/// No label occurs twice in the payload of the detailed view.
pub proof fn law_detailed_labels_are_distinct(log: StandardView)
    ensures
        distinct_names(context_of(log)),
{
    reveal_strlit("internalContext");
    reveal_strlit("req");
    reveal_strlit("dataBody");
    assert("internalContext"@.len() == 15 && "req"@.len() == 3 && "dataBody"@.len() == 8);
}

/// Only an object can be a standard line.
pub proof fn law_standard_line_is_an_object(tree: JsonTree)
    requires
        standard_of(tree) is Some,
    ensures
        tree is Object,
{
}

/// Both views start with the same headline and carry the same stamp and no
/// colour of their own; the short view adds the marker for a response body.
pub proof fn law_views_share_the_headline(log: StandardView)
    ensures
        detailed_of(log).msg == headline(log),
        compact_of(log).msg == if body_of(log) is Some {
            headline(log) + " - Responding with"@
        } else {
            headline(log)
        },
        compact_of(log).date == detailed_of(log).date,
        compact_of(log).color_overwrite is None,
        detailed_of(log).color_overwrite is None,
{
}

/// The detailed view has a payload exactly if the line carries an internal
/// context, a request or a response body; the short view exactly if it
/// carries a response body.
pub proof fn law_payload_needs_a_nested_object(log: StandardView)
    ensures
        detailed_of(log).extra is Some <==> (log.data matches Some(data) && (
        data.internal_context is Some || data.req is Some || data.body is Some)),
        compact_of(log).extra is Some <==> (log.data matches Some(data) && data.body is Some),
{
}

} // verus!
