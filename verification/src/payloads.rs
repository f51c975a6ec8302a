//! The log messages that programs send to the viewer, and the statement that stores one.
use vstd::prelude::*;
use crate::sql::{Arg, ArgView, Query, QueryBuilder, opt_text, opt_text_arg, opt_view};

verus! {

/// What a log message carries.
#[derive(Debug, Clone)]
pub enum PayloadData {
    /// A line of text.
    Message(MessagePayload),
    /// A JSON document to show.
    Json(JsonPayload),
    /// The value of a variable.
    Variable(VariablePayload),
    /// A separator between entries.
    Spacer,
}

/// Where a log message was written: file and line.
#[derive(Debug, Clone)]
pub struct SourceData {
    pub file: String,
    pub line: i32,
}

/// A log message as sent by a program.
#[derive(Debug, Clone)]
pub struct Payload {
    /// When it was written, as RFC 3339 text.
    pub date: String,
    pub payload_data: PayloadData,
    pub source: Option<SourceData>,
    pub color: Option<String>,
    pub level: Option<String>,
    /// Further named values.
    pub extras: Option<Vec<(String, String)>>,
}

/// A line of text.
#[derive(Debug, Clone)]
pub struct MessagePayload {
    pub message: String,
}

/// A separator; it carries nothing.
#[derive(Debug, Clone)]
pub struct SpacerPayload {}

/// A JSON document, as JSON text, and whether to show it indented.
#[derive(Debug, Clone)]
pub struct JsonPayload {
    pub data: String,
    pub pretty: bool,
}

/// The value of a variable, as JSON text.
#[derive(Debug, Clone)]
pub struct VariablePayload {
    pub data: String,
}

/// The statement that adds a log entry.
pub open spec fn insert_sql() -> Seq<char> {
    r#"INSERT INTO logs (data, source, level, color) VALUES (?, ?, ?, ?)"#@
}

impl Payload {
    /// The statement that stores this message as a new log entry, given the
    /// JSON text of its data and of its source (`null` when it has none): it
    /// binds the data, the source, the level and the color, in that order,
    /// an absent level or color as `NULL`.
    pub fn insert_query(&self, data_json: String, source_json: String) -> (q: Query)
        ensures
            q@.sql == insert_sql(),
            q@.args == seq![
                ArgView::Json(data_json@),
                ArgView::Json(source_json@),
                opt_text_arg(opt_view(self.level)),
                opt_text_arg(opt_view(self.color)),
            ],
    {
        let q = QueryBuilder::new(r#"INSERT INTO logs (data, source, level, color) VALUES (?, ?, ?, ?)"#).build();
        let q = q.bind(Arg::Json(data_json));
        let q = q.bind(Arg::Json(source_json));
        let q = q.bind(opt_text(self.level.clone()));
        let q = q.bind(opt_text(self.color.clone()));
        proof {
            assert(q@.args =~= seq![
                ArgView::Json(data_json@),
                ArgView::Json(source_json@),
                opt_text_arg(opt_view(self.level)),
                opt_text_arg(opt_view(self.color)),
            ]);
        }
        q
    }
}

} // verus!
