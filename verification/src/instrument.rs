//! Events: what happened, as a counter or histogram with bounded labels, and as a log record
//! with the details beside them.
use vstd::prelude::*;

verus! {

/// The severity of a log record.
#[derive(Clone, Copy, Debug, PartialEq, Eq, Structural)]
pub enum Severity {
    Error,
    Warn,
    Info,
}

/// Whether an event is logged, and how severe it is.
#[derive(Clone, Copy, Debug, PartialEq, Eq, Structural)]
pub enum LogAt {
    Off,
    Level(Severity),
}

/// How something ended.
#[derive(Clone, Copy, Debug, PartialEq, Eq, Structural)]
pub enum Outcome {
    Success,
    Error,
}

/// The label value of an outcome.
pub open spec fn outcome_label(outcome: Outcome) -> Seq<char> {
    match outcome {
        Outcome::Success => "ok"@,
        Outcome::Error => "error"@,
    }
}

impl Outcome {
    /// The label value of the outcome.
    pub fn label_value(self) -> (r: &'static str)
        ensures
            r@ == outcome_label(self),
    {
        match self {
            Outcome::Success => "ok",
            Outcome::Error => "error",
        }
    }

    /// The outcome of a result.
    pub fn from_result(result: &Result<(), String>) -> (r: Self)
        ensures
            r == (if result is Ok {
                Outcome::Success
            } else {
                Outcome::Error
            }),
    {
        match result {
            Ok(()) => Outcome::Success,
            Err(_) => Outcome::Error,
        }
    }
}

/// A span of time.
#[derive(Clone, Copy, Debug, PartialEq, Eq, Structural)]
pub struct Elapsed {
    pub seconds: u64,
    pub nanoseconds: u32,
}

/// How an event moves its metric: it counts by one, or is observed with the time it took.
#[derive(Clone, Copy, Debug, PartialEq, Eq, Structural)]
pub enum MetricKind {
    Counter,
    Histogram { observed: Elapsed },
}

/// A field of a log record's context.
#[derive(Debug, PartialEq, Eq)]
pub enum FieldValue {
    /// A text, as the field's value is shown.
    Text(String),
    /// An integer, as a value.
    Integer(i64),
    /// Another number, as a value, by its text.
    Number(String),
}

/// A field of a log record's context, with texts as characters.
pub enum FieldView {
    Text(Seq<char>),
    Integer(int),
    Number(Seq<char>),
}

impl View for FieldValue {
    type V = FieldView;

    open spec fn view(&self) -> FieldView {
        match *self {
            FieldValue::Text(text) => FieldView::Text(text@),
            FieldValue::Integer(value) => FieldView::Integer(value as int),
            FieldValue::Number(text) => FieldView::Number(text@),
        }
    }
}

/// An event as it is emitted. Labels go to the metric and to the log record, context goes to
/// the log record alone.
#[derive(Debug)]
pub struct EventRecord {
    pub event_name: &'static str,
    pub metric_name: &'static str,
    /// What the metric counts or measures.
    pub description: &'static str,
    pub component: &'static str,
    pub metric: MetricKind,
    pub log_at: LogAt,
    /// The text of the log record, where the event is logged.
    pub message: &'static str,
    pub labels: Vec<(&'static str, &'static str)>,
    pub context: Vec<(&'static str, FieldValue)>,
}

/// An event as it is emitted, with texts as characters.
#[verifier::ext_equal]
pub struct RecordView {
    pub event_name: Seq<char>,
    pub metric_name: Seq<char>,
    pub description: Seq<char>,
    pub component: Seq<char>,
    pub metric: MetricKind,
    pub log_at: LogAt,
    pub message: Seq<char>,
    pub labels: Seq<(Seq<char>, Seq<char>)>,
    pub context: Seq<(Seq<char>, FieldView)>,
}

impl View for EventRecord {
    type V = RecordView;

    open spec fn view(&self) -> RecordView {
        RecordView {
            event_name: self.event_name@,
            metric_name: self.metric_name@,
            description: self.description@,
            component: self.component@,
            metric: self.metric,
            log_at: self.log_at,
            message: self.message@,
            labels: self.labels@.map_values(|label: (&'static str, &'static str)|
                (label.0@, label.1@)),
            context: self.context@.map_values(|field: (&'static str, FieldValue)|
                (field.0@, field.1@)),
        }
    }
}

} // verus!
