//! Log records and the messages that travel between pipeline stages.

use crate::level::Level;
use vstd::prelude::*;

verus! {

/// One structured log entry.
#[derive(Clone, Debug, PartialEq, Eq)]
pub struct Record {
    pub level: Level,
    pub tag: String,
    pub message: String,
}

/// What a record holds, as mathematical values.
pub struct RecordView {
    pub level: Level,
    pub tag: Seq<char>,
    pub message: Seq<char>,
}

impl View for Record {
    type V = RecordView;

    open spec fn view(&self) -> RecordView {
        RecordView { level: self.level, tag: self.tag@, message: self.message@ }
    }
}

/// What one stage hands to the next.
#[derive(Clone, Debug, PartialEq, Eq)]
pub enum Message {
    /// A log record.
    Record(Record),
    /// Stands in the place of a record that a stage suppressed.
    Drop,
    /// The end of the stream.
    Done,
}

} // verus!
