//! The filter: a threshold and two pattern lists, fixed when it is built.

use crate::level::{level_of_name, Level};
use crate::pattern::{
    all_compile, any_matches, compiles, passes, rejected, rejected_at, satisfies, sources, texts,
    Pattern, PatternError, PatternErrorView,
};
use crate::record::{Message, Record, RecordView};
use vstd::prelude::*;

verus! {

/// What the filter makes of a record.
#[derive(Clone, Copy, Debug, PartialEq, Eq, Structural)]
pub enum Decision {
    Keep,
    Drop,
}

/// Keeps records that reach a severity threshold and whose message and tag
/// each match one of the patterns configured for them. It is built once and
/// never changes.
pub struct Filter {
    level: Level,
    msg: Vec<Pattern>,
    tag: Vec<Pattern>,
}

/// What a filter holds, as mathematical values: the threshold and the texts
/// of its patterns.
pub struct FilterView {
    pub level: Level,
    pub msg: Seq<Seq<char>>,
    pub tag: Seq<Seq<char>>,
}

impl View for Filter {
    type V = FilterView;

    closed spec fn view(&self) -> FilterView {
        FilterView { level: self.level, msg: sources(self.msg@), tag: sources(self.tag@) }
    }
}

/// The pattern texts that an optional list of strings configures: none where
/// the list is absent.
pub open spec fn configured(raw: Option<Vec<String>>) -> Seq<Seq<char>> {
    match raw {
        Some(list) => texts(list@),
        None => Seq::empty(),
    }
}

impl FilterView {
    /// The record reaches the threshold, and its message and its tag each
    /// satisfy their pattern list.
    pub open spec fn keeps(self, record: RecordView) -> bool {
        &&& !record.level.spec_below(self.level)
        &&& satisfies(self.msg, record.message)
        &&& satisfies(self.tag, record.tag)
    }

    /// The decision on a record.
    pub open spec fn decision(self, record: RecordView) -> Decision {
        if self.keeps(record) {
            Decision::Keep
        } else {
            Decision::Drop
        }
    }

    /// The message that leaves the stage for one that enters it: a record
    /// that is not kept becomes `Message::Drop`, everything else stays.
    pub open spec fn output(self, message: Message) -> Message {
        match message {
            Message::Record(record) => if self.keeps(record@) {
                message
            } else {
                Message::Drop
            },
            _ => message,
        }
    }
}

impl Decision {
    /// The message that leaves the stage once the decision on it is made.
    /// Only a record can be suppressed; a kept one is handed on as it came.
    pub fn apply(self, message: Message) -> (out: Message)
        ensures
            out == if message is Record && self == Decision::Drop {
                Message::Drop
            } else {
                message
            },
    {
        match message {
            Message::Record(record) => match self {
                Decision::Keep => Message::Record(record),
                Decision::Drop => Message::Drop,
            },
            other => other,
        }
    }
}

impl Filter {
    /// Builds the filter from its configuration: the name of the threshold
    /// level, the message patterns and the tag patterns. An unknown or empty
    /// level name gives the lowest threshold. The message patterns are
    /// compiled first, then the tag patterns; the first pattern that does not
    /// compile is reported and no filter is built.
    pub fn new(level: &str, msg: Option<Vec<String>>, tag: Option<Vec<String>>) -> (outcome: Result<
        Filter,
        PatternError,
    >)
        ensures
            match outcome {
                Ok(filter) => {
                    &&& all_compile(configured(msg))
                    &&& all_compile(configured(tag))
                    &&& filter@.level == level_of_name(level@)
                    &&& filter@.msg == configured(msg)
                    &&& filter@.tag == configured(tag)
                },
                Err(error) => if all_compile(configured(msg)) {
                    rejected(configured(tag), error@)
                } else {
                    rejected(configured(msg), error@)
                },
            },
            outcome is Ok <==> all_compile(configured(msg)) && all_compile(configured(tag)),
    {
        let threshold = Level::from_name(level);
        let msg_patterns = match Self::init_filter(msg) {
            Ok(patterns) => patterns,
            Err(error) => {
                proof {
                    lemma_rejected_not_all_compile(configured(msg), error@);
                }
                return Err(error);
            },
        };
        let tag_patterns = match Self::init_filter(tag) {
            Ok(patterns) => patterns,
            Err(error) => {
                proof {
                    lemma_rejected_not_all_compile(configured(tag), error@);
                }
                return Err(error);
            },
        };
        Ok(Filter { level: threshold, msg: msg_patterns, tag: tag_patterns })
    }

    /// Compiles a list of patterns, in order. An absent list gives an empty
    /// result. The first pattern that does not compile ends the work: it is
    /// reported, nothing after it is tried and no partial list is returned.
    pub fn init_filter(i: Option<Vec<String>>) -> (outcome: Result<Vec<Pattern>, PatternError>)
        ensures
            match outcome {
                Ok(patterns) => all_compile(configured(i)) && sources(patterns@) == configured(i),
                Err(error) => rejected(configured(i), error@),
            },
            outcome is Ok <==> all_compile(configured(i)),
            i is None ==> outcome is Ok && outcome->Ok_0@.len() == 0,
    {
        let mut result: Vec<Pattern> = Vec::new();
        let list = match i {
            Some(list) => list,
            None => {
                return Ok(result);
            },
        };
        let ghost raw = texts(list@);
        let mut k: usize = 0;
        while k < list.len()
            invariant
                k <= list.len(),
                raw == texts(list@),
                raw == configured(i),
                result@.len() == k,
                forall|j: int| 0 <= j < k ==> (#[trigger] result@[j])@ == raw[j],
                forall|j: int| 0 <= j < k ==> compiles(#[trigger] raw[j]),
            decreases list.len() - k,
        {
            match Pattern::new(list[k].as_str()) {
                Ok(pattern) => {
                    result.push(pattern);
                },
                Err(error) => {
                    proof {
                        assert forall|j: int| 0 <= j < raw.take(k as int).len() implies compiles(
                            #[trigger] raw.take(k as int)[j],
                        ) by {
                            assert(raw.take(k as int)[j] == raw[j]);
                        }
                        assert(rejected_at(raw, k as int, error@));
                        lemma_rejected_not_all_compile(raw, error@);
                    }
                    return Err(error);
                },
            }
            k += 1;
        }
        assert(sources(result@) =~= raw);
        Ok(result)
    }

    /// Decides on one record. The threshold is checked first, then the
    /// message patterns, then the tag patterns; the first check that fails
    /// drops the record.
    pub fn decide(&self, record: &Record) -> (decision: Decision)
        ensures
            decision == self@.decision(record@),
            record@.level.spec_below(self@.level) ==> decision == Decision::Drop,
            self@.msg.len() > 0 && !any_matches(self@.msg, record@.message)
                ==> decision == Decision::Drop,
            self@.tag.len() > 0 && !any_matches(self@.tag, record@.tag)
                ==> decision == Decision::Drop,
            self@.keeps(record@) ==> decision == Decision::Keep,
    {
        if record.level.below(self.level) {
            return Decision::Drop;
        }
        if !passes(&self.msg, record.message.as_str()) {
            return Decision::Drop;
        }
        if !passes(&self.tag, record.tag.as_str()) {
            return Decision::Drop;
        }
        Decision::Keep
    }

    /// Handles one message of the pipeline. A record that the filter does not
    /// keep is replaced by `Message::Drop`; a record that it keeps, and every
    /// message that is no record, is returned as it came.
    pub fn process(&self, message: Message) -> (out: Message)
        ensures
            out == self@.output(message),
            !(message is Record) ==> out == message,
            message is Record ==> out == (if self@.keeps(message->Record_0@) {
                message
            } else {
                Message::Drop
            }),
    {
        let decision = match &message {
            Message::Record(record) => self.decide(record),
            _ => Decision::Keep,
        };
        decision.apply(message)
    }

    /// The message patterns, in the order in which they were configured.
    pub fn msg(&self) -> (patterns: &Vec<Pattern>)
        ensures
            sources(patterns@) == self@.msg,
    {
        &self.msg
    }

    /// The tag patterns, in the order in which they were configured.
    pub fn tag(&self) -> (patterns: &Vec<Pattern>)
        ensures
            sources(patterns@) == self@.tag,
    {
        &self.tag
    }

    /// The threshold: records below it are dropped.
    pub fn level(&self) -> (level: Level)
        ensures
            level == self@.level,
    {
        self.level
    }
}

/// A list with a rejected pattern is not one whose patterns all compile, and
/// only one error reports it: the one for its first pattern that does not
/// compile.
pub proof fn lemma_rejected_not_all_compile(raw: Seq<Seq<char>>, error: PatternErrorView)
    requires
        rejected(raw, error),
    ensures
        !all_compile(raw),
        forall|other: PatternErrorView| rejected(raw, other) ==> other == error,
{
    let at = choose|at: int| rejected_at(raw, at, error);
    assert(!compiles(raw[at]));
    assert forall|other: PatternErrorView| rejected(raw, other) implies other == error by {
        let at2 = choose|at2: int| rejected_at(raw, at2, other);
        if at < at2 {
            assert(raw.take(at2)[at] == raw[at]);
        } else if at2 < at {
            assert(raw.take(at)[at2] == raw[at2]);
        }
    }
}

/// An empty pattern list is no constraint: every text satisfies it.
pub proof fn lemma_empty_list_satisfied(text: Seq<char>)
    ensures
        satisfies(Seq::empty(), text),
{
}

/// Within a list the patterns combine by "or": a text that one pattern of
/// the list matches satisfies the list.
pub proof fn lemma_one_match_satisfies(patterns: Seq<Seq<char>>, at: int, text: Seq<char>)
    requires
        0 <= at < patterns.len(),
        crate::pattern::pattern_matches(patterns[at], text),
    ensures
        satisfies(patterns, text),
{
}

/// A filter with the lowest threshold and no patterns keeps every record,
/// whatever it holds.
pub proof fn lemma_unconstrained_keeps_all(filter: FilterView, record: RecordView)
    requires
        filter.level == Level::Unset,
        filter.msg.len() == 0,
        filter.tag.len() == 0,
    ensures
        filter.keeps(record),
        filter.decision(record) == Decision::Keep,
{
}

/// A record below the threshold is dropped, whatever its message and tag.
pub proof fn lemma_below_threshold_drops(filter: FilterView, record: RecordView)
    requires
        record.level.spec_below(filter.level),
    ensures
        filter.decision(record) == Decision::Drop,
{
}

/// The decision is "keep" exactly when the record reaches the threshold and
/// each pattern list is empty or has a pattern that matches its field.
pub proof fn lemma_decision_combines(filter: FilterView, record: RecordView)
    ensures
        filter.decision(record) == Decision::Keep <==> {
            &&& !record.level.spec_below(filter.level)
            &&& (filter.msg.len() == 0 || any_matches(filter.msg, record.message))
            &&& (filter.tag.len() == 0 || any_matches(filter.tag, record.tag))
        },
{
}

} // verus!
