//! Severity of a log record.

use vstd::prelude::*;

verus! {

/// Severity levels, lowest first. `Unset` stands for "no level": it is below
/// every real level, so a threshold of `Unset` lets every record through.
#[derive(Clone, Copy, Debug, PartialEq, Eq, Structural, PartialOrd, Ord, Hash)]
pub enum Level {
    Unset,
    Verbose,
    Debug,
    Info,
    Warn,
    Error,
    Fatal,
}

/// The level that a name stands for. Names are case sensitive: a level is
/// named by its capital initial or by its lower-case word. Every other text,
/// the empty one included, names no level and gives `Level::Unset`.
pub open spec fn level_of_name(name: Seq<char>) -> Level {
    if name == "V"@ || name == "verbose"@ {
        Level::Verbose
    } else if name == "D"@ || name == "debug"@ {
        Level::Debug
    } else if name == "I"@ || name == "info"@ {
        Level::Info
    } else if name == "W"@ || name == "warn"@ {
        Level::Warn
    } else if name == "E"@ || name == "error"@ {
        Level::Error
    } else if name == "F"@ || name == "fatal"@ {
        Level::Fatal
    } else {
        Level::Unset
    }
}

impl Level {
    /// Position of the level in the order: 0 for `Unset`, 6 for `Fatal`.
    pub open spec fn spec_rank(self) -> u8 {
        match self {
            Level::Unset => 0,
            Level::Verbose => 1,
            Level::Debug => 2,
            Level::Info => 3,
            Level::Warn => 4,
            Level::Error => 5,
            Level::Fatal => 6,
        }
    }

    /// `self` is strictly less severe than `other`.
    pub open spec fn spec_below(self, other: Level) -> bool {
        self.spec_rank() < other.spec_rank()
    }

    #[verifier::when_used_as_spec(spec_rank)]
    pub fn rank(self) -> (r: u8)
        ensures
            r == self.spec_rank(),
    {
        match self {
            Level::Unset => 0,
            Level::Verbose => 1,
            Level::Debug => 2,
            Level::Info => 3,
            Level::Warn => 4,
            Level::Error => 5,
            Level::Fatal => 6,
        }
    }

    #[verifier::when_used_as_spec(spec_below)]
    pub fn below(self, other: Level) -> (b: bool)
        ensures
            b == self.spec_below(other),
    {
        self.rank() < other.rank()
    }

    /// Resolves a level name. An unknown or empty name is no error: it gives
    /// `Level::Unset`, the threshold that every record passes.
    pub fn from_name(name: &str) -> (level: Level)
        ensures
            level == level_of_name(name@),
    {
        let text: String = name.to_owned();
        if text == "V".to_owned() || text == "verbose".to_owned() {
            Level::Verbose
        } else if text == "D".to_owned() || text == "debug".to_owned() {
            Level::Debug
        } else if text == "I".to_owned() || text == "info".to_owned() {
            Level::Info
        } else if text == "W".to_owned() || text == "warn".to_owned() {
            Level::Warn
        } else if text == "E".to_owned() || text == "error".to_owned() {
            Level::Error
        } else if text == "F".to_owned() || text == "fatal".to_owned() {
            Level::Fatal
        } else {
            Level::Unset
        }
    }
}

/// What the literals of the name table hold, and so that they differ.
proof fn lemma_name_literals()
    ensures
        "V"@.len() == 1 && "V"@[0] == 'V',
        "D"@.len() == 1 && "D"@[0] == 'D',
        "I"@.len() == 1 && "I"@[0] == 'I',
        "W"@.len() == 1 && "W"@[0] == 'W',
        "E"@.len() == 1 && "E"@[0] == 'E',
        "F"@.len() == 1 && "F"@[0] == 'F',
        "verbose"@.len() == 7 && "verbose"@[0] == 'v',
        "debug"@.len() == 5 && "debug"@[0] == 'd',
        "info"@.len() == 4 && "info"@[0] == 'i',
        "warn"@.len() == 4 && "warn"@[0] == 'w',
        "error"@.len() == 5 && "error"@[0] == 'e',
        "fatal"@.len() == 5 && "fatal"@[0] == 'f',
{
    reveal_strlit("V");
    reveal_strlit("verbose");
    reveal_strlit("D");
    reveal_strlit("debug");
    reveal_strlit("I");
    reveal_strlit("info");
    reveal_strlit("W");
    reveal_strlit("warn");
    reveal_strlit("E");
    reveal_strlit("error");
    reveal_strlit("F");
    reveal_strlit("fatal");
}

/// Each name of the table gives its level, by its initial and by its word.
pub proof fn lemma_named_levels()
    ensures
        level_of_name("V"@) == Level::Verbose && level_of_name("verbose"@) == Level::Verbose,
        level_of_name("D"@) == Level::Debug && level_of_name("debug"@) == Level::Debug,
        level_of_name("I"@) == Level::Info && level_of_name("info"@) == Level::Info,
        level_of_name("W"@) == Level::Warn && level_of_name("warn"@) == Level::Warn,
        level_of_name("E"@) == Level::Error && level_of_name("error"@) == Level::Error,
        level_of_name("F"@) == Level::Fatal && level_of_name("fatal"@) == Level::Fatal,
{
    lemma_name_literals();
}

/// The empty name names no level, and neither does a name that starts with
/// a character that no name of the table starts with.
pub proof fn lemma_unknown_name_is_unset(name: Seq<char>)
    requires
        name.len() == 0 || !(name[0] == 'V' || name[0] == 'D' || name[0] == 'I' || name[0] == 'W'
            || name[0] == 'E' || name[0] == 'F' || name[0] == 'v' || name[0] == 'd' || name[0]
            == 'i' || name[0] == 'w' || name[0] == 'e' || name[0] == 'f'),
    ensures
        level_of_name(name) == Level::Unset,
{
    lemma_name_literals();
}

/// The order of the levels is total: of two levels, one is below the other or
/// they are the same level.
pub proof fn lemma_level_order_total(a: Level, b: Level)
    ensures
        a.spec_below(b) || b.spec_below(a) || a == b,
        !(a.spec_below(b) && b.spec_below(a)),
        !a.spec_below(Level::Unset),
{
}

/// The order of the levels is transitive.
pub proof fn lemma_level_order_transitive(a: Level, b: Level, c: Level)
    requires
        a.spec_below(b),
        b.spec_below(c),
    ensures
        a.spec_below(c),
{
}

} // verus!
