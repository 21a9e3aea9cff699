use vstd::prelude::*;

verus! {

/// The severities of the logging facade that the logger serves, from least
/// to most severe: Trace, Debug, Info, Warn, Error.
#[derive(Clone, Copy, Debug, PartialEq, Eq, Structural)]
pub enum Level {
    Trace,
    Debug,
    Info,
    Warn,
    Error,
}

/// The logger's own severity scale. `Fatal` has no counterpart among the
/// facade's levels and no rendering: what it should become is left open.
#[derive(Clone, Copy, Debug, PartialEq, Eq, Structural)]
pub enum LogLevel {
    Trace,
    Info,
    Warn,
    Error,
    Fatal,
}

/// The facade level that a `LogLevel` stands for; none for `Fatal`.
pub open spec fn facade_level_of(l: LogLevel) -> Option<Level> {
    match l {
        LogLevel::Trace => Some(Level::Trace),
        LogLevel::Info => Some(Level::Info),
        LogLevel::Warn => Some(Level::Warn),
        LogLevel::Error => Some(Level::Error),
        LogLevel::Fatal => None,
    }
}

impl LogLevel {
    /// The facade level for this severity, or `None` for `Fatal`, which the
    /// facade cannot express.
    pub fn facade_level(&self) -> (r: Option<Level>)
        ensures
            r == facade_level_of(*self),
    {
        match self {
            LogLevel::Trace => Some(Level::Trace),
            LogLevel::Info => Some(Level::Info),
            LogLevel::Warn => Some(Level::Warn),
            LogLevel::Error => Some(Level::Error),
            LogLevel::Fatal => None,
        }
    }
}

/// Whether a record of level `l` passes the facade's gate: Info or more severe.
pub open spec fn passes_gate(l: Level) -> bool {
    l is Info || l is Warn || l is Error
}

/// The plain tag of a level, as it is written to files.
pub open spec fn plain_tag(l: Level) -> Seq<char> {
    match l {
        Level::Trace => "Trace"@,
        Level::Debug => "Debug"@,
        Level::Info => "Info"@,
        Level::Warn => "Warn"@,
        Level::Error => "Error"@,
    }
}

/// The plain tag of a level.
pub fn tag_of(l: Level) -> (r: &'static str)
    ensures
        r@ == plain_tag(l),
{
    match l {
        Level::Trace => "Trace",
        Level::Debug => "Debug",
        Level::Info => "Info",
        Level::Warn => "Warn",
        Level::Error => "Error",
    }
}

} // verus!
