use vstd::prelude::*;

verus! {

/// Severity of a record, or the threshold below which records are dropped.
///
/// `Disabled` is only meaningful as a threshold: it outranks every real
/// severity, so a logger whose minimum is `Disabled` writes nothing.
#[derive(Clone, Copy, Debug, PartialEq, Eq, Structural)]
pub enum Level {
    Trace,
    Debug,
    Info,
    Warn,
    Error,
    Fatal,
    Disabled,
}

impl Level {
    /// The numeric weight written on the wire.
    pub open spec fn weight(self) -> nat {
        match self {
            Level::Trace => 10,
            Level::Debug => 20,
            Level::Info => 30,
            Level::Warn => 40,
            Level::Error => 50,
            Level::Fatal => 60,
            Level::Disabled => 255,
        }
    }

    /// A level that a record may carry (every level but the sentinel).
    pub open spec fn is_severity(self) -> bool {
        self != Level::Disabled
    }

    pub fn value(&self) -> (r: u8)
        ensures
            r as nat == self.weight(),
    {
        match self {
            Level::Trace => 10,
            Level::Debug => 20,
            Level::Info => 30,
            Level::Warn => 40,
            Level::Error => 50,
            Level::Fatal => 60,
            Level::Disabled => 255,
        }
    }
}

/// The filter rule: a record passes when the threshold does not outrank it.
pub open spec fn enabled(minimum: Level, candidate: Level) -> bool {
    minimum.weight() <= candidate.weight()
}

pub fn is_enabled(minimum: Level, candidate: Level) -> (r: bool)
    ensures
        r == enabled(minimum, candidate),
{
    minimum.value() <= candidate.value()
}

/// Under the sentinel threshold no real severity passes.
pub proof fn lemma_disabled_blocks_all(candidate: Level)
    requires
        candidate.is_severity(),
    ensures
        !enabled(Level::Disabled, candidate),
{
}

} // verus!
