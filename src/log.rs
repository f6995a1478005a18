use vstd::prelude::*;

verus! {

/// `AV_LOG_QUIET`: print nothing.
pub const AV_LOG_QUIET: i32 = -8;
/// `AV_LOG_PANIC`: something went wrong and the process will crash.
pub const AV_LOG_PANIC: i32 = 0;
/// `AV_LOG_FATAL`: something went wrong and recovery is not possible.
pub const AV_LOG_FATAL: i32 = 8;
/// `AV_LOG_ERROR`: something went wrong and cannot losslessly be recovered.
pub const AV_LOG_ERROR: i32 = 16;
/// `AV_LOG_WARNING`: something looks wrong.
pub const AV_LOG_WARNING: i32 = 24;
/// `AV_LOG_INFO`: standard information.
pub const AV_LOG_INFO: i32 = 32;
/// `AV_LOG_VERBOSE`: detailed information.
pub const AV_LOG_VERBOSE: i32 = 40;
/// `AV_LOG_DEBUG`: only useful to developers.
pub const AV_LOG_DEBUG: i32 = 48;
/// `AV_LOG_TRACE`: extremely verbose debugging.
pub const AV_LOG_TRACE: i32 = 56;

/// Severity of a log record, from the most severe to the most verbose.
#[derive(Clone, Copy, Debug, PartialEq, Eq, Structural)]
pub enum Level {
    Error,
    Warn,
    Info,
    Debug,
    Trace,
}

/// A severity threshold: `Off` lets nothing through, each other value lets
/// through its own level and every more severe one.
#[derive(Clone, Copy, Debug, PartialEq, Eq, Structural)]
pub enum LevelFilter {
    Off,
    Error,
    Warn,
    Info,
    Debug,
    Trace,
}

pub open spec fn level_rank(level: Level) -> nat {
    match level {
        Level::Error => 1,
        Level::Warn => 2,
        Level::Info => 3,
        Level::Debug => 4,
        Level::Trace => 5,
    }
}

pub open spec fn filter_rank(filter: LevelFilter) -> nat {
    match filter {
        LevelFilter::Off => 0,
        LevelFilter::Error => 1,
        LevelFilter::Warn => 2,
        LevelFilter::Info => 3,
        LevelFilter::Debug => 4,
        LevelFilter::Trace => 5,
    }
}

/// Whether `threshold` lets a record at `level` through.
pub open spec fn allows(threshold: LevelFilter, level: Level) -> bool {
    level_rank(level) <= filter_rank(threshold)
}

/// The level that a native severity code is reported at, or `Off` for a code
/// that has none.
pub open spec fn filter_of_native(code: i32) -> LevelFilter {
    if code == AV_LOG_PANIC || code == AV_LOG_FATAL || code == AV_LOG_ERROR {
        LevelFilter::Error
    } else if code == AV_LOG_WARNING {
        LevelFilter::Warn
    } else if code == AV_LOG_INFO {
        LevelFilter::Info
    } else if code == AV_LOG_VERBOSE || code == AV_LOG_DEBUG {
        LevelFilter::Debug
    } else if code == AV_LOG_TRACE {
        LevelFilter::Trace
    } else {
        LevelFilter::Off
    }
}

/// The level of a filter, `None` for `Off`.
pub open spec fn level_of_filter(filter: LevelFilter) -> Option<Level> {
    match filter {
        LevelFilter::Off => None,
        LevelFilter::Error => Some(Level::Error),
        LevelFilter::Warn => Some(Level::Warn),
        LevelFilter::Info => Some(Level::Info),
        LevelFilter::Debug => Some(Level::Debug),
        LevelFilter::Trace => Some(Level::Trace),
    }
}

/// The level at which a native message is recorded under `threshold`, or
/// `None` when it is dropped.
pub open spec fn passes(threshold: LevelFilter, native: i32) -> Option<Level> {
    match level_of_filter(filter_of_native(native)) {
        Some(level) => if allows(threshold, level) {
            Some(level)
        } else {
            None
        },
        None => None,
    }
}

/// The native threshold that stands for a host level.
pub open spec fn native_of_level(level: Level) -> i32 {
    match level {
        Level::Error => AV_LOG_ERROR,
        Level::Warn => AV_LOG_WARNING,
        Level::Info => AV_LOG_INFO,
        Level::Debug => AV_LOG_DEBUG,
        Level::Trace => AV_LOG_TRACE,
    }
}

/// The native threshold that stands for a host filter: `Off` is the native
/// library's quietest setting.
pub open spec fn native_of_filter(filter: LevelFilter) -> i32 {
    match level_of_filter(filter) {
        Some(level) => native_of_level(level),
        None => AV_LOG_QUIET,
    }
}

impl Level {
    /// The native threshold to install for this level.
    pub fn to_native(self) -> (r: i32)
        ensures
            r == native_of_level(self),
    {
        match self {
            Level::Error => AV_LOG_ERROR,
            Level::Warn => AV_LOG_WARNING,
            Level::Info => AV_LOG_INFO,
            Level::Debug => AV_LOG_DEBUG,
            Level::Trace => AV_LOG_TRACE,
        }
    }

    fn rank(self) -> (r: u8)
        ensures
            r as nat == level_rank(self),
    {
        match self {
            Level::Error => 1,
            Level::Warn => 2,
            Level::Info => 3,
            Level::Debug => 4,
            Level::Trace => 5,
        }
    }
}

impl LevelFilter {
    /// The filter at which a native severity code is reported.
    pub fn from_native(code: i32) -> (r: LevelFilter)
        ensures
            r == filter_of_native(code),
    {
        if code == AV_LOG_PANIC || code == AV_LOG_FATAL || code == AV_LOG_ERROR {
            LevelFilter::Error
        } else if code == AV_LOG_WARNING {
            LevelFilter::Warn
        } else if code == AV_LOG_INFO {
            LevelFilter::Info
        } else if code == AV_LOG_VERBOSE || code == AV_LOG_DEBUG {
            LevelFilter::Debug
        } else if code == AV_LOG_TRACE {
            LevelFilter::Trace
        } else {
            LevelFilter::Off
        }
    }

    /// The level of this filter, `None` for `Off`.
    pub fn to_level(self) -> (r: Option<Level>)
        ensures
            r == level_of_filter(self),
    {
        match self {
            LevelFilter::Off => None,
            LevelFilter::Error => Some(Level::Error),
            LevelFilter::Warn => Some(Level::Warn),
            LevelFilter::Info => Some(Level::Info),
            LevelFilter::Debug => Some(Level::Debug),
            LevelFilter::Trace => Some(Level::Trace),
        }
    }

    /// Whether this threshold lets a record at `level` through.
    pub fn allows(self, level: Level) -> (r: bool)
        ensures
            r == allows(self, level),
    {
        let rank: u8 = match self {
            LevelFilter::Off => 0,
            LevelFilter::Error => 1,
            LevelFilter::Warn => 2,
            LevelFilter::Info => 3,
            LevelFilter::Debug => 4,
            LevelFilter::Trace => 5,
        };
        level.rank() <= rank
    }

    /// The native threshold that a registration installs when the host's
    /// maximum level is this filter; `Off` installs the quietest setting.
    pub fn to_native(self) -> (r: i32)
        ensures
            r == native_of_filter(self),
    {
        match self.to_level() {
            Some(level) => level.to_native(),
            None => AV_LOG_QUIET,
        }
    }
}

/// The level at which a native message is recorded under `threshold`, or
/// `None` when it is dropped: its code has no level, or the level is more
/// verbose than the threshold.
pub fn pass_level(threshold: LevelFilter, native: i32) -> (r: Option<Level>)
    ensures
        r == passes(threshold, native),
{
    match LevelFilter::from_native(native).to_level() {
        Some(level) => if threshold.allows(level) {
            Some(level)
        } else {
            None
        },
        None => None,
    }
}

} // verus!
