//! Log filtering and line formatting, around an explicit logger handle: the
//! caller owns the handle and writes the returned lines to its device.

use vstd::prelude::*;
use crate::options::LogLevel;
use crate::options::level_rank;
use crate::text::concat_str;

verus! {

/// The logger's whole state: how much it reports.
pub struct Logger {
    pub level: LogLevel,
}

impl Logger {
    /// A fresh logger reports at the default level.
    pub fn new() -> (r: Logger)
        ensures
            r.level == LogLevel::Info,
    {
        Logger { level: LogLevel::default() }
    }
}

/// The line written for a message at a level: the debug levels carry their
/// own prefix, every other level writes the message alone.
pub open spec fn log_line(level: LogLevel, message: Seq<char>) -> Seq<char> {
    if level == LogLevel::Debug {
        "debug1: "@ + message
    } else if level == LogLevel::Debug2 {
        "debug2: "@ + message
    } else if level == LogLevel::Debug3 {
        "debug3: "@ + message
    } else {
        message
    }
}

/// The line to write for a message, or nothing when the logger's level is
/// quieter than the message's.
pub fn log(logger: &Logger, level: LogLevel, message: &str) -> (r: Option<String>)
    ensures
        match r {
            Option::Some(line) => level_rank(level) <= level_rank(logger.level) && line@
                == log_line(level, message@),
            Option::None => level_rank(level) > level_rank(logger.level),
        },
{
    if rank_of(level) <= rank_of(logger.level) {
        let line = match level {
            LogLevel::Debug => concat_str("debug1: ", message),
            LogLevel::Debug2 => concat_str("debug2: ", message),
            LogLevel::Debug3 => concat_str("debug3: ", message),
            _ => message.to_owned(),
        };
        Option::Some(line)
    } else {
        Option::None
    }
}

/// The logger's level.
pub fn level(logger: &Logger) -> (r: LogLevel)
    ensures
        r == logger.level,
{
    logger.level
}

/// Sets the logger's level.
pub fn set_level(logger: &mut Logger, level: LogLevel)
    ensures
        final(logger).level == level,
{
    logger.level = level;
}

/// Raises the level one step and reports the new level.
pub fn increase_level(logger: &mut Logger) -> (r: LogLevel)
    ensures
        r == final(logger).level,
        level_rank(final(logger).level) == if level_rank(old(logger).level) < 7 {
            level_rank(old(logger).level) + 1
        } else {
            7int
        },
{
    let level = logger.level.succ();
    logger.level = level;
    level
}

/// Lowers the level one step and reports the new level.
pub fn decrease_level(logger: &mut Logger) -> (r: LogLevel)
    ensures
        r == final(logger).level,
        level_rank(final(logger).level) == if level_rank(old(logger).level) > 0 {
            level_rank(old(logger).level) - 1
        } else {
            0int
        },
{
    let level = logger.level.pred();
    logger.level = level;
    level
}

/// Runtime twin of `level_rank`.
fn rank_of(l: LogLevel) -> (r: u8)
    ensures
        r as int == level_rank(l),
{
    match l {
        LogLevel::Quiet => 0,
        LogLevel::Fatal => 1,
        LogLevel::Error => 2,
        LogLevel::Info => 3,
        LogLevel::Verbose => 4,
        LogLevel::Debug => 5,
        LogLevel::Debug2 => 6,
        LogLevel::Debug3 => 7,
    }
}

} // verus!
