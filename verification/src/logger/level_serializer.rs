//! The severity of an event, and the text under which it is stored.

use std::str::FromStr;
use vstd::prelude::*;

verus! {

/// The severity of an event, least severe first.
#[derive(Clone, Copy, PartialEq, Eq, Structural, Debug)]
pub enum Level {
    Trace,
    Debug,
    Info,
    Warn,
    Error,
}

/// The text could not be read as a severity.
#[derive(Clone, Copy, PartialEq, Eq, Structural, Debug)]
pub struct LevelError;

/// The severity that `tracing` reads from the text `s`, `None` where it
/// reads none.
pub uninterp spec fn level_named(s: Seq<char>) -> Option<Level>;

/// The text under which `level` is stored.
pub open spec fn level_text(level: Level) -> Seq<char> {
    match level {
        Level::Trace => "TRACE"@,
        Level::Debug => "DEBUG"@,
        Level::Info => "INFO"@,
        Level::Warn => "WARN"@,
        Level::Error => "ERROR"@,
    }
}

/// `FromStr` of `tracing::Level`, its five constants told apart. A text that
/// it refuses gives `None`.
#[verifier::external_body]
fn parse_level(s: &str) -> (found: Option<Level>)
    ensures
        found == level_named(s@),
{
    match tracing::Level::from_str(s) {
        Ok(tracing::Level::TRACE) => Some(Level::Trace),
        Ok(tracing::Level::DEBUG) => Some(Level::Debug),
        Ok(tracing::Level::INFO) => Some(Level::Info),
        Ok(tracing::Level::WARN) => Some(Level::Warn),
        Ok(tracing::Level::ERROR) => Some(Level::Error),
        Err(_) => None,
    }
}

/// The text under which `level` is stored.
pub fn serialize(level: &Level) -> (text: &'static str)
    ensures
        text@ == level_text(*level),
{
    match level {
        Level::Trace => "TRACE",
        Level::Debug => "DEBUG",
        Level::Info => "INFO",
        Level::Warn => "WARN",
        Level::Error => "ERROR",
    }
}

/// The result of reading a severity, given what `tracing` made of the text.
pub fn level_from(found: Option<Level>) -> (r: Result<Level, LevelError>)
    ensures
        r == match found {
            Some(level) => Ok::<Level, LevelError>(level),
            None => Err::<Level, LevelError>(LevelError),
        },
{
    match found {
        Some(level) => Ok(level),
        None => Err(LevelError),
    }
}

/// Reads a severity from the text under which one is stored.
pub fn deserialize(s: &str) -> (r: Result<Level, LevelError>)
    ensures
        r == match level_named(s@) {
            Some(level) => Ok::<Level, LevelError>(level),
            None => Err::<Level, LevelError>(LevelError),
        },
{
    level_from(parse_level(s))
}

} // verus!
