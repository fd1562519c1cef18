//! The row of the log table that one event becomes.

use crate::entity::Entity;
use crate::logger::layer::ClickhouseSpan;
use crate::logger::layer::SpanView;
use crate::logger::level_serializer::Level;
use crate::logger::visitor::ClickhouseVisitor;
use crate::logger::visitor::Extra;
use crate::logger::visitor::ExtraView;
use crate::logger::visitor::VisitorView;
use crate::stamp::fresh_token;
use crate::stamp::now_nanos;
use vstd::prelude::*;

verus! {

/// One row of the log table.
#[derive(Debug)]
pub struct LogEntity {
    /// When the event was seen, in nanoseconds since the Unix epoch.
    pub timestamp: i128,
    /// The identifier of the row.
    pub uuid: u128,
    pub level: Level,
    /// The names of the extras: those of the event first, then those of the
    /// scopes around it, innermost scope first.
    pub extra_keys: Vec<String>,
    /// The values of the extras, in the order of `extra_keys`.
    pub extra_values: Vec<String>,
    pub causes: Option<String>,
    pub file: Option<String>,
    pub line: Option<u64>,
    /// The path of the module that the event comes from.
    pub module: Option<String>,
    pub target: Option<String>,
    pub message: String,
    /// The identifier of the actor, where a scope recorded one.
    pub user_id: Option<u128>,
}

/// What a [`LogEntity`] holds.
pub struct LogEntityView {
    pub timestamp: i128,
    pub uuid: u128,
    pub level: Level,
    pub extra_keys: Seq<Seq<char>>,
    pub extra_values: Seq<Seq<char>>,
    pub causes: Option<Seq<char>>,
    pub file: Option<Seq<char>>,
    pub line: Option<u64>,
    pub module: Option<Seq<char>>,
    pub target: Option<Seq<char>>,
    pub message: Seq<char>,
    pub user_id: Option<u128>,
}

impl View for LogEntity {
    type V = LogEntityView;

    open spec fn view(&self) -> LogEntityView {
        LogEntityView {
            timestamp: self.timestamp,
            uuid: self.uuid,
            level: self.level,
            extra_keys: self.extra_keys@.map_values(|s: String| s@),
            extra_values: self.extra_values@.map_values(|s: String| s@),
            causes: crate::logger::visitor::opt_view(self.causes),
            file: crate::logger::visitor::opt_view(self.file),
            line: self.line,
            module: crate::logger::visitor::opt_view(self.module),
            target: crate::logger::visitor::opt_view(self.target),
            message: self.message@,
            user_id: self.user_id,
        }
    }
}

impl Entity for LogEntity {
    fn table_name() -> (name: &'static str)
        ensures
            name@ == "logs"@,
    {
        "logs"
    }
}

/// Why an event gave no row.
#[derive(Clone, Copy, PartialEq, Eq, Structural, Debug)]
pub enum LogError {
    /// The event carried no message.
    MessageEmpty,
}

/// The row that an event of severity `level` becomes when `visitor` holds its
/// own fields and `span` what it inherits: the extras of the event, then those
/// of the scopes, as parallel lists of names and values. An event without a
/// message gives no row.
pub open spec fn log_row(
    visitor: VisitorView,
    span: SpanView,
    level: Level,
    uuid: u128,
    timestamp: i128,
) -> Result<LogEntityView, LogError> {
    match visitor.message {
        None => Err(LogError::MessageEmpty),
        Some(message) => {
            let extras = visitor.extras + span.extras;
            Ok(
                LogEntityView {
                    timestamp,
                    uuid,
                    level,
                    extra_keys: extras.map_values(|e: ExtraView| e.key),
                    extra_values: extras.map_values(|e: ExtraView| e.value),
                    causes: visitor.causes,
                    file: visitor.file,
                    line: visitor.line,
                    module: visitor.module,
                    target: visitor.target,
                    message,
                    user_id: span.user_id,
                },
            )
        },
    }
}

/// The view of the outcome of making a row.
pub open spec fn row_view(r: Result<LogEntity, LogError>) -> Result<LogEntityView, LogError> {
    match r {
        Ok(row) => Ok(row@),
        Err(e) => Err(e),
    }
}

/// Moves the extras `from` to the ends of the lists of names and values.
fn unzip_into(keys: &mut Vec<String>, values: &mut Vec<String>, from: Vec<Extra>)
    ensures
        final(keys)@.map_values(|s: String| s@) == old(keys)@.map_values(|s: String| s@)
            + from@.map_values(|e: Extra| e@).map_values(|e: ExtraView| e.key),
        final(values)@.map_values(|s: String| s@) == old(values)@.map_values(|s: String| s@)
            + from@.map_values(|e: Extra| e@).map_values(|e: ExtraView| e.value),
{
    let ghost all = from@.map_values(|e: Extra| e@);
    let ghost keys0 = keys@.map_values(|s: String| s@);
    let ghost values0 = values@.map_values(|s: String| s@);
    assert(all.take(0).map_values(|e: ExtraView| e.key) =~= Seq::empty());
    assert(all.take(0).map_values(|e: ExtraView| e.value) =~= Seq::empty());
    assert(keys0 + Seq::empty() =~= keys0);
    assert(values0 + Seq::empty() =~= values0);
    for e in it: from
        invariant
            it.seq().map_values(|e: Extra| e@) == all,
            keys@.map_values(|s: String| s@) == keys0 + all.take(it.index() as int).map_values(
                |e: ExtraView| e.key,
            ),
            values@.map_values(|s: String| s@) == values0 + all.take(
                it.index() as int,
            ).map_values(|e: ExtraView| e.value),
    {
        let ghost k = keys@.map_values(|s: String| s@);
        let ghost v = values@.map_values(|s: String| s@);
        let ghost n = it.index() as int;
        assert(all[n] == e@);
        let Extra(key, value) = e;
        keys.push(key.to_owned());
        values.push(value);
        proof {
            assert(keys@.map_values(|s: String| s@) =~= k.push(key@));
            assert(values@.map_values(|s: String| s@) =~= v.push(value@));
            assert(all.take(n + 1).map_values(|e: ExtraView| e.key) =~= all.take(n).map_values(
                |e: ExtraView| e.key,
            ).push(key@));
            assert(all.take(n + 1).map_values(|e: ExtraView| e.value) =~= all.take(n).map_values(
                |e: ExtraView| e.value,
            ).push(value@));
            assert(keys@.map_values(|s: String| s@) =~= keys0 + all.take(n + 1).map_values(
                |e: ExtraView| e.key,
            ));
            assert(values@.map_values(|s: String| s@) =~= values0 + all.take(n + 1).map_values(
                |e: ExtraView| e.value,
            ));
        }
    }
    assert(all.take(all.len() as int) =~= all);
}

impl LogEntity {
    /// Makes the row of an event of severity `level` from its own fields and
    /// what it inherits, under the identifier `uuid` and the time `timestamp`.
    pub fn try_from_at(
        visitor: ClickhouseVisitor,
        span: ClickhouseSpan,
        level: Level,
        uuid: u128,
        timestamp: i128,
    ) -> (r: Result<LogEntity, LogError>)
        ensures
            row_view(r) == log_row(visitor@, span@, level, uuid, timestamp),
    {
        let ClickhouseVisitor { extras, file, line, module, target, message, causes } = visitor;
        let ClickhouseSpan { user_id, extras: inherited } = span;
        let message = match message {
            Some(m) => m,
            None => {
                return Err(LogError::MessageEmpty);
            },
        };
        let mut extra_keys: Vec<String> = Vec::new();
        let mut extra_values: Vec<String> = Vec::new();
        let ghost own = extras@.map_values(|e: Extra| e@);
        let ghost outer = inherited@.map_values(|e: Extra| e@);
        unzip_into(&mut extra_keys, &mut extra_values, extras);
        unzip_into(&mut extra_keys, &mut extra_values, inherited);
        proof {
            let all = own + outer;
            assert(extra_keys@.map_values(|s: String| s@) =~= all.map_values(
                |e: ExtraView| e.key,
            ));
            assert(extra_values@.map_values(|s: String| s@) =~= all.map_values(
                |e: ExtraView| e.value,
            ));
        }
        Ok(
            LogEntity {
                timestamp,
                uuid,
                level,
                extra_keys,
                extra_values,
                causes,
                file,
                line,
                module,
                target,
                message,
                user_id,
            },
        )
    }

    /// Makes the row of an event of severity `level` from its own fields and
    /// what it inherits, under a fresh identifier and the current time.
    pub fn try_from(v: (ClickhouseVisitor, ClickhouseSpan, Level)) -> (r: Result<
        LogEntity,
        LogError,
    >)
        ensures
            exists|uuid: u128, timestamp: i128|
                row_view(r) == log_row(v.0@, v.1@, v.2, uuid, timestamp),
            r is Err <==> v.0@.message is None,
    {
        let (visitor, span, level) = v;
        let uuid = fresh_token();
        let timestamp = now_nanos();
        LogEntity::try_from_at(visitor, span, level, uuid, timestamp)
    }
}

} // verus!
