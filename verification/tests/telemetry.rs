use collector::entity::Entity;
use collector::logger::entity::LogEntity;
use collector::logger::entity::LogError;
use collector::logger::layer::ClickhouseLayer;
use collector::logger::layer::ClickhouseSpan;
use collector::logger::layer::SpanData;
use collector::logger::layer::SpanField;
use collector::logger::layer::SpanValue;
use collector::logger::level_serializer::deserialize;
use collector::logger::level_serializer::level_from;
use collector::logger::level_serializer::serialize;
use collector::logger::level_serializer::Level;
use collector::logger::level_serializer::LevelError;
use collector::logger::visitor::names_module;
use collector::logger::visitor::ClickhouseVisitor;
use std::str::FromStr;

fn scope(fields: &[(&'static str, &str)]) -> SpanData {
    let mut data = SpanData::new();
    for (k, v) in fields {
        data.record_str(k, v);
    }
    data
}

fn message(text: &str) -> ClickhouseVisitor {
    let mut visitor = ClickhouseVisitor::new();
    visitor.record_debug("message", text);
    visitor
}

fn names(data: &SpanData) -> Vec<&'static str> {
    data.fields.iter().map(|f| f.name).collect()
}

#[test]
fn three_nested_scopes_give_all_three_keys() {
    let mut layer = ClickhouseLayer::new();
    layer.on_new_span(1, scope(&[("outer", "o")]));
    layer.on_new_span(2, scope(&[("middle", "m")]));
    layer.on_new_span(3, scope(&[("inner", "i")]));
    let row = layer.on_event_at(&vec![3, 2, 1], message("hello"), Level::Info, 7, 8).unwrap();
    assert_eq!(row.extra_keys, vec!["inner", "middle", "outer"]);
    assert_eq!(row.extra_values, vec!["i", "m", "o"]);
    assert_eq!(row.message, "hello");
    assert_eq!((row.uuid, row.timestamp, row.level), (7, 8, Level::Info));
    assert_eq!(row.user_id, None);
}

#[test]
fn same_key_in_two_scopes_appears_twice() {
    let mut layer = ClickhouseLayer::new();
    layer.on_new_span(1, scope(&[("k", "outer")]));
    layer.on_new_span(2, scope(&[("k", "inner")]));
    let span = layer.inherit(&vec![2, 1]);
    assert_eq!(span.extras.len(), 2);
    assert_eq!((span.extras[0].0, span.extras[0].1.as_str()), ("k", "inner"));
    assert_eq!((span.extras[1].0, span.extras[1].1.as_str()), ("k", "outer"));
}

#[test]
fn closed_and_unknown_scopes_add_nothing() {
    let mut layer = ClickhouseLayer::new();
    layer.on_new_span(1, scope(&[("a", "1")]));
    layer.on_new_span(2, scope(&[("b", "2")]));
    layer.on_close(2);
    layer.on_close(9);
    let span = layer.inherit(&vec![2, 5, 1]);
    assert_eq!(span.extras.len(), 1);
    assert_eq!(span.extras[0].0, "a");
    assert!(layer.inherit(&Vec::new()).extras.is_empty());
}

#[test]
fn scope_that_begins_again_replaces_its_fields() {
    let mut layer = ClickhouseLayer::new();
    layer.on_new_span(1, scope(&[("a", "1")]));
    layer.on_new_span(1, scope(&[("b", "2")]));
    let span = layer.inherit(&vec![1]);
    assert_eq!(span.extras.len(), 1);
    assert_eq!(span.extras[0].0, "b");
}

#[test]
fn actor_is_promoted_and_the_outermost_one_stays() {
    let mut inner = SpanData::new();
    inner.record_u128("user", 11);
    inner.record_u64("n", 5);
    let mut outer = SpanData::new();
    outer.record_u128("user", 22);
    let mut layer = ClickhouseLayer::new();
    layer.on_new_span(1, outer);
    layer.on_new_span(2, inner);
    let span = layer.inherit(&vec![2, 1]);
    assert_eq!(span.user_id, Some(22));
    assert_eq!(span.extras.len(), 1);
    assert_eq!((span.extras[0].0, span.extras[0].1.as_str()), ("n", "5"));
    assert_eq!(layer.inherit(&vec![2]).user_id, Some(11));
}

#[test]
fn values_render_as_std_does() {
    let mut data = SpanData::new();
    data.record_i64("i", -42);
    data.record_u64("u", 42);
    data.record_bool("t", true);
    data.record_bool("f", false);
    data.record_str("s", "text");
    data.record_debug("d", format!("{:?}", "quoted"));
    let mut span = ClickhouseSpan::new();
    span.take_scope(&data);
    let values: Vec<&str> = span.extras.iter().map(|e| e.1.as_str()).collect();
    assert_eq!(values, vec!["-42", "42", "true", "false", "text", "\"quoted\""]);
    let mut span = ClickhouseSpan::default();
    span.take_field(&SpanField { name: "x", value: SpanValue::I64(i64::MIN) });
    assert_eq!(span.extras[0].1, i64::MIN.to_string());
    span.extra("k", "v".to_string());
    assert_eq!(span.extras[1].0, "k");
}

#[test]
fn recording_a_name_again_keeps_its_place() {
    let mut data = scope(&[("a", "1"), ("b", "2"), ("c", "3")]);
    data.record_u64("b", 9);
    assert_eq!(names(&data), vec!["a", "b", "c"]);
    assert!(matches!(data.fields[1].value, SpanValue::U64(9)));
    data.record("d", SpanValue::Bool(true));
    assert_eq!(names(&data), vec!["a", "b", "c", "d"]);
    assert!(SpanData::new().fields.is_empty());
}

#[test]
fn visitor_sorts_fields_into_columns_and_extras() {
    let mut v = ClickhouseVisitor::new();
    assert!(v.extras.is_empty() && v.message.is_none() && v.line.is_none());
    v.record_u64("log.line", 12);
    v.record_u64("count", 3);
    v.record_str("log.file", "src/a.rs");
    let dotted = format!("log.{}", ["module", "path"].join("_"));
    assert!(names_module(&dotted));
    assert!(names_module(&["module", "path"].join("_")));
    assert!(!names_module("module"));
    v.record_str("causes", "why");
    v.record_str("target", "app");
    v.record_str("other", "x");
    v.record_debug("message", "said");
    v.record_debug("thing", "Thing(1)");
    v.record_extra("raw", "r");
    assert_eq!(v.line, Some(12));
    assert_eq!(v.file.as_deref(), Some("src/a.rs"));
    assert_eq!(v.causes.as_deref(), Some("why"));
    assert_eq!(v.target.as_deref(), Some("app"));
    assert_eq!(v.message.as_deref(), Some("said"));
    let extras: Vec<(&str, &str)> = v.extras.iter().map(|e| (e.0, e.1.as_str())).collect();
    assert_eq!(extras, vec![("count", "3"), ("other", "x"), ("thing", "Thing(1)"), ("raw", "r")]);
}

#[test]
fn module_field_goes_to_its_column_under_both_names() {
    let plain: &'static str = Box::leak(["module", "path"].join("_").into_boxed_str());
    let dotted: &'static str = Box::leak(format!("log.{}", plain).into_boxed_str());
    let mut v = ClickhouseVisitor::new();
    v.record_str(plain, "a::b");
    assert_eq!(v.module.as_deref(), Some("a::b"));
    v.record_str(dotted, "c::d");
    assert_eq!(v.module.as_deref(), Some("c::d"));
    assert!(v.extras.is_empty());
}

#[test]
fn row_lists_event_extras_before_inherited_ones() {
    let mut visitor = message("m");
    visitor.record_str("own", "1");
    visitor.record_u64("log.line", 4);
    let mut span = ClickhouseSpan::new();
    span.extra("scope", "2".to_string());
    span.user_id = Some(5);
    let row = LogEntity::try_from_at(visitor, span, Level::Warn, 1, 2).unwrap();
    assert_eq!(row.extra_keys, vec!["own", "scope"]);
    assert_eq!(row.extra_values, vec!["1", "2"]);
    assert_eq!(row.user_id, Some(5));
    assert_eq!(row.line, Some(4));
    assert_eq!(row.level, Level::Warn);
    assert_eq!(LogEntity::table_name(), "logs");
}

#[test]
fn event_without_message_gives_no_row() {
    let mut visitor = ClickhouseVisitor::new();
    visitor.record_str("own", "1");
    assert_eq!(LogEntity::try_from_at(visitor, ClickhouseSpan::new(), Level::Info, 1, 2).err(), Some(LogError::MessageEmpty));
    let layer = ClickhouseLayer::new();
    assert_eq!(layer.on_event(&vec![1], ClickhouseVisitor::new(), Level::Info).err(), Some(LogError::MessageEmpty));
}

#[test]
fn fresh_rows_get_their_own_identifier_and_a_recent_time() {
    let a = LogEntity::try_from((message("a"), ClickhouseSpan::new(), Level::Error)).unwrap();
    let b = ClickhouseLayer::new().on_event(&Vec::new(), message("b"), Level::Trace).unwrap();
    assert_ne!(a.uuid, b.uuid);
    assert!(a.timestamp > 1_600_000_000_000_000_000);
    assert!(b.timestamp >= a.timestamp);
}

#[test]
fn level_text_is_what_tracing_gives() {
    let pairs = [
        (Level::Trace, tracing::Level::TRACE),
        (Level::Debug, tracing::Level::DEBUG),
        (Level::Info, tracing::Level::INFO),
        (Level::Warn, tracing::Level::WARN),
        (Level::Error, tracing::Level::ERROR),
    ];
    for (own, theirs) in pairs {
        assert_eq!(serialize(&own), theirs.as_str());
        assert_eq!(deserialize(theirs.as_str()), Ok(own));
    }
}

#[test]
fn level_is_read_as_tracing_reads_it() {
    assert_eq!(deserialize("info"), Ok(Level::Info));
    assert_eq!(deserialize("WaRn"), Ok(Level::Warn));
    assert_eq!(deserialize("1"), Ok(Level::Error));
    assert_eq!(deserialize("5"), Ok(Level::Trace));
    assert_eq!(deserialize("0"), Err(LevelError));
    assert_eq!(deserialize(""), Err(LevelError));
    assert_eq!(deserialize("loud"), Err(LevelError));
    for s in ["2", "03", "+4", "6", "debug ", "TRACE"] {
        assert_eq!(deserialize(s).is_ok(), tracing::Level::from_str(s).is_ok(), "text {:?}", s);
    }
    assert_eq!(level_from(Some(Level::Debug)), Ok(Level::Debug));
    assert_eq!(level_from(None), Err(LevelError));
}
