//! What is read from one log event, field by field.

use crate::text::decimal;
use crate::text::same_text;
use crate::text::u64_text;
use vstd::prelude::*;

verus! {

/// A field of an event or a scope that has no column of its own: its name
/// and its value as text.
#[derive(Debug, Clone)]
pub struct Extra(pub &'static str, pub String);

/// What an [`Extra`] holds.
pub struct ExtraView {
    pub key: Seq<char>,
    pub value: Seq<char>,
}

impl View for Extra {
    type V = ExtraView;

    open spec fn view(&self) -> ExtraView {
        ExtraView { key: self.0@, value: self.1@ }
    }
}

/// The views of a list of extras.
pub open spec fn extras_view(extras: Seq<Extra>) -> Seq<ExtraView> {
    extras.map_values(|e: Extra| e@)
}

/// The view of an optional string.
pub open spec fn opt_view(s: Option<String>) -> Option<Seq<char>> {
    match s {
        Some(t) => Some(t@),
        None => None,
    }
}

/// The fields of one event: those with a column of their own, and the rest
/// in the order in which they were recorded.
#[derive(Debug)]
pub struct ClickhouseVisitor {
    pub extras: Vec<Extra>,
    pub file: Option<String>,
    pub line: Option<u64>,
    /// The path of the module that the event comes from.
    pub module: Option<String>,
    pub target: Option<String>,
    pub message: Option<String>,
    pub causes: Option<String>,
}

/// What a [`ClickhouseVisitor`] holds.
pub struct VisitorView {
    pub extras: Seq<ExtraView>,
    pub file: Option<Seq<char>>,
    pub line: Option<u64>,
    pub module: Option<Seq<char>>,
    pub target: Option<Seq<char>>,
    pub message: Option<Seq<char>>,
    pub causes: Option<Seq<char>>,
}

impl View for ClickhouseVisitor {
    type V = VisitorView;

    open spec fn view(&self) -> VisitorView {
        VisitorView {
            extras: extras_view(self.extras@),
            file: opt_view(self.file),
            line: self.line,
            module: opt_view(self.module),
            target: opt_view(self.target),
            message: opt_view(self.message),
            causes: opt_view(self.causes),
        }
    }
}

/// The visitor after the field `name` with the text `value` went to the
/// extras.
pub open spec fn with_extra(v: VisitorView, name: Seq<char>, value: Seq<char>) -> VisitorView {
    VisitorView { extras: v.extras.push(ExtraView { key: name, value }), ..v }
}

/// The visitor after the unsigned field `name` was recorded: the line of the
/// call site has its own column, any other number goes to the extras in
/// decimal.
pub open spec fn with_u64(v: VisitorView, name: Seq<char>, value: u64) -> VisitorView {
    if name == "log.line"@ {
        VisitorView { line: Some(value), ..v }
    } else {
        with_extra(v, name, decimal(value as nat))
    }
}

/// The visitor after the text field `name` was recorded: file, module path,
/// causes and target have their own columns, any other text goes to the
/// extras.
pub open spec fn with_str(v: VisitorView, name: Seq<char>, value: Seq<char>) -> VisitorView {
    if name == "log.file"@ {
        VisitorView { file: Some(value), ..v }
    } else if name == "log."@ + module_key() || name == module_key() {
        VisitorView { module: Some(value), ..v }
    } else if name == "causes"@ {
        VisitorView { causes: Some(value), ..v }
    } else if name == "target"@ {
        VisitorView { target: Some(value), ..v }
    } else {
        with_extra(v, name, value)
    }
}

/// The visitor after the field `name` was recorded with the debug rendering
/// `value`: the message has its own column, anything else goes to the extras.
pub open spec fn with_debug(v: VisitorView, name: Seq<char>, value: Seq<char>) -> VisitorView {
    if name == "message"@ {
        VisitorView { message: Some(value), ..v }
    } else {
        with_extra(v, name, value)
    }
}

/// The name under which the path of a module is recorded.
pub open spec fn module_key() -> Seq<char> {
    "module_"@ + "path"@
}

/// Whether `name` is one of the two names of the field that holds the path
/// of a module.
pub fn names_module(name: &str) -> (b: bool)
    ensures
        b == (name@ == "log."@ + module_key() || name@ == module_key()),
{
    let mut plain = "module_".to_owned();
    plain.append("path");
    let mut prefixed = "log.".to_owned();
    prefixed.append(plain.as_str());
    same_text(name, prefixed.as_str()) || same_text(name, plain.as_str())
}

impl ClickhouseVisitor {
    /// A visitor that has seen no field.
    pub fn new() -> (v: ClickhouseVisitor)
        ensures
            v@ == (VisitorView {
                extras: Seq::empty(),
                file: None,
                line: None,
                module: None,
                target: None,
                message: None,
                causes: None,
            }),
    {
        let v = ClickhouseVisitor {
            extras: Vec::new(),
            file: None,
            line: None,
            module: None,
            target: None,
            message: None,
            causes: None,
        };
        assert(extras_view(v.extras@) =~= Seq::empty());
        v
    }

    /// Appends the field `name` with the text `v` to the extras.
    pub fn record_extra(&mut self, name: &'static str, v: &str)
        ensures
            final(self)@ == with_extra(old(self)@, name@, v@),
    {
        let ghost before = extras_view(self.extras@);
        self.extras.push(Extra(name, v.to_owned()));
        assert(extras_view(self.extras@) =~= before.push(ExtraView { key: name@, value: v@ }));
    }

    /// Records the unsigned field `name`.
    pub fn record_u64(&mut self, name: &'static str, v: u64)
        ensures
            final(self)@ == with_u64(old(self)@, name@, v),
    {
        if same_text(name, "log.line") {
            self.line = Some(v);
        } else {
            let text = u64_text(v);
            self.record_extra(name, text.as_str());
        }
    }

    /// Records the text field `name`.
    pub fn record_str(&mut self, name: &'static str, v: &str)
        ensures
            final(self)@ == with_str(old(self)@, name@, v@),
    {
        if same_text(name, "log.file") {
            self.file = Some(v.to_owned());
        } else if names_module(name) {
            self.module = Some(v.to_owned());
        } else if same_text(name, "causes") {
            self.causes = Some(v.to_owned());
        } else if same_text(name, "target") {
            self.target = Some(v.to_owned());
        } else {
            self.record_extra(name, v);
        }
    }

    /// Records the field `name`, of which `v` is the debug rendering.
    pub fn record_debug(&mut self, name: &'static str, v: &str)
        ensures
            final(self)@ == with_debug(old(self)@, name@, v@),
    {
        if same_text(name, "message") {
            self.message = Some(v.to_owned());
        } else {
            self.record_extra(name, v);
        }
    }
}

} // verus!
