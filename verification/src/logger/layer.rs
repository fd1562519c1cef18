//! The scopes that are open, the fields that each recorded when it began,
//! and what an event inherits from the scopes around it.

use crate::logger::entity::log_row;
use crate::logger::entity::row_view;
use crate::logger::entity::LogEntity;
use crate::logger::entity::LogError;
use crate::logger::level_serializer::Level;
use crate::logger::visitor::extras_view;
use crate::logger::visitor::ClickhouseVisitor;
use crate::logger::visitor::Extra;
use crate::logger::visitor::ExtraView;
use crate::text::bool_text;
use crate::text::decimal;
use crate::text::i64_text;
use crate::text::same_text;
use crate::text::signed_decimal;
use crate::text::u64_text;
use dashmap::DashMap;
use vstd::prelude::*;

verus! {

/// The value of a field of a scope.
#[derive(Debug, Clone)]
pub enum SpanValue {
    /// A 128-bit number: the identifier of the actor.
    U128(u128),
    I64(i64),
    U64(u64),
    Bool(bool),
    Str(String),
    /// The debug rendering of any other value.
    Debug(String),
}

/// What a [`SpanValue`] holds.
pub enum SpanValueView {
    U128(u128),
    I64(i64),
    U64(u64),
    Bool(bool),
    Str(Seq<char>),
    Debug(Seq<char>),
}

impl View for SpanValue {
    type V = SpanValueView;

    open spec fn view(&self) -> SpanValueView {
        match self {
            SpanValue::U128(v) => SpanValueView::U128(*v),
            SpanValue::I64(v) => SpanValueView::I64(*v),
            SpanValue::U64(v) => SpanValueView::U64(*v),
            SpanValue::Bool(v) => SpanValueView::Bool(*v),
            SpanValue::Str(v) => SpanValueView::Str(v@),
            SpanValue::Debug(v) => SpanValueView::Debug(v@),
        }
    }
}

/// One field of a scope.
#[derive(Debug, Clone)]
pub struct SpanField {
    pub name: &'static str,
    pub value: SpanValue,
}

/// What a [`SpanField`] holds.
pub struct SpanFieldView {
    pub name: Seq<char>,
    pub value: SpanValueView,
}

impl View for SpanField {
    type V = SpanFieldView;

    open spec fn view(&self) -> SpanFieldView {
        SpanFieldView { name: self.name@, value: self.value@ }
    }
}

/// The fields that a scope recorded when it began. A name that is recorded
/// again keeps its place and takes the new value.
#[derive(Debug, Clone)]
pub struct SpanData {
    pub fields: Vec<SpanField>,
}

impl View for SpanData {
    type V = Seq<SpanFieldView>;

    open spec fn view(&self) -> Seq<SpanFieldView> {
        self.fields@.map_values(|f: SpanField| f@)
    }
}

/// The index of the first field of `fields` named `name`, or `fields.len()`
/// if there is none.
pub open spec fn position(fields: Seq<SpanFieldView>, name: Seq<char>) -> int
    decreases fields.len(),
{
    if fields.len() == 0 || fields[0].name == name {
        0
    } else {
        1 + position(fields.drop_first(), name)
    }
}

/// The fields after `name` was recorded with `value`.
pub open spec fn recorded(fields: Seq<SpanFieldView>, name: Seq<char>, value: SpanValueView) -> Seq<
    SpanFieldView,
> {
    let at = position(fields, name);
    if 0 <= at < fields.len() {
        fields.update(at, SpanFieldView { name, value })
    } else {
        fields.push(SpanFieldView { name, value })
    }
}

/// No name occurs twice.
pub open spec fn distinct_names(fields: Seq<SpanFieldView>) -> bool {
    forall|i: int, j: int|
        0 <= i < j < fields.len() ==> (#[trigger] fields[i]).name != (#[trigger] fields[j]).name
}

/// Where `position` points, the name stands, and nowhere before.
pub proof fn lemma_position(fields: Seq<SpanFieldView>, name: Seq<char>)
    ensures
        0 <= position(fields, name) <= fields.len(),
        position(fields, name) < fields.len() ==> fields[position(fields, name)].name == name,
        forall|i: int| 0 <= i < position(fields, name) ==> (#[trigger] fields[i]).name != name,
    decreases fields.len(),
{
    if fields.len() > 0 && fields[0].name != name {
        let rest = fields.drop_first();
        lemma_position(rest, name);
        assert forall|i: int| 0 <= i < position(fields, name) implies (#[trigger] fields[i]).name
            != name by {
            if i > 0 {
                assert(fields[i] == rest[i - 1]);
            }
        }
    }
}

/// Recording a field keeps the names distinct.
pub proof fn lemma_recorded_distinct(
    fields: Seq<SpanFieldView>,
    name: Seq<char>,
    value: SpanValueView,
)
    requires
        distinct_names(fields),
    ensures
        distinct_names(recorded(fields, name, value)),
{
    lemma_position(fields, name);
    let at = position(fields, name);
    let after = recorded(fields, name, value);
    assert forall|i: int, j: int| 0 <= i < j < after.len() implies (#[trigger] after[i]).name != (
    #[trigger] after[j]).name by {
        if at < fields.len() {
            if i == at {
                assert(fields[at].name != fields[j].name);
            } else if j == at {
                assert(fields[i].name != fields[at].name);
            } else {
                assert(fields[i].name != fields[j].name);
            }
        } else {
            if j == fields.len() {
                assert(fields[i].name != name);
            } else {
                assert(fields[i].name != fields[j].name);
            }
        }
    }
}

impl SpanData {
    /// A scope without fields.
    pub fn new() -> (d: SpanData)
        ensures
            d@ == Seq::<SpanFieldView>::empty(),
    {
        let d = SpanData { fields: Vec::new() };
        assert(d@ =~= Seq::empty());
        d
    }

    /// Records the field `name` with `value`.
    pub fn record(&mut self, name: &'static str, value: SpanValue)
        ensures
            final(self)@ == recorded(old(self)@, name@, value@),
            distinct_names(old(self)@) ==> distinct_names(final(self)@),
    {
        let ghost before = self@;
        proof {
            lemma_position(before, name@);
            if distinct_names(before) {
                lemma_recorded_distinct(before, name@, value@);
            }
        }
        let mut i: usize = 0;
        assert(before.skip(0) =~= before);
        while i < self.fields.len()
            invariant
                i <= self.fields.len(),
                self@ == before,
                before == old(self)@,
                distinct_names(before) ==> distinct_names(recorded(before, name@, value@)),
                position(before, name@) == i + position(before.skip(i as int), name@),
            decreases self.fields.len() - i,
        {
            assert(before.skip(i as int)[0] == self.fields[i as int]@);
            if same_text(self.fields[i].name, name) {
                self.fields[i] = SpanField { name, value };
                assert(self@ =~= before.update(i as int, SpanFieldView { name: name@, value: value@ }));
                return ;
            }
            assert(before.skip(i as int).drop_first() =~= before.skip(i + 1));
            i = i + 1;
        }
        self.fields.push(SpanField { name, value });
        assert(self@ =~= before.push(SpanFieldView { name: name@, value: value@ }));
    }

    /// Records the signed field `name`.
    pub fn record_i64(&mut self, name: &'static str, v: i64)
        ensures
            final(self)@ == recorded(old(self)@, name@, SpanValueView::I64(v)),
    {
        self.record(name, SpanValue::I64(v));
    }

    /// Records the unsigned field `name`.
    pub fn record_u64(&mut self, name: &'static str, v: u64)
        ensures
            final(self)@ == recorded(old(self)@, name@, SpanValueView::U64(v)),
    {
        self.record(name, SpanValue::U64(v));
    }

    /// Records the 128-bit field `name`.
    pub fn record_u128(&mut self, name: &'static str, v: u128)
        ensures
            final(self)@ == recorded(old(self)@, name@, SpanValueView::U128(v)),
    {
        self.record(name, SpanValue::U128(v));
    }

    /// Records the boolean field `name`.
    pub fn record_bool(&mut self, name: &'static str, v: bool)
        ensures
            final(self)@ == recorded(old(self)@, name@, SpanValueView::Bool(v)),
    {
        self.record(name, SpanValue::Bool(v));
    }

    /// Records the text field `name`.
    pub fn record_str(&mut self, name: &'static str, v: &str)
        ensures
            final(self)@ == recorded(old(self)@, name@, SpanValueView::Str(v@)),
    {
        self.record(name, SpanValue::Str(v.to_owned()));
    }

    /// Records the field `name`, of which `v` is the debug rendering.
    pub fn record_debug(&mut self, name: &'static str, v: String)
        ensures
            final(self)@ == recorded(old(self)@, name@, SpanValueView::Debug(v@)),
    {
        self.record(name, SpanValue::Debug(v));
    }
}

/// The text under which the value of a field goes to the extras. The
/// identifier of the actor goes to no extra.
pub open spec fn rendered(v: SpanValueView) -> Option<Seq<char>> {
    match v {
        SpanValueView::U128(_) => None,
        SpanValueView::I64(x) => Some(signed_decimal(x as int)),
        SpanValueView::U64(x) => Some(decimal(x as nat)),
        SpanValueView::Bool(b) => Some(
            if b {
                "true"@
            } else {
                "false"@
            },
        ),
        SpanValueView::Str(t) => Some(t),
        SpanValueView::Debug(t) => Some(t),
    }
}

/// What an event inherits from the scopes around it.
#[derive(Debug)]
pub struct ClickhouseSpan {
    /// The identifier of the actor, where a scope recorded one.
    pub user_id: Option<u128>,
    /// The other fields of the scopes, innermost scope first.
    pub extras: Vec<Extra>,
}

/// What a [`ClickhouseSpan`] holds.
pub struct SpanView {
    pub user_id: Option<u128>,
    pub extras: Seq<ExtraView>,
}

impl View for ClickhouseSpan {
    type V = SpanView;

    open spec fn view(&self) -> SpanView {
        SpanView { user_id: self.user_id, extras: extras_view(self.extras@) }
    }
}

/// `span` after it took the field `f`: a 128-bit value becomes the actor, any
/// other value is appended to the extras.
pub open spec fn with_field(span: SpanView, f: SpanFieldView) -> SpanView {
    match rendered(f.value) {
        Some(text) => SpanView {
            extras: span.extras.push(ExtraView { key: f.name, value: text }),
            ..span
        },
        None => match f.value {
            SpanValueView::U128(v) => SpanView { user_id: Some(v), ..span },
            _ => span,
        },
    }
}

/// `span` after it took the fields `fields`, one after the other.
pub open spec fn with_fields(span: SpanView, fields: Seq<SpanFieldView>) -> SpanView
    decreases fields.len(),
{
    if fields.len() == 0 {
        span
    } else {
        with_field(with_fields(span, fields.drop_last()), fields.last())
    }
}

/// `span` after it took the fields of the scopes `chain`, in that order.
/// A scope that `table` does not hold adds nothing.
pub open spec fn with_scopes(
    span: SpanView,
    table: Map<u64, Seq<SpanFieldView>>,
    chain: Seq<u64>,
) -> SpanView
    decreases chain.len(),
{
    if chain.len() == 0 {
        span
    } else {
        let before = with_scopes(span, table, chain.drop_last());
        if table.contains_key(chain.last()) {
            with_fields(before, table[chain.last()])
        } else {
            before
        }
    }
}

/// The span that has inherited nothing.
pub open spec fn no_span() -> SpanView {
    SpanView { user_id: None, extras: Seq::empty() }
}

impl ClickhouseSpan {
    /// A span that has inherited nothing.
    pub fn new() -> (span: ClickhouseSpan)
        ensures
            span@ == no_span(),
    {
        let span = ClickhouseSpan { user_id: None, extras: Vec::new() };
        assert(extras_view(span.extras@) =~= Seq::empty());
        span
    }

    /// Appends the field `k` with the text `v` to the extras.
    pub fn extra(&mut self, k: &'static str, v: String)
        ensures
            final(self)@ == (SpanView {
                extras: old(self)@.extras.push(ExtraView { key: k@, value: v@ }),
                ..old(self)@
            }),
    {
        let ghost before = extras_view(self.extras@);
        self.extras.push(Extra(k, v));
        assert(extras_view(self.extras@) =~= before.push(ExtraView { key: k@, value: v@ }));
    }

    /// Takes the field `f` of a scope.
    pub fn take_field(&mut self, f: &SpanField)
        ensures
            final(self)@ == with_field(old(self)@, f@),
    {
        match &f.value {
            SpanValue::I64(v) => self.extra(f.name, i64_text(*v)),
            SpanValue::U64(v) => self.extra(f.name, u64_text(*v)),
            SpanValue::Bool(v) => self.extra(f.name, bool_text(*v)),
            SpanValue::Str(v) => self.extra(f.name, v.clone()),
            SpanValue::Debug(v) => self.extra(f.name, v.clone()),
            SpanValue::U128(v) => {
                self.user_id = Some(*v);
            },
        }
    }

    /// Takes the fields of one scope, in their order.
    pub fn take_scope(&mut self, data: &SpanData)
        ensures
            final(self)@ == with_fields(old(self)@, data@),
    {
        let ghost all = data@;
        let mut i: usize = 0;
        assert(all.take(0) =~= Seq::empty());
        while i < data.fields.len()
            invariant
                i <= data.fields.len(),
                all == data@,
                self@ == with_fields(old(self)@, all.take(i as int)),
            decreases data.fields.len() - i,
        {
            proof {
                assert(all.take(i + 1).drop_last() =~= all.take(i as int));
                assert(all.take(i + 1).last() == data.fields[i as int]@);
            }
            self.take_field(&data.fields[i]);
            i = i + 1;
        }
        assert(all.take(data.fields.len() as int) =~= all);
    }
}

impl Default for ClickhouseSpan {
    fn default() -> (span: ClickhouseSpan)
        ensures
            span@ == no_span(),
    {
        ClickhouseSpan::new()
    }
}

/// `dashmap::DashMap`, the concurrent map that holds the open scopes.
#[verifier::external_type_specification]
#[verifier::external_body]
#[verifier::reject_recursive_types(K)]
#[verifier::reject_recursive_types(V)]
#[verifier::reject_recursive_types(S)]
pub struct ExDashMap<K, V, S>(DashMap<K, V, S>);

/// What a map of scopes holds: for each identifier in it, the fields of that
/// scope.
pub uninterp spec fn span_table(spans: DashMap<u64, SpanData>) -> Map<u64, Seq<SpanFieldView>>;

/// The table without scopes.
pub open spec fn no_scopes() -> Map<u64, Seq<SpanFieldView>> {
    Map::empty()
}

/// `DashMap::new`: a map that holds nothing.
#[verifier::external_body]
fn spans_new() -> (spans: DashMap<u64, SpanData>)
    ensures
        span_table(spans) == no_scopes(),
{
    DashMap::new()
}

/// `DashMap::insert`: afterwards `id` maps to `data`, whether or not it was
/// in the map before, and every other entry is as it was. The value that was
/// replaced is dropped.
#[verifier::external_body]
fn spans_insert(spans: &mut DashMap<u64, SpanData>, id: u64, data: SpanData)
    ensures
        span_table(*final(spans)) == span_table(*old(spans)).insert(id, data@),
{
    spans.insert(id, data);
}

/// `DashMap::remove`: afterwards `id` is not in the map, and every other
/// entry is as it was. The entry that was removed is dropped.
#[verifier::external_body]
fn spans_remove(spans: &mut DashMap<u64, SpanData>, id: u64)
    ensures
        span_table(*final(spans)) == span_table(*old(spans)).remove(id),
{
    spans.remove(&id);
}

/// `DashMap::get`, followed by a clone of the value that the guard refers
/// to: the fields of `id` if the map holds it, `None` if not.
#[verifier::external_body]
fn spans_get(spans: &DashMap<u64, SpanData>, id: u64) -> (found: Option<SpanData>)
    ensures
        found is Some <==> span_table(*spans).contains_key(id),
        found matches Some(data) ==> data@ == span_table(*spans)[id],
{
    spans.get(&id).map(|entry| entry.value().clone())
}

/// The scopes that are open, each with the fields that it recorded when it
/// began.
pub struct ClickhouseLayer {
    spans: DashMap<u64, SpanData>,
}

impl View for ClickhouseLayer {
    type V = Map<u64, Seq<SpanFieldView>>;

    closed spec fn view(&self) -> Map<u64, Seq<SpanFieldView>> {
        span_table(self.spans)
    }
}

impl ClickhouseLayer {
    /// A layer without open scopes.
    pub fn new() -> (layer: ClickhouseLayer)
        ensures
            layer@ == no_scopes(),
    {
        ClickhouseLayer { spans: spans_new() }
    }

    /// The scope `id` begins, with the fields `data`.
    pub fn on_new_span(&mut self, id: u64, data: SpanData)
        ensures
            final(self)@ == old(self)@.insert(id, data@),
    {
        spans_insert(&mut self.spans, id, data);
    }

    /// The scope `id` ends.
    pub fn on_close(&mut self, id: u64)
        ensures
            final(self)@ == old(self)@.remove(id),
    {
        spans_remove(&mut self.spans, id);
    }

    /// What an event inherits when the scopes `chain` are around it, the
    /// innermost first: the fields of each scope that is still open, one scope
    /// after the other. Fields of the same name from different scopes all
    /// appear; where several scopes name an actor, the outermost one stays.
    pub fn inherit(&self, chain: &Vec<u64>) -> (span: ClickhouseSpan)
        ensures
            span@ == with_scopes(no_span(), self@, chain@),
    {
        let mut span = ClickhouseSpan::new();
        let mut i: usize = 0;
        assert(chain@.take(0) =~= Seq::empty());
        while i < chain.len()
            invariant
                i <= chain.len(),
                span@ == with_scopes(no_span(), self@, chain@.take(i as int)),
            decreases chain.len() - i,
        {
            proof {
                assert(chain@.take(i + 1).drop_last() =~= chain@.take(i as int));
                assert(chain@.take(i + 1).last() == chain@[i as int]);
            }
            match spans_get(&self.spans, chain[i]) {
                Some(data) => {
                    span.take_scope(&data);
                },
                None => {},
            }
            i = i + 1;
        }
        assert(chain@.take(chain.len() as int) =~= chain@);
        span
    }

    /// The row that an event of severity `level` becomes when `visitor` holds
    /// its own fields and the scopes `chain` are around it, innermost first,
    /// under the identifier `uuid` and the time `timestamp`.
    pub fn on_event_at(
        &self,
        chain: &Vec<u64>,
        visitor: ClickhouseVisitor,
        level: Level,
        uuid: u128,
        timestamp: i128,
    ) -> (r: Result<LogEntity, LogError>)
        ensures
            row_view(r) == log_row(
                visitor@,
                with_scopes(no_span(), self@, chain@),
                level,
                uuid,
                timestamp,
            ),
    {
        let span = self.inherit(chain);
        LogEntity::try_from_at(visitor, span, level, uuid, timestamp)
    }

    /// The row that an event of severity `level` becomes when `visitor` holds
    /// its own fields and the scopes `chain` are around it, innermost first,
    /// under a fresh identifier and the current time. An event without a
    /// message gives no row.
    pub fn on_event(&self, chain: &Vec<u64>, visitor: ClickhouseVisitor, level: Level) -> (r:
        Result<LogEntity, LogError>)
        ensures
            exists|uuid: u128, timestamp: i128|
                row_view(r) == log_row(
                    visitor@,
                    with_scopes(no_span(), self@, chain@),
                    level,
                    uuid,
                    timestamp,
                ),
            r is Err <==> visitor@.message is None,
    {
        let span = self.inherit(chain);
        LogEntity::try_from((visitor, span, level))
    }
}

/// The extra that the field `f` becomes, where it becomes one.
pub open spec fn extra_of(f: SpanFieldView) -> ExtraView {
    ExtraView { key: f.name, value: rendered(f.value)->0 }
}

/// Taking fields only appends to the extras.
pub proof fn lemma_fields_extend(span: SpanView, fields: Seq<SpanFieldView>)
    ensures
        span.extras.is_prefix_of(with_fields(span, fields).extras),
    decreases fields.len(),
{
    if fields.len() > 0 {
        lemma_fields_extend(span, fields.drop_last());
    }
}

/// Taking scopes only appends to the extras.
pub proof fn lemma_scopes_extend(
    span: SpanView,
    table: Map<u64, Seq<SpanFieldView>>,
    chain: Seq<u64>,
)
    ensures
        span.extras.is_prefix_of(with_scopes(span, table, chain).extras),
    decreases chain.len(),
{
    if chain.len() > 0 {
        lemma_scopes_extend(span, table, chain.drop_last());
        if table.contains_key(chain.last()) {
            lemma_fields_extend(with_scopes(span, table, chain.drop_last()), table[chain.last()]);
        }
    }
}

/// What stands in a prefix stands in the whole.
pub proof fn lemma_prefix_contains(a: Seq<ExtraView>, b: Seq<ExtraView>, x: ExtraView)
    requires
        a.is_prefix_of(b),
        a.contains(x),
    ensures
        b.contains(x),
{
    let i = choose|i: int| 0 <= i < a.len() && a[i] == x;
    assert(b[i] == x);
}

/// Each field of a scope that is no actor identifier stands among the extras
/// once the scope was taken.
pub proof fn lemma_fields_contain(span: SpanView, fields: Seq<SpanFieldView>, j: int)
    requires
        0 <= j < fields.len(),
        rendered(fields[j].value) is Some,
    ensures
        with_fields(span, fields).extras.contains(extra_of(fields[j])),
    decreases fields.len(),
{
    let front = with_fields(span, fields.drop_last());
    let all = with_fields(span, fields);
    if j == fields.len() - 1 {
        assert(all.extras[front.extras.len() as int] == extra_of(fields[j]));
    } else {
        lemma_fields_contain(span, fields.drop_last(), j);
        assert(front.extras.is_prefix_of(all.extras));
        lemma_prefix_contains(front.extras, all.extras, extra_of(fields[j]));
    }
}

/// An event inherits every key of every scope around it: whatever the chain
/// of scopes, each scope of it that is still open contributes each of its
/// fields (other than an actor identifier) to the extras of the event, under
/// its own name, even where another scope has a field of the same name.
pub proof fn lemma_inherits_every_key(
    table: Map<u64, Seq<SpanFieldView>>,
    chain: Seq<u64>,
    i: int,
    j: int,
)
    requires
        0 <= i < chain.len(),
        table.contains_key(chain[i]),
        0 <= j < table[chain[i]].len(),
        rendered(table[chain[i]][j].value) is Some,
    ensures
        with_scopes(no_span(), table, chain).extras.contains(extra_of(table[chain[i]][j])),
    decreases chain.len(),
{
    let front = with_scopes(no_span(), table, chain.drop_last());
    let all = with_scopes(no_span(), table, chain);
    if i == chain.len() - 1 {
        lemma_fields_contain(front, table[chain[i]], j);
    } else {
        lemma_inherits_every_key(table, chain.drop_last(), i, j);
        if table.contains_key(chain.last()) {
            lemma_fields_extend(front, table[chain.last()]);
        }
        lemma_prefix_contains(front.extras, all.extras, extra_of(table[chain[i]][j]));
    }
}

} // verus!
