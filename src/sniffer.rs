use opentelemetry_proto::tonic::logs::v1::LogsData;
use opentelemetry_proto::tonic::metrics::v1::MetricsData;
use opentelemetry_proto::tonic::trace::v1::TracesData;
use crate::wire::{framing, framing_of, Framing};
use vstd::prelude::*;

verus! {

#[verifier::external_type_specification]
#[verifier::external_body]
pub struct ExLogsData(LogsData);

#[verifier::external_type_specification]
#[verifier::external_body]
pub struct ExTracesData(TracesData);

#[verifier::external_type_specification]
#[verifier::external_body]
pub struct ExMetricsData(MetricsData);

/// The three OpenTelemetry payload schemas, listed in decode priority order.
#[derive(Clone, Copy, Debug, PartialEq, Eq, Structural)]
pub enum Schema {
    Logs,
    Traces,
    Metrics,
}

/// How one schema fared against a buffer.
#[derive(Clone, Copy, Debug, PartialEq, Eq, Structural)]
pub enum Verdict {
    /// Decoded, and the decoded message has a believable structure.
    Plausible,
    /// Decoded without error, but the structure is not believable for this
    /// schema (no resources, an empty collection, identifiers of the wrong size).
    Implausible,
    /// The protobuf decoder rejected the bytes for this schema.
    Malformed,
}

/// One decode attempt recorded for an unrecognized buffer.
#[derive(Clone, Copy, Debug, PartialEq, Eq, Structural)]
pub struct Attempt {
    pub schema: Schema,
    pub verdict: Verdict,
}

/// The skeleton of a decoded OpenTelemetry message, as plain numbers.
///
/// `scopes_per_resource` holds, for each resource entry, how many scope
/// entries it has; `items_per_scope` holds, for each scope entry in order
/// over all resources, how many items (log records, spans, metrics) it has;
/// `item_keys` holds two lengths for every item in order: for log records
/// and spans the lengths of the trace id and the span id, for metrics the
/// lengths of the name and the unit.
#[derive(Clone, Debug)]
pub struct Layout {
    pub scopes_per_resource: Vec<usize>,
    pub items_per_scope: Vec<usize>,
    pub item_keys: Vec<(usize, usize)>,
}

pub type LayoutView = (Seq<usize>, Seq<usize>, Seq<(usize, usize)>);

impl View for Layout {
    type V = LayoutView;

    open spec fn view(&self) -> LayoutView {
        (self.scopes_per_resource@, self.items_per_scope@, self.item_keys@)
    }
}

/// The layout of `b` decoded as `LogsData`, or `None` where decoding fails.
pub uninterp spec fn logs_layout(b: Seq<u8>) -> Option<LayoutView>;

/// The layout of `b` decoded as `TracesData`, or `None` where decoding fails.
pub uninterp spec fn traces_layout(b: Seq<u8>) -> Option<LayoutView>;

/// The layout of `b` decoded as `MetricsData`, or `None` where decoding fails.
pub uninterp spec fn metrics_layout(b: Seq<u8>) -> Option<LayoutView>;

/// Relies on prost's `Message::decode` for opentelemetry-proto's `LogsData`:
/// decoding depends on the bytes alone; the layout only counts and measures.
#[verifier::external_body]
fn decode_logs(b: &[u8]) -> (r: Option<(LogsData, Layout)>)
    ensures
        r matches Some((_, l)) ==> logs_layout(b@) == Some(l@),
        r is None ==> logs_layout(b@) is None,
{
    let d: LogsData = prost::Message::decode(b).ok()?;
    let scopes = d.resource_logs.iter().flat_map(|r| &r.scope_logs);
    let layout = Layout {
        scopes_per_resource: d.resource_logs.iter().map(|r| r.scope_logs.len()).collect(),
        items_per_scope: scopes.clone().map(|s| s.log_records.len()).collect(),
        item_keys: scopes.flat_map(|s| &s.log_records).map(|x| (x.trace_id.len(), x.span_id.len())).collect(),
    };
    Some((d, layout))
}

/// Relies on prost's `Message::decode` for opentelemetry-proto's `TracesData`:
/// decoding depends on the bytes alone; the layout only counts and measures.
#[verifier::external_body]
fn decode_traces(b: &[u8]) -> (r: Option<(TracesData, Layout)>)
    ensures
        r matches Some((_, l)) ==> traces_layout(b@) == Some(l@),
        r is None ==> traces_layout(b@) is None,
{
    let d: TracesData = prost::Message::decode(b).ok()?;
    let scopes = d.resource_spans.iter().flat_map(|r| &r.scope_spans);
    let layout = Layout {
        scopes_per_resource: d.resource_spans.iter().map(|r| r.scope_spans.len()).collect(),
        items_per_scope: scopes.clone().map(|s| s.spans.len()).collect(),
        item_keys: scopes.flat_map(|s| &s.spans).map(|x| (x.trace_id.len(), x.span_id.len())).collect(),
    };
    Some((d, layout))
}

/// Relies on prost's `Message::decode` for opentelemetry-proto's `MetricsData`:
/// decoding depends on the bytes alone; the layout only counts and measures.
#[verifier::external_body]
fn decode_metrics(b: &[u8]) -> (r: Option<(MetricsData, Layout)>)
    ensures
        r matches Some((_, l)) ==> metrics_layout(b@) == Some(l@),
        r is None ==> metrics_layout(b@) is None,
{
    let d: MetricsData = prost::Message::decode(b).ok()?;
    let scopes = d.resource_metrics.iter().flat_map(|r| &r.scope_metrics);
    let layout = Layout {
        scopes_per_resource: d.resource_metrics.iter().map(|r| r.scope_metrics.len()).collect(),
        items_per_scope: scopes.clone().map(|s| s.metrics.len()).collect(),
        item_keys: scopes.flat_map(|s| &s.metrics).map(|x| (x.name.len(), x.unit.len())).collect(),
    };
    Some((d, layout))
}

/// Trace ids are sixteen bytes and span ids eight; a log record may omit
/// either, a span may not; a metric must be named.
pub open spec fn key_plausible(s: Schema, k: (usize, usize)) -> bool {
    match s {
        Schema::Logs => (k.0 == 0 || k.0 == 16) && (k.1 == 0 || k.1 == 8),
        Schema::Traces => k.0 == 16 && k.1 == 8,
        Schema::Metrics => k.0 > 0,
    }
}

/// Every count in `v` is at least one.
pub open spec fn all_positive(v: Seq<usize>) -> bool {
    forall|i: int| 0 <= i < v.len() ==> v[i] > 0
}

/// A believable message of schema `s`: at least one resource, no empty
/// resource or scope, and every item's identifiers of a believable size.
pub open spec fn plausible(s: Schema, l: LayoutView) -> bool {
    &&& l.0.len() > 0
    &&& all_positive(l.0)
    &&& all_positive(l.1)
    &&& forall|i: int| 0 <= i < l.2.len() ==> key_plausible(s, #[trigger] l.2[i])
}

/// The layout of `b` decoded under schema `s`.
pub open spec fn layout_of(s: Schema, b: Seq<u8>) -> Option<LayoutView> {
    match s {
        Schema::Logs => logs_layout(b),
        Schema::Traces => traces_layout(b),
        Schema::Metrics => metrics_layout(b),
    }
}

/// The verdict of schema `s` on buffer `b`.
pub open spec fn verdict_of(s: Schema, b: Seq<u8>) -> Verdict {
    match layout_of(s, b) {
        None => Verdict::Malformed,
        Some(l) => if plausible(s, l) {
            Verdict::Plausible
        } else {
            Verdict::Implausible
        },
    }
}

/// `b` is a non-empty buffer that decodes as a believable message of `s`.
pub open spec fn valid_under(s: Schema, b: Seq<u8>) -> bool {
    b.len() > 0 && verdict_of(s, b) is Plausible
}

/// Position of a schema in decode priority order.
pub open spec fn rank(s: Schema) -> int {
    match s {
        Schema::Logs => 0,
        Schema::Traces => 1,
        Schema::Metrics => 2,
    }
}

/// The schema a buffer is classified under: the first in priority order
/// under which it is valid, if any.
pub open spec fn classify(b: Seq<u8>) -> Option<Schema> {
    if valid_under(Schema::Logs, b) {
        Some(Schema::Logs)
    } else if valid_under(Schema::Traces, b) {
        Some(Schema::Traces)
    } else if valid_under(Schema::Metrics, b) {
        Some(Schema::Metrics)
    } else {
        None
    }
}

/// The attempts recorded for a buffer that no schema matched.
pub open spec fn attempts_of(b: Seq<u8>) -> Seq<Attempt> {
    if b.len() == 0 {
        seq![]
    } else {
        seq![
            Attempt { schema: Schema::Logs, verdict: verdict_of(Schema::Logs, b) },
            Attempt { schema: Schema::Traces, verdict: verdict_of(Schema::Traces, b) },
            Attempt { schema: Schema::Metrics, verdict: verdict_of(Schema::Metrics, b) },
        ]
    }
}

/// A buffer that no schema matched, kept whole so that an operator can see
/// what an unknown producer sent.
#[derive(Clone, Debug, PartialEq)]
pub struct Unrecognized {
    pub raw: Vec<u8>,
    pub attempts: Vec<Attempt>,
    /// The buffer's top-level fields run past its end: it was cut short,
    /// rather than written in some other format.
    pub truncated: bool,
}

/// What the decoder makes of one buffer.
#[derive(Debug, PartialEq)]
pub enum DecodedRecord {
    Logs(LogsData),
    Traces(TracesData),
    Metrics(MetricsData),
    Unrecognized(Unrecognized),
}

impl DecodedRecord {
    /// The schema that matched, or `None` for an unrecognized buffer.
    pub open spec fn format(&self) -> Option<Schema> {
        match self {
            DecodedRecord::Logs(_) => Some(Schema::Logs),
            DecodedRecord::Traces(_) => Some(Schema::Traces),
            DecodedRecord::Metrics(_) => Some(Schema::Metrics),
            DecodedRecord::Unrecognized(_) => None,
        }
    }

    /// The schema that matched, or `None` for an unrecognized buffer.
    pub fn schema(&self) -> (r: Option<Schema>)
        ensures
            r == self.format(),
    {
        match self {
            DecodedRecord::Logs(_) => Some(Schema::Logs),
            DecodedRecord::Traces(_) => Some(Schema::Traces),
            DecodedRecord::Metrics(_) => Some(Schema::Metrics),
            DecodedRecord::Unrecognized(_) => None,
        }
    }
}

fn positive_counts(v: &Vec<usize>) -> (r: bool)
    ensures
        r == all_positive(v@),
{
    let mut i: usize = 0;
    while i < v.len()
        invariant
            i <= v@.len(),
            forall|j: int| 0 <= j < i ==> v@[j] > 0,
        decreases v@.len() - i,
    {
        if v[i] == 0 {
            return false;
        }
        i += 1;
    }
    true
}

/// Whether one item's identifier lengths are believable under `s`.
pub fn item_plausible(s: Schema, k: (usize, usize)) -> (r: bool)
    ensures
        r == key_plausible(s, k),
{
    match s {
        Schema::Logs => (k.0 == 0 || k.0 == 16) && (k.1 == 0 || k.1 == 8),
        Schema::Traces => k.0 == 16 && k.1 == 8,
        Schema::Metrics => k.0 > 0,
    }
}

/// Whether a decoded layout is a believable message of schema `s`.
pub fn layout_plausible(s: Schema, l: &Layout) -> (r: bool)
    ensures
        r == plausible(s, l@),
{
    if l.scopes_per_resource.len() == 0 || !positive_counts(&l.scopes_per_resource)
        || !positive_counts(&l.items_per_scope) {
        return false;
    }
    let mut i: usize = 0;
    while i < l.item_keys.len()
        invariant
            i <= l.item_keys@.len(),
            forall|j: int| 0 <= j < i ==> key_plausible(s, #[trigger] l.item_keys@[j]),
        decreases l.item_keys@.len() - i,
    {
        if !item_plausible(s, l.item_keys[i]) {
            assert(!key_plausible(s, l@.2[i as int]));
            return false;
        }
        i += 1;
    }
    true
}

/// The verdict for one schema, given what its decoder returned.
pub fn judge(s: Schema, layout: Option<&Layout>) -> (r: Verdict)
    ensures
        r == (match layout {
            None => Verdict::Malformed,
            Some(l) => if plausible(s, l@) {
                Verdict::Plausible
            } else {
                Verdict::Implausible
            },
        }),
{
    match layout {
        None => Verdict::Malformed,
        Some(l) => if layout_plausible(s, l) {
            Verdict::Plausible
        } else {
            Verdict::Implausible
        },
    }
}

/// Classifies `buf` as logs, traces or metrics, trying the schemas in that
/// order and returning the first believable decode; a buffer that none
/// matches comes back whole with the verdict of every schema tried.
/// An empty buffer is unrecognized at once, with no attempt recorded; an
/// unrecognized buffer is flagged when its field framing stops short.
pub fn decode(buf: &[u8]) -> (r: DecodedRecord)
    ensures
        r.format() == classify(buf@),
        r matches DecodedRecord::Unrecognized(u) ==> {
            &&& u.raw@ == buf@
            &&& u.attempts@ == attempts_of(buf@)
            &&& u.truncated == (framing(buf@) == Framing::Truncated)
        },
        buf@.len() == 0 ==> (r matches DecodedRecord::Unrecognized(u) && u.attempts@.len() == 0),
{
    if buf.len() == 0 {
        return DecodedRecord::Unrecognized(Unrecognized { raw: Vec::new(), attempts: Vec::new(), truncated: false });
    }
    let logs = decode_logs(buf);
    let logs_verdict = match &logs {
        Some((_, l)) => judge(Schema::Logs, Some(l)),
        None => judge(Schema::Logs, None),
    };
    if let Some((d, _)) = logs {
        if logs_verdict == Verdict::Plausible {
            return DecodedRecord::Logs(d);
        }
    }
    let traces = decode_traces(buf);
    let traces_verdict = match &traces {
        Some((_, l)) => judge(Schema::Traces, Some(l)),
        None => judge(Schema::Traces, None),
    };
    if let Some((d, _)) = traces {
        if traces_verdict == Verdict::Plausible {
            return DecodedRecord::Traces(d);
        }
    }
    let metrics = decode_metrics(buf);
    let metrics_verdict = match &metrics {
        Some((_, l)) => judge(Schema::Metrics, Some(l)),
        None => judge(Schema::Metrics, None),
    };
    if let Some((d, _)) = metrics {
        if metrics_verdict == Verdict::Plausible {
            return DecodedRecord::Metrics(d);
        }
    }
    let attempts = vec![
        Attempt { schema: Schema::Logs, verdict: logs_verdict },
        Attempt { schema: Schema::Traces, verdict: traces_verdict },
        Attempt { schema: Schema::Metrics, verdict: metrics_verdict },
    ];
    proof {
        assert(attempts@ =~= attempts_of(buf@));
    }
    DecodedRecord::Unrecognized(
        Unrecognized {
            raw: vstd::slice::slice_to_vec(buf),
            attempts: attempts,
            truncated: framing_of(buf) == Framing::Truncated,
        },
    )
}

/// A buffer that is valid under exactly one schema is classified under
/// that schema and no other.
pub proof fn lemma_unique_schema_wins(b: Seq<u8>, s: Schema)
    requires
        valid_under(s, b),
        forall|t: Schema| t != s ==> !valid_under(t, b),
    ensures
        classify(b) == Some(s),
{
    assert(s == Schema::Logs || !valid_under(Schema::Logs, b));
    assert(s == Schema::Traces || !valid_under(Schema::Traces, b));
}

/// A buffer valid under several schemas is classified under the one that
/// comes first in priority order (logs, then traces, then metrics).
pub proof fn lemma_priority_decides(b: Seq<u8>, s: Schema, t: Schema)
    requires
        valid_under(s, b),
        valid_under(t, b),
        s != t,
    ensures
        classify(b) matches Some(c) && valid_under(c, b) && forall|u: Schema|
            valid_under(u, b) ==> rank(c) <= rank(u),
        rank(s) < rank(t) ==> classify(b) != Some(t),
{
}

/// An empty buffer matches no schema and records no attempt.
pub proof fn lemma_empty_is_unrecognized()
    ensures
        classify(Seq::<u8>::empty()) is None,
        attempts_of(Seq::<u8>::empty()).len() == 0,
{
}

} // verus!
