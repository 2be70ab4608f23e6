use opentelemetry_proto::tonic::logs::v1::{LogRecord, LogsData, ResourceLogs, ScopeLogs};
use opentelemetry_proto::tonic::metrics::v1::{Metric, MetricsData, ResourceMetrics, ScopeMetrics};
use opentelemetry_proto::tonic::trace::v1::{ResourceSpans, ScopeSpans, Span, TracesData};
use otel_ws_gateway::{
    compress, decode, decompress, drive, item_plausible, judge, layout_plausible, Action,
    Attempt, DecodedRecord, Frame, Layout, Schema, Session, SessionState, Verdict,
};
use prost::Message;

fn sample_logs() -> LogsData {
    let record = LogRecord {
        time_unix_nano: 1_700_000_000_000_000_000,
        severity_text: "INFO".to_string(),
        trace_id: vec![7; 16],
        span_id: vec![9; 8],
        ..Default::default()
    };
    LogsData {
        resource_logs: vec![ResourceLogs {
            scope_logs: vec![ScopeLogs { log_records: vec![record], ..Default::default() }],
            ..Default::default()
        }],
    }
}

fn sample_traces(trace_id: Vec<u8>, span_id: Vec<u8>) -> TracesData {
    let span = Span { trace_id, span_id, ..Default::default() };
    TracesData {
        resource_spans: vec![ResourceSpans {
            scope_spans: vec![ScopeSpans { spans: vec![span], ..Default::default() }],
            ..Default::default()
        }],
    }
}

fn sample_metrics() -> MetricsData {
    let metric = Metric { name: "cpu.usage".to_string(), unit: "1".to_string(), ..Default::default() };
    MetricsData {
        resource_metrics: vec![ResourceMetrics {
            scope_metrics: vec![ScopeMetrics { metrics: vec![metric], ..Default::default() }],
            ..Default::default()
        }],
    }
}

const NOISE: [u8; 10] = [0xde, 0xad, 0xbe, 0xef, 0x01, 0x02, 0x03, 0x04, 0x05, 0x06];

#[test]
fn gzip_round_trip_restores_input() {
    for input in [Vec::new(), b"hello telemetry".to_vec(), vec![0u8; 4096]] {
        let packed = compress(&input).unwrap();
        assert_eq!(decompress(&packed), input);
    }
}

#[test]
fn compressed_stream_differs_from_input() {
    let input = b"abcabcabcabcabcabc".to_vec();
    let packed = compress(&input).unwrap();
    assert_ne!(packed, input);
    assert_eq!(&packed[..2], &[0x1f, 0x8b]);
}

#[test]
fn non_gzip_passes_through_unchanged() {
    for input in [Vec::new(), vec![1, 2, 3], NOISE.to_vec(), vec![0x1f, 0x8b, 0, 0]] {
        assert_eq!(decompress(&input), input);
        assert_eq!(decompress(&decompress(&input)), input);
    }
}

#[test]
fn logs_decode_as_logs() {
    let logs = sample_logs();
    assert_eq!(decode(&logs.encode_to_vec()), DecodedRecord::Logs(logs));
}

#[test]
fn traces_decode_as_traces() {
    let traces = sample_traces(vec![1; 16], vec![2; 8]);
    assert_eq!(decode(&traces.encode_to_vec()), DecodedRecord::Traces(traces));
}

#[test]
fn metrics_decode_as_metrics() {
    let metrics = sample_metrics();
    assert_eq!(decode(&metrics.encode_to_vec()), DecodedRecord::Metrics(metrics));
}

#[test]
fn ambiguous_buffer_takes_earliest_schema() {
    let traces = sample_traces(b"abcdefghijklmnop".to_vec(), b"ABCDEFGH".to_vec());
    let bytes = traces.encode_to_vec();
    let as_metrics = MetricsData::decode(bytes.as_slice()).unwrap();
    assert_eq!(as_metrics.resource_metrics[0].scope_metrics[0].metrics[0].name, "abcdefghijklmnop");
    for _ in 0..3 {
        assert_eq!(decode(&bytes), DecodedRecord::Traces(traces.clone()));
    }
}

#[test]
fn span_with_bad_ids_is_unrecognized() {
    let bytes = sample_traces(vec![0xff; 3], vec![0xfe; 8]).encode_to_vec();
    match decode(&bytes) {
        DecodedRecord::Unrecognized(u) => {
            assert_eq!(u.raw, bytes);
            assert_eq!(
                u.attempts,
                vec![
                    Attempt { schema: Schema::Logs, verdict: Verdict::Malformed },
                    Attempt { schema: Schema::Traces, verdict: Verdict::Implausible },
                    Attempt { schema: Schema::Metrics, verdict: Verdict::Malformed },
                ]
            );
        }
        other => panic!("unexpected {:?}", other),
    }
}

#[test]
fn empty_buffer_has_no_attempts() {
    match decode(&[]) {
        DecodedRecord::Unrecognized(u) => {
            assert!(u.raw.is_empty());
            assert!(u.attempts.is_empty());
        }
        other => panic!("unexpected {:?}", other),
    }
}

#[test]
fn empty_message_is_implausible_everywhere() {
    let bytes = LogsData { resource_logs: vec![ResourceLogs::default()] }.encode_to_vec();
    match decode(&bytes) {
        DecodedRecord::Unrecognized(u) => {
            assert!(u.attempts.iter().all(|a| a.verdict == Verdict::Implausible));
        }
        other => panic!("unexpected {:?}", other),
    }
}

#[test]
fn layout_checks() {
    let good = Layout { scopes_per_resource: vec![1, 2], items_per_scope: vec![1, 1, 3], item_keys: vec![(16, 8); 5] };
    assert!(layout_plausible(Schema::Traces, &good));
    assert!(layout_plausible(Schema::Logs, &good));
    let no_resource = Layout { scopes_per_resource: vec![], items_per_scope: vec![], item_keys: vec![] };
    assert!(!layout_plausible(Schema::Logs, &no_resource));
    let empty_scope = Layout { scopes_per_resource: vec![1], items_per_scope: vec![0], item_keys: vec![] };
    assert!(!layout_plausible(Schema::Metrics, &empty_scope));
    let empty_resource = Layout { scopes_per_resource: vec![0], items_per_scope: vec![], item_keys: vec![] };
    assert!(!layout_plausible(Schema::Metrics, &empty_resource));
    assert!(item_plausible(Schema::Logs, (0, 0)));
    assert!(!item_plausible(Schema::Logs, (15, 8)));
    assert!(!item_plausible(Schema::Traces, (16, 0)));
    assert!(item_plausible(Schema::Metrics, (3, 0)));
    assert!(!item_plausible(Schema::Metrics, (0, 5)));
    assert_eq!(judge(Schema::Logs, None), Verdict::Malformed);
    assert_eq!(judge(Schema::Traces, Some(&good)), Verdict::Plausible);
    assert_eq!(judge(Schema::Traces, Some(&empty_scope)), Verdict::Implausible);
}

#[test]
fn gzip_logs_frame_publishes_logs_record() {
    let logs = sample_logs();
    let mut session = Session::new(1);
    let frame = Frame::Binary(compress(&logs.encode_to_vec()).unwrap());
    match session.handle(&frame) {
        Action::Publish(DecodedRecord::Logs(d)) => {
            assert_eq!(d.resource_logs[0].scope_logs[0].log_records.len(), 1);
            assert_eq!(d.resource_logs[0].scope_logs[0].log_records[0].severity_text, "INFO");
            assert_eq!(d, logs);
        }
        other => panic!("unexpected {:?}", other),
    }
    assert_eq!(session.state, SessionState::Open);
}

#[test]
fn raw_metrics_frame_publishes_metrics_record() {
    let metrics = sample_metrics();
    let mut session = Session::new(2);
    let action = session.handle(&Frame::Binary(metrics.encode_to_vec()));
    assert_eq!(action, Action::Publish(DecodedRecord::Metrics(metrics)));
    assert!(session.is_open());
}

#[test]
fn noise_frame_publishes_unrecognized_and_stays_open() {
    let mut session = Session::new(3);
    match session.handle(&Frame::Binary(NOISE.to_vec())) {
        Action::Publish(DecodedRecord::Unrecognized(u)) => assert_eq!(u.raw, NOISE.to_vec()),
        other => panic!("unexpected {:?}", other),
    }
    assert!(session.is_open());
    let next = session.handle(&Frame::Binary(sample_metrics().encode_to_vec()));
    assert!(matches!(next, Action::Publish(DecodedRecord::Metrics(_))));
}

#[test]
fn text_frame_is_a_diagnostic() {
    let mut session = Session::new(4);
    assert_eq!(session.handle(&Frame::Text("hi".to_string())), Action::Diagnostic("hi".to_string()));
    assert!(session.is_open());
}

#[test]
fn ending_frames_close_the_session() {
    for frame in [Frame::Close, Frame::Ping(vec![1]), Frame::Pong(vec![]), Frame::ReadError] {
        let mut session = Session::new(5);
        assert_eq!(session.handle(&frame), Action::Close);
        assert_eq!(session.state, SessionState::Closing);
        assert_eq!(session.handle(&Frame::Binary(sample_metrics().encode_to_vec())), Action::Ignore);
        session.finish();
        assert_eq!(session.state, SessionState::Closed);
        assert_eq!(session.id, 5);
    }
}

#[test]
fn records_follow_receipt_order() {
    let frames = vec![
        Frame::Binary(sample_logs().encode_to_vec()),
        Frame::Text("note".to_string()),
        Frame::Binary(NOISE.to_vec()),
        Frame::Binary(compress(&sample_metrics().encode_to_vec()).unwrap()),
        Frame::Close,
        Frame::Binary(sample_traces(vec![1; 16], vec![2; 8]).encode_to_vec()),
    ];
    let mut session = Session::new(6);
    let out = drive(&mut session, &frames);
    let kinds: Vec<Option<Schema>> = out.iter().map(|r| r.schema()).collect();
    assert_eq!(kinds, vec![Some(Schema::Logs), None, Some(Schema::Metrics)]);
    assert_eq!(session.state, SessionState::Closing);
}

#[test]
fn concurrent_sessions_do_not_interfere() {
    let mut a = Session::new(10);
    let mut b = Session::new(11);
    let logs = sample_logs();
    let traces = sample_traces(vec![1; 16], vec![2; 8]);
    let a1 = a.handle(&Frame::Binary(compress(&logs.encode_to_vec()).unwrap()));
    let b1 = b.handle(&Frame::Binary(traces.encode_to_vec()));
    let b2 = b.handle(&Frame::Close);
    let a2 = a.handle(&Frame::Binary(sample_metrics().encode_to_vec()));
    assert_eq!(a1, Action::Publish(DecodedRecord::Logs(logs)));
    assert_eq!(b1, Action::Publish(DecodedRecord::Traces(traces)));
    assert_eq!(b2, Action::Close);
    assert_eq!(a2, Action::Publish(DecodedRecord::Metrics(sample_metrics())));
    assert!(a.is_open());
    assert_eq!(b.state, SessionState::Closing);
}
