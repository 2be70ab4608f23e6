//! A connection-scoped decode-and-dispatch core for OpenTelemetry telemetry
//! arriving over WebSocket: fail-open gzip decompression, a prioritised
//! multi-schema decoder with structural plausibility checks and a truncation
//! flag, the per-connection session state machine, a bounded sink that
//! signals backpressure, and the server's concurrency policy.

mod admission;
mod compression;
mod session;
mod sink;
mod sniffer;
mod wire;

pub use admission::{has_room, Admission, Concurrency};
pub use compression::{compress, decompress};
pub use compression::{decompressed, gunzip_of, has_gzip_magic};
pub use compression::{lemma_decompress_inverts_gzip, lemma_fail_open_is_identity};
pub use session::{drive, keeps_open, lemma_receipt_order, open_after, published};
pub use session::{Action, Frame, Session, SessionState};
pub use sink::{BoundedSink, Publish};
pub use sniffer::{all_positive, attempts_of, classify, key_plausible, layout_of, plausible};
pub use sniffer::{decode, item_plausible, judge, layout_plausible};
pub use sniffer::{lemma_empty_is_unrecognized, lemma_priority_decides, lemma_unique_schema_wins};
pub use sniffer::{logs_layout, metrics_layout, rank, traces_layout, valid_under, verdict_of};
pub use sniffer::{Attempt, DecodedRecord, Layout, LayoutView, Schema, Unrecognized, Verdict};
pub use wire::{field_end, framing, framing_from, framing_of, pow128, skip, varint_end, varint_value};
pub use wire::{Framing, Step};
