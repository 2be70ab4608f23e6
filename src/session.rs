use crate::compression::{decompress, decompressed};
use crate::sniffer::{classify, decode, DecodedRecord};
use vstd::prelude::*;

verus! {

/// One message unit received from a connection, or the failure to read one.
#[derive(Clone, Debug, PartialEq)]
pub enum Frame {
    Text(String),
    Binary(Vec<u8>),
    Ping(Vec<u8>),
    Pong(Vec<u8>),
    Close,
    /// The transport failed to deliver the next frame.
    ReadError,
}

/// Lifecycle of one connection.
#[derive(Clone, Copy, Debug, PartialEq, Eq, Structural)]
pub enum SessionState {
    /// Reading frames.
    Open,
    /// A close frame, keep-alive frame or read error arrived; in-flight work
    /// drains before the socket is released.
    Closing,
    /// The socket has been released.
    Closed,
}

/// What the transport loop is to do after a frame.
#[derive(Debug, PartialEq)]
pub enum Action {
    /// Hand the decoded record to the sink before reading the next frame.
    Publish(DecodedRecord),
    /// Report an out-of-band text message; nothing is decoded.
    Diagnostic(String),
    /// Stop reading and close the connection.
    Close,
    /// The session no longer reads: ignore the frame.
    Ignore,
}

/// The decisions of one live connection.
#[derive(Clone, Copy, Debug)]
pub struct Session {
    pub id: u64,
    pub state: SessionState,
}

/// Whether a frame leaves an open session open.
pub open spec fn keeps_open(f: Frame) -> bool {
    f is Text || f is Binary
}

/// Whether a session that starts open is still open after `fs`.
pub open spec fn open_after(fs: Seq<Frame>) -> bool
    decreases fs.len(),
{
    if fs.len() == 0 {
        true
    } else {
        open_after(fs.drop_last()) && keeps_open(fs.last())
    }
}

/// The binary payloads that a session starting open publishes for `fs`, in
/// the order they arrived: those before the first frame that ends the session.
pub open spec fn published(fs: Seq<Frame>) -> Seq<Seq<u8>>
    decreases fs.len(),
{
    if fs.len() == 0 {
        seq![]
    } else {
        let p = published(fs.drop_last());
        if open_after(fs.drop_last()) && fs.last() is Binary {
            p.push(fs.last()->Binary_0@)
        } else {
            p
        }
    }
}

impl Session {
    /// A freshly accepted connection.
    pub fn new(id: u64) -> (r: Session)
        ensures
            r.id == id,
            r.state == SessionState::Open,
    {
        Session { id, state: SessionState::Open }
    }

    pub fn is_open(&self) -> (r: bool)
        ensures
            r == (self.state == SessionState::Open),
    {
        self.state == SessionState::Open
    }

    /// Decides what to do with one frame. In an open session a binary frame
    /// is decompressed (fail-open) and decoded, and its record is published;
    /// a text frame is a diagnostic; a decode failure never ends the session.
    /// Close, ping, pong and read errors move the session to closing. A
    /// session that is no longer open ignores frames.
    pub fn handle(&mut self, frame: &Frame) -> (a: Action)
        ensures
            final(self).id == old(self).id,
            old(self).state != SessionState::Open ==> *final(self) == *old(self) && a is Ignore,
            old(self).state == SessionState::Open ==> match *frame {
                Frame::Binary(b) => {
                    &&& final(self).state == SessionState::Open
                    &&& a matches Action::Publish(r) && r.format() == classify(decompressed(b@))
                    &&& a matches Action::Publish(DecodedRecord::Unrecognized(u)) ==> u.raw@
                        == decompressed(b@)
                },
                Frame::Text(t) => final(self).state == SessionState::Open && a == Action::Diagnostic(
                    t,
                ),
                _ => final(self).state == SessionState::Closing && a is Close,
            },
    {
        if self.state != SessionState::Open {
            return Action::Ignore;
        }
        match frame {
            Frame::Binary(b) => {
                let data = decompress(b.as_slice());
                Action::Publish(decode(data.as_slice()))
            },
            Frame::Text(t) => Action::Diagnostic(t.clone()),
            _ => {
                self.state = SessionState::Closing;
                Action::Close
            },
        }
    }

    /// Releases the socket once in-flight work has drained.
    pub fn finish(&mut self)
        ensures
            final(self).id == old(self).id,
            old(self).state == SessionState::Closing ==> final(self).state == SessionState::Closed,
            old(self).state != SessionState::Closing ==> *final(self) == *old(self),
    {
        if self.state == SessionState::Closing {
            self.state = SessionState::Closed;
        }
    }
}

/// Runs a session over a sequence of frames and returns what it published,
/// in order: the record of each binary frame that arrived before the first
/// frame that ends the session.
pub fn drive(session: &mut Session, frames: &[Frame]) -> (out: Vec<DecodedRecord>)
    requires
        old(session).state == SessionState::Open,
    ensures
        out@.len() == published(frames@).len(),
        forall|k: int|
            0 <= k < out@.len() ==> (#[trigger] out@[k]).format() == classify(
                decompressed(published(frames@)[k]),
            ),
        final(session).id == old(session).id,
        final(session).state == (if open_after(frames@) {
            SessionState::Open
        } else {
            SessionState::Closing
        }),
{
    let mut out: Vec<DecodedRecord> = Vec::new();
    let mut i: usize = 0;
    while i < frames.len()
        invariant
            i <= frames@.len(),
            session.id == old(session).id,
            session.state == (if open_after(frames@.take(i as int)) {
                SessionState::Open
            } else {
                SessionState::Closing
            }),
            out@.len() == published(frames@.take(i as int)).len(),
            forall|k: int|
                0 <= k < out@.len() ==> (#[trigger] out@[k]).format() == classify(
                    decompressed(published(frames@.take(i as int))[k]),
                ),
        decreases frames@.len() - i,
    {
        let ghost before = frames@.take(i as int);
        let ghost after = frames@.take(i + 1);
        assert(after.drop_last() =~= before);
        assert(after.last() == frames@[i as int]);
        let action = session.handle(&frames[i]);
        if let Action::Publish(r) = action {
            out.push(r);
        }
        i += 1;
    }
    assert(frames@.take(frames@.len() as int) =~= frames@);
    out
}

/// Sessions preserve receipt order: the frames of `fs` followed by those of
/// `gs` publish what `fs` publishes followed, while the session is still
/// open, by what `gs` publishes.
pub proof fn lemma_receipt_order(fs: Seq<Frame>, gs: Seq<Frame>)
    ensures
        published(fs + gs) == if open_after(fs) {
            published(fs) + published(gs)
        } else {
            published(fs)
        },
        open_after(fs + gs) == (open_after(fs) && open_after(gs)),
    decreases gs.len(),
{
    if gs.len() == 0 {
        assert(fs + gs =~= fs);
        assert(published(fs) + published(gs) =~= published(fs));
    } else {
        lemma_receipt_order(fs, gs.drop_last());
        assert((fs + gs).drop_last() =~= fs + gs.drop_last());
        assert((fs + gs).last() == gs.last());
        if open_after(fs) && open_after(gs.drop_last()) && gs.last() is Binary {
            assert(published(fs) + published(gs) =~= (published(fs) + published(gs.drop_last())).push(
                gs.last()->Binary_0@,
            ));
        }
    }
}

} // verus!
