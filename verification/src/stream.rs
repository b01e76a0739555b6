//! Tracking a buffered frame stream: metadata freshness and the
//! difference between end-of-stream and a transient empty read.

use vstd::prelude::*;

use crate::CaptureError;

verus! {

/// The metadata a capture stream attaches to each mapped buffer.
#[derive(Clone, Copy, Debug, PartialEq, Eq, Structural)]
pub struct FrameMeta {
    /// Driver-assigned frame sequence number.
    pub sequence: u64,
    /// Capture time in microseconds.
    pub timestamp_us: u64,
}

/// One observation made when advancing the stream by one position.
pub enum ReadEvent {
    /// A mapped buffer arrived with its metadata.
    Frame(Vec<u8>, FrameMeta),
    /// The read yielded nothing this time; the stream is still live.
    Empty,
    /// The stream has ended and will yield no further buffer.
    End,
}

/// What the tracker hands the caller for one observation.
pub enum ReadOutcome {
    /// A fresh frame, safe to decode and display.
    Delivered(Vec<u8>, FrameMeta),
    /// Nothing this time; the caller may try again.
    TryAgain,
    /// The stream is over; the caller must stop reading.
    Finished,
}

/// Guards a buffered capture stream so that no frame's metadata is ever
/// reused: delivered sequence numbers strictly increase, and once the end
/// of the stream is seen no further frame is delivered.
pub struct StreamTracker {
    /// The sequence number of the last delivered frame, if any.
    pub last_sequence: Option<u64>,
    /// Whether end-of-stream has been observed.
    pub finished: bool,
}

impl StreamTracker {
    /// Whether a frame bearing this sequence number may be delivered.
    pub open spec fn accepts(self, sequence: u64) -> bool {
        &&& !self.finished
        &&& match self.last_sequence {
            Some(last) => sequence > last,
            None => true,
        }
    }

    /// The tracker state after one observation.
    pub open spec fn step(self, ev: ReadEvent) -> StreamTracker {
        match ev {
            ReadEvent::Frame(data, meta) => if self.accepts(meta.sequence) {
                StreamTracker { last_sequence: Some(meta.sequence), ..self }
            } else {
                self
            },
            ReadEvent::Empty => self,
            ReadEvent::End => StreamTracker { finished: true, ..self },
        }
    }

    /// What one observation yields: end-of-stream and a transient empty
    /// read map to distinct outcomes, a fresh frame is delivered, and a
    /// stale or post-end frame is a transient read failure.
    pub open spec fn outcome(self, ev: ReadEvent) -> Result<ReadOutcome, CaptureError> {
        match ev {
            ReadEvent::Frame(data, meta) => if self.accepts(meta.sequence) {
                Ok(ReadOutcome::Delivered(data, meta))
            } else {
                Err(CaptureError::TransientRead)
            },
            ReadEvent::Empty => Ok(ReadOutcome::TryAgain),
            ReadEvent::End => Ok(ReadOutcome::Finished),
        }
    }

    /// A tracker for a freshly opened stream.
    pub fn new() -> (t: StreamTracker)
        ensures
            t.last_sequence is None,
            !t.finished,
    {
        StreamTracker { last_sequence: None, finished: false }
    }

    /// Advance by one observation, delivering only fresh frames.
    pub fn advance(&mut self, ev: ReadEvent) -> (r: Result<ReadOutcome, CaptureError>)
        ensures
            r == old(self).outcome(ev),
            *final(self) == old(self).step(ev),
    {
        match ev {
            ReadEvent::Frame(data, meta) => {
                let fresh = match self.last_sequence {
                    Some(last) => meta.sequence > last,
                    None => true,
                };
                if !self.finished && fresh {
                    self.last_sequence = Some(meta.sequence);
                    Ok(ReadOutcome::Delivered(data, meta))
                } else {
                    Err(CaptureError::TransientRead)
                }
            },
            ReadEvent::Empty => Ok(ReadOutcome::TryAgain),
            ReadEvent::End => {
                self.finished = true;
                Ok(ReadOutcome::Finished)
            },
        }
    }
}

/// A stub stream producing synthetic frames, for exercising stream
/// handling without capture hardware: a bounded run of frames with
/// strictly increasing sequence numbers and non-decreasing timestamps,
/// then end-of-stream forever.
pub struct StubStream {
    /// Sequence number the next synthetic frame will carry.
    pub next_sequence: u64,
    /// How many synthetic frames are still to come.
    pub remaining: u32,
    /// Length in bytes of each synthetic frame's payload.
    pub frame_len: usize,
    /// Timestamp the next synthetic frame will carry.
    pub next_timestamp_us: u64,
    /// How far the timestamp advances per frame.
    pub tick_us: u32,
}

impl StubStream {
    /// Sequence numbers never wrap within the run.
    pub open spec fn well_formed(self) -> bool {
        self.next_sequence + self.remaining <= u64::MAX
    }

    /// The metadata the next synthetic frame carries.
    pub open spec fn pending_meta(self) -> FrameMeta {
        FrameMeta { sequence: self.next_sequence, timestamp_us: self.next_timestamp_us }
    }

    /// The byte every position of a synthetic payload holds: the low byte
    /// of the frame's sequence number, so that distinct nearby frames get
    /// distinct payloads.
    pub open spec fn payload_byte(self) -> u8 {
        (self.next_sequence % 256) as u8
    }

    /// The full synthetic payload of the next frame.
    pub open spec fn payload(self) -> Seq<u8> {
        Seq::new(self.frame_len as nat, |i: int| self.payload_byte())
    }

    /// The stub state after handing out one synthetic frame.
    pub open spec fn after_frame(self) -> StubStream {
        StubStream {
            next_sequence: (self.next_sequence + 1) as u64,
            remaining: (self.remaining - 1) as u32,
            next_timestamp_us: if self.next_timestamp_us + self.tick_us <= u64::MAX {
                (self.next_timestamp_us + self.tick_us) as u64
            } else {
                u64::MAX
            },
            ..self
        }
    }

    /// A stub that will produce `count` frames of `frame_len` bytes each,
    /// numbering them from `first_sequence`.
    pub fn new(first_sequence: u64, count: u32, frame_len: usize, tick_us: u32) -> (s: StubStream)
        requires
            first_sequence + count <= u64::MAX,
        ensures
            s.well_formed(),
            s.next_sequence == first_sequence,
            s.remaining == count,
            s.frame_len == frame_len,
            s.next_timestamp_us == 0,
            s.tick_us == tick_us,
    {
        StubStream {
            next_sequence: first_sequence,
            remaining: count,
            frame_len,
            next_timestamp_us: 0,
            tick_us,
        }
    }

    /// Produce the next observation: a synthetic frame while any remain,
    /// end-of-stream afterwards.
    pub fn next(&mut self) -> (ev: ReadEvent)
        requires
            old(self).well_formed(),
        ensures
            final(self).well_formed(),
            old(self).remaining == 0 ==> {
                &&& ev is End
                &&& *final(self) == *old(self)
            },
            old(self).remaining > 0 ==> {
                &&& ev matches ReadEvent::Frame(data, meta) && meta == old(self).pending_meta()
                    && data@ == old(self).payload()
                &&& *final(self) == old(self).after_frame()
            },
    {
        if self.remaining == 0 {
            return ReadEvent::End;
        }
        let len = self.frame_len;
        let byte = (self.next_sequence % 256) as u8;
        let mut data: Vec<u8> = Vec::new();
        let mut i: usize = 0;
        while i < len
            invariant
                i <= len,
                data@.len() == i,
                forall|j: int| 0 <= j < i ==> data@[j] == byte,
            decreases len - i,
        {
            data.push(byte);
            i += 1;
        }
        let meta = FrameMeta { sequence: self.next_sequence, timestamp_us: self.next_timestamp_us };
        self.next_sequence = self.next_sequence + 1;
        self.remaining = self.remaining - 1;
        let tick = self.tick_us as u64;
        if self.next_timestamp_us <= u64::MAX - tick {
            self.next_timestamp_us = self.next_timestamp_us + tick;
        } else {
            self.next_timestamp_us = u64::MAX;
        }
        proof {
            assert(data@ =~= old(self).payload());
        }
        ReadEvent::Frame(data, meta)
    }
}

/// Law: a stub with at least two synthetic frames left hands out strictly
/// increasing sequence numbers on consecutive frames, so the metadata of
/// one frame is never reused by the next.
pub proof fn lemma_stub_sequences_strictly_increase(s: StubStream)
    requires
        s.well_formed(),
        s.remaining >= 2,
    ensures
        s.pending_meta().sequence < s.after_frame().pending_meta().sequence,
        s.after_frame().well_formed(),
{
}

/// Law: a stub's synthetic frames are always accepted in order — a tracker
/// that has just delivered one stub frame accepts the next one.
pub proof fn lemma_stub_feeds_tracker(t: StreamTracker, s: StubStream, d: Vec<u8>)
    requires
        s.well_formed(),
        s.remaining >= 2,
        t.accepts(s.pending_meta().sequence),
    ensures
        t.step(ReadEvent::Frame(d, s.pending_meta())).accepts(
            s.after_frame().pending_meta().sequence,
        ),
{
}

/// Law: metadata is never reused — whenever a tracker delivers a frame and
/// then accepts a second one, the second sequence number is strictly
/// greater than the first.
pub proof fn lemma_sequences_strictly_increase(
    t: StreamTracker,
    d1: Vec<u8>,
    m1: FrameMeta,
    m2: FrameMeta,
)
    requires
        t.accepts(m1.sequence),
        t.step(ReadEvent::Frame(d1, m1)).accepts(m2.sequence),
    ensures
        m1.sequence < m2.sequence,
{
}

/// Law: end-of-stream is distinguishable from a transient empty read — in
/// every tracker state the two observations yield different outcomes, and
/// neither is an error.
pub proof fn lemma_end_distinct_from_empty(t: StreamTracker)
    ensures
        t.outcome(ReadEvent::End) == Ok::<ReadOutcome, CaptureError>(ReadOutcome::Finished),
        t.outcome(ReadEvent::Empty) == Ok::<ReadOutcome, CaptureError>(ReadOutcome::TryAgain),
        t.outcome(ReadEvent::End) != t.outcome(ReadEvent::Empty),
{
}

/// Law: once end-of-stream has been observed, no frame is ever delivered
/// again.
pub proof fn lemma_no_frame_after_end(t: StreamTracker, d: Vec<u8>, m: FrameMeta)
    ensures
        t.step(ReadEvent::End).outcome(ReadEvent::Frame(d, m)) == Err::<
            ReadOutcome,
            CaptureError,
        >(CaptureError::TransientRead),
{
}

} // verus!
