//! Decision logic of the two loops that drive a connection.
//!
//! The output loop samples the local clipboard, compares the sample with the
//! last snapshot it sent, and emits a frame only on change. The input loop
//! assembles frames from stream reads and decides whether a decoded snapshot
//! must be written to the local clipboard. The I/O around these decisions —
//! the sleeps, the stream reads and writes, the clipboard calls — lives
//! outside the verified core; it hands plain values in and carries the
//! decided actions out.

use vstd::prelude::*;
use crate::codec::{decode, encode, spec_decode, spec_encode, Decoded, SpecDecoded};
use crate::snapshot::{opt_snap_view, CbData, Image, SnapView};

verus! {

/// What one cycle of the output loop decides: the frame to send, if any,
/// and the record of the last sent snapshot to carry into the next cycle.
///
/// A caller must commit the returned record only after the frame was
/// written successfully; on a write failure the loop terminates anyway.
pub open spec fn spec_output_step(
    cur: Option<SnapView>,
    last: Option<SnapView>,
) -> (Option<Seq<u8>>, Option<SnapView>) {
    match cur {
        Option::None => (Option::None, last),
        Option::Some(v) => if last == Option::Some(v) {
            (Option::None, last)
        } else {
            (Option::Some(spec_encode(v)), Option::Some(v))
        },
    }
}

/// The bytes carried by an optional frame.
pub open spec fn opt_frame_view(o: Option<Vec<u8>>) -> Option<Seq<u8>> {
    match o {
        Option::Some(f) => Option::Some(f@),
        Option::None => Option::None,
    }
}

/// One cycle of the output loop's change detection: `current` is what
/// sampling the clipboard produced (`None` when both reads failed, which
/// skips the cycle without clearing the record), `last_sent` the record of
/// the last snapshot sent. Returns the frame to send, if any, and the new
/// record.
pub fn output_step(current: Option<CbData>, last_sent: Option<CbData>) -> (r: (
    Option<Vec<u8>>,
    Option<CbData>,
))
    ensures
        opt_frame_view(r.0) == spec_output_step(opt_snap_view(current), opt_snap_view(last_sent)).0,
        opt_snap_view(r.1) == spec_output_step(opt_snap_view(current), opt_snap_view(last_sent)).1,
{
    match current {
        Option::None => (Option::None, last_sent),
        Option::Some(v) => {
            let same = match &last_sent {
                Option::Some(l) => l.structural_eq(&v),
                Option::None => false,
            };
            if same {
                (Option::None, last_sent)
            } else {
                let frame = encode(&v);
                (Option::Some(frame), Option::Some(v))
            }
        }
    }
}

/// The frames a whole run of the output loop emits, one cycle per element
/// of `reads`, starting from the record `last`.
pub open spec fn spec_output_run(
    reads: Seq<Option<SnapView>>,
    last: Option<SnapView>,
) -> Seq<Seq<u8>>
    decreases reads.len(),
{
    if reads.len() == 0 {
        Seq::empty()
    } else {
        let step = spec_output_step(reads[0], last);
        (match step.0 {
            Option::Some(f) => seq![f],
            Option::None => Seq::empty(),
        }) + spec_output_run(reads.skip(1), step.1)
    }
}

/// Idempotence of the output loop: over any run of identical consecutive
/// clipboard reads, exactly one frame is sent — the first — and the record
/// of the last sent snapshot suppresses every later cycle. When the run
/// starts with that snapshot already recorded, no frame is sent at all.
pub proof fn lemma_output_idempotent(
    reads: Seq<Option<SnapView>>,
    last: Option<SnapView>,
    v: SnapView,
)
    requires
        reads.len() > 0,
        forall|i: int| 0 <= i < reads.len() ==> reads[i] == Option::Some(v),
    ensures
        last == Option::Some(v) ==> spec_output_run(reads, last) == Seq::<Seq<u8>>::empty(),
        last != Option::Some(v) ==> spec_output_run(reads, last) == seq![spec_encode(v)],
    decreases reads.len(),
{
    let step = spec_output_step(reads[0], last);
    assert(reads[0] == Option::Some(v));
    if reads.len() == 1 {
        assert(spec_output_run(reads.skip(1), step.1) == Seq::<Seq<u8>>::empty());
    } else {
        assert(forall|i: int| 0 <= i < reads.skip(1).len() ==> reads.skip(1)[i] == Option::Some(v));
        lemma_output_idempotent(reads.skip(1), step.1, v);
    }
    if last == Option::Some(v) {
        assert(spec_output_run(reads, last) =~= Seq::<Seq<u8>>::empty());
    } else {
        assert(step.1 == Option::Some(v));
        assert(spec_output_run(reads, last) =~= seq![spec_encode(v)]);
    }
}

/// What the input loop decides after one read from the stream.
pub enum InputStep {
    /// The peer closed its write side (a zero-length read): the loop is
    /// over, cleanly.
    Closed,
    /// No full frame yet: keep this buffer and read more bytes.
    NeedMore(Vec<u8>),
    /// The buffer can never be a valid frame: the connection is dead.
    Fatal,
    /// One frame decoded: the snapshot it carries and the buffer of bytes
    /// that follow it.
    Frame(CbData, Vec<u8>),
}

/// One step of the input loop: `buf` holds the bytes read so far that form
/// no complete frame, `chunk` what the latest stream read produced. A
/// zero-length read means the peer shut down. Otherwise the chunk is
/// appended and one decoding attempt is made.
pub fn input_step(buf: Vec<u8>, chunk: Vec<u8>) -> (r: InputStep)
    ensures
        (r is Closed) <==> chunk@.len() == 0,
        match r {
            InputStep::Closed => true,
            InputStep::NeedMore(nb) => nb@ == buf@ + chunk@ && spec_decode(nb@)
                == SpecDecoded::Incomplete,
            InputStep::Fatal => spec_decode(buf@ + chunk@) == SpecDecoded::Malformed,
            InputStep::Frame(v, rest) => spec_decode(buf@ + chunk@) == SpecDecoded::Complete(
                v@,
                rest@,
            ),
        },
{
    if chunk.len() == 0 {
        return InputStep::Closed;
    }
    let mut b = buf;
    let mut c = chunk;
    b.append(&mut c);
    match decode(&b) {
        Decoded::Incomplete => InputStep::NeedMore(b),
        Decoded::Malformed => InputStep::Fatal,
        Decoded::Complete(v, rest) => InputStep::Frame(v, rest),
    }
}

/// Loop suppression: whether an incoming snapshot must be written to the
/// local clipboard. `local` is what reading the matching representation of
/// the local clipboard produced just before the write, `None` when that
/// read failed. A snapshot equal to what the clipboard already holds is
/// not written, so a received value cannot echo back to its sender.
pub fn should_apply(incoming: &CbData, local: &Option<CbData>) -> (r: bool)
    ensures
        r == (match local {
            Option::Some(l) => l@ != incoming@,
            Option::None => true,
        }),
{
    match local {
        Option::Some(l) => !l.structural_eq(incoming),
        Option::None => true,
    }
}

/// The sampling preference of the output loop: text is tried first as the
/// common case, an image only when no text was available, and a cycle with
/// neither produces no snapshot.
pub fn choose_snapshot(text: Option<String>, image: Option<Image>) -> (r: Option<CbData>)
    ensures
        match text {
            Option::Some(t) => r matches Option::Some(c) && c@ == SnapView::Text(t@),
            Option::None => match image {
                Option::Some(img) => r matches Option::Some(c) && c@ == SnapView::Image(img@),
                Option::None => r is None,
            },
        },
{
    match text {
        Option::Some(t) => Option::Some(CbData::Text(t)),
        Option::None => match image {
            Option::Some(img) => Option::Some(CbData::Image(img)),
            Option::None => Option::None,
        },
    }
}

} // verus!
