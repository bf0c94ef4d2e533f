//! The wire codec: a clipboard snapshot travels as one self-delimiting
//! frame, so the receiver can find message boundaries in a raw byte stream.
//!
//! Frame layout: a one-byte variant tag, then the variant payload.
//! - Text: tag `TAG_TEXT`, the UTF-8 byte length as a little-endian `u64`,
//!   then the UTF-8 bytes.
//! - Image: tag `TAG_IMAGE`, width, height and pixel-byte length each as a
//!   little-endian `u64`, then the pixel bytes.
//!
//! Decoding distinguishes a frame that has not fully arrived (`Incomplete`,
//! the normal state while more bytes are awaited) from bytes that can never
//! be a valid frame (`Malformed`, fatal for the connection).

use vstd::prelude::*;
use vstd::bytes::*;
use vstd::utf8::*;
use vstd::slice::{slice_subrange, slice_to_vec};
use vstd::string::StrSliceExecFns;
use crate::snapshot::{CbData, Image, ImageView, SnapView};

verus! {

/// Wire tag of a text frame.
pub const TAG_TEXT: u8 = 0;

/// Wire tag of an image frame.
pub const TAG_IMAGE: u8 = 1;

/// A snapshot value that fits in one frame on this machine: each length
/// field must be representable in a `usize` of the running process.
pub open spec fn snap_wf(v: SnapView) -> bool {
    match v {
        SnapView::Text(s) => encode_utf8(s).len() <= usize::MAX,
        SnapView::Image(iv) => iv.width <= usize::MAX && iv.height <= usize::MAX
            && iv.bytes.len() <= usize::MAX,
    }
}

/// The frame that carries a snapshot value.
pub open spec fn spec_encode(v: SnapView) -> Seq<u8> {
    match v {
        SnapView::Text(s) => seq![TAG_TEXT] + spec_u64_to_le_bytes(encode_utf8(s).len() as u64)
            + encode_utf8(s),
        SnapView::Image(iv) => seq![TAG_IMAGE] + spec_u64_to_le_bytes(iv.width as u64)
            + spec_u64_to_le_bytes(iv.height as u64) + spec_u64_to_le_bytes(iv.bytes.len() as u64)
            + iv.bytes,
    }
}

/// What one decoding attempt on a buffer yields, as a mathematical value.
#[verifier::ext_equal]
pub enum SpecDecoded {
    /// A full frame parsed: the snapshot and the bytes that follow it.
    Complete(SnapView, Seq<u8>),
    /// Not enough bytes yet; more must be read and the attempt repeated.
    Incomplete,
    /// The bytes can never be a valid frame.
    Malformed,
}

/// One decoding attempt on the byte buffer: parse the first frame if it has
/// fully arrived, report `Incomplete` while bytes are missing, and
/// `Malformed` on an out-of-range tag, a length that cannot fit in memory,
/// or a text payload that is not valid UTF-8.
pub open spec fn spec_decode(b: Seq<u8>) -> SpecDecoded {
    if b.len() < 1 {
        SpecDecoded::Incomplete
    } else if b[0] == TAG_TEXT {
        if b.len() < 9 {
            SpecDecoded::Incomplete
        } else {
            let n = spec_u64_from_le_bytes(b.subrange(1, 9));
            if n > usize::MAX as u64 {
                SpecDecoded::Malformed
            } else if b.len() < 9 + n {
                SpecDecoded::Incomplete
            } else {
                let payload = b.subrange(9, 9 + n);
                if valid_utf8(payload) {
                    SpecDecoded::Complete(
                        SnapView::Text(decode_utf8(payload)),
                        b.skip(9 + n),
                    )
                } else {
                    SpecDecoded::Malformed
                }
            }
        }
    } else if b[0] == TAG_IMAGE {
        if b.len() < 25 {
            SpecDecoded::Incomplete
        } else {
            let w = spec_u64_from_le_bytes(b.subrange(1, 9));
            let h = spec_u64_from_le_bytes(b.subrange(9, 17));
            let n = spec_u64_from_le_bytes(b.subrange(17, 25));
            if w > usize::MAX as u64 || h > usize::MAX as u64 || n > usize::MAX as u64 {
                SpecDecoded::Malformed
            } else if b.len() < 25 + n {
                SpecDecoded::Incomplete
            } else {
                SpecDecoded::Complete(
                    SnapView::Image(
                        ImageView {
                            width: w as nat,
                            height: h as nat,
                            bytes: b.subrange(25, 25 + n),
                        },
                    ),
                    b.skip(25 + n),
                )
            }
        }
    } else {
        SpecDecoded::Malformed
    }
}

/// What one decoding attempt on a buffer yields.
pub enum Decoded {
    /// A full frame parsed: the snapshot and the bytes that follow it.
    Complete(CbData, Vec<u8>),
    /// Not enough bytes yet; more must be read and the attempt repeated.
    Incomplete,
    /// The bytes can never be a valid frame; fatal for the connection.
    Malformed,
}

/// Relies on `String::from_utf8`: it returns the string decoded from the
/// given bytes exactly when they are valid UTF-8, and an error otherwise.
#[verifier::external_body]
fn string_from_utf8(bytes: Vec<u8>) -> (r: Option<String>)
    ensures
        match r {
            Option::Some(s) => valid_utf8(bytes@) && s@ == decode_utf8(bytes@),
            Option::None => !valid_utf8(bytes@),
        },
{
    String::from_utf8(bytes).ok()
}

/// Encodes one snapshot as one frame.
pub fn encode(data: &CbData) -> (r: Vec<u8>)
    ensures
        r@ == spec_encode(data@),
        snap_wf(data@),
{
    match data {
        CbData::Text(s) => {
            let mut payload: Vec<u8> = s.as_str().as_bytes_vec();
            let mut out: Vec<u8> = Vec::new();
            out.push(TAG_TEXT);
            let mut lenb = u64_to_le_bytes(payload.len() as u64);
            out.append(&mut lenb);
            out.append(&mut payload);
            proof {
                assert(out@ =~= spec_encode(data@));
            }
            out
        }
        CbData::Image(img) => {
            let mut out: Vec<u8> = Vec::new();
            out.push(TAG_IMAGE);
            let mut wb = u64_to_le_bytes(img.width as u64);
            out.append(&mut wb);
            let mut hb = u64_to_le_bytes(img.height as u64);
            out.append(&mut hb);
            let mut nb = u64_to_le_bytes(img.bytes.len() as u64);
            out.append(&mut nb);
            let mut px = copy_bytes(&img.bytes);
            out.append(&mut px);
            proof {
                assert(out@ =~= spec_encode(data@));
            }
            out
        }
    }
}

/// A plain copy of a byte vector.
fn copy_bytes(src: &Vec<u8>) -> (r: Vec<u8>)
    ensures
        r@ == src@,
{
    let mut out: Vec<u8> = Vec::new();
    let n: usize = src.len();
    let mut i: usize = 0;
    while i < n
        invariant
            n == src.len(),
            i <= n,
            out@ == src@.take(i as int),
        decreases n - i,
    {
        out.push(src[i]);
        i += 1;
        proof {
            assert(out@ =~= src@.take(i as int));
        }
    }
    proof {
        assert(src@.take(n as int) =~= src@);
    }
    out
}

/// One decoding attempt on the buffer, as [`spec_decode`] describes it.
pub fn decode(buf: &Vec<u8>) -> (r: Decoded)
    ensures
        match r {
            Decoded::Complete(v, rest) => spec_decode(buf@) == SpecDecoded::Complete(v@, rest@),
            Decoded::Incomplete => spec_decode(buf@) == SpecDecoded::Incomplete,
            Decoded::Malformed => spec_decode(buf@) == SpecDecoded::Malformed,
        },
{
    if buf.len() < 1 {
        return Decoded::Incomplete;
    }
    let tag: u8 = buf[0];
    if tag == TAG_TEXT {
        if buf.len() < 9 {
            return Decoded::Incomplete;
        }
        let n64: u64 = u64_from_le_bytes(slice_subrange(buf.as_slice(), 1, 9));
        if n64 > usize::MAX as u64 {
            return Decoded::Malformed;
        }
        let n: usize = n64 as usize;
        if buf.len() - 9 < n {
            return Decoded::Incomplete;
        }
        let payload = slice_to_vec(slice_subrange(buf.as_slice(), 9, 9 + n));
        match string_from_utf8(payload) {
            Option::Some(s) => {
                let rest = slice_to_vec(slice_subrange(buf.as_slice(), 9 + n, buf.len()));
                proof {
                    assert(rest@ =~= buf@.skip(9 + n64));
                }
                Decoded::Complete(CbData::Text(s), rest)
            }
            Option::None => Decoded::Malformed,
        }
    } else if tag == TAG_IMAGE {
        if buf.len() < 25 {
            return Decoded::Incomplete;
        }
        let w64: u64 = u64_from_le_bytes(slice_subrange(buf.as_slice(), 1, 9));
        let h64: u64 = u64_from_le_bytes(slice_subrange(buf.as_slice(), 9, 17));
        let n64: u64 = u64_from_le_bytes(slice_subrange(buf.as_slice(), 17, 25));
        if w64 > usize::MAX as u64 || h64 > usize::MAX as u64 || n64 > usize::MAX as u64 {
            return Decoded::Malformed;
        }
        let n: usize = n64 as usize;
        if buf.len() - 25 < n {
            return Decoded::Incomplete;
        }
        let pixels = slice_to_vec(slice_subrange(buf.as_slice(), 25, 25 + n));
        let rest = slice_to_vec(slice_subrange(buf.as_slice(), 25 + n, buf.len()));
        let img = Image { width: w64 as usize, height: h64 as usize, bytes: pixels };
        proof {
            assert(rest@ =~= buf@.skip(25 + n64));
            assert(img@ =~= ImageView {
                width: w64 as nat,
                height: h64 as nat,
                bytes: buf@.subrange(25, 25 + n64),
            });
        }
        Decoded::Complete(CbData::Image(img), rest)
    } else {
        Decoded::Malformed
    }
}

/// Round-trip law: decoding the frame that carries a snapshot yields that
/// snapshot back, with no bytes left over.
pub proof fn lemma_encode_decode(v: SnapView)
    requires
        snap_wf(v),
    ensures
        spec_decode(spec_encode(v)) == SpecDecoded::Complete(v, Seq::<u8>::empty()),
{
    lemma_auto_spec_u64_to_from_le_bytes();
    let e = spec_encode(v);
    match v {
        SnapView::Text(s) => {
            let p = encode_utf8(s);
            let lb = spec_u64_to_le_bytes(p.len() as u64);
            assert(e.subrange(1, 9) =~= lb);
            let n = spec_u64_from_le_bytes(e.subrange(1, 9));
            assert(n == p.len());
            assert(e.subrange(9, 9 + n) =~= p);
            encode_utf8_valid_utf8(s);
            encode_utf8_decode_utf8(s);
            assert(e.skip(9 + n) =~= Seq::<u8>::empty());
        }
        SnapView::Image(iv) => {
            let wb = spec_u64_to_le_bytes(iv.width as u64);
            let hb = spec_u64_to_le_bytes(iv.height as u64);
            let nb = spec_u64_to_le_bytes(iv.bytes.len() as u64);
            assert(e.subrange(1, 9) =~= wb);
            assert(e.subrange(9, 17) =~= hb);
            assert(e.subrange(17, 25) =~= nb);
            let n = spec_u64_from_le_bytes(e.subrange(17, 25));
            assert(n == iv.bytes.len());
            assert(e.subrange(25, 25 + n) =~= iv.bytes);
            assert(e.skip(25 + n) =~= Seq::<u8>::empty());
            assert(spec_decode(e) =~= SpecDecoded::Complete(v, Seq::<u8>::empty()));
        }
    }
}

/// A strict prefix of a frame always decodes as `Incomplete`, never as
/// `Malformed` and never as a premature `Complete`.
pub proof fn lemma_encode_prefix_incomplete(v: SnapView, i: int)
    requires
        snap_wf(v),
        0 <= i < spec_encode(v).len(),
    ensures
        spec_decode(spec_encode(v).take(i)) == SpecDecoded::Incomplete,
{
    lemma_auto_spec_u64_to_from_le_bytes();
    let e = spec_encode(v);
    let p = e.take(i);
    if i == 0 {
        return;
    }
    match v {
        SnapView::Text(s) => {
            let tp = encode_utf8(s);
            assert(p[0] == TAG_TEXT);
            if i < 9 {
                assert(spec_decode(p) == SpecDecoded::Incomplete);
            } else {
                assert(p.subrange(1, 9) =~= e.subrange(1, 9));
                assert(e.subrange(1, 9) =~= spec_u64_to_le_bytes(tp.len() as u64));
                let n = spec_u64_from_le_bytes(p.subrange(1, 9));
                assert(n == tp.len());
                assert(p.len() < 9 + n);
            }
        }
        SnapView::Image(iv) => {
            assert(p[0] == TAG_IMAGE);
            if i < 25 {
                assert(spec_decode(p) == SpecDecoded::Incomplete);
            } else {
                assert(p.subrange(1, 9) =~= e.subrange(1, 9));
                assert(p.subrange(9, 17) =~= e.subrange(9, 17));
                assert(p.subrange(17, 25) =~= e.subrange(17, 25));
                assert(e.subrange(1, 9) =~= spec_u64_to_le_bytes(iv.width as u64));
                assert(e.subrange(9, 17) =~= spec_u64_to_le_bytes(iv.height as u64));
                assert(e.subrange(17, 25) =~= spec_u64_to_le_bytes(iv.bytes.len() as u64));
                let n = spec_u64_from_le_bytes(p.subrange(17, 25));
                assert(n == iv.bytes.len());
                assert(p.len() < 25 + n);
            }
        }
    }
}

/// Incremental assembly: splitting a frame at any byte boundary into two
/// reads and decoding after each yields exactly one `Incomplete` outcome
/// followed by one `Complete` outcome carrying the original snapshot.
pub proof fn lemma_incremental_assembly(v: SnapView, i: int)
    requires
        snap_wf(v),
        0 <= i < spec_encode(v).len(),
    ensures
        spec_decode(spec_encode(v).take(i)) == SpecDecoded::Incomplete,
        spec_decode(spec_encode(v).take(i) + spec_encode(v).skip(i)) == SpecDecoded::Complete(
            v,
            Seq::<u8>::empty(),
        ),
{
    lemma_encode_prefix_incomplete(v, i);
    assert(spec_encode(v).take(i) + spec_encode(v).skip(i) =~= spec_encode(v));
    lemma_encode_decode(v);
}

/// An out-of-range variant tag is malformed at once: no later bytes can
/// repair such a buffer.
pub proof fn lemma_bad_tag_malformed(b: Seq<u8>)
    requires
        b.len() >= 1,
        b[0] != TAG_TEXT,
        b[0] != TAG_IMAGE,
    ensures
        spec_decode(b) == SpecDecoded::Malformed,
{
}

} // verus!
