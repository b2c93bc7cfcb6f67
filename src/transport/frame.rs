//! Length-delimited framing of envelopes on a reliable byte stream: each
//! frame is a 4-byte big-endian length followed by that many payload bytes.
use tokio_util::bytes::BytesMut;
use tokio_util::codec::{Decoder, Encoder, LengthDelimitedCodec};
use vstd::prelude::*;

verus! {

/// The largest length that the 4-byte length field can hold.
pub const MAX_LENGTH_FIELD: usize = 0xffff_ffff;

/// The longest payload accepted under the configured `max`: the configured
/// value, clipped to what the length field can hold.
pub open spec fn frame_limit(max: usize) -> nat {
    if max < MAX_LENGTH_FIELD { max as nat } else { MAX_LENGTH_FIELD as nat }
}

/// The length field that holds `n`, most significant byte first.
pub open spec fn be32(n: u32) -> Seq<u8> {
    seq![(n >> 24u32) as u8, (n >> 16u32) as u8, (n >> 8u32) as u8, n as u8]
}

/// The length that the first four bytes of `b` hold.
pub open spec fn length_field(b: Seq<u8>) -> nat {
    ((b[0] as u32) << 24u32 | (b[1] as u32) << 16u32 | (b[2] as u32) << 8u32 | b[3] as u32) as nat
}

/// The frame of `payload`.
pub open spec fn frame_of(payload: Seq<u8>) -> Seq<u8> {
    be32(payload.len() as u32) + payload
}

/// Relies on tokio_util's `LengthDelimitedCodec` as `builder().max_frame_length(max)`
/// leaves it (a 4-byte big-endian length field at offset 0, no adjustment,
/// the max clipped to what the field holds): `encode` into an empty buffer
/// writes the length field and then the payload, and refuses a payload
/// longer than the max.
#[verifier::external_body]
fn codec_encode(max: usize, payload: &[u8]) -> (r: Option<Vec<u8>>)
    ensures
        payload@.len() <= frame_limit(max) ==> r is Some && r->Some_0@ == frame_of(payload@),
        payload@.len() > frame_limit(max) ==> r is None,
{
    let mut codec = LengthDelimitedCodec::builder().max_frame_length(max).new_codec();
    let mut dst = BytesMut::new();
    match Encoder::<&[u8]>::encode(&mut codec, payload, &mut dst) {
        Ok(()) => Some(dst.to_vec()),
        Err(_) => None,
    }
}

/// Relies on tokio_util's `LengthDelimitedCodec`, configured as for
/// `codec_encode`: `decode` on a fresh codec waits for 4 bytes of length
/// field, refuses a length above the max, waits for the whole payload, and
/// then splits it off.
#[verifier::external_body]
fn codec_decode(max: usize, buf: &[u8]) -> (r: Result<Option<Vec<u8>>, ()>)
    ensures
        buf@.len() < 4 ==> r is Ok && r->Ok_0 is None,
        buf@.len() >= 4 && length_field(buf@) > frame_limit(max) ==> r is Err,
        buf@.len() >= 4 && length_field(buf@) <= frame_limit(max) && buf@.len() < 4 + length_field(buf@)
            ==> r is Ok && r->Ok_0 is None,
        buf@.len() >= 4 && length_field(buf@) <= frame_limit(max) && buf@.len() >= 4 + length_field(buf@)
            ==> r is Ok && r->Ok_0 is Some && r->Ok_0->Some_0@ == buf@.subrange(4, 4 + length_field(buf@) as int),
{
    let mut codec = LengthDelimitedCodec::builder().max_frame_length(max).new_codec();
    let mut src = BytesMut::from(buf);
    match codec.decode(&mut src) {
        Ok(Some(frame)) => Ok(Some(frame.to_vec())),
        Ok(None) => Ok(None),
        Err(_) => Err(()),
    }
}

/// Error of the framing.
#[derive(Clone, Copy, Debug, PartialEq, Eq, Structural)]
pub enum FrameError {
    /// A payload, or a length field, above the max frame length
    TooLong,
}

/// The first frame of `buf` under the limit `limit`: its payload and the
/// number of bytes it takes, or `None` while it is incomplete.
pub open spec fn parse_frame(limit: nat, buf: Seq<u8>) -> Result<Option<(Seq<u8>, nat)>, FrameError> {
    if buf.len() < 4 {
        Ok(None)
    } else if length_field(buf) > limit {
        Err(FrameError::TooLong)
    } else if buf.len() < 4 + length_field(buf) {
        Ok(None)
    } else {
        Ok(Some((buf.subrange(4, 4 + length_field(buf) as int), 4 + length_field(buf))))
    }
}

/// Every complete frame at the start of `buf`, in order, and the number of
/// bytes they take.
pub open spec fn parse_all(limit: nat, buf: Seq<u8>) -> Result<(Seq<Seq<u8>>, nat), FrameError>
    decreases buf.len(),
{
    match parse_frame(limit, buf) {
        Err(e) => Err(e),
        Ok(None) => Ok((Seq::empty(), 0)),
        Ok(Some((p, n))) => if 0 < n <= buf.len() {
            match parse_all(limit, buf.skip(n as int)) {
                Err(e) => Err(e),
                Ok((ps, m)) => Ok((seq![p] + ps, n + m)),
            }
        } else {
            Ok((Seq::empty(), 0))
        },
    }
}

/// The framing of one byte stream, with its max frame length.
#[derive(Clone, Copy, Debug, PartialEq, Eq, Structural)]
pub struct Framing {
    pub max_frame_length: usize,
}

impl Framing {
    /// A framing that accepts payloads up to `max_frame_length` bytes.
    pub fn new(max_frame_length: usize) -> (r: Framing)
        ensures
            r.max_frame_length == max_frame_length,
    {
        Framing { max_frame_length }
    }

    pub open spec fn limit(&self) -> nat {
        frame_limit(self.max_frame_length)
    }

    /// The frame that carries `payload`, or `TooLong` when it exceeds the
    /// max frame length.
    pub fn encode(&self, payload: &[u8]) -> (r: Result<Vec<u8>, FrameError>)
        ensures
            payload@.len() <= self.limit() ==> r is Ok && r->Ok_0@ == frame_of(payload@),
            payload@.len() > self.limit() ==> r == Err::<Vec<u8>, FrameError>(FrameError::TooLong),
    {
        match codec_encode(self.max_frame_length, payload) {
            Some(v) => Ok(v),
            None => Err(FrameError::TooLong),
        }
    }

    /// The payload of the first frame of `buf` and the number of bytes the
    /// frame takes, or `None` while the frame is incomplete.
    pub fn decode(&self, buf: &[u8]) -> (r: Result<Option<(Vec<u8>, usize)>, FrameError>)
        ensures
            match (parse_frame(self.limit(), buf@), r) {
                (Err(e), Err(f)) => e == f,
                (Ok(None), Ok(None)) => true,
                (Ok(Some((p, n))), Ok(Some((v, m)))) => v@ == p && m == n,
                _ => false,
            },
    {
        let total = buf.len();
        match codec_decode(self.max_frame_length, buf) {
            Err(()) => Err(FrameError::TooLong),
            Ok(None) => Ok(None),
            Ok(Some(v)) => {
                proof {
                    assert(v@.len() + 4 <= total);
                }
                let used = v.len() + 4;
                Ok(Some((v, used)))
            },
        }
    }
    /// Every complete frame at the start of `buf`, in order, and the number
    /// of bytes they take; an incomplete frame at the end is left for later.
    pub fn decode_all(&self, buf: &[u8]) -> (r: Result<(Vec<Vec<u8>>, usize), FrameError>)
        ensures
            match (parse_all(self.limit(), buf@), r) {
                (Err(e), Err(f)) => e == f,
                (Ok((ps, n)), Ok((vs, m))) => vs@.map_values(|v: Vec<u8>| v@) == ps && m == n,
                _ => false,
            },
    {
        let mut frames: Vec<Vec<u8>> = Vec::new();
        let mut pos: usize = 0;
        let total = buf.len();
        proof {
            assert(buf@.skip(0) =~= buf@);
            assert(frames@.map_values(|v: Vec<u8>| v@) =~= Seq::<Seq<u8>>::empty());
            if let Ok((ps, m)) = parse_all(self.limit(), buf@) {
                assert(Seq::<Seq<u8>>::empty() + ps =~= ps);
            }
        }
        loop
            invariant
                pos <= buf@.len(),
                total == buf@.len(),
                parse_all(self.limit(), buf@) == (match parse_all(self.limit(), buf@.skip(pos as int)) {
                    Err(e) => Err(e),
                    Ok((ps, m)) => Ok((frames@.map_values(|v: Vec<u8>| v@) + ps, (pos + m) as nat)),
                }),
            decreases buf@.len() - pos,
        {
            let (_, rest) = buf.split_at(pos);
            proof {
                assert(rest@ == buf@.skip(pos as int));
            }
            match self.decode(rest) {
                Err(e) => {
                    return Err(e);
                },
                Ok(None) => {
                    proof {
                        assert(frames@.map_values(|v: Vec<u8>| v@) + Seq::<Seq<u8>>::empty()
                            == frames@.map_values(|v: Vec<u8>| v@));
                    }
                    return Ok((frames, pos));
                },
                Ok(Some((p, n))) => {
                    let ghost before = frames@.map_values(|v: Vec<u8>| v@);
                    let ghost pv = p@;
                    proof {
                        assert(n <= rest@.len());
                        assert(buf@.skip(pos as int).skip(n as int) =~= buf@.skip(pos + n));
                    }
                    frames.push(p);
                    pos = pos + n;
                    proof {
                        assert(frames@.map_values(|v: Vec<u8>| v@) =~= before.push(pv));
                        let tail = parse_all(self.limit(), buf@.skip(pos as int));
                        if let Ok((ps, m)) = tail {
                            assert(before + (seq![pv] + ps) =~= before.push(pv) + ps);
                        }
                    }
                },
            }
        }
    }
}

/// The bytes of the frames of `payloads`, one after another.
pub open spec fn frames_of(payloads: Seq<Seq<u8>>) -> Seq<u8>
    decreases payloads.len(),
{
    if payloads.len() == 0 {
        Seq::empty()
    } else {
        frame_of(payloads[0]) + frames_of(payloads.drop_first())
    }
}

/// The length field holds the length it was written with.
pub proof fn lemma_length_field_be32(n: u32)
    ensures
        length_field(be32(n)) == n as nat,
{
    assert(((((n >> 24u32) as u8) as u32) << 24u32 | (((n >> 16u32) as u8) as u32) << 16u32
        | (((n >> 8u32) as u8) as u32) << 8u32 | ((n as u8) as u32)) == n) by (bit_vector);
}

/// A frame is read back as the payload it was written with, whatever follows it.
pub proof fn lemma_frame_round_trip(limit: nat, payload: Seq<u8>, rest: Seq<u8>)
    requires
        payload.len() <= limit,
        limit <= MAX_LENGTH_FIELD,
    ensures
        parse_frame(limit, frame_of(payload) + rest) == Ok::<Option<(Seq<u8>, nat)>, FrameError>(
            Some((payload, 4 + payload.len())),
        ),
        (frame_of(payload) + rest).skip(4 + payload.len() as int) == rest,
{
    lemma_length_field_be32(payload.len() as u32);
    let buf = frame_of(payload) + rest;
    assert(buf.subrange(0, 4) =~= be32(payload.len() as u32));
    assert(length_field(buf) == length_field(be32(payload.len() as u32)));
    assert(buf.subrange(4, 4 + payload.len() as int) =~= payload);
    assert(buf.skip(4 + payload.len() as int) =~= rest);
}

/// Frames written one after another are read back, in order, as the payloads
/// they were written with.
pub proof fn lemma_frames_round_trip(limit: nat, payloads: Seq<Seq<u8>>)
    requires
        limit <= MAX_LENGTH_FIELD,
        forall|i: int| 0 <= i < payloads.len() ==> (#[trigger] payloads[i]).len() <= limit,
    ensures
        parse_all(limit, frames_of(payloads)) == Ok::<(Seq<Seq<u8>>, nat), FrameError>(
            (payloads, frames_of(payloads).len()),
        ),
    decreases payloads.len(),
{
    if payloads.len() == 0 {
        assert(payloads =~= Seq::<Seq<u8>>::empty());
    } else {
        let tail = payloads.drop_first();
        assert forall|i: int| 0 <= i < tail.len() implies (#[trigger] tail[i]).len() <= limit by {
            assert(tail[i] == payloads[i + 1]);
        }
        lemma_frames_round_trip(limit, tail);
        lemma_frame_round_trip(limit, payloads[0], frames_of(tail));
        assert(seq![payloads[0]] + tail =~= payloads);
    }
}

} // verus!
