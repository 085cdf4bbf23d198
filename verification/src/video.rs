//! The pictures of the voice chat: encoding the user's own, decoding those of others.

use openh264::decoder::Decoder;
use openh264::encoder::{BitRate, Encoder, EncoderConfig, IntraFramePeriod};
use openh264::formats::{YUVSlices, YUVSource};
use vstd::prelude::*;

use crate::codec::{is_key_frame, UnitBuffer};
use crate::voice::{VoiceEvent, VoiceVideoKind};
use crate::yuv::I420;

verus! {

/// The decoder of `openh264`.
#[verifier::external_type_specification]
#[verifier::external_body]
pub struct ExDecoder(Decoder);

/// The encoder of `openh264`.
#[verifier::external_type_specification]
#[verifier::external_body]
pub struct ExEncoder(Encoder);

/// What a decoder holds of its past: the access units that it was handed, in order.
pub uninterp spec fn decoder_units(decoder: Decoder) -> Seq<Seq<u8>>;

/// What an encoder holds of its past: what was asked of it, in order.
pub uninterp spec fn encoder_steps(encoder: Encoder) -> Seq<EncoderStep>;

/// What is asked of an encoder.
pub enum EncoderStep {
    /// To start, for a number of bits per second and with a period of pictures that stand for
    /// themselves.
    Start { bits_per_second: u32, intra_frames: u32 },
    /// To let the next picture stand for itself.
    Intra,
    /// To encode a picture.
    Picture {
        w: usize,
        h: usize,
        sy: usize,
        suv: usize,
        y: Seq<u8>,
        u: Seq<u8>,
        v: Seq<u8>,
    },
}

pub open spec fn picture_step(p: I420) -> EncoderStep {
    EncoderStep::Picture { w: p.w, h: p.h, sy: p.sy, suv: p.suv, y: p.y@, u: p.u@, v: p.v@ }
}

/// `openh264::decoder::Decoder::new`: a decoder that was handed nothing yet, if the system has one to
/// give. Whether it does is not said.
#[verifier::external_body]
fn new_decoder() -> (r: Option<Decoder>)
    ensures
        r matches Some(d) ==> decoder_units(d).len() == 0,
{
    Decoder::new().ok()
}

/// `openh264::decoder::Decoder::decode` and `DecodedYUV::write_rgba8`: the picture of an access unit
/// as four bytes per pixel, row by row, with its width and height. There is none where the unit
/// cannot be read or completes no picture. What it shows rests on all units that the decoder was
/// handed, of which this is one more, and on the machine; it is not said.
#[verifier::external_body]
fn decode_unit(decoder: &mut Decoder, unit: &Vec<u8>) -> (r: Option<(u32, u32, Vec<u8>)>)
    ensures
        decoder_units(*final(decoder)) == decoder_units(*old(decoder)).push(unit@),
        r matches Some((w, h, rgba)) ==> rgba@.len() == w * h * 4,
{
    let frame = decoder.decode(unit).ok()??;
    let (w, h) = frame.dimensions();
    let mut rgba = vec![0u8; frame.rgba8_len()];
    frame.write_rgba8(&mut rgba);
    Some((w as u32, h as u32, rgba))
}

/// `openh264::encoder::Encoder::with_api_config`: an encoder for a number of bits per second, with a
/// picture that stands for itself after a number of frames, if the system has one to give. Whether it
/// does is not said.
#[verifier::external_body]
fn new_encoder(bits_per_second: u32, intra_frames: u32) -> (r: Option<Encoder>)
    ensures
        r matches Some(e) ==> encoder_steps(e) == seq![
            EncoderStep::Start { bits_per_second, intra_frames },
        ],
{
    let config = EncoderConfig::new()
        .bitrate(BitRate::from_bps(bits_per_second))
        .intra_frame_period(IntraFramePeriod::from_num_frames(intra_frames));
    Encoder::with_api_config(openh264::OpenH264API::from_source(), config).ok()
}

/// `openh264::encoder::Encoder::force_intra_frame`: the next picture stands for itself.
#[verifier::external_body]
fn force_intra_frame(encoder: &mut Encoder)
    ensures
        encoder_steps(*final(encoder)) == encoder_steps(*old(encoder)).push(EncoderStep::Intra),
{
    encoder.force_intra_frame();
}

/// The planes of a picture have the sizes that its strides ask for.
pub open spec fn is_laid_out(p: I420) -> bool {
    &&& p.sy >= p.w
    &&& p.suv >= p.w as int / 2
    &&& p.y@.len() == p.h * p.sy
    &&& p.u@.len() == p.h as int / 2 * p.suv
    &&& p.v@.len() == p.h as int / 2 * p.suv
}

/// `openh264::encoder::Encoder::encode` and `EncodedBitStream::to_vec`: a picture as a piece of the
/// stream, or nothing where the encoder refuses it. The bytes rest on all that was asked of the
/// encoder, of which this is one more, and on the machine; they are not said. The planes have to suit
/// the strides, or `YUVSlices::new` panics.
#[verifier::external_body]
fn encode_picture(encoder: &mut Encoder, p: &I420) -> (r: Option<Vec<u8>>)
    requires
        is_laid_out(*p),
    ensures
        encoder_steps(*final(encoder)) == encoder_steps(*old(encoder)).push(picture_step(*p)),
{
    let planes = (p.y.as_slice(), p.u.as_slice(), p.v.as_slice());
    let source = YUVSlices::new(planes, (p.w, p.h), (p.sy, p.suv, p.suv));
    Some(encoder.encode(&source).ok()?.to_vec())
}

// ---------------------------------------------------------------------------
// Pictures of others
// ---------------------------------------------------------------------------

/// The track of another member.
pub struct RemoteVideo {
    pub decoder: Decoder,
    pub unit: UnitBuffer,
    pub peer_id: u64,
    pub kind: VoiceVideoKind,
}

/// A decoded picture, as the user interface is told of it.
pub open spec fn picture_event(
    peer_id: u64,
    kind: VoiceVideoKind,
    decoded: Option<(u32, u32, Vec<u8>)>,
) -> Option<VoiceEvent> {
    match decoded {
        Some((width, height, rgba)) => Some(
            VoiceEvent::Video { user_id: peer_id, kind, width, height, rgba },
        ),
        None => None,
    }
}

pub fn video_event(
    peer_id: u64,
    kind: VoiceVideoKind,
    decoded: Option<(u32, u32, Vec<u8>)>,
) -> (r: Option<VoiceEvent>)
    ensures
        r == picture_event(peer_id, kind, decoded),
{
    match decoded {
        Some((width, height, rgba)) => Some(
            VoiceEvent::Video { user_id: peer_id, kind, width, height, rgba },
        ),
        None => None,
    }
}

impl RemoteVideo {
    /// Nothing where there is no decoder to be had.
    pub fn new(peer_id: u64, kind: VoiceVideoKind) -> (r: Option<RemoteVideo>)
        ensures
            r matches Some(v) ==> v.peer_id == peer_id && v.kind == kind && v.unit.bytes@.len() == 0
                && decoder_units(v.decoder).len() == 0,
    {
        match new_decoder() {
            Some(decoder) => Some(
                RemoteVideo { decoder, unit: UnitBuffer::new(), peer_id, kind },
            ),
            None => None,
        }
    }

    /// Takes a piece of the track. The piece that bears the mark ends an access unit, which is
    /// decoded; nothing of it is left for the next one.
    pub fn packet(&mut self, piece: Vec<u8>, marker: bool) -> (r: Option<VoiceEvent>)
        ensures
            final(self).peer_id == old(self).peer_id,
            final(self).kind == old(self).kind,
            final(self).unit.bytes@ == if marker {
                Seq::empty()
            } else {
                old(self).unit.bytes@ + piece@
            },
            decoder_units(final(self).decoder) == if marker {
                decoder_units(old(self).decoder).push(old(self).unit.bytes@ + piece@)
            } else {
                decoder_units(old(self).decoder)
            },
            !marker ==> r is None,
            match r {
                Some(VoiceEvent::Video { user_id, kind, width, height, rgba }) => {
                    &&& user_id == old(self).peer_id
                    &&& kind == old(self).kind
                    &&& rgba@.len() == width * height * 4
                },
                Some(_) => false,
                None => true,
            },
    {
        match self.unit.push(piece, marker) {
            Some(unit) => {
                proof {
                    assert(self.unit.bytes@ =~= Seq::empty());
                }
                let decoded = decode_unit(&mut self.decoder, &unit);
                video_event(self.peer_id, self.kind, decoded)
            },
            None => None,
        }
    }
}

// ---------------------------------------------------------------------------
// The user's own pictures
// ---------------------------------------------------------------------------

/// How a source of pictures is captured.
#[derive(Clone, Copy, Debug, PartialEq, Eq, Structural)]
pub struct Capture {
    pub max_width: u32,
    pub bits_per_second: u32,
    pub intra_frames: u32,
    /// Every such frame stands for itself.
    pub key_every: u64,
    pub pause_millis: u64,
    /// How long to wait where no picture could be captured.
    pub retry_millis: u64,
}

/// How the camera or the screen is captured.
pub open spec fn capture_of(kind: VoiceVideoKind) -> Capture {
    match kind {
        VoiceVideoKind::Camera => Capture {
            max_width: 640,
            bits_per_second: 1_500_000,
            intra_frames: 60,
            key_every: 120,
            pause_millis: 66,
            retry_millis: 50,
        },
        VoiceVideoKind::Screen => Capture {
            max_width: 1280,
            bits_per_second: 3_000_000,
            intra_frames: 30,
            key_every: 30,
            pause_millis: 100,
            retry_millis: 100,
        },
    }
}

pub fn capture_settings(kind: VoiceVideoKind) -> (c: Capture)
    ensures
        c == capture_of(kind),
        c.key_every > 0,
{
    match kind {
        VoiceVideoKind::Camera => Capture {
            max_width: 640,
            bits_per_second: 1_500_000,
            intra_frames: 60,
            key_every: 120,
            pause_millis: 66,
            retry_millis: 50,
        },
        VoiceVideoKind::Screen => Capture {
            max_width: 1280,
            bits_per_second: 3_000_000,
            intra_frames: 30,
            key_every: 30,
            pause_millis: 100,
            retry_millis: 100,
        },
    }
}

/// The encoder of a source of pictures.
pub struct LocalVideo {
    pub encoder: Encoder,
    pub capture: Capture,
    pub frame_no: u64,
}

/// The number of the next frame; it starts over behind the largest one.
pub open spec fn next_frame_no(n: u64) -> u64 {
    if n == u64::MAX {
        0
    } else {
        (n + 1) as u64
    }
}

/// What is asked of the encoder for a frame: every `key_every`-th one, from the first on, has to
/// stand for itself.
pub open spec fn frame_steps(frame_no: u64, key_every: u64, picture: I420) -> Seq<EncoderStep> {
    if frame_no % key_every == 0 {
        seq![EncoderStep::Intra, picture_step(picture)]
    } else {
        seq![picture_step(picture)]
    }
}

impl LocalVideo {
    pub open spec fn wf(&self) -> bool {
        self.capture.key_every > 0
    }

    /// Nothing where there is no encoder to be had.
    pub fn new(kind: VoiceVideoKind) -> (r: Option<LocalVideo>)
        ensures
            r matches Some(v) ==> {
                &&& v.wf()
                &&& v.capture == capture_of(kind)
                &&& v.frame_no == 0
                &&& encoder_steps(v.encoder) == seq![
                    EncoderStep::Start {
                        bits_per_second: capture_of(kind).bits_per_second,
                        intra_frames: capture_of(kind).intra_frames,
                    },
                ]
            },
    {
        let capture = capture_settings(kind);
        match new_encoder(capture.bits_per_second, capture.intra_frames) {
            Some(encoder) => Some(LocalVideo { encoder, capture, frame_no: 0 }),
            None => None,
        }
    }

    /// Encodes a picture; nothing where the encoder refuses it.
    pub fn encode(&mut self, picture: &I420) -> (r: Option<Vec<u8>>)
        requires
            old(self).wf(),
            is_laid_out(*picture),
        ensures
            final(self).wf(),
            final(self).capture == old(self).capture,
            final(self).frame_no == next_frame_no(old(self).frame_no),
            encoder_steps(final(self).encoder) == encoder_steps(old(self).encoder) + frame_steps(
                old(self).frame_no,
                old(self).capture.key_every,
                *picture,
            ),
    {
        if is_key_frame(self.frame_no, self.capture.key_every) {
            force_intra_frame(&mut self.encoder);
        }
        self.frame_no = if self.frame_no == u64::MAX {
            0
        } else {
            self.frame_no + 1
        };
        let encoded = encode_picture(&mut self.encoder, picture);
        proof {
            assert(encoder_steps(self.encoder) =~= encoder_steps(old(self).encoder) + frame_steps(
                old(self).frame_no,
                old(self).capture.key_every,
                *picture,
            ));
        }
        encoded
    }
}

} // verus!
