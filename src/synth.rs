//! Turning synthesizer output into 16 kHz mono PCM ready for framing.
use vstd::prelude::*;
use crate::audio::{first_channel, pcm_from_le_bytes, resample_24k_to_16k, resampled};
use crate::json::JsonValue;

verus! {

/// One decoded MP3 frame: interleaved samples, sample rate and channel count.
pub struct Mp3Frame {
    pub data: Vec<i16>,
    pub sample_rate: i32,
    pub channels: usize,
}

/// The frames an MP3 stream decodes to, as (samples, sample rate, channels).
pub uninterp spec fn mp3_frames(bytes: Seq<u8>) -> Seq<(Seq<i16>, i32, usize)>;

/// The bytes a standard base64 text (with padding) decodes to.
pub uninterp spec fn base64_decoded(text: Seq<char>) -> Seq<u8>;

/// Frames as plain values.
pub open spec fn frames_view(fs: Seq<Mp3Frame>) -> Seq<(Seq<i16>, i32, usize)> {
    fs.map_values(|f: Mp3Frame| (f.data@, f.sample_rate, f.channels))
}

/// Relies on `minimp3::Decoder::next_frame`, read until `Error::Eof`: the decoded
/// frames in order; any other error fails the decode.
#[verifier::external_body]
fn decode_mp3(bytes: &[u8]) -> (r: Result<Vec<Mp3Frame>, String>)
    ensures
        r matches Ok(fs) ==> frames_view(fs@) == mp3_frames(bytes@),
{
    let mut decoder = minimp3::Decoder::new(bytes);
    let mut frames = Vec::new();
    loop {
        match decoder.next_frame() {
            Ok(f) => frames.push(Mp3Frame { data: f.data, sample_rate: f.sample_rate, channels: f.channels }),
            Err(minimp3::Error::Eof) => return Ok(frames),
            Err(e) => return Err(format!("MP3 decode error: {:?}", e)),
        }
    }
}

/// Relies on `base64::engine::general_purpose::STANDARD.decode`; `None` for text that
/// is not valid base64.
#[verifier::external_body]
fn decode_base64(text: &str) -> (r: Option<Vec<u8>>)
    ensures
        r matches Some(b) ==> b@ == base64_decoded(text@),
{
    base64::Engine::decode(&base64::engine::general_purpose::STANDARD, text).ok()
}

/// The first channel of a frame; a frame that claims no channels counts as mono.
pub open spec fn mono(f: (Seq<i16>, i32, usize)) -> Seq<i16> {
    if f.2 <= 1 {
        f.0
    } else {
        Seq::new(((f.0.len() + f.2 - 1) / f.2 as int) as nat, |k: int| f.0[k * f.2])
    }
}

/// The samples of all frames, first channel only.
pub open spec fn mono_samples(fs: Seq<(Seq<i16>, i32, usize)>) -> Seq<i16>
    decreases fs.len(),
{
    if fs.len() == 0 {
        Seq::empty()
    } else {
        mono_samples(fs.drop_last()) + mono(fs.last())
    }
}

/// The sample rate of the stream: that of the first frame that states one.
pub open spec fn stream_rate(fs: Seq<(Seq<i16>, i32, usize)>) -> i32
    decreases fs.len(),
{
    if fs.len() == 0 {
        0
    } else if fs[0].1 != 0 {
        fs[0].1
    } else {
        stream_rate(fs.drop_first())
    }
}

/// 16 kHz mono PCM from decoded frames: the first channel, converted from 24 kHz
/// unless the stream already is at 16 kHz.
pub open spec fn speech_pcm(fs: Seq<(Seq<i16>, i32, usize)>) -> Seq<i16> {
    if stream_rate(fs) == 16000 {
        mono_samples(fs)
    } else {
        resampled(mono_samples(fs))
    }
}

/// See `speech_pcm`.
pub fn pcm_of_frames(frames: &Vec<Mp3Frame>) -> (r: Vec<i16>)
    ensures
        r@ == speech_pcm(frames_view(frames@)),
{
    let ghost fv = frames_view(frames@);
    let mut pcm: Vec<i16> = Vec::new();
    let mut rate: i32 = 0;
    let mut i: usize = 0;
    assert(fv.subrange(0, fv.len() as int) == fv);
    while i < frames.len()
        invariant
            i <= frames@.len(),
            fv == frames_view(frames@),
            pcm@ == mono_samples(fv.subrange(0, i as int)),
            stream_rate(fv) == (if rate != 0 { rate } else { stream_rate(fv.subrange(i as int, fv.len() as int)) }),
        decreases frames.len() - i,
    {
        let f = &frames[i];
        assert(fv.subrange(0, i + 1).drop_last() == fv.subrange(0, i as int));
        assert(fv[i as int] == (f.data@, f.sample_rate, f.channels));
        let ghost rest = fv.subrange(i as int, fv.len() as int);
        assert(rest.drop_first() == fv.subrange(i + 1, fv.len() as int));
        if rate == 0 {
            rate = f.sample_rate;
        }
        let ghost before = pcm@;
        if f.channels <= 1 {
            let mut k: usize = 0;
            while k < f.data.len()
                invariant
                    k <= f.data@.len(),
                    pcm@ == before + f.data@.subrange(0, k as int),
                decreases f.data.len() - k,
            {
                pcm.push(f.data[k]);
                assert(f.data@.subrange(0, k + 1) == f.data@.subrange(0, k as int).push(f.data@[k as int]));
                k = k + 1;
            }
            assert(f.data@.subrange(0, f.data@.len() as int) == f.data@);
        } else {
            let part = first_channel(f.data.as_slice(), f.channels);
            let mut k: usize = 0;
            while k < part.len()
                invariant
                    k <= part@.len(),
                    pcm@ == before + part@.subrange(0, k as int),
                decreases part.len() - k,
            {
                pcm.push(part[k]);
                assert(part@.subrange(0, k + 1) == part@.subrange(0, k as int).push(part@[k as int]));
                k = k + 1;
            }
            assert(part@.subrange(0, part@.len() as int) == part@);
            assert(part@ == mono(fv[i as int]));
        }
        i = i + 1;
    }
    assert(fv.subrange(0, fv.len() as int) == fv);
    if rate == 16000 {
        pcm
    } else {
        resample_24k_to_16k(pcm.as_slice())
    }
}

/// 16 kHz mono PCM from an MP3 stream.
pub fn mp3_speech_pcm(bytes: &[u8]) -> (r: Result<Vec<i16>, String>)
    ensures
        r matches Ok(pcm) ==> pcm@ == speech_pcm(mp3_frames(bytes@)),
{
    match decode_mp3(bytes) {
        Ok(frames) => Ok(pcm_of_frames(&frames)),
        Err(e) => Err(e),
    }
}

/// Where the audio of a speech-generation reply sits:
/// `candidates[0].content.parts[0].inlineData.data`.
pub open spec fn inline_audio(reply: JsonValue) -> Option<Seq<char>> {
    match reply.spec_get("candidates"@) {
        Some(JsonValue::Array(cs)) if cs@.len() > 0 => match cs@[0].spec_get("content"@) {
            Some(content) => match content.spec_get("parts"@) {
                Some(JsonValue::Array(ps)) if ps@.len() > 0 => match ps@[0].spec_get("inlineData"@) {
                    Some(d) => match d.spec_get("data"@) {
                        Some(v) => v.spec_as_str(),
                        None => None,
                    },
                    None => None,
                },
                _ => None,
            },
            None => None,
        },
        _ => None,
    }
}

/// The first item of an array member.
fn first_of<'a>(v: &'a JsonValue, key: &str) -> (r: Option<&'a JsonValue>)
    ensures
        r matches Some(x) ==> v.spec_get(key@) matches Some(JsonValue::Array(items)) && items@.len() > 0 && *x == items@[0],
        r is None ==> !(v.spec_get(key@) matches Some(JsonValue::Array(items)) && items@.len() > 0),
{
    match v.get(key) {
        Some(JsonValue::Array(items)) => {
            if items.len() > 0 {
                Some(&items[0])
            } else {
                None
            }
        },
        _ => None,
    }
}

/// The base64 audio text of a speech-generation reply.
pub fn inline_audio_of(reply: &JsonValue) -> (r: Option<&str>)
    ensures
        r matches Some(t) ==> inline_audio(*reply) == Some(t@),
        r is None ==> inline_audio(*reply) is None,
{
    let candidate = match first_of(reply, "candidates") {
        Some(c) => c,
        None => {
            return None;
        },
    };
    let content = match candidate.get("content") {
        Some(c) => c,
        None => {
            return None;
        },
    };
    let part = match first_of(content, "parts") {
        Some(p) => p,
        None => {
            return None;
        },
    };
    match part.get("inlineData") {
        Some(d) => match d.get("data") {
            Some(v) => v.as_str(),
            None => None,
        },
        None => None,
    }
}

/// 16 kHz PCM from a speech-generation reply, which carries 24 kHz little-endian PCM
/// as base64; `None` when the reply holds no decodable audio.
pub fn inline_speech_pcm(reply: &JsonValue) -> (r: Option<Vec<i16>>)
    ensures
        inline_audio(*reply) is None ==> r is None,
        r matches Some(pcm) ==> inline_audio(*reply) matches Some(t) && ({
            let bytes = base64_decoded(t);
            pcm@ == resampled(Seq::new((bytes.len() / 2) as nat, |k: int| crate::audio::le_sample(bytes[2 * k], bytes[2 * k + 1])))
        }),
{
    let text = match inline_audio_of(reply) {
        Some(t) => t,
        None => {
            return None;
        },
    };
    let bytes = match decode_base64(text) {
        Some(b) => b,
        None => {
            return None;
        },
    };
    let pcm = pcm_from_le_bytes(bytes.as_slice());
    let ghost b = bytes@;
    assert(pcm@ == Seq::new((b.len() / 2) as nat, |k: int| crate::audio::le_sample(b[2 * k], b[2 * k + 1])));
    Some(resample_24k_to_16k(pcm.as_slice()))
}

} // verus!
