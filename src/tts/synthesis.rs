//! Synthesising text to audio.
use vstd::prelude::*;

use super::voices::WatsonVoice;
use super::TextToSpeech;
use crate::encoding::{decimal, push_decimal};
use crate::http::{pair_views, segment_views, Body, BodyView, HttpRequest, Method};
use crate::status::{classify, ErrorKind, Operation};
use super::voices::customisation_query;

verus! {

/// The byte order of linear PCM audio.
#[derive(Clone, Copy, Debug, PartialEq, Eq)]
pub enum AudioEndianness {
    /// Big endian.
    BigEndian,
    /// Little endian.
    LittleEndian,
}

impl AudioEndianness {
    /// The value that the service expects for the byte order.
    pub open spec fn spec_id(self) -> Seq<char> {
        match self {
            AudioEndianness::BigEndian => "big-endian"@,
            AudioEndianness::LittleEndian => "little-endian"@,
        }
    }

    /// The value that the service expects for the byte order.
    pub fn id(&self) -> (r: &'static str)
        ensures
            r@ == self.spec_id(),
    {
        match self {
            AudioEndianness::BigEndian => "big-endian",
            AudioEndianness::LittleEndian => "little-endian",
        }
    }
}

impl Default for AudioEndianness {
    /// Little endian.
    fn default() -> (r: Self)
        ensures
            r == AudioEndianness::LittleEndian,
    {
        AudioEndianness::LittleEndian
    }
}

/// The audio formats (MIME types) in which the service can return audio.
#[allow(inconsistent_fields)]
#[derive(Clone, Copy, Debug, PartialEq, Eq)]
pub enum AudioFormat {
    /// A-law audio; the rate must be given.
    AudioAlaw { sample_rate: u16 },
    /// Basic audio, sampled at 8000 Hz.
    AudioBasic,
    /// FLAC audio; 22050 Hz unless given.
    AudioFlac { sample_rate: Option<u16> },
    /// Linear PCM audio; the rate must be given, the byte order is little-endian unless given.
    AudioL16 { sample_rate: u16, endianess: Option<AudioEndianness> },
    /// Ogg audio; 22050 Hz unless given.
    AudioOgg { sample_rate: Option<u16> },
    /// Ogg audio in the Opus codec; 48000 Hz unless given.
    AudioOggCodecsOpus { sample_rate: Option<u16> },
    /// Ogg audio in the Vorbis codec; 22050 Hz unless given.
    AudioOggCodecsVorbis { sample_rate: Option<u16> },
    /// MP3 audio; 22050 Hz unless given.
    AudioMp3 { sample_rate: Option<u16> },
    /// MPEG audio; 22050 Hz unless given.
    AudioMpeg { sample_rate: Option<u16> },
    /// Mu-law audio; the rate must be given.
    AudioMulaw { sample_rate: u16 },
    /// WAV audio; 22050 Hz unless given.
    AudioWav { sample_rate: Option<u16> },
    /// WebM audio in the Opus codec, sampled at 48000 Hz.
    AudioWebm,
    /// WebM audio in the Opus codec, sampled at 48000 Hz.
    AudioWebmCodecsOpus,
    /// WebM audio in the Vorbis codec; 22050 Hz unless given.
    AudioWebmCodecsVorbis { sample_rate: Option<u16> },
}

/// The rate used by most formats when none is given.
pub const DEFAULT_RATE: u16 = 22050;

/// The rate used by Ogg Opus audio when none is given.
pub const OPUS_DEFAULT_RATE: u16 = 48000;

/// A media type with its sampling rate.
pub open spec fn with_rate(media_type: Seq<char>, rate: u16) -> Seq<char> {
    media_type + ";rate="@ + decimal(rate as nat)
}

/// The rate given, or `default` if none is.
pub open spec fn rate_or(rate: Option<u16>, default: u16) -> u16 {
    match rate {
        Some(r) => r,
        None => default,
    }
}

/// The byte order given, or little-endian if none is.
pub open spec fn endianness_or_default(e: Option<AudioEndianness>) -> AudioEndianness {
    match e {
        Some(e) => e,
        None => AudioEndianness::LittleEndian,
    }
}

impl AudioFormat {
    /// The MIME type that the service expects for the format.
    pub open spec fn spec_id(self) -> Seq<char> {
        match self {
            AudioFormat::AudioAlaw { sample_rate } => with_rate("audio/alaw"@, sample_rate),
            AudioFormat::AudioBasic => "audio/basic"@,
            AudioFormat::AudioFlac { sample_rate } => with_rate(
                "audio/flac"@,
                rate_or(sample_rate, DEFAULT_RATE),
            ),
            AudioFormat::AudioL16 { sample_rate, endianess } => with_rate("audio/l16"@, sample_rate)
                + ";endianness="@ + endianness_or_default(endianess).spec_id(),
            AudioFormat::AudioOgg { sample_rate } => with_rate(
                "audio/ogg"@,
                rate_or(sample_rate, DEFAULT_RATE),
            ),
            AudioFormat::AudioOggCodecsOpus { sample_rate } => with_rate(
                "audio/ogg;codecs=opus"@,
                rate_or(sample_rate, OPUS_DEFAULT_RATE),
            ),
            AudioFormat::AudioOggCodecsVorbis { sample_rate } => with_rate(
                "audio/ogg;codecs=vorbis"@,
                rate_or(sample_rate, DEFAULT_RATE),
            ),
            AudioFormat::AudioMp3 { sample_rate } => with_rate(
                "audio/mp3"@,
                rate_or(sample_rate, DEFAULT_RATE),
            ),
            AudioFormat::AudioMpeg { sample_rate } => with_rate(
                "audio/mpeg"@,
                rate_or(sample_rate, DEFAULT_RATE),
            ),
            AudioFormat::AudioMulaw { sample_rate } => with_rate("audio/mulaw"@, sample_rate),
            AudioFormat::AudioWav { sample_rate } => with_rate(
                "audio/wav"@,
                rate_or(sample_rate, DEFAULT_RATE),
            ),
            AudioFormat::AudioWebm => "audio/webm"@,
            AudioFormat::AudioWebmCodecsOpus => "audio/webm;codecs=opus"@,
            AudioFormat::AudioWebmCodecsVorbis { sample_rate } => with_rate(
                "audio/webm;codecs=vorbis"@,
                rate_or(sample_rate, DEFAULT_RATE),
            ),
        }
    }

    /// The MIME type that the service expects for the format.
    pub fn id(&self) -> (r: String)
        ensures
            r@ == self.spec_id(),
    {
        match *self {
            AudioFormat::AudioAlaw { sample_rate } => rated("audio/alaw", sample_rate),
            AudioFormat::AudioBasic => String::from_str("audio/basic"),
            AudioFormat::AudioFlac { sample_rate } => rated("audio/flac", or_rate(sample_rate, DEFAULT_RATE)),
            AudioFormat::AudioL16 { sample_rate, endianess } => {
                let mut r = rated("audio/l16", sample_rate);
                r.append(";endianness=");
                let byte_order = match endianess {
                    Some(e) => e,
                    None => AudioEndianness::LittleEndian,
                };
                r.append(byte_order.id());
                r
            },
            AudioFormat::AudioOgg { sample_rate } => rated("audio/ogg", or_rate(sample_rate, DEFAULT_RATE)),
            AudioFormat::AudioOggCodecsOpus { sample_rate } => rated(
                "audio/ogg;codecs=opus",
                or_rate(sample_rate, OPUS_DEFAULT_RATE),
            ),
            AudioFormat::AudioOggCodecsVorbis { sample_rate } => rated(
                "audio/ogg;codecs=vorbis",
                or_rate(sample_rate, DEFAULT_RATE),
            ),
            AudioFormat::AudioMp3 { sample_rate } => rated("audio/mp3", or_rate(sample_rate, DEFAULT_RATE)),
            AudioFormat::AudioMpeg { sample_rate } => rated("audio/mpeg", or_rate(sample_rate, DEFAULT_RATE)),
            AudioFormat::AudioMulaw { sample_rate } => rated("audio/mulaw", sample_rate),
            AudioFormat::AudioWav { sample_rate } => rated("audio/wav", or_rate(sample_rate, DEFAULT_RATE)),
            AudioFormat::AudioWebm => String::from_str("audio/webm"),
            AudioFormat::AudioWebmCodecsOpus => String::from_str("audio/webm;codecs=opus"),
            AudioFormat::AudioWebmCodecsVorbis { sample_rate } => rated(
                "audio/webm;codecs=vorbis",
                or_rate(sample_rate, DEFAULT_RATE),
            ),
        }
    }
}

impl Default for AudioFormat {
    /// Ogg audio in the Opus codec at 48000 Hz.
    fn default() -> (r: Self)
        ensures
            r == (AudioFormat::AudioOggCodecsOpus { sample_rate: Some(OPUS_DEFAULT_RATE) }),
    {
        AudioFormat::AudioOggCodecsOpus { sample_rate: Some(OPUS_DEFAULT_RATE) }
    }
}

fn or_rate(rate: Option<u16>, default: u16) -> (r: u16)
    ensures
        r == rate_or(rate, default),
{
    match rate {
        Some(r) => r,
        None => default,
    }
}

fn rated(media_type: &str, rate: u16) -> (r: String)
    ensures
        r@ == with_rate(media_type@, rate),
{
    let mut r = String::from_str(media_type);
    r.append(";rate=");
    push_decimal(&mut r, rate as u64);
    r
}

/// Every format whose sampling rate is optional, given none, is named with its
/// documented default rate: 48000 Hz for Ogg Opus and 22050 Hz for the others.
pub proof fn lemma_default_sample_rates()
    ensures
        (AudioFormat::AudioFlac { sample_rate: None }).spec_id() == "audio/flac;rate=22050"@,
        (AudioFormat::AudioOgg { sample_rate: None }).spec_id() == "audio/ogg;rate=22050"@,
        (AudioFormat::AudioOggCodecsOpus { sample_rate: None }).spec_id()
            == "audio/ogg;codecs=opus;rate=48000"@,
        (AudioFormat::AudioOggCodecsVorbis { sample_rate: None }).spec_id()
            == "audio/ogg;codecs=vorbis;rate=22050"@,
        (AudioFormat::AudioMp3 { sample_rate: None }).spec_id() == "audio/mp3;rate=22050"@,
        (AudioFormat::AudioMpeg { sample_rate: None }).spec_id() == "audio/mpeg;rate=22050"@,
        (AudioFormat::AudioWav { sample_rate: None }).spec_id() == "audio/wav;rate=22050"@,
        (AudioFormat::AudioWebmCodecsVorbis { sample_rate: None }).spec_id()
            == "audio/webm;codecs=vorbis;rate=22050"@,
{
    reveal_with_fuel(decimal, 5);
    assert(decimal(22050) =~= "22050"@) by {
        reveal_strlit("22050");
    }
    assert(decimal(48000) =~= "48000"@) by {
        reveal_strlit("48000");
    }
    reveal_strlit(";rate=");
    reveal_strlit("audio/flac");
    reveal_strlit("audio/flac;rate=22050");
    assert(with_rate("audio/flac"@, 22050) =~= "audio/flac;rate=22050"@);
    reveal_strlit("audio/ogg");
    reveal_strlit("audio/ogg;rate=22050");
    assert(with_rate("audio/ogg"@, 22050) =~= "audio/ogg;rate=22050"@);
    reveal_strlit("audio/ogg;codecs=opus");
    reveal_strlit("audio/ogg;codecs=opus;rate=48000");
    assert(with_rate("audio/ogg;codecs=opus"@, 48000) =~= "audio/ogg;codecs=opus;rate=48000"@);
    reveal_strlit("audio/ogg;codecs=vorbis");
    reveal_strlit("audio/ogg;codecs=vorbis;rate=22050");
    assert(with_rate("audio/ogg;codecs=vorbis"@, 22050) =~= "audio/ogg;codecs=vorbis;rate=22050"@);
    reveal_strlit("audio/mp3");
    reveal_strlit("audio/mp3;rate=22050");
    assert(with_rate("audio/mp3"@, 22050) =~= "audio/mp3;rate=22050"@);
    reveal_strlit("audio/mpeg");
    reveal_strlit("audio/mpeg;rate=22050");
    assert(with_rate("audio/mpeg"@, 22050) =~= "audio/mpeg;rate=22050"@);
    reveal_strlit("audio/wav");
    reveal_strlit("audio/wav;rate=22050");
    assert(with_rate("audio/wav"@, 22050) =~= "audio/wav;rate=22050"@);
    reveal_strlit("audio/webm;codecs=vorbis");
    reveal_strlit("audio/webm;codecs=vorbis;rate=22050");
    assert(with_rate("audio/webm;codecs=vorbis"@, 22050) =~= "audio/webm;codecs=vorbis;rate=22050"@);
}

/// Errors that may be returned when text is synthesised.
#[derive(Debug, PartialEq, Eq)]
pub enum SynthesisError {
    /// 400: a required parameter is missing, or a parameter or header value is invalid.
    BadRequest400,
    /// 404: the resource does not exist.
    NotFound404,
    /// 406: the Accept header asks for an incompatible content type.
    NotAcceptable406,
    /// 415: the request has an unacceptable media type.
    UnsupportedMediaType415,
    /// 500: the service experienced an internal error.
    InternalServerError500,
    /// 503: the service is currently unavailable.
    ServiceUnavailable503,
    /// No response came: the connection failed or the body could not be read.
    ConnectionError(String),
    /// A status that the operation does not document.
    UnmappedResponse(u16),
}

impl SynthesisError {
    /// The kind of failure.
    pub open spec fn kind(self) -> ErrorKind {
        match self {
            SynthesisError::BadRequest400 => ErrorKind::BadRequest400,
            SynthesisError::NotFound404 => ErrorKind::NotFound404,
            SynthesisError::NotAcceptable406 => ErrorKind::NotAcceptable406,
            SynthesisError::UnsupportedMediaType415 => ErrorKind::UnsupportedMediaType415,
            SynthesisError::InternalServerError500 => ErrorKind::InternalServerError500,
            SynthesisError::ServiceUnavailable503 => ErrorKind::ServiceUnavailable503,
            SynthesisError::ConnectionError(_) => ErrorKind::ConnectionError,
            SynthesisError::UnmappedResponse(status) => ErrorKind::UnmappedResponse(status),
        }
    }

    /// The failure that the status of an answer stands for; `None` for success.
    pub fn from_status(status: u16) -> (r: Option<SynthesisError>)
        ensures
            r is None <==> classify(Operation::Synthesise, status) is None,
            r matches Some(e) ==> classify(Operation::Synthesise, status) == Some(e.kind()),
    {
        match status {
            200 => None,
            400 => Some(SynthesisError::BadRequest400),
            404 => Some(SynthesisError::NotFound404),
            406 => Some(SynthesisError::NotAcceptable406),
            415 => Some(SynthesisError::UnsupportedMediaType415),
            500 => Some(SynthesisError::InternalServerError500),
            503 => Some(SynthesisError::ServiceUnavailable503),
            _ => Some(SynthesisError::UnmappedResponse(status)),
        }
    }
}

/// The query of a synthesis request: the text, the voice, the format if one is
/// asked for and the custom model if one is given, in that order.
pub open spec fn synthesis_query(
    text: Seq<char>,
    voice: WatsonVoice,
    format: Option<AudioFormat>,
    customisation_id: Option<&str>,
) -> Seq<(Seq<char>, Seq<char>)> {
    seq![("text"@, text), ("voice"@, voice.spec_id())] + match format {
        Some(f) => seq![("accept"@, f.spec_id())],
        None => Seq::empty(),
    } + customisation_query(customisation_id)
}

impl TextToSpeech {
    /// The request that synthesises `text` in the voice set for the client:
    /// `GET v1/synthesize`.
    pub fn synthesise_request(
        &self,
        text: &str,
        format: Option<AudioFormat>,
        customisation_id: Option<&str>,
    ) -> (r: HttpRequest)
        ensures
            r@ == self.request_of(
                Method::Get,
                seq!["v1"@, "synthesize"@],
                synthesis_query(text@, self.spec_voice(), format, customisation_id),
                BodyView::Empty,
            ),
    {
        let segments = vec!["v1", "synthesize"];
        let voice = self.voice();
        let accept = match format {
            Some(f) => f.id(),
            None => String::new(),
        };
        let mut pairs: Vec<(&str, &str)> = vec![("text", text), ("voice", voice.id())];
        match format {
            Some(_) => pairs.push(("accept", accept.as_str())),
            None => {},
        }
        match customisation_id {
            Some(id) => pairs.push(("customization_id", id)),
            None => {},
        }
        let r = self.request(Method::Get, &segments, &pairs, Body::Empty);
        assert(segment_views(segments@) =~= seq!["v1"@, "synthesize"@]);
        assert(pair_views(pairs@) =~= synthesis_query(text@, self.spec_voice(), format, customisation_id));
        r
    }

    /// The result of a synthesis whose answer had `status` and `body`: on
    /// success the audio, byte for byte.
    pub fn synthesis_outcome(status: u16, body: Vec<u8>) -> (r: Result<Vec<u8>, SynthesisError>)
        ensures
            status == 200 ==> (r matches Ok(audio) && audio@ == body@),
            status != 200 ==> (r matches Err(e) && classify(Operation::Synthesise, status) == Some(
                e.kind(),
            )),
    {
        match SynthesisError::from_status(status) {
            None => Ok(body),
            Some(e) => Err(e),
        }
    }
}

} // verus!
