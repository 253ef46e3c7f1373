//! The phonetic pronunciation of words.
use vstd::prelude::*;

use super::voices::{customisation_query, WatsonVoice};
use super::TextToSpeech;
use crate::http::{pair_views, segment_views, Body, BodyView, HttpRequest, Method};
use crate::status::{classify, ErrorKind, Operation};

verus! {

/// The pronunciation of some text.
#[derive(Clone, Debug, PartialEq, Eq, Default)]
pub struct Pronunciation {
    /// The pronunciation in the requested voice and format.
    pub pronunciation: String,
}

/// The phoneme format in which a pronunciation is returned.
#[derive(Clone, Copy, Debug, PartialEq, Eq)]
pub enum PhonemeFormat {
    /// The IBM symbolic phonetic representation.
    IBM,
    /// The International Phonetic Alphabet.
    IPA,
}

impl PhonemeFormat {
    /// The value that the service expects for the format.
    pub open spec fn spec_id(self) -> Seq<char> {
        match self {
            PhonemeFormat::IBM => "ibm"@,
            PhonemeFormat::IPA => "ipa"@,
        }
    }

    /// The value that the service expects for the format.
    pub fn id(&self) -> (r: &'static str)
        ensures
            r@ == self.spec_id(),
    {
        match self {
            PhonemeFormat::IBM => "ibm",
            PhonemeFormat::IPA => "ipa",
        }
    }
}

impl Default for PhonemeFormat {
    /// The International Phonetic Alphabet.
    fn default() -> (r: Self)
        ensures
            r == PhonemeFormat::IPA,
    {
        PhonemeFormat::IPA
    }
}

/// Errors that may be returned when a pronunciation is asked for.
#[derive(Debug, PartialEq, Eq)]
pub enum PronunciationError {
    /// 304: the resource has not been modified since the time given.
    NotModified304,
    /// 406: the Accept header asks for an incompatible content type.
    NotAcceptable406,
    /// 400: a required parameter is missing, or a parameter or header value is invalid.
    BadRequest400,
    /// 401: the identifier given is invalid for the requesting credentials.
    Unauthorised401(String),
    /// 404: the resource does not exist.
    NotFound404,
    /// 500: the service experienced an internal error.
    InternalServerError500,
    /// 503: the service is currently unavailable.
    ServiceUnavailable503,
    /// No response came: the connection failed or the body could not be read.
    ConnectionError(String),
    /// A status that the operation does not document.
    UnmappedResponse(u16),
}

impl PronunciationError {
    /// The kind of failure.
    pub open spec fn kind(self) -> ErrorKind {
        match self {
            PronunciationError::NotModified304 => ErrorKind::NotModified304,
            PronunciationError::NotAcceptable406 => ErrorKind::NotAcceptable406,
            PronunciationError::BadRequest400 => ErrorKind::BadRequest400,
            PronunciationError::Unauthorised401(_) => ErrorKind::Unauthorised401,
            PronunciationError::NotFound404 => ErrorKind::NotFound404,
            PronunciationError::InternalServerError500 => ErrorKind::InternalServerError500,
            PronunciationError::ServiceUnavailable503 => ErrorKind::ServiceUnavailable503,
            PronunciationError::ConnectionError(_) => ErrorKind::ConnectionError,
            PronunciationError::UnmappedResponse(status) => ErrorKind::UnmappedResponse(status),
        }
    }

    /// The failure that the status of an answer stands for; `None` for success.
    /// `customisation_id` is the customisation id given, empty if none;
    /// the failure carries it back.
    pub fn from_status(status: u16, customisation_id: &str) -> (r: Option<PronunciationError>)
        ensures
            r is None <==> classify(Operation::GetPronunciation, status) is None,
            r matches Some(e) ==> classify(Operation::GetPronunciation, status) == Some(e.kind()),
            r matches Some(PronunciationError::Unauthorised401(s)) ==> s@ == customisation_id@,
    {
        match status {
            200 => None,
            304 => Some(PronunciationError::NotModified304),
            406 => Some(PronunciationError::NotAcceptable406),
            400 => Some(PronunciationError::BadRequest400),
            401 => Some(PronunciationError::Unauthorised401(String::from_str(customisation_id))),
            404 => Some(PronunciationError::NotFound404),
            500 => Some(PronunciationError::InternalServerError500),
            503 => Some(PronunciationError::ServiceUnavailable503),
            _ => Some(PronunciationError::UnmappedResponse(status)),
        }
    }
}

/// The query of a pronunciation request: the text, the format (IPA unless
/// given), the voice (the client's unless given) and the custom model if one is
/// given, in that order.
pub open spec fn pronunciation_query(
    text: Seq<char>,
    format: Option<PhonemeFormat>,
    voice: WatsonVoice,
    customisation_id: Option<&str>,
) -> Seq<(Seq<char>, Seq<char>)> {
    let format = match format {
        Some(f) => f,
        None => PhonemeFormat::IPA,
    };
    seq![("text"@, text), ("format"@, format.spec_id()), ("voice"@, voice.spec_id())]
        + customisation_query(customisation_id)
}

impl TextToSpeech {
    /// The voice named, or the client's voice if none is.
    pub open spec fn voice_or_default(&self, voice: Option<WatsonVoice>) -> WatsonVoice {
        match voice {
            Some(v) => v,
            None => self.spec_voice(),
        }
    }

    /// The request for the pronunciation of `text`: `GET v1/pronunciation`.
    pub fn get_pronunciation_request(
        &self,
        text: &str,
        voice: Option<WatsonVoice>,
        format: Option<PhonemeFormat>,
        customisation_id: Option<&str>,
    ) -> (r: HttpRequest)
        ensures
            r@ == self.request_of(
                Method::Get,
                seq!["v1"@, "pronunciation"@],
                pronunciation_query(text@, format, self.voice_or_default(voice), customisation_id),
                BodyView::Empty,
            ),
    {
        let segments = vec!["v1", "pronunciation"];
        let format = match format {
            Some(f) => f,
            None => PhonemeFormat::IPA,
        };
        let voice = match voice {
            Some(v) => v,
            None => self.voice(),
        };
        let mut pairs: Vec<(&str, &str)> = vec![
            ("text", text),
            ("format", format.id()),
            ("voice", voice.id()),
        ];
        match customisation_id {
            Some(id) => pairs.push(("customization_id", id)),
            None => {},
        }
        let r = self.request(Method::Get, &segments, &pairs, Body::Empty);
        assert(segment_views(segments@) =~= seq!["v1"@, "pronunciation"@]);
        assert(pair_views(pairs@) =~= pronunciation_query(
            text@,
            Some(format),
            voice,
            customisation_id,
        ));
        r
    }
}

} // verus!
