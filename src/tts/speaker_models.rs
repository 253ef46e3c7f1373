//! Speaker models, the enrolled voices of the people who record prompts.
use vstd::prelude::*;

use super::customisations::Prompt;
use super::TextToSpeech;
use crate::http::{pair_views, segment_views, Body, BodyView, HttpRequest, Method};
use crate::status::{classify, ErrorKind, Operation};

verus! {

/// A speaker model of the service instance.
#[derive(Clone, Debug, PartialEq, Eq, PartialOrd, Ord, Default)]
pub struct Speaker {
    /// The speaker id of the speaker.
    pub speaker_id: String,
    /// The user-defined name of the speaker.
    pub name: String,
}

/// The prompts that a speaker defined in one custom model.
#[derive(Clone, Debug, PartialEq, Eq)]
pub struct SpeakerCustomModel {
    /// The customisation id of the custom model.
    pub customization_id: String,
    /// The prompts of the speaker in that model.
    pub prompts: Vec<Prompt>,
}

impl TextToSpeech {
    /// The request that lists the speaker models: `GET v1/speakers`.
    pub fn list_speaker_models_request(&self) -> (r: HttpRequest)
        ensures
            r@ == self.request_of(Method::Get, seq!["v1"@, "speakers"@], Seq::empty(), BodyView::Empty),
    {
        let segments = vec!["v1", "speakers"];
        let pairs: Vec<(&str, &str)> = Vec::new();
        let r = self.request(Method::Get, &segments, &pairs, Body::Empty);
        assert(segment_views(segments@) =~= seq!["v1"@, "speakers"@]);
        assert(pair_views(pairs@) =~= Seq::empty());
        r
    }

    /// The request that enrols the speaker `speaker_name` from the WAV sample
    /// `audio`: `POST v1/speakers?speaker_name={name}`.
    pub fn create_speaker_model_request(&self, speaker_name: &str, audio: Vec<u8>) -> (r: HttpRequest)
        ensures
            r@ == self.request_of(
                Method::Post,
                seq!["v1"@, "speakers"@],
                seq![("speaker_name"@, speaker_name@)],
                BodyView::Wav(audio@),
            ),
    {
        let segments = vec!["v1", "speakers"];
        let pairs: Vec<(&str, &str)> = vec![("speaker_name", speaker_name)];
        let r = self.request(Method::Post, &segments, &pairs, Body::Wav(audio));
        assert(segment_views(segments@) =~= seq!["v1"@, "speakers"@]);
        assert(pair_views(pairs@) =~= seq![("speaker_name"@, speaker_name@)]);
        r
    }

    /// The request for the prompts that the speaker `speaker_id` defined, by
    /// custom model: `GET v1/speakers/{speaker_id}`.
    pub fn get_speaker_model_request(&self, speaker_id: &str) -> (r: HttpRequest)
        ensures
            r@ == self.request_of(
                Method::Get,
                seq!["v1"@, "speakers"@, speaker_id@],
                Seq::empty(),
                BodyView::Empty,
            ),
    {
        let segments = vec!["v1", "speakers", speaker_id];
        let pairs: Vec<(&str, &str)> = Vec::new();
        let r = self.request(Method::Get, &segments, &pairs, Body::Empty);
        assert(segment_views(segments@) =~= seq!["v1"@, "speakers"@, speaker_id@]);
        assert(pair_views(pairs@) =~= Seq::empty());
        r
    }

    /// The request that deletes the speaker model `speaker_id`:
    /// `DELETE v1/speakers/{speaker_id}`.
    pub fn delete_speaker_model_request(&self, speaker_id: &str) -> (r: HttpRequest)
        ensures
            r@ == self.request_of(
                Method::Delete,
                seq!["v1"@, "speakers"@, speaker_id@],
                Seq::empty(),
                BodyView::Empty,
            ),
    {
        let segments = vec!["v1", "speakers", speaker_id];
        let pairs: Vec<(&str, &str)> = Vec::new();
        let r = self.request(Method::Delete, &segments, &pairs, Body::Empty);
        assert(segment_views(segments@) =~= seq!["v1"@, "speakers"@, speaker_id@]);
        assert(pair_views(pairs@) =~= Seq::empty());
        r
    }
}

/// Errors that may be returned when the speaker models are listed.
#[derive(Debug, PartialEq, Eq)]
pub enum ListSpeakersError {
    /// 500: the service experienced an internal error.
    InternalServerError500,
    /// 503: the service is currently unavailable.
    ServiceUnavailable503,
    /// No response came: the connection failed or the body could not be read.
    ConnectionError(String),
    /// 400: a required parameter is missing, or a parameter or header value is invalid.
    BadRequest400,
    /// A status that the operation does not document.
    UnmappedResponse(u16),
}

impl ListSpeakersError {
    /// The kind of failure.
    pub open spec fn kind(self) -> ErrorKind {
        match self {
            ListSpeakersError::InternalServerError500 => ErrorKind::InternalServerError500,
            ListSpeakersError::ServiceUnavailable503 => ErrorKind::ServiceUnavailable503,
            ListSpeakersError::ConnectionError(_) => ErrorKind::ConnectionError,
            ListSpeakersError::BadRequest400 => ErrorKind::BadRequest400,
            ListSpeakersError::UnmappedResponse(status) => ErrorKind::UnmappedResponse(status),
        }
    }

    /// The failure that the status of an answer stands for; `None` for success.
    pub fn from_status(status: u16) -> (r: Option<ListSpeakersError>)
        ensures
            r is None <==> classify(Operation::ListSpeakerModels, status) is None,
            r matches Some(e) ==> classify(Operation::ListSpeakerModels, status) == Some(e.kind()),
    {
        match status {
            200 => None,
            500 => Some(ListSpeakersError::InternalServerError500),
            503 => Some(ListSpeakersError::ServiceUnavailable503),
            400 => Some(ListSpeakersError::BadRequest400),
            _ => Some(ListSpeakersError::UnmappedResponse(status)),
        }
    }
}

/// Errors that may be returned when a speaker model is created.
#[derive(Debug, PartialEq, Eq)]
pub enum CreateSpeakerError {
    /// 400: a required parameter is missing, or a parameter or header value is invalid.
    BadRequest400,
    /// 503: the service is currently unavailable.
    ServiceUnavailable503,
    /// 500: the service experienced an internal error.
    InternalServerError500,
    /// The file to upload could not be read.
    FileReadError(String),
    /// 415: the request has an unacceptable media type.
    UnsupportedMediaType415,
    /// 401: the identifier given is invalid for the requesting credentials.
    Unauthorised401(String),
    /// No response came: the connection failed or the body could not be read.
    ConnectionError(String),
    /// A status that the operation does not document.
    UnmappedResponse(u16),
}

impl CreateSpeakerError {
    /// The kind of failure.
    pub open spec fn kind(self) -> ErrorKind {
        match self {
            CreateSpeakerError::BadRequest400 => ErrorKind::BadRequest400,
            CreateSpeakerError::ServiceUnavailable503 => ErrorKind::ServiceUnavailable503,
            CreateSpeakerError::InternalServerError500 => ErrorKind::InternalServerError500,
            CreateSpeakerError::FileReadError(_) => ErrorKind::FileReadError,
            CreateSpeakerError::UnsupportedMediaType415 => ErrorKind::UnsupportedMediaType415,
            CreateSpeakerError::Unauthorised401(_) => ErrorKind::Unauthorised401,
            CreateSpeakerError::ConnectionError(_) => ErrorKind::ConnectionError,
            CreateSpeakerError::UnmappedResponse(status) => ErrorKind::UnmappedResponse(status),
        }
    }

    /// The failure that the status of an answer stands for; `None` for success.
    /// `speaker_name` is the name of the new speaker;
    /// the failure carries it back.
    pub fn from_status(status: u16, speaker_name: &str) -> (r: Option<CreateSpeakerError>)
        ensures
            r is None <==> classify(Operation::CreateSpeakerModel, status) is None,
            r matches Some(e) ==> classify(Operation::CreateSpeakerModel, status) == Some(e.kind()),
            r matches Some(CreateSpeakerError::Unauthorised401(s)) ==> s@ == speaker_name@,
    {
        match status {
            201 => None,
            400 => Some(CreateSpeakerError::BadRequest400),
            503 => Some(CreateSpeakerError::ServiceUnavailable503),
            500 => Some(CreateSpeakerError::InternalServerError500),
            415 => Some(CreateSpeakerError::UnsupportedMediaType415),
            401 => Some(CreateSpeakerError::Unauthorised401(String::from_str(speaker_name))),
            _ => Some(CreateSpeakerError::UnmappedResponse(status)),
        }
    }
}

/// Errors that may be returned when a speaker model is asked about.
#[derive(Debug, PartialEq, Eq)]
pub enum GetSpeakerError {
    /// No response came: the connection failed or the body could not be read.
    ConnectionError(String),
    /// 400: a required parameter is missing, or a parameter or header value is invalid.
    BadRequest400,
    /// 503: the service is currently unavailable.
    ServiceUnavailable503,
    /// 500: the service experienced an internal error.
    InternalServerError500,
    /// 401: the identifier given is invalid for the requesting credentials.
    Unauthorised401(String),
    /// 304: the resource has not been modified since the time given.
    NotModified304,
    /// A status that the operation does not document.
    UnmappedResponse(u16),
}

impl GetSpeakerError {
    /// The kind of failure.
    pub open spec fn kind(self) -> ErrorKind {
        match self {
            GetSpeakerError::ConnectionError(_) => ErrorKind::ConnectionError,
            GetSpeakerError::BadRequest400 => ErrorKind::BadRequest400,
            GetSpeakerError::ServiceUnavailable503 => ErrorKind::ServiceUnavailable503,
            GetSpeakerError::InternalServerError500 => ErrorKind::InternalServerError500,
            GetSpeakerError::Unauthorised401(_) => ErrorKind::Unauthorised401,
            GetSpeakerError::NotModified304 => ErrorKind::NotModified304,
            GetSpeakerError::UnmappedResponse(status) => ErrorKind::UnmappedResponse(status),
        }
    }

    /// The failure that the status of an answer stands for; `None` for success.
    /// `speaker_id` is the speaker id of the model;
    /// the failure carries it back.
    pub fn from_status(status: u16, speaker_id: &str) -> (r: Option<GetSpeakerError>)
        ensures
            r is None <==> classify(Operation::GetSpeakerModel, status) is None,
            r matches Some(e) ==> classify(Operation::GetSpeakerModel, status) == Some(e.kind()),
            r matches Some(GetSpeakerError::Unauthorised401(s)) ==> s@ == speaker_id@,
    {
        match status {
            200 => None,
            400 => Some(GetSpeakerError::BadRequest400),
            503 => Some(GetSpeakerError::ServiceUnavailable503),
            500 => Some(GetSpeakerError::InternalServerError500),
            401 => Some(GetSpeakerError::Unauthorised401(String::from_str(speaker_id))),
            304 => Some(GetSpeakerError::NotModified304),
            _ => Some(GetSpeakerError::UnmappedResponse(status)),
        }
    }
}

/// Errors that may be returned when a speaker model is deleted.
#[derive(Debug, PartialEq, Eq)]
pub enum DeleteSpeakerError {
    /// No response came: the connection failed or the body could not be read.
    ConnectionError(String),
    /// 400: a required parameter is missing, or a parameter or header value is invalid.
    BadRequest400(String),
    /// 503: the service is currently unavailable.
    ServiceUnavailable503,
    /// 500: the service experienced an internal error.
    InternalServerError500,
    /// 401: the identifier given is invalid for the requesting credentials.
    Unauthorised401(String),
    /// A status that the operation does not document.
    UnmappedResponse(u16),
}

impl DeleteSpeakerError {
    /// The kind of failure.
    pub open spec fn kind(self) -> ErrorKind {
        match self {
            DeleteSpeakerError::ConnectionError(_) => ErrorKind::ConnectionError,
            DeleteSpeakerError::BadRequest400(_) => ErrorKind::BadRequest400,
            DeleteSpeakerError::ServiceUnavailable503 => ErrorKind::ServiceUnavailable503,
            DeleteSpeakerError::InternalServerError500 => ErrorKind::InternalServerError500,
            DeleteSpeakerError::Unauthorised401(_) => ErrorKind::Unauthorised401,
            DeleteSpeakerError::UnmappedResponse(status) => ErrorKind::UnmappedResponse(status),
        }
    }

    /// The failure that the status of an answer stands for; `None` for success.
    /// `speaker_id` is the speaker id of the model;
    /// the failure carries it back.
    pub fn from_status(status: u16, speaker_id: &str) -> (r: Option<DeleteSpeakerError>)
        ensures
            r is None <==> classify(Operation::DeleteSpeakerModel, status) is None,
            r matches Some(e) ==> classify(Operation::DeleteSpeakerModel, status) == Some(e.kind()),
            r matches Some(DeleteSpeakerError::BadRequest400(s)) ==> s@ == speaker_id@,
            r matches Some(DeleteSpeakerError::Unauthorised401(s)) ==> s@ == speaker_id@,
    {
        match status {
            204 => None,
            400 => Some(DeleteSpeakerError::BadRequest400(String::from_str(speaker_id))),
            503 => Some(DeleteSpeakerError::ServiceUnavailable503),
            500 => Some(DeleteSpeakerError::InternalServerError500),
            401 => Some(DeleteSpeakerError::Unauthorised401(String::from_str(speaker_id))),
            _ => Some(DeleteSpeakerError::UnmappedResponse(status)),
        }
    }
}

} // verus!
