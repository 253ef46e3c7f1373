//! The meaning of a response status, for every operation of the services.
use vstd::prelude::*;

verus! {

/// The kinds of failure in which a call can end; every error type of this
/// crate maps each of its variants to one of them.
#[derive(Clone, Copy, Debug, PartialEq, Eq)]
pub enum ErrorKind {
    /// No response came: the connection failed or the body could not be read.
    ConnectionError,
    /// A local file to upload could not be read.
    FileReadError,
    /// 304: the resource has not changed since the time given.
    NotModified304,
    /// 400: a parameter is missing or invalid.
    BadRequest400,
    /// 401: the credentials may not use the resource.
    Unauthorised401,
    /// 404: the resource does not exist.
    NotFound404,
    /// 406: the requested content type cannot be produced.
    NotAcceptable406,
    /// 415: the content type of the request is not accepted.
    UnsupportedMediaType415,
    /// 500: the service failed.
    InternalServerError500,
    /// 503: the service is not available.
    ServiceUnavailable503,
    /// A status that the operation does not document.
    UnmappedResponse(u16),
}

/// The failure that a documented error status stands for.
pub open spec fn status_kind(status: u16) -> ErrorKind {
    match status {
        304 => ErrorKind::NotModified304,
        400 => ErrorKind::BadRequest400,
        401 => ErrorKind::Unauthorised401,
        404 => ErrorKind::NotFound404,
        406 => ErrorKind::NotAcceptable406,
        415 => ErrorKind::UnsupportedMediaType415,
        500 => ErrorKind::InternalServerError500,
        503 => ErrorKind::ServiceUnavailable503,
        _ => ErrorKind::UnmappedResponse(status),
    }
}

/// Every remote operation of the services.
#[derive(Clone, Copy, Debug, PartialEq, Eq)]
pub enum Operation {
    /// Lists the voices.
    ListVoices,
    /// Describes one voice.
    GetVoice,
    /// Synthesises text to audio.
    Synthesise,
    /// Gives the pronunciation of a word.
    GetPronunciation,
    /// Deletes the data of a customer.
    DeleteLabeledData,
    /// Creates a custom model.
    CreateCustomModel,
    /// Lists the custom models.
    ListCustomModels,
    /// Updates a custom model.
    UpdateCustomModel,
    /// Describes one custom model.
    GetCustomModel,
    /// Deletes a custom model.
    DeleteCustomModel,
    /// Adds words to a custom model.
    AddCustomWords,
    /// Lists the words of a custom model.
    ListCustomWords,
    /// Adds one word to a custom model.
    AddCustomWord,
    /// Gives the translation of one word.
    GetCustomWord,
    /// Deletes a word from a custom model.
    DeleteCustomWord,
    /// Lists the prompts of a custom model.
    ListCustomPrompts,
    /// Adds a prompt to a custom model.
    AddCustomPrompt,
    /// Lists the speaker models.
    ListSpeakerModels,
    /// Enrols a speaker.
    CreateSpeakerModel,
    /// Lists the prompts of a speaker.
    GetSpeakerModel,
    /// Deletes a speaker model.
    DeleteSpeakerModel,
    /// Lists the recognition models.
    ListModels,
    /// Describes one recognition model.
    GetModel,
}

impl Operation {
    /// The status with which the service reports success.
    pub open spec fn success(self) -> u16 {
        match self {
            Operation::AddCustomPrompt | Operation::CreateSpeakerModel => 201,
            Operation::DeleteLabeledData
            | Operation::DeleteCustomModel
            | Operation::DeleteCustomWord
            | Operation::DeleteSpeakerModel => 204,
            _ => 200,
        }
    }

    /// The error statuses that the service documents for the operation.
    pub open spec fn documented(self) -> Set<u16> {
        match self {
            Operation::ListVoices | Operation::ListModels => set![406, 415, 500, 503],
            Operation::GetVoice => set![304, 400, 401, 406, 415, 500, 503],
            Operation::Synthesise => set![400, 404, 406, 415, 500, 503],
            Operation::GetPronunciation => set![304, 400, 401, 404, 406, 500, 503],
            Operation::GetModel => set![404, 406, 415, 500, 503],
            Operation::DeleteLabeledData
            | Operation::CreateCustomModel
            | Operation::ListCustomModels
            | Operation::ListCustomPrompts
            | Operation::ListSpeakerModels => set![400, 500, 503],
            Operation::GetCustomModel | Operation::GetSpeakerModel => set![
                304,
                400,
                401,
                500,
                503,
            ],
            Operation::AddCustomPrompt | Operation::CreateSpeakerModel => set![
                400,
                401,
                415,
                500,
                503,
            ],
            Operation::UpdateCustomModel
            | Operation::DeleteCustomModel
            | Operation::AddCustomWords
            | Operation::ListCustomWords
            | Operation::AddCustomWord
            | Operation::GetCustomWord
            | Operation::DeleteCustomWord
            | Operation::DeleteSpeakerModel => set![400, 401, 500, 503],
        }
    }
}

/// What a response status means for an operation: `None` for success, the
/// documented failure, or an unmapped status that keeps its code.
pub open spec fn classify(op: Operation, status: u16) -> Option<ErrorKind> {
    if status == op.success() {
        None
    } else if op.documented().contains(status) {
        Some(status_kind(status))
    } else {
        Some(ErrorKind::UnmappedResponse(status))
    }
}

/// The statuses that the services use at all, for success or failure.
pub open spec fn known_status(status: u16) -> bool {
    set![200, 201, 204, 304, 400, 401, 404, 406, 415, 500, 503].contains(status)
}

/// A 503 answer to any operation reads as the service being unavailable.
pub proof fn lemma_unavailable_status(op: Operation)
    ensures
        classify(op, 503) == Some(ErrorKind::ServiceUnavailable503),
{
}

/// A status that the services never use reads, for every operation, as an
/// unmapped response that carries the status itself.
pub proof fn lemma_unmapped_status(op: Operation, status: u16)
    requires
        !known_status(status),
    ensures
        classify(op, status) == Some(ErrorKind::UnmappedResponse(status)),
{
}

} // verus!
