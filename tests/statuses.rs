use ibm_watson::stt::{GetModelError as SttGetModelError, ListModelsError};
use ibm_watson::tts::customisations::{
    AddPromptError, AddWordError, CreateModelError, DeleteModelError, DeleteWordError,
    GetModelError, GetWordError, ListModelError, ListPromptsError, ListWordsError,
    UpdateModelError,
};
use ibm_watson::tts::pronunciation::PronunciationError;
use ibm_watson::tts::speaker_models::{
    CreateSpeakerError, DeleteSpeakerError, GetSpeakerError, ListSpeakersError,
};
use ibm_watson::tts::synthesis::SynthesisError;
use ibm_watson::tts::user_data::DeleteLabeledDataError;
use ibm_watson::tts::voices::{GetVoiceError, ListVoicesError};
use ibm_watson::tts::TextToSpeech;

#[test]
fn service_unavailable_everywhere() {
    assert_eq!(ListVoicesError::from_status(503), Some(ListVoicesError::ServiceUnavailable503));
    assert_eq!(GetVoiceError::from_status(503, "c"), Some(GetVoiceError::ServiceUnavailable503));
    assert_eq!(SynthesisError::from_status(503), Some(SynthesisError::ServiceUnavailable503));
    assert_eq!(PronunciationError::from_status(503, ""), Some(PronunciationError::ServiceUnavailable503));
    assert_eq!(DeleteLabeledDataError::from_status(503), Some(DeleteLabeledDataError::ServiceUnavailable503));
    assert_eq!(CreateModelError::from_status(503), Some(CreateModelError::ServiceUnavailable503));
    assert_eq!(ListModelError::from_status(503), Some(ListModelError::ServiceUnavailable503));
    assert_eq!(UpdateModelError::from_status(503, "c"), Some(UpdateModelError::ServiceUnavailable503));
    assert_eq!(GetModelError::from_status(503, "c"), Some(GetModelError::ServiceUnavailable503));
    assert_eq!(DeleteModelError::from_status(503, "c"), Some(DeleteModelError::ServiceUnavailable503));
    assert_eq!(AddWordError::from_status(503, "c"), Some(AddWordError::ServiceUnavailable503));
    assert_eq!(ListWordsError::from_status(503, "c"), Some(ListWordsError::ServiceUnavailable503));
    assert_eq!(GetWordError::from_status(503, "c"), Some(GetWordError::ServiceUnavailable503));
    assert_eq!(DeleteWordError::from_status(503, "c"), Some(DeleteWordError::ServiceUnavailable503));
    assert_eq!(ListPromptsError::from_status(503), Some(ListPromptsError::ServiceUnavailable503));
    assert_eq!(AddPromptError::from_status(503, "c"), Some(AddPromptError::ServiceUnavailable503));
    assert_eq!(ListSpeakersError::from_status(503), Some(ListSpeakersError::ServiceUnavailable503));
    assert_eq!(CreateSpeakerError::from_status(503, "n"), Some(CreateSpeakerError::ServiceUnavailable503));
    assert_eq!(GetSpeakerError::from_status(503, "s"), Some(GetSpeakerError::ServiceUnavailable503));
    assert_eq!(DeleteSpeakerError::from_status(503, "s"), Some(DeleteSpeakerError::ServiceUnavailable503));
    assert_eq!(ListModelsError::from_status(503), Some(ListModelsError::ServiceUnavailable503));
    assert_eq!(SttGetModelError::from_status(503, "m"), Some(SttGetModelError::ServiceUnavailable503));
}

#[test]
fn unexpected_status_is_unmapped_everywhere() {
    let s = 418;
    assert_eq!(ListVoicesError::from_status(s), Some(ListVoicesError::UnmappedResponse(s)));
    assert_eq!(GetVoiceError::from_status(s, "c"), Some(GetVoiceError::UnmappedResponse(s)));
    assert_eq!(SynthesisError::from_status(s), Some(SynthesisError::UnmappedResponse(s)));
    assert_eq!(PronunciationError::from_status(s, ""), Some(PronunciationError::UnmappedResponse(s)));
    assert_eq!(DeleteLabeledDataError::from_status(s), Some(DeleteLabeledDataError::UnmappedResponse(s)));
    assert_eq!(CreateModelError::from_status(s), Some(CreateModelError::UnmappedResponse(s)));
    assert_eq!(ListModelError::from_status(s), Some(ListModelError::UnmappedResponse(s)));
    assert_eq!(UpdateModelError::from_status(s, "c"), Some(UpdateModelError::UnmappedResponse(s)));
    assert_eq!(GetModelError::from_status(s, "c"), Some(GetModelError::UnmappedResponse(s)));
    assert_eq!(DeleteModelError::from_status(s, "c"), Some(DeleteModelError::UnmappedResponse(s)));
    assert_eq!(AddWordError::from_status(s, "c"), Some(AddWordError::UnmappedResponse(s)));
    assert_eq!(ListWordsError::from_status(s, "c"), Some(ListWordsError::UnmappedResponse(s)));
    assert_eq!(GetWordError::from_status(s, "c"), Some(GetWordError::UnmappedResponse(s)));
    assert_eq!(DeleteWordError::from_status(s, "c"), Some(DeleteWordError::UnmappedResponse(s)));
    assert_eq!(ListPromptsError::from_status(s), Some(ListPromptsError::UnmappedResponse(s)));
    assert_eq!(AddPromptError::from_status(s, "c"), Some(AddPromptError::UnmappedResponse(s)));
    assert_eq!(ListSpeakersError::from_status(s), Some(ListSpeakersError::UnmappedResponse(s)));
    assert_eq!(CreateSpeakerError::from_status(s, "n"), Some(CreateSpeakerError::UnmappedResponse(s)));
    assert_eq!(GetSpeakerError::from_status(s, "s"), Some(GetSpeakerError::UnmappedResponse(s)));
    assert_eq!(DeleteSpeakerError::from_status(s, "s"), Some(DeleteSpeakerError::UnmappedResponse(s)));
    assert_eq!(ListModelsError::from_status(s), Some(ListModelsError::UnmappedResponse(s)));
    assert_eq!(SttGetModelError::from_status(s, "m"), Some(SttGetModelError::UnmappedResponse(s)));
}

#[test]
fn success_statuses() {
    assert_eq!(ListVoicesError::from_status(200), None);
    assert_eq!(DeleteLabeledDataError::from_status(204), None);
    assert_eq!(DeleteLabeledDataError::from_status(200), Some(DeleteLabeledDataError::UnmappedResponse(200)));
    assert_eq!(AddPromptError::from_status(201, "c"), None);
    assert_eq!(AddPromptError::from_status(200, "c"), Some(AddPromptError::UnmappedResponse(200)));
    assert_eq!(CreateSpeakerError::from_status(201, "n"), None);
    assert_eq!(DeleteModelError::from_status(204, "c"), None);
    assert_eq!(DeleteWordError::from_status(204, "c"), None);
    assert_eq!(DeleteSpeakerError::from_status(204, "s"), None);
    assert_eq!(GetSpeakerError::from_status(200, "s"), None);
}

#[test]
fn undocumented_status_of_one_operation() {
    // 400 is documented for getting a voice but not for listing voices.
    assert_eq!(ListVoicesError::from_status(400), Some(ListVoicesError::UnmappedResponse(400)));
    assert_eq!(GetVoiceError::from_status(400, ""), Some(GetVoiceError::BadRequest400));
    assert_eq!(ListModelError::from_status(404), Some(ListModelError::UnmappedResponse(404)));
}

#[test]
fn identifiers_carried_back() {
    assert_eq!(GetVoiceError::from_status(401, "cust"), Some(GetVoiceError::Unauthorised401("cust".to_string())));
    assert_eq!(PronunciationError::from_status(401, "m"), Some(PronunciationError::Unauthorised401("m".to_string())));
    assert_eq!(UpdateModelError::from_status(401, "c"), Some(UpdateModelError::Unauthorised401("c".to_string())));
    assert_eq!(GetModelError::from_status(400, "c"), Some(GetModelError::BadRequest400("c".to_string())));
    assert_eq!(GetModelError::from_status(401, "c"), Some(GetModelError::Unauthorised401("c".to_string())));
    assert_eq!(DeleteModelError::from_status(400, "c"), Some(DeleteModelError::BadRequest400("c".to_string())));
    assert_eq!(DeleteModelError::from_status(401, "c"), Some(DeleteModelError::Unauthorised401("c".to_string())));
    assert_eq!(AddWordError::from_status(401, "c"), Some(AddWordError::Unauthorised401("c".to_string())));
    assert_eq!(ListWordsError::from_status(401, "c"), Some(ListWordsError::Unauthorised401("c".to_string())));
    assert_eq!(GetWordError::from_status(401, "c"), Some(GetWordError::Unauthorised401("c".to_string())));
    assert_eq!(DeleteWordError::from_status(400, "c"), Some(DeleteWordError::BadRequest400("c".to_string())));
    assert_eq!(DeleteWordError::from_status(401, "c"), Some(DeleteWordError::Unauthorised401("c".to_string())));
    assert_eq!(AddPromptError::from_status(401, "c"), Some(AddPromptError::Unauthorised401("c".to_string())));
    assert_eq!(CreateSpeakerError::from_status(401, "n"), Some(CreateSpeakerError::Unauthorised401("n".to_string())));
    assert_eq!(GetSpeakerError::from_status(401, "s"), Some(GetSpeakerError::Unauthorised401("s".to_string())));
    assert_eq!(DeleteSpeakerError::from_status(400, "s"), Some(DeleteSpeakerError::BadRequest400("s".to_string())));
    assert_eq!(DeleteSpeakerError::from_status(401, "s"), Some(DeleteSpeakerError::Unauthorised401("s".to_string())));
    assert_eq!(SttGetModelError::from_status(404, "m"), Some(SttGetModelError::NotFound404("m".to_string())));
}

#[test]
fn every_documented_status() {
    assert_eq!(ListVoicesError::from_status(406), Some(ListVoicesError::NotAcceptable406));
    assert_eq!(ListVoicesError::from_status(415), Some(ListVoicesError::UnsupportedMediaType415));
    assert_eq!(ListVoicesError::from_status(500), Some(ListVoicesError::InternalServerError500));
    assert_eq!(GetVoiceError::from_status(304, ""), Some(GetVoiceError::NotModified304));
    assert_eq!(GetVoiceError::from_status(406, ""), Some(GetVoiceError::NotAcceptable406));
    assert_eq!(GetVoiceError::from_status(415, ""), Some(GetVoiceError::UnsupportedMediaType415));
    assert_eq!(GetVoiceError::from_status(500, ""), Some(GetVoiceError::InternalServerError500));
    assert_eq!(SynthesisError::from_status(400), Some(SynthesisError::BadRequest400));
    assert_eq!(SynthesisError::from_status(404), Some(SynthesisError::NotFound404));
    assert_eq!(SynthesisError::from_status(406), Some(SynthesisError::NotAcceptable406));
    assert_eq!(SynthesisError::from_status(415), Some(SynthesisError::UnsupportedMediaType415));
    assert_eq!(SynthesisError::from_status(500), Some(SynthesisError::InternalServerError500));
    assert_eq!(PronunciationError::from_status(304, ""), Some(PronunciationError::NotModified304));
    assert_eq!(PronunciationError::from_status(400, ""), Some(PronunciationError::BadRequest400));
    assert_eq!(PronunciationError::from_status(404, ""), Some(PronunciationError::NotFound404));
    assert_eq!(PronunciationError::from_status(406, ""), Some(PronunciationError::NotAcceptable406));
    assert_eq!(PronunciationError::from_status(500, ""), Some(PronunciationError::InternalServerError500));
    assert_eq!(DeleteLabeledDataError::from_status(400), Some(DeleteLabeledDataError::BadRequest400));
    assert_eq!(DeleteLabeledDataError::from_status(500), Some(DeleteLabeledDataError::InternalServerError500));
    assert_eq!(CreateModelError::from_status(400), Some(CreateModelError::BadRequest400));
    assert_eq!(CreateModelError::from_status(500), Some(CreateModelError::InternalServerError500));
    assert_eq!(ListModelError::from_status(400), Some(ListModelError::BadRequest400));
    assert_eq!(ListModelError::from_status(500), Some(ListModelError::InternalServerError500));
    assert_eq!(UpdateModelError::from_status(400, "c"), Some(UpdateModelError::BadRequest400));
    assert_eq!(UpdateModelError::from_status(500, "c"), Some(UpdateModelError::InternalServerError500));
    assert_eq!(GetModelError::from_status(304, "c"), Some(GetModelError::NotModified304));
    assert_eq!(GetModelError::from_status(500, "c"), Some(GetModelError::InternalServerError500));
    assert_eq!(DeleteModelError::from_status(500, "c"), Some(DeleteModelError::InternalServerError500));
    assert_eq!(AddWordError::from_status(400, "c"), Some(AddWordError::BadRequest400));
    assert_eq!(AddWordError::from_status(500, "c"), Some(AddWordError::InternalServerError500));
    assert_eq!(ListWordsError::from_status(400, "c"), Some(ListWordsError::BadRequest400));
    assert_eq!(ListWordsError::from_status(500, "c"), Some(ListWordsError::InternalServerError500));
    assert_eq!(GetWordError::from_status(400, "c"), Some(GetWordError::BadRequest400));
    assert_eq!(GetWordError::from_status(500, "c"), Some(GetWordError::InternalServerError500));
    assert_eq!(DeleteWordError::from_status(500, "c"), Some(DeleteWordError::InternalServerError500));
    assert_eq!(ListPromptsError::from_status(400), Some(ListPromptsError::BadRequest400));
    assert_eq!(ListPromptsError::from_status(500), Some(ListPromptsError::InternalServerError500));
    assert_eq!(AddPromptError::from_status(400, "c"), Some(AddPromptError::BadRequest400));
    assert_eq!(AddPromptError::from_status(415, "c"), Some(AddPromptError::UnsupportedMediaType415));
    assert_eq!(AddPromptError::from_status(500, "c"), Some(AddPromptError::InternalServerError500));
    assert_eq!(ListSpeakersError::from_status(400), Some(ListSpeakersError::BadRequest400));
    assert_eq!(ListSpeakersError::from_status(500), Some(ListSpeakersError::InternalServerError500));
    assert_eq!(CreateSpeakerError::from_status(400, "n"), Some(CreateSpeakerError::BadRequest400));
    assert_eq!(CreateSpeakerError::from_status(415, "n"), Some(CreateSpeakerError::UnsupportedMediaType415));
    assert_eq!(CreateSpeakerError::from_status(500, "n"), Some(CreateSpeakerError::InternalServerError500));
    assert_eq!(GetSpeakerError::from_status(304, "s"), Some(GetSpeakerError::NotModified304));
    assert_eq!(GetSpeakerError::from_status(400, "s"), Some(GetSpeakerError::BadRequest400));
    assert_eq!(GetSpeakerError::from_status(500, "s"), Some(GetSpeakerError::InternalServerError500));
    assert_eq!(DeleteSpeakerError::from_status(500, "s"), Some(DeleteSpeakerError::InternalServerError500));
    assert_eq!(ListModelsError::from_status(406), Some(ListModelsError::NotAcceptable406));
    assert_eq!(ListModelsError::from_status(415), Some(ListModelsError::UnsupportedMediaType415));
    assert_eq!(ListModelsError::from_status(500), Some(ListModelsError::InternalServerError500));
    assert_eq!(SttGetModelError::from_status(406, "m"), Some(SttGetModelError::NotAcceptable406));
    assert_eq!(SttGetModelError::from_status(415, "m"), Some(SttGetModelError::UnsupportedMediaType415));
    assert_eq!(SttGetModelError::from_status(500, "m"), Some(SttGetModelError::InternalServerError500));
}

#[test]
fn synthesis_failure_keeps_no_audio() {
    assert_eq!(
        TextToSpeech::synthesis_outcome(404, vec![1, 2]),
        Err(SynthesisError::NotFound404)
    );
    assert_eq!(
        TextToSpeech::synthesis_outcome(503, vec![]),
        Err(SynthesisError::ServiceUnavailable503)
    );
}
