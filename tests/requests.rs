use ibm_watson::auth::{AuthenticationError, IamAuthenticator, TokenResponse};
use ibm_watson::http::{Body, HttpRequest, Method};
use ibm_watson::stt::{ModelID, SpeechToText};
use ibm_watson::tts::customisations::{Language, Prompt, Word};
use ibm_watson::tts::pronunciation::PhonemeFormat;
use ibm_watson::tts::synthesis::AudioFormat;
use ibm_watson::tts::voices::WatsonVoice;
use ibm_watson::tts::TextToSpeech;

fn token(access: &str) -> TokenResponse {
    TokenResponse::new(
        access.to_string(),
        "refresh".to_string(),
        "Bearer".to_string(),
        3600,
        1700003600,
        Some("ibm openid".to_string()),
        None,
    )
}

fn client(base: &str) -> TextToSpeech {
    let auth = IamAuthenticator::from_token(token("tok"));
    TextToSpeech::new(&auth, base)
}

fn json_body(r: &HttpRequest) -> &str {
    match &r.body {
        Body::Json(s) => s.as_str(),
        other => panic!("not a JSON body: {:?}", other),
    }
}

#[test]
fn http1_iam_key() {
    let me = "api_key";
    let req = IamAuthenticator::token_request(me);
    assert_eq!(req.method, Method::Post);
    assert_eq!(req.url, "https://iam.cloud.ibm.com/identity/token");
    assert_eq!(req.authorization, None);
    assert_eq!(req.body.content_type(), Some("application/x-www-form-urlencoded"));
    match &req.body {
        Body::Form(f) => assert_eq!(
            f,
            &format!("grant_type=urn:ibm:params:oauth:grant-type:apikey&apikey={}", me)
        ),
        other => panic!("not a form: {:?}", other),
    }
    assert_eq!(
        IamAuthenticator::from_response(400, Err(String::new())),
        Err(AuthenticationError::ParameterValidationFailed)
    );
}

#[test]
fn token_request_form_encodes_the_key() {
    let req = IamAuthenticator::token_request("a b*-._~/\u{e9}");
    match &req.body {
        Body::Form(f) => assert_eq!(
            f,
            "grant_type=urn:ibm:params:oauth:grant-type:apikey&apikey=a+b*-._%7E%2F%C3%A9"
        ),
        other => panic!("not a form: {:?}", other),
    }
}

#[test]
fn json_strings_are_escaped() {
    let tts = client("https://api.example.com");
    let req = tts.create_custom_model_request("\u{8}\t\n\u{c}\r\u{1f}\u{7f}\u{e9}/", None, Some("plain"));
    assert_eq!(
        json_body(&req),
        "{\"name\":\"\\b\\t\\n\\f\\r\\u001f\u{7f}\u{e9}/\",\"language\":\"en-US\",\"description\":\"plain\"}"
    );
}

#[test]
fn token_request_encodes_the_key() {
    let req = IamAuthenticator::token_request("a b&c=d");
    match &req.body {
        Body::Form(f) => assert_eq!(
            f,
            "grant_type=urn:ibm:params:oauth:grant-type:apikey&apikey=a+b%26c%3Dd"
        ),
        other => panic!("not a form: {:?}", other),
    }
}

#[test]
fn token_fields_are_kept() {
    let auth = IamAuthenticator::from_token(token("abc"));
    let t = auth.token_response();
    assert_eq!(t.access_token(), "abc");
    assert_eq!(t.refresh_token(), "refresh");
    assert_eq!(t.token_type(), "Bearer");
    assert_eq!(t.expires_in(), 3600);
    assert_eq!(t.expiration(), 1700003600);
    assert_eq!(t.scope().map(|s| s.as_str()), Some("ibm openid"));
    assert_eq!(t.delegated_refresh_token(), None);
    assert_eq!(*t, token("abc"));
}

#[test]
fn token_endpoint_statuses() {
    assert_eq!(AuthenticationError::from_status(200), None);
    assert_eq!(AuthenticationError::from_status(400), Some(AuthenticationError::ParameterValidationFailed));
    assert_eq!(AuthenticationError::from_status(401), Some(AuthenticationError::InvalidAPIKey));
    assert_eq!(AuthenticationError::from_status(403), Some(AuthenticationError::NotAllowed));
    assert_eq!(AuthenticationError::from_status(500), Some(AuthenticationError::ServerError));
    assert_eq!(AuthenticationError::from_status(418), Some(AuthenticationError::UnmappedResponse(418)));
    assert_eq!(AuthenticationError::from_status(503), Some(AuthenticationError::UnmappedResponse(503)));
}

#[test]
fn exchange_outcomes() {
    let auth = IamAuthenticator::from_response(200, Ok(token("abc"))).unwrap();
    assert_eq!(*auth.token_response(), token("abc"));
    assert_eq!(
        IamAuthenticator::from_response(400, Ok(token("abc"))),
        Err(AuthenticationError::ParameterValidationFailed)
    );
    assert_eq!(
        IamAuthenticator::from_response(200, Err("bad json".to_string())),
        Err(AuthenticationError::ConnectionError("bad json".to_string()))
    );
    assert_eq!(
        IamAuthenticator::from_response(418, Err(String::new())),
        Err(AuthenticationError::UnmappedResponse(418))
    );
}

#[test]
fn list_voices_request() {
    let tts = client("https://api.example.com");
    let req = tts.list_voices_request();
    assert_eq!(req.method, Method::Get);
    assert_eq!(req.url, "https://api.example.com/v1/voices");
    assert_eq!(req.authorization.as_deref(), Some("Bearer tok"));
    assert!(matches!(req.body, Body::Empty));
    assert_eq!(req.body.content_type(), None);
}

#[test]
fn trailing_slash_of_the_service_url() {
    let tts = client("https://api.example.com/instances/42/");
    assert_eq!(tts.list_voices_request().url, "https://api.example.com/instances/42/v1/voices");
}

#[test]
fn get_voice_request() {
    let tts = client("https://api.example.com");
    let req = tts.get_voice_request(WatsonVoice::EnGbKateV3, None);
    assert_eq!(req.url, "https://api.example.com/v1/voices/en-GB_KateV3Voice");
    let req = tts.get_voice_request(WatsonVoice::EnGbKateV3, Some("c 1"));
    assert_eq!(
        req.url,
        "https://api.example.com/v1/voices/en-GB_KateV3Voice?customization_id=c%201"
    );
}

#[test]
fn synthesise_with_default_voice() {
    let tts = client("https://api.example.com");
    let req = tts.synthesise_request("Hello world", None, None);
    assert_eq!(req.method, Method::Get);
    assert_eq!(
        req.url,
        "https://api.example.com/v1/synthesize?text=Hello%20world&voice=en-US_MichaelV3Voice"
    );
    assert_eq!(req.authorization.as_deref(), Some("Bearer tok"));
    let audio = vec![0u8, 255, 1, 2, 3, 0x4f, 0x67, 0x67];
    let out = TextToSpeech::synthesis_outcome(200, audio.clone()).unwrap();
    assert_eq!(out, audio);
}

#[test]
fn synthesise_with_format_voice_and_model() {
    let mut tts = client("https://api.example.com");
    tts.set_voice(WatsonVoice::EnGbKateV3);
    assert_eq!(tts.voice(), WatsonVoice::EnGbKateV3);
    let req = tts.synthesise_request(
        "a&b",
        Some(AudioFormat::AudioMp3 { sample_rate: Some(44100) }),
        Some("cust"),
    );
    assert_eq!(
        req.url,
        "https://api.example.com/v1/synthesize?text=a%26b&voice=en-GB_KateV3Voice&accept=audio%2Fmp3%3Brate%3D44100&customization_id=cust"
    );
}

#[test]
fn pronunciation_request() {
    let tts = client("https://api.example.com");
    let req = tts.get_pronunciation_request("tomato", None, None, None);
    assert_eq!(
        req.url,
        "https://api.example.com/v1/pronunciation?text=tomato&format=ipa&voice=en-US_MichaelV3Voice"
    );
    let req = tts.get_pronunciation_request(
        "tomato",
        Some(WatsonVoice::FrFrReneeV3),
        Some(PhonemeFormat::IBM),
        Some("m"),
    );
    assert_eq!(
        req.url,
        "https://api.example.com/v1/pronunciation?text=tomato&format=ibm&voice=fr-FR_ReneeV3Voice&customization_id=m"
    );
}

#[test]
fn delete_labeled_data_request() {
    let tts = client("https://api.example.com");
    let req = tts.delete_labeled_data_request("me/id");
    assert_eq!(req.method, Method::Delete);
    assert_eq!(req.url, "https://api.example.com/v1/user_data/me%2Fid");
}

#[test]
fn create_custom_model_request() {
    let tts = client("https://api.example.com");
    let req = tts.create_custom_model_request("new model", None, Some("example"));
    assert_eq!(req.method, Method::Post);
    assert_eq!(req.url, "https://api.example.com/v1/customizations");
    assert_eq!(req.body.content_type(), Some("application/json"));
    assert_eq!(
        json_body(&req),
        r#"{"name":"new model","language":"en-US","description":"example"}"#
    );
    let req = tts.create_custom_model_request("q\"\\\n", Some(Language::FrCa), None);
    assert_eq!(json_body(&req), r#"{"name":"q\"\\\n","language":"fr-CA","description":""}"#);
}

#[test]
fn list_custom_models_request() {
    let tts = client("https://api.example.com");
    assert_eq!(tts.list_custom_models_request(None).url, "https://api.example.com/v1/customizations");
    assert_eq!(
        tts.list_custom_models_request(Some(Language::DeDe)).url,
        "https://api.example.com/v1/customizations?language=de-DE"
    );
}

fn words() -> Vec<Word> {
    vec![
        Word { word: "IEEE".to_string(), translation: "I triple E".to_string(), part_of_speech: None },
        Word {
            word: "hi".to_string(),
            translation: "\u{1}".to_string(),
            part_of_speech: Some("Noun".to_string()),
        },
    ]
}

#[test]
fn update_custom_model_request() {
    let tts = client("https://api.example.com");
    let req = tts.update_custom_model_request("cid", Some("foo"), None, None);
    assert_eq!(req.method, Method::Post);
    assert_eq!(req.url, "https://api.example.com/v1/customizations/cid");
    assert_eq!(json_body(&req), r#"{"name":"foo"}"#);
    let ws = words();
    let req = tts.update_custom_model_request("cid", None, Some("d"), Some(ws.as_slice()));
    assert_eq!(
        json_body(&req),
        r#"{"description":"d","words":[{"word":"IEEE","translation":"I triple E"},{"word":"hi","translation":"\u0001","part_of_speech":"Noun"}]}"#
    );
    let req = tts.update_custom_model_request("cid", None, None, None);
    assert_eq!(json_body(&req), "{}");
}

#[test]
fn model_requests_without_body() {
    let tts = client("https://api.example.com");
    let req = tts.get_custom_model_request("cid");
    assert_eq!((req.method, req.url.as_str()), (Method::Get, "https://api.example.com/v1/customizations/cid"));
    let req = tts.delete_custom_model_request("cid");
    assert_eq!((req.method, req.url.as_str()), (Method::Delete, "https://api.example.com/v1/customizations/cid"));
    let req = tts.list_custom_words_request("cid");
    assert_eq!(req.url, "https://api.example.com/v1/customizations/cid/words");
    let req = tts.get_custom_word_request("cid", "caf\u{e9}");
    assert_eq!(req.url, "https://api.example.com/v1/customizations/cid/words/caf%C3%A9");
    let req = tts.delete_custom_word_request("cid", "w");
    assert_eq!((req.method, req.url.as_str()), (Method::Delete, "https://api.example.com/v1/customizations/cid/words/w"));
    let req = tts.list_custom_prompts_request("cid");
    assert_eq!(req.url, "https://api.example.com/v1/customizations/cid/prompts");
}

#[test]
fn word_requests() {
    let tts = client("https://api.example.com");
    let ws = words();
    let req = tts.add_custom_words_request("cid", &ws);
    assert_eq!(req.method, Method::Post);
    assert_eq!(req.url, "https://api.example.com/v1/customizations/cid/words");
    assert_eq!(
        json_body(&req),
        r#"{"words":[{"word":"IEEE","translation":"I triple E"},{"word":"hi","translation":"\u0001","part_of_speech":"Noun"}]}"#
    );
    let req = tts.add_custom_words_request("cid", &[]);
    assert_eq!(json_body(&req), r#"{"words":[]}"#);
    let req = tts.add_custom_word_request("cid", &ws[1]);
    assert_eq!(req.method, Method::Put);
    assert_eq!(req.url, "https://api.example.com/v1/customizations/cid/words/hi");
    assert_eq!(json_body(&req), r#"{"translation":"\u0001","part_of_speech":"Noun"}"#);
}

#[test]
fn prompt_request() {
    let tts = client("https://api.example.com");
    let prompt = Prompt {
        prompt: "Thank you".to_string(),
        prompt_id: "goodbye".to_string(),
        speaker_id: Some("spk".to_string()),
        ..Default::default()
    };
    let req = tts.add_custom_prompt_request("cid", &prompt, "audio.wav", vec![1, 2, 3]);
    assert_eq!(req.method, Method::Post);
    assert_eq!(req.url, "https://api.example.com/v1/customizations/cid/prompts/goodbye");
    assert_eq!(req.body.content_type(), Some("multipart/form-data"));
    match req.body {
        Body::Multipart(u) => {
            assert_eq!(u.prompt_text, "Thank you");
            assert_eq!(u.speaker_id.as_deref(), Some("spk"));
            assert_eq!(u.file_name, "audio.wav");
            assert_eq!(u.audio, vec![1, 2, 3]);
        }
        other => panic!("not multipart: {:?}", other),
    }
}

#[test]
fn speaker_requests() {
    let tts = client("https://api.example.com");
    assert_eq!(tts.list_speaker_models_request().url, "https://api.example.com/v1/speakers");
    let req = tts.create_speaker_model_request("speaker_one", vec![9, 8]);
    assert_eq!(req.method, Method::Post);
    assert_eq!(req.url, "https://api.example.com/v1/speakers?speaker_name=speaker_one");
    assert_eq!(req.body.content_type(), Some("audio/wav"));
    assert!(matches!(&req.body, Body::Wav(a) if *a == vec![9u8, 8]));
    assert_eq!(tts.get_speaker_model_request("s1").url, "https://api.example.com/v1/speakers/s1");
    let req = tts.delete_speaker_model_request("s1");
    assert_eq!((req.method, req.url.as_str()), (Method::Delete, "https://api.example.com/v1/speakers/s1"));
}

#[test]
fn speech_to_text_requests() {
    let auth = IamAuthenticator::from_token(token("t2"));
    let stt = SpeechToText::new(&auth, "https://stt.example.com/");
    let req = stt.list_models_request();
    assert_eq!(req.url, "https://stt.example.com/v1/models");
    assert_eq!(req.authorization.as_deref(), Some("Bearer t2"));
    let req = stt.get_model_request(&ModelID::EnUsTelephony);
    assert_eq!(req.url, "https://stt.example.com/v1/models/en-US_Telephony");
}
