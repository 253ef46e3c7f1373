use ibm_watson::stt::ModelID;
use ibm_watson::tts::customisations::{Language, PromptStatus};
use ibm_watson::tts::pronunciation::PhonemeFormat;
use ibm_watson::tts::synthesis::{AudioEndianness, AudioFormat};
use ibm_watson::tts::voices::WatsonVoice;

fn all_voices() -> Vec<WatsonVoice> {
    vec![
        WatsonVoice::ArMsOmar, WatsonVoice::CsCzAlena, WatsonVoice::DeDeBirgitV3, WatsonVoice::DeDeDieterV3, WatsonVoice::DeDeErikaV3, WatsonVoice::EnAuCraig, WatsonVoice::EnAuMadison,
        WatsonVoice::EnAuSteve, WatsonVoice::EnGbCharlotteV3, WatsonVoice::EnGbJamesV3, WatsonVoice::EnGbKateV3, WatsonVoice::EnUsAllisonV3, WatsonVoice::EnUsEmilyV3,
        WatsonVoice::EnUsHenryV3, WatsonVoice::EnUsKevinV3, WatsonVoice::EnUsLisaV3, WatsonVoice::EnUsMichaelV3, WatsonVoice::EnUsOliviaV3, WatsonVoice::EsEsEnriqueV3,
        WatsonVoice::EsEsLauraV3, WatsonVoice::EsLaSofiaV3, WatsonVoice::EsUsSofiaV3, WatsonVoice::FrCaLouiseV3, WatsonVoice::FrFrNicolasV3, WatsonVoice::FrFrReneeV3,
        WatsonVoice::ItItFrancescaV3, WatsonVoice::JaJpEmiV3, WatsonVoice::KoKrHyunjun, WatsonVoice::KoKrSiWoo, WatsonVoice::KoKrYoungmi, WatsonVoice::KoKrYuna, WatsonVoice::NlBeAdele,
        WatsonVoice::NlBeBram, WatsonVoice::NlNlEmma, WatsonVoice::NlNlLiam, WatsonVoice::PtBrIsabelaV3, WatsonVoice::SvSeIngrid, WatsonVoice::ZhCnLiNa, WatsonVoice::ZhCnWangWei,
        WatsonVoice::ZhCnZhangJing,
    ]
}

fn all_models() -> Vec<ModelID> {
    vec![
        ModelID::ArArBroadbandModel, ModelID::ArMsBroadbandModel, ModelID::ArMsTelephony, ModelID::CsCzTelephony, ModelID::DeDeBroadbandModel,
        ModelID::DeDeMultimedia, ModelID::DeDeNarrowbandModel, ModelID::DeDeTelephony, ModelID::EnAuBroadbandModel, ModelID::EnAuMultimedia,
        ModelID::EnAuNarrowbandModel, ModelID::EnAuTelephony, ModelID::EnGbBroadbandModel, ModelID::EnGbMultimedia,
        ModelID::EnGbNarrowbandModel, ModelID::EnGbTelephony, ModelID::EnInTelephony, ModelID::EnUsBroadbandModel, ModelID::EnUsMultimedia,
        ModelID::EnUsNarrowbandModel, ModelID::EnUsShortFormNarrowbandModel, ModelID::EnUsTelephony, ModelID::EnWwMedicalTelephony,
        ModelID::EsArBroadbandModel, ModelID::EsArNarrowbandModel, ModelID::EsClBroadbandModel, ModelID::EsClNarrowbandModel,
        ModelID::EsCoBroadbandModel, ModelID::EsCoNarrowbandModel, ModelID::EsEsBroadbandModel, ModelID::EsEsNarrowbandModel,
        ModelID::EsEsMultimedia, ModelID::EsEsTelephony, ModelID::EsLaTelephony, ModelID::EsMxBroadbandModel, ModelID::EsMxNarrowbandModel,
        ModelID::EsPeBroadbandModel, ModelID::EsPeNarrowbandModel, ModelID::FrCaBroadbandModel, ModelID::FrCaMultimedia,
        ModelID::FrCaNarrowbandModel, ModelID::FrCaTelephony, ModelID::FrFrBroadbandModel, ModelID::FrFrMultimedia,
        ModelID::FrFrNarrowbandModel, ModelID::FrFrTelephony, ModelID::HiInTelephony, ModelID::ItItBroadbandModel,
        ModelID::ItItNarrowbandModel, ModelID::ItItMultimedia, ModelID::ItItTelephony, ModelID::JaJpBroadbandModel, ModelID::JaJpMultimedia,
        ModelID::JaJpNarrowbandModel, ModelID::KoKrBroadbandModel, ModelID::KoKrMultimedia, ModelID::KoKrNarrowbandModel,
        ModelID::KoKrTelephony, ModelID::NlBeTelephony, ModelID::NlNlBroadbandModel, ModelID::NlNlNarrowbandModel, ModelID::NlNlTelephony,
        ModelID::PtBrBroadbandModel, ModelID::PtBrMultimedia, ModelID::PtBrNarrowbandModel, ModelID::PtBrTelephony, ModelID::SvSeTelephony,
        ModelID::ZhCnBroadbandModel, ModelID::ZhCnNarrowbandModel, ModelID::ZhCnTelephony,
    ]
}

#[test]
fn voice_ids_are_non_empty_and_distinct() {
    let voices = all_voices();
    assert_eq!(voices.len(), 40);
    for (i, a) in voices.iter().enumerate() {
        assert!(!a.id().is_empty());
        for b in voices.iter().skip(i + 1) {
            assert_ne!(a.id(), b.id());
        }
    }
}

#[test]
fn model_ids_are_non_empty_and_distinct() {
    let models = all_models();
    assert_eq!(models.len(), 70);
    for (i, a) in models.iter().enumerate() {
        assert!(!a.id().is_empty());
        for b in models.iter().skip(i + 1) {
            assert_ne!(a.id(), b.id());
        }
    }
}

#[test]
fn model_ids_that_used_to_collide() {
    assert_eq!(ModelID::DeDeBroadbandModel.id(), "de-DE_BroadbandModel");
    assert_eq!(ModelID::CsCzTelephony.id(), "cs-CZ_Telephony");
    assert_eq!(ModelID::FrCaTelephony.id(), "fr-CA_Telephony");
    assert_eq!(ModelID::FrCaNarrowbandModel.id(), "fr-CA_NarrowbandModel");
    assert_eq!(ModelID::EnUsShortFormNarrowbandModel.to_string(), "en-US_ShortForm_NarrowbandModel");
}

#[test]
fn voice_ids_and_names() {
    assert_eq!(WatsonVoice::EnGbKateV3.id(), "en-GB_KateV3Voice");
    assert_eq!(WatsonVoice::ArMsOmar.id(), "ar-MS_OmarVoice");
    assert_eq!(WatsonVoice::ZhCnZhangJing.id(), "zh-CN_ZhangJingVoice");
    assert_eq!(WatsonVoice::EnGbKateV3.to_string(), "KateV3 - English (United Kingdom)");
    assert_eq!(WatsonVoice::ArMsOmar.to_string(), "ArMsOmar");
    assert_eq!(WatsonVoice::default(), WatsonVoice::EnUsMichaelV3);
}

#[test]
fn language_ids_are_distinct() {
    let all = [
        Language::ArMs, Language::CsCz, Language::DeDe, Language::EnAu, Language::EnGb, Language::EnUs, Language::EsEs, Language::EsLa, Language::EsUs, Language::FrCa, Language::FrFr, Language::ItIt, Language::JaJp, Language::KoKr, Language::NlBe,
        Language::NlNl, Language::PtBr, Language::SvSe, Language::ZhCn,
    ];
    for (i, a) in all.iter().enumerate() {
        for b in all.iter().skip(i + 1) {
            assert_ne!(a.id(), b.id());
        }
    }
    assert_eq!(Language::EsLa.id(), "es-LA");
    assert_eq!(Language::default().id(), "en-US");
}

#[test]
fn default_sample_rates() {
    let cases = [
        (AudioFormat::AudioFlac { sample_rate: None }, "audio/flac;rate=22050"),
        (AudioFormat::AudioOgg { sample_rate: None }, "audio/ogg;rate=22050"),
        (AudioFormat::AudioOggCodecsOpus { sample_rate: None }, "audio/ogg;codecs=opus;rate=48000"),
        (AudioFormat::AudioOggCodecsVorbis { sample_rate: None }, "audio/ogg;codecs=vorbis;rate=22050"),
        (AudioFormat::AudioMp3 { sample_rate: None }, "audio/mp3;rate=22050"),
        (AudioFormat::AudioMpeg { sample_rate: None }, "audio/mpeg;rate=22050"),
        (AudioFormat::AudioWav { sample_rate: None }, "audio/wav;rate=22050"),
        (AudioFormat::AudioWebmCodecsVorbis { sample_rate: None }, "audio/webm;codecs=vorbis;rate=22050"),
    ];
    for (format, expected) in cases {
        assert_eq!(format.id(), expected);
    }
}

#[test]
fn explicit_sample_rates_and_fixed_formats() {
    assert_eq!(AudioFormat::AudioMp3 { sample_rate: Some(44100) }.id(), "audio/mp3;rate=44100");
    assert_eq!(AudioFormat::AudioAlaw { sample_rate: 8000 }.id(), "audio/alaw;rate=8000");
    assert_eq!(AudioFormat::AudioMulaw { sample_rate: 0 }.id(), "audio/mulaw;rate=0");
    assert_eq!(AudioFormat::AudioWav { sample_rate: Some(65535) }.id(), "audio/wav;rate=65535");
    assert_eq!(AudioFormat::AudioBasic.id(), "audio/basic");
    assert_eq!(AudioFormat::AudioWebm.id(), "audio/webm");
    assert_eq!(AudioFormat::AudioWebmCodecsOpus.id(), "audio/webm;codecs=opus");
    assert_eq!(
        AudioFormat::AudioL16 { sample_rate: 16000, endianess: None }.id(),
        "audio/l16;rate=16000;endianness=little-endian"
    );
    assert_eq!(
        AudioFormat::AudioL16 { sample_rate: 16000, endianess: Some(AudioEndianness::BigEndian) }.id(),
        "audio/l16;rate=16000;endianness=big-endian"
    );
    assert_eq!(AudioFormat::default().id(), "audio/ogg;codecs=opus;rate=48000");
}

#[test]
fn small_tables() {
    assert_eq!(AudioEndianness::BigEndian.id(), "big-endian");
    assert_eq!(AudioEndianness::default().id(), "little-endian");
    assert_eq!(PhonemeFormat::IBM.id(), "ibm");
    assert_eq!(PhonemeFormat::default().id(), "ipa");
}

#[test]
fn prompt_status_words() {
    assert_eq!(PromptStatus::from_wire("processing"), Some(PromptStatus::Processing));
    assert_eq!(PromptStatus::from_wire("available"), Some(PromptStatus::Available));
    assert_eq!(PromptStatus::from_wire("failed"), Some(PromptStatus::Failed));
    assert_eq!(PromptStatus::from_wire("Failed"), None);
    assert_eq!(PromptStatus::from_wire(""), None);
}
