//! The speech-to-text service.
use vstd::prelude::*;

use crate::auth::IamAuthenticator;
use crate::http::{pair_views, segment_views, Body, BodyView, Endpoint, HttpRequest, Method};
use crate::status::{classify, ErrorKind, Operation};

verus! {

/// The recognition models of the service.
#[non_exhaustive]
#[derive(Clone, Copy, Debug, PartialEq, Eq)]
pub enum ModelID {
    ArArBroadbandModel,
    ArMsBroadbandModel,
    ArMsTelephony,
    CsCzTelephony,
    DeDeBroadbandModel,
    DeDeMultimedia,
    DeDeNarrowbandModel,
    DeDeTelephony,
    EnAuBroadbandModel,
    EnAuMultimedia,
    EnAuNarrowbandModel,
    EnAuTelephony,
    EnGbBroadbandModel,
    EnGbMultimedia,
    EnGbNarrowbandModel,
    EnGbTelephony,
    EnInTelephony,
    EnUsBroadbandModel,
    EnUsMultimedia,
    EnUsNarrowbandModel,
    EnUsShortFormNarrowbandModel,
    EnUsTelephony,
    EnWwMedicalTelephony,
    EsArBroadbandModel,
    EsArNarrowbandModel,
    EsClBroadbandModel,
    EsClNarrowbandModel,
    EsCoBroadbandModel,
    EsCoNarrowbandModel,
    EsEsBroadbandModel,
    EsEsNarrowbandModel,
    EsEsMultimedia,
    EsEsTelephony,
    EsLaTelephony,
    EsMxBroadbandModel,
    EsMxNarrowbandModel,
    EsPeBroadbandModel,
    EsPeNarrowbandModel,
    FrCaBroadbandModel,
    FrCaMultimedia,
    FrCaNarrowbandModel,
    FrCaTelephony,
    FrFrBroadbandModel,
    FrFrMultimedia,
    FrFrNarrowbandModel,
    FrFrTelephony,
    HiInTelephony,
    ItItBroadbandModel,
    ItItNarrowbandModel,
    ItItMultimedia,
    ItItTelephony,
    JaJpBroadbandModel,
    JaJpMultimedia,
    JaJpNarrowbandModel,
    KoKrBroadbandModel,
    KoKrMultimedia,
    KoKrNarrowbandModel,
    KoKrTelephony,
    NlBeTelephony,
    NlNlBroadbandModel,
    NlNlNarrowbandModel,
    NlNlTelephony,
    PtBrBroadbandModel,
    PtBrMultimedia,
    PtBrNarrowbandModel,
    PtBrTelephony,
    SvSeTelephony,
    ZhCnBroadbandModel,
    ZhCnNarrowbandModel,
    ZhCnTelephony,
}

impl ModelID {
    /// The identifier that the service expects for the model.
    pub open spec fn spec_id(self) -> Seq<char> {
        match self {
            ModelID::ArArBroadbandModel => "ar-AR_BroadbandModel"@,
            ModelID::ArMsBroadbandModel => "ar-MS_BroadbandModel"@,
            ModelID::ArMsTelephony => "ar-MS_Telephony"@,
            ModelID::CsCzTelephony => "cs-CZ_Telephony"@,
            ModelID::DeDeBroadbandModel => "de-DE_BroadbandModel"@,
            ModelID::DeDeMultimedia => "de-DE_Multimedia"@,
            ModelID::DeDeNarrowbandModel => "de-DE_NarrowbandModel"@,
            ModelID::DeDeTelephony => "de-DE_Telephony"@,
            ModelID::EnAuBroadbandModel => "en-AU_BroadbandModel"@,
            ModelID::EnAuMultimedia => "en-AU_Multimedia"@,
            ModelID::EnAuNarrowbandModel => "en-AU_NarrowbandModel"@,
            ModelID::EnAuTelephony => "en-AU_Telephony"@,
            ModelID::EnGbBroadbandModel => "en-GB_BroadbandModel"@,
            ModelID::EnGbMultimedia => "en-GB_Multimedia"@,
            ModelID::EnGbNarrowbandModel => "en-GB_NarrowbandModel"@,
            ModelID::EnGbTelephony => "en-GB_Telephony"@,
            ModelID::EnInTelephony => "en-IN_Telephony"@,
            ModelID::EnUsBroadbandModel => "en-US_BroadbandModel"@,
            ModelID::EnUsMultimedia => "en-US_Multimedia"@,
            ModelID::EnUsNarrowbandModel => "en-US_NarrowbandModel"@,
            ModelID::EnUsShortFormNarrowbandModel => "en-US_ShortForm_NarrowbandModel"@,
            ModelID::EnUsTelephony => "en-US_Telephony"@,
            ModelID::EnWwMedicalTelephony => "en-WW_Medical_Telephony"@,
            ModelID::EsArBroadbandModel => "es-AR_BroadbandModel"@,
            ModelID::EsArNarrowbandModel => "es-AR_NarrowbandModel"@,
            ModelID::EsClBroadbandModel => "es-CL_BroadbandModel"@,
            ModelID::EsClNarrowbandModel => "es-CL_NarrowbandModel"@,
            ModelID::EsCoBroadbandModel => "es-CO_BroadbandModel"@,
            ModelID::EsCoNarrowbandModel => "es-CO_NarrowbandModel"@,
            ModelID::EsEsBroadbandModel => "es-ES_BroadbandModel"@,
            ModelID::EsEsNarrowbandModel => "es-ES_NarrowbandModel"@,
            ModelID::EsEsMultimedia => "es-ES_Multimedia"@,
            ModelID::EsEsTelephony => "es-ES_Telephony"@,
            ModelID::EsLaTelephony => "es-LA_Telephony"@,
            ModelID::EsMxBroadbandModel => "es-MX_BroadbandModel"@,
            ModelID::EsMxNarrowbandModel => "es-MX_NarrowbandModel"@,
            ModelID::EsPeBroadbandModel => "es-PE_BroadbandModel"@,
            ModelID::EsPeNarrowbandModel => "es-PE_NarrowbandModel"@,
            ModelID::FrCaBroadbandModel => "fr-CA_BroadbandModel"@,
            ModelID::FrCaMultimedia => "fr-CA_Multimedia"@,
            ModelID::FrCaNarrowbandModel => "fr-CA_NarrowbandModel"@,
            ModelID::FrCaTelephony => "fr-CA_Telephony"@,
            ModelID::FrFrBroadbandModel => "fr-FR_BroadbandModel"@,
            ModelID::FrFrMultimedia => "fr-FR_Multimedia"@,
            ModelID::FrFrNarrowbandModel => "fr-FR_NarrowbandModel"@,
            ModelID::FrFrTelephony => "fr-FR_Telephony"@,
            ModelID::HiInTelephony => "hi-IN_Telephony"@,
            ModelID::ItItBroadbandModel => "it-IT_BroadbandModel"@,
            ModelID::ItItNarrowbandModel => "it-IT_NarrowbandModel"@,
            ModelID::ItItMultimedia => "it-IT_Multimedia"@,
            ModelID::ItItTelephony => "it-IT_Telephony"@,
            ModelID::JaJpBroadbandModel => "ja-JP_BroadbandModel"@,
            ModelID::JaJpMultimedia => "ja-JP_Multimedia"@,
            ModelID::JaJpNarrowbandModel => "ja-JP_NarrowbandModel"@,
            ModelID::KoKrBroadbandModel => "ko-KR_BroadbandModel"@,
            ModelID::KoKrMultimedia => "ko-KR_Multimedia"@,
            ModelID::KoKrNarrowbandModel => "ko-KR_NarrowbandModel"@,
            ModelID::KoKrTelephony => "ko-KR_Telephony"@,
            ModelID::NlBeTelephony => "nl-BE_Telephony"@,
            ModelID::NlNlBroadbandModel => "nl-NL_BroadbandModel"@,
            ModelID::NlNlNarrowbandModel => "nl-NL_NarrowbandModel"@,
            ModelID::NlNlTelephony => "nl-NL_Telephony"@,
            ModelID::PtBrBroadbandModel => "pt-BR_BroadbandModel"@,
            ModelID::PtBrMultimedia => "pt-BR_Multimedia"@,
            ModelID::PtBrNarrowbandModel => "pt-BR_NarrowbandModel"@,
            ModelID::PtBrTelephony => "pt-BR_Telephony"@,
            ModelID::SvSeTelephony => "sv-SE_Telephony"@,
            ModelID::ZhCnBroadbandModel => "zh-CN_BroadbandModel"@,
            ModelID::ZhCnNarrowbandModel => "zh-CN_NarrowbandModel"@,
            ModelID::ZhCnTelephony => "zh-CN_Telephony"@,
        }
    }

    /// The identifier that the service expects for the model.
    pub fn id(&self) -> (r: &'static str)
        ensures
            r@ == self.spec_id(),
    {
        match self {
            ModelID::ArArBroadbandModel => "ar-AR_BroadbandModel",
            ModelID::ArMsBroadbandModel => "ar-MS_BroadbandModel",
            ModelID::ArMsTelephony => "ar-MS_Telephony",
            ModelID::CsCzTelephony => "cs-CZ_Telephony",
            ModelID::DeDeBroadbandModel => "de-DE_BroadbandModel",
            ModelID::DeDeMultimedia => "de-DE_Multimedia",
            ModelID::DeDeNarrowbandModel => "de-DE_NarrowbandModel",
            ModelID::DeDeTelephony => "de-DE_Telephony",
            ModelID::EnAuBroadbandModel => "en-AU_BroadbandModel",
            ModelID::EnAuMultimedia => "en-AU_Multimedia",
            ModelID::EnAuNarrowbandModel => "en-AU_NarrowbandModel",
            ModelID::EnAuTelephony => "en-AU_Telephony",
            ModelID::EnGbBroadbandModel => "en-GB_BroadbandModel",
            ModelID::EnGbMultimedia => "en-GB_Multimedia",
            ModelID::EnGbNarrowbandModel => "en-GB_NarrowbandModel",
            ModelID::EnGbTelephony => "en-GB_Telephony",
            ModelID::EnInTelephony => "en-IN_Telephony",
            ModelID::EnUsBroadbandModel => "en-US_BroadbandModel",
            ModelID::EnUsMultimedia => "en-US_Multimedia",
            ModelID::EnUsNarrowbandModel => "en-US_NarrowbandModel",
            ModelID::EnUsShortFormNarrowbandModel => "en-US_ShortForm_NarrowbandModel",
            ModelID::EnUsTelephony => "en-US_Telephony",
            ModelID::EnWwMedicalTelephony => "en-WW_Medical_Telephony",
            ModelID::EsArBroadbandModel => "es-AR_BroadbandModel",
            ModelID::EsArNarrowbandModel => "es-AR_NarrowbandModel",
            ModelID::EsClBroadbandModel => "es-CL_BroadbandModel",
            ModelID::EsClNarrowbandModel => "es-CL_NarrowbandModel",
            ModelID::EsCoBroadbandModel => "es-CO_BroadbandModel",
            ModelID::EsCoNarrowbandModel => "es-CO_NarrowbandModel",
            ModelID::EsEsBroadbandModel => "es-ES_BroadbandModel",
            ModelID::EsEsNarrowbandModel => "es-ES_NarrowbandModel",
            ModelID::EsEsMultimedia => "es-ES_Multimedia",
            ModelID::EsEsTelephony => "es-ES_Telephony",
            ModelID::EsLaTelephony => "es-LA_Telephony",
            ModelID::EsMxBroadbandModel => "es-MX_BroadbandModel",
            ModelID::EsMxNarrowbandModel => "es-MX_NarrowbandModel",
            ModelID::EsPeBroadbandModel => "es-PE_BroadbandModel",
            ModelID::EsPeNarrowbandModel => "es-PE_NarrowbandModel",
            ModelID::FrCaBroadbandModel => "fr-CA_BroadbandModel",
            ModelID::FrCaMultimedia => "fr-CA_Multimedia",
            ModelID::FrCaNarrowbandModel => "fr-CA_NarrowbandModel",
            ModelID::FrCaTelephony => "fr-CA_Telephony",
            ModelID::FrFrBroadbandModel => "fr-FR_BroadbandModel",
            ModelID::FrFrMultimedia => "fr-FR_Multimedia",
            ModelID::FrFrNarrowbandModel => "fr-FR_NarrowbandModel",
            ModelID::FrFrTelephony => "fr-FR_Telephony",
            ModelID::HiInTelephony => "hi-IN_Telephony",
            ModelID::ItItBroadbandModel => "it-IT_BroadbandModel",
            ModelID::ItItNarrowbandModel => "it-IT_NarrowbandModel",
            ModelID::ItItMultimedia => "it-IT_Multimedia",
            ModelID::ItItTelephony => "it-IT_Telephony",
            ModelID::JaJpBroadbandModel => "ja-JP_BroadbandModel",
            ModelID::JaJpMultimedia => "ja-JP_Multimedia",
            ModelID::JaJpNarrowbandModel => "ja-JP_NarrowbandModel",
            ModelID::KoKrBroadbandModel => "ko-KR_BroadbandModel",
            ModelID::KoKrMultimedia => "ko-KR_Multimedia",
            ModelID::KoKrNarrowbandModel => "ko-KR_NarrowbandModel",
            ModelID::KoKrTelephony => "ko-KR_Telephony",
            ModelID::NlBeTelephony => "nl-BE_Telephony",
            ModelID::NlNlBroadbandModel => "nl-NL_BroadbandModel",
            ModelID::NlNlNarrowbandModel => "nl-NL_NarrowbandModel",
            ModelID::NlNlTelephony => "nl-NL_Telephony",
            ModelID::PtBrBroadbandModel => "pt-BR_BroadbandModel",
            ModelID::PtBrMultimedia => "pt-BR_Multimedia",
            ModelID::PtBrNarrowbandModel => "pt-BR_NarrowbandModel",
            ModelID::PtBrTelephony => "pt-BR_Telephony",
            ModelID::SvSeTelephony => "sv-SE_Telephony",
            ModelID::ZhCnBroadbandModel => "zh-CN_BroadbandModel",
            ModelID::ZhCnNarrowbandModel => "zh-CN_NarrowbandModel",
            ModelID::ZhCnTelephony => "zh-CN_Telephony",
        }
    }

    /// The identifier of the model, as an owned string.
    pub fn to_string(&self) -> (r: String)
        ensures
            r@ == self.spec_id(),
    {
        String::from_str(self.id())
    }
}

/// Every model has a non-empty identifier, and no two models share one.
pub proof fn lemma_model_ids_distinct(a: ModelID, b: ModelID)
    ensures
        a.spec_id().len() > 0,
        a != b ==> a.spec_id() != b.spec_id(),
{
    // Identifiers of different lengths differ; two of the same length differ at
    // one of the positions named below, which tells every pair apart.
    reveal_strlit("ar-AR_BroadbandModel");
    assert("ar-AR_BroadbandModel"@.len() == 20
        && "ar-AR_BroadbandModel"@[0] == 'a'
        && "ar-AR_BroadbandModel"@[1] == 'r'
        && "ar-AR_BroadbandModel"@[3] == 'A'
        && "ar-AR_BroadbandModel"@[4] == 'R');
    reveal_strlit("ar-MS_BroadbandModel");
    assert("ar-MS_BroadbandModel"@.len() == 20
        && "ar-MS_BroadbandModel"@[0] == 'a'
        && "ar-MS_BroadbandModel"@[1] == 'r'
        && "ar-MS_BroadbandModel"@[3] == 'M'
        && "ar-MS_BroadbandModel"@[4] == 'S');
    reveal_strlit("ar-MS_Telephony");
    assert("ar-MS_Telephony"@.len() == 15
        && "ar-MS_Telephony"@[0] == 'a'
        && "ar-MS_Telephony"@[1] == 'r'
        && "ar-MS_Telephony"@[3] == 'M'
        && "ar-MS_Telephony"@[4] == 'S');
    reveal_strlit("cs-CZ_Telephony");
    assert("cs-CZ_Telephony"@.len() == 15
        && "cs-CZ_Telephony"@[0] == 'c'
        && "cs-CZ_Telephony"@[1] == 's'
        && "cs-CZ_Telephony"@[3] == 'C'
        && "cs-CZ_Telephony"@[4] == 'Z');
    reveal_strlit("de-DE_BroadbandModel");
    assert("de-DE_BroadbandModel"@.len() == 20
        && "de-DE_BroadbandModel"@[0] == 'd'
        && "de-DE_BroadbandModel"@[1] == 'e'
        && "de-DE_BroadbandModel"@[3] == 'D'
        && "de-DE_BroadbandModel"@[4] == 'E');
    reveal_strlit("de-DE_Multimedia");
    assert("de-DE_Multimedia"@.len() == 16
        && "de-DE_Multimedia"@[0] == 'd'
        && "de-DE_Multimedia"@[1] == 'e'
        && "de-DE_Multimedia"@[3] == 'D'
        && "de-DE_Multimedia"@[4] == 'E');
    reveal_strlit("de-DE_NarrowbandModel");
    assert("de-DE_NarrowbandModel"@.len() == 21
        && "de-DE_NarrowbandModel"@[0] == 'd'
        && "de-DE_NarrowbandModel"@[1] == 'e'
        && "de-DE_NarrowbandModel"@[3] == 'D'
        && "de-DE_NarrowbandModel"@[4] == 'E');
    reveal_strlit("de-DE_Telephony");
    assert("de-DE_Telephony"@.len() == 15
        && "de-DE_Telephony"@[0] == 'd'
        && "de-DE_Telephony"@[1] == 'e'
        && "de-DE_Telephony"@[3] == 'D'
        && "de-DE_Telephony"@[4] == 'E');
    reveal_strlit("en-AU_BroadbandModel");
    assert("en-AU_BroadbandModel"@.len() == 20
        && "en-AU_BroadbandModel"@[0] == 'e'
        && "en-AU_BroadbandModel"@[1] == 'n'
        && "en-AU_BroadbandModel"@[3] == 'A'
        && "en-AU_BroadbandModel"@[4] == 'U');
    reveal_strlit("en-AU_Multimedia");
    assert("en-AU_Multimedia"@.len() == 16
        && "en-AU_Multimedia"@[0] == 'e'
        && "en-AU_Multimedia"@[1] == 'n'
        && "en-AU_Multimedia"@[3] == 'A'
        && "en-AU_Multimedia"@[4] == 'U');
    reveal_strlit("en-AU_NarrowbandModel");
    assert("en-AU_NarrowbandModel"@.len() == 21
        && "en-AU_NarrowbandModel"@[0] == 'e'
        && "en-AU_NarrowbandModel"@[1] == 'n'
        && "en-AU_NarrowbandModel"@[3] == 'A'
        && "en-AU_NarrowbandModel"@[4] == 'U');
    reveal_strlit("en-AU_Telephony");
    assert("en-AU_Telephony"@.len() == 15
        && "en-AU_Telephony"@[0] == 'e'
        && "en-AU_Telephony"@[1] == 'n'
        && "en-AU_Telephony"@[3] == 'A'
        && "en-AU_Telephony"@[4] == 'U');
    reveal_strlit("en-GB_BroadbandModel");
    assert("en-GB_BroadbandModel"@.len() == 20
        && "en-GB_BroadbandModel"@[0] == 'e'
        && "en-GB_BroadbandModel"@[1] == 'n'
        && "en-GB_BroadbandModel"@[3] == 'G'
        && "en-GB_BroadbandModel"@[4] == 'B');
    reveal_strlit("en-GB_Multimedia");
    assert("en-GB_Multimedia"@.len() == 16
        && "en-GB_Multimedia"@[0] == 'e'
        && "en-GB_Multimedia"@[1] == 'n'
        && "en-GB_Multimedia"@[3] == 'G'
        && "en-GB_Multimedia"@[4] == 'B');
    reveal_strlit("en-GB_NarrowbandModel");
    assert("en-GB_NarrowbandModel"@.len() == 21
        && "en-GB_NarrowbandModel"@[0] == 'e'
        && "en-GB_NarrowbandModel"@[1] == 'n'
        && "en-GB_NarrowbandModel"@[3] == 'G'
        && "en-GB_NarrowbandModel"@[4] == 'B');
    reveal_strlit("en-GB_Telephony");
    assert("en-GB_Telephony"@.len() == 15
        && "en-GB_Telephony"@[0] == 'e'
        && "en-GB_Telephony"@[1] == 'n'
        && "en-GB_Telephony"@[3] == 'G'
        && "en-GB_Telephony"@[4] == 'B');
    reveal_strlit("en-IN_Telephony");
    assert("en-IN_Telephony"@.len() == 15
        && "en-IN_Telephony"@[0] == 'e'
        && "en-IN_Telephony"@[1] == 'n'
        && "en-IN_Telephony"@[3] == 'I'
        && "en-IN_Telephony"@[4] == 'N');
    reveal_strlit("en-US_BroadbandModel");
    assert("en-US_BroadbandModel"@.len() == 20
        && "en-US_BroadbandModel"@[0] == 'e'
        && "en-US_BroadbandModel"@[1] == 'n'
        && "en-US_BroadbandModel"@[3] == 'U'
        && "en-US_BroadbandModel"@[4] == 'S');
    reveal_strlit("en-US_Multimedia");
    assert("en-US_Multimedia"@.len() == 16
        && "en-US_Multimedia"@[0] == 'e'
        && "en-US_Multimedia"@[1] == 'n'
        && "en-US_Multimedia"@[3] == 'U'
        && "en-US_Multimedia"@[4] == 'S');
    reveal_strlit("en-US_NarrowbandModel");
    assert("en-US_NarrowbandModel"@.len() == 21
        && "en-US_NarrowbandModel"@[0] == 'e'
        && "en-US_NarrowbandModel"@[1] == 'n'
        && "en-US_NarrowbandModel"@[3] == 'U'
        && "en-US_NarrowbandModel"@[4] == 'S');
    reveal_strlit("en-US_ShortForm_NarrowbandModel");
    assert("en-US_ShortForm_NarrowbandModel"@.len() == 31
        && "en-US_ShortForm_NarrowbandModel"@[0] == 'e'
        && "en-US_ShortForm_NarrowbandModel"@[1] == 'n'
        && "en-US_ShortForm_NarrowbandModel"@[3] == 'U'
        && "en-US_ShortForm_NarrowbandModel"@[4] == 'S');
    reveal_strlit("en-US_Telephony");
    assert("en-US_Telephony"@.len() == 15
        && "en-US_Telephony"@[0] == 'e'
        && "en-US_Telephony"@[1] == 'n'
        && "en-US_Telephony"@[3] == 'U'
        && "en-US_Telephony"@[4] == 'S');
    reveal_strlit("en-WW_Medical_Telephony");
    assert("en-WW_Medical_Telephony"@.len() == 23
        && "en-WW_Medical_Telephony"@[0] == 'e'
        && "en-WW_Medical_Telephony"@[1] == 'n'
        && "en-WW_Medical_Telephony"@[3] == 'W'
        && "en-WW_Medical_Telephony"@[4] == 'W');
    reveal_strlit("es-AR_BroadbandModel");
    assert("es-AR_BroadbandModel"@.len() == 20
        && "es-AR_BroadbandModel"@[0] == 'e'
        && "es-AR_BroadbandModel"@[1] == 's'
        && "es-AR_BroadbandModel"@[3] == 'A'
        && "es-AR_BroadbandModel"@[4] == 'R');
    reveal_strlit("es-AR_NarrowbandModel");
    assert("es-AR_NarrowbandModel"@.len() == 21
        && "es-AR_NarrowbandModel"@[0] == 'e'
        && "es-AR_NarrowbandModel"@[1] == 's'
        && "es-AR_NarrowbandModel"@[3] == 'A'
        && "es-AR_NarrowbandModel"@[4] == 'R');
    reveal_strlit("es-CL_BroadbandModel");
    assert("es-CL_BroadbandModel"@.len() == 20
        && "es-CL_BroadbandModel"@[0] == 'e'
        && "es-CL_BroadbandModel"@[1] == 's'
        && "es-CL_BroadbandModel"@[3] == 'C'
        && "es-CL_BroadbandModel"@[4] == 'L');
    reveal_strlit("es-CL_NarrowbandModel");
    assert("es-CL_NarrowbandModel"@.len() == 21
        && "es-CL_NarrowbandModel"@[0] == 'e'
        && "es-CL_NarrowbandModel"@[1] == 's'
        && "es-CL_NarrowbandModel"@[3] == 'C'
        && "es-CL_NarrowbandModel"@[4] == 'L');
    reveal_strlit("es-CO_BroadbandModel");
    assert("es-CO_BroadbandModel"@.len() == 20
        && "es-CO_BroadbandModel"@[0] == 'e'
        && "es-CO_BroadbandModel"@[1] == 's'
        && "es-CO_BroadbandModel"@[3] == 'C'
        && "es-CO_BroadbandModel"@[4] == 'O');
    reveal_strlit("es-CO_NarrowbandModel");
    assert("es-CO_NarrowbandModel"@.len() == 21
        && "es-CO_NarrowbandModel"@[0] == 'e'
        && "es-CO_NarrowbandModel"@[1] == 's'
        && "es-CO_NarrowbandModel"@[3] == 'C'
        && "es-CO_NarrowbandModel"@[4] == 'O');
    reveal_strlit("es-ES_BroadbandModel");
    assert("es-ES_BroadbandModel"@.len() == 20
        && "es-ES_BroadbandModel"@[0] == 'e'
        && "es-ES_BroadbandModel"@[1] == 's'
        && "es-ES_BroadbandModel"@[3] == 'E'
        && "es-ES_BroadbandModel"@[4] == 'S');
    reveal_strlit("es-ES_NarrowbandModel");
    assert("es-ES_NarrowbandModel"@.len() == 21
        && "es-ES_NarrowbandModel"@[0] == 'e'
        && "es-ES_NarrowbandModel"@[1] == 's'
        && "es-ES_NarrowbandModel"@[3] == 'E'
        && "es-ES_NarrowbandModel"@[4] == 'S');
    reveal_strlit("es-ES_Multimedia");
    assert("es-ES_Multimedia"@.len() == 16
        && "es-ES_Multimedia"@[0] == 'e'
        && "es-ES_Multimedia"@[1] == 's'
        && "es-ES_Multimedia"@[3] == 'E'
        && "es-ES_Multimedia"@[4] == 'S');
    reveal_strlit("es-ES_Telephony");
    assert("es-ES_Telephony"@.len() == 15
        && "es-ES_Telephony"@[0] == 'e'
        && "es-ES_Telephony"@[1] == 's'
        && "es-ES_Telephony"@[3] == 'E'
        && "es-ES_Telephony"@[4] == 'S');
    reveal_strlit("es-LA_Telephony");
    assert("es-LA_Telephony"@.len() == 15
        && "es-LA_Telephony"@[0] == 'e'
        && "es-LA_Telephony"@[1] == 's'
        && "es-LA_Telephony"@[3] == 'L'
        && "es-LA_Telephony"@[4] == 'A');
    reveal_strlit("es-MX_BroadbandModel");
    assert("es-MX_BroadbandModel"@.len() == 20
        && "es-MX_BroadbandModel"@[0] == 'e'
        && "es-MX_BroadbandModel"@[1] == 's'
        && "es-MX_BroadbandModel"@[3] == 'M'
        && "es-MX_BroadbandModel"@[4] == 'X');
    reveal_strlit("es-MX_NarrowbandModel");
    assert("es-MX_NarrowbandModel"@.len() == 21
        && "es-MX_NarrowbandModel"@[0] == 'e'
        && "es-MX_NarrowbandModel"@[1] == 's'
        && "es-MX_NarrowbandModel"@[3] == 'M'
        && "es-MX_NarrowbandModel"@[4] == 'X');
    reveal_strlit("es-PE_BroadbandModel");
    assert("es-PE_BroadbandModel"@.len() == 20
        && "es-PE_BroadbandModel"@[0] == 'e'
        && "es-PE_BroadbandModel"@[1] == 's'
        && "es-PE_BroadbandModel"@[3] == 'P'
        && "es-PE_BroadbandModel"@[4] == 'E');
    reveal_strlit("es-PE_NarrowbandModel");
    assert("es-PE_NarrowbandModel"@.len() == 21
        && "es-PE_NarrowbandModel"@[0] == 'e'
        && "es-PE_NarrowbandModel"@[1] == 's'
        && "es-PE_NarrowbandModel"@[3] == 'P'
        && "es-PE_NarrowbandModel"@[4] == 'E');
    reveal_strlit("fr-CA_BroadbandModel");
    assert("fr-CA_BroadbandModel"@.len() == 20
        && "fr-CA_BroadbandModel"@[0] == 'f'
        && "fr-CA_BroadbandModel"@[1] == 'r'
        && "fr-CA_BroadbandModel"@[3] == 'C'
        && "fr-CA_BroadbandModel"@[4] == 'A');
    reveal_strlit("fr-CA_Multimedia");
    assert("fr-CA_Multimedia"@.len() == 16
        && "fr-CA_Multimedia"@[0] == 'f'
        && "fr-CA_Multimedia"@[1] == 'r'
        && "fr-CA_Multimedia"@[3] == 'C'
        && "fr-CA_Multimedia"@[4] == 'A');
    reveal_strlit("fr-CA_NarrowbandModel");
    assert("fr-CA_NarrowbandModel"@.len() == 21
        && "fr-CA_NarrowbandModel"@[0] == 'f'
        && "fr-CA_NarrowbandModel"@[1] == 'r'
        && "fr-CA_NarrowbandModel"@[3] == 'C'
        && "fr-CA_NarrowbandModel"@[4] == 'A');
    reveal_strlit("fr-CA_Telephony");
    assert("fr-CA_Telephony"@.len() == 15
        && "fr-CA_Telephony"@[0] == 'f'
        && "fr-CA_Telephony"@[1] == 'r'
        && "fr-CA_Telephony"@[3] == 'C'
        && "fr-CA_Telephony"@[4] == 'A');
    reveal_strlit("fr-FR_BroadbandModel");
    assert("fr-FR_BroadbandModel"@.len() == 20
        && "fr-FR_BroadbandModel"@[0] == 'f'
        && "fr-FR_BroadbandModel"@[1] == 'r'
        && "fr-FR_BroadbandModel"@[3] == 'F'
        && "fr-FR_BroadbandModel"@[4] == 'R');
    reveal_strlit("fr-FR_Multimedia");
    assert("fr-FR_Multimedia"@.len() == 16
        && "fr-FR_Multimedia"@[0] == 'f'
        && "fr-FR_Multimedia"@[1] == 'r'
        && "fr-FR_Multimedia"@[3] == 'F'
        && "fr-FR_Multimedia"@[4] == 'R');
    reveal_strlit("fr-FR_NarrowbandModel");
    assert("fr-FR_NarrowbandModel"@.len() == 21
        && "fr-FR_NarrowbandModel"@[0] == 'f'
        && "fr-FR_NarrowbandModel"@[1] == 'r'
        && "fr-FR_NarrowbandModel"@[3] == 'F'
        && "fr-FR_NarrowbandModel"@[4] == 'R');
    reveal_strlit("fr-FR_Telephony");
    assert("fr-FR_Telephony"@.len() == 15
        && "fr-FR_Telephony"@[0] == 'f'
        && "fr-FR_Telephony"@[1] == 'r'
        && "fr-FR_Telephony"@[3] == 'F'
        && "fr-FR_Telephony"@[4] == 'R');
    reveal_strlit("hi-IN_Telephony");
    assert("hi-IN_Telephony"@.len() == 15
        && "hi-IN_Telephony"@[0] == 'h'
        && "hi-IN_Telephony"@[1] == 'i'
        && "hi-IN_Telephony"@[3] == 'I'
        && "hi-IN_Telephony"@[4] == 'N');
    reveal_strlit("it-IT_BroadbandModel");
    assert("it-IT_BroadbandModel"@.len() == 20
        && "it-IT_BroadbandModel"@[0] == 'i'
        && "it-IT_BroadbandModel"@[1] == 't'
        && "it-IT_BroadbandModel"@[3] == 'I'
        && "it-IT_BroadbandModel"@[4] == 'T');
    reveal_strlit("it-IT_NarrowbandModel");
    assert("it-IT_NarrowbandModel"@.len() == 21
        && "it-IT_NarrowbandModel"@[0] == 'i'
        && "it-IT_NarrowbandModel"@[1] == 't'
        && "it-IT_NarrowbandModel"@[3] == 'I'
        && "it-IT_NarrowbandModel"@[4] == 'T');
    reveal_strlit("it-IT_Multimedia");
    assert("it-IT_Multimedia"@.len() == 16
        && "it-IT_Multimedia"@[0] == 'i'
        && "it-IT_Multimedia"@[1] == 't'
        && "it-IT_Multimedia"@[3] == 'I'
        && "it-IT_Multimedia"@[4] == 'T');
    reveal_strlit("it-IT_Telephony");
    assert("it-IT_Telephony"@.len() == 15
        && "it-IT_Telephony"@[0] == 'i'
        && "it-IT_Telephony"@[1] == 't'
        && "it-IT_Telephony"@[3] == 'I'
        && "it-IT_Telephony"@[4] == 'T');
    reveal_strlit("ja-JP_BroadbandModel");
    assert("ja-JP_BroadbandModel"@.len() == 20
        && "ja-JP_BroadbandModel"@[0] == 'j'
        && "ja-JP_BroadbandModel"@[1] == 'a'
        && "ja-JP_BroadbandModel"@[3] == 'J'
        && "ja-JP_BroadbandModel"@[4] == 'P');
    reveal_strlit("ja-JP_Multimedia");
    assert("ja-JP_Multimedia"@.len() == 16
        && "ja-JP_Multimedia"@[0] == 'j'
        && "ja-JP_Multimedia"@[1] == 'a'
        && "ja-JP_Multimedia"@[3] == 'J'
        && "ja-JP_Multimedia"@[4] == 'P');
    reveal_strlit("ja-JP_NarrowbandModel");
    assert("ja-JP_NarrowbandModel"@.len() == 21
        && "ja-JP_NarrowbandModel"@[0] == 'j'
        && "ja-JP_NarrowbandModel"@[1] == 'a'
        && "ja-JP_NarrowbandModel"@[3] == 'J'
        && "ja-JP_NarrowbandModel"@[4] == 'P');
    reveal_strlit("ko-KR_BroadbandModel");
    assert("ko-KR_BroadbandModel"@.len() == 20
        && "ko-KR_BroadbandModel"@[0] == 'k'
        && "ko-KR_BroadbandModel"@[1] == 'o'
        && "ko-KR_BroadbandModel"@[3] == 'K'
        && "ko-KR_BroadbandModel"@[4] == 'R');
    reveal_strlit("ko-KR_Multimedia");
    assert("ko-KR_Multimedia"@.len() == 16
        && "ko-KR_Multimedia"@[0] == 'k'
        && "ko-KR_Multimedia"@[1] == 'o'
        && "ko-KR_Multimedia"@[3] == 'K'
        && "ko-KR_Multimedia"@[4] == 'R');
    reveal_strlit("ko-KR_NarrowbandModel");
    assert("ko-KR_NarrowbandModel"@.len() == 21
        && "ko-KR_NarrowbandModel"@[0] == 'k'
        && "ko-KR_NarrowbandModel"@[1] == 'o'
        && "ko-KR_NarrowbandModel"@[3] == 'K'
        && "ko-KR_NarrowbandModel"@[4] == 'R');
    reveal_strlit("ko-KR_Telephony");
    assert("ko-KR_Telephony"@.len() == 15
        && "ko-KR_Telephony"@[0] == 'k'
        && "ko-KR_Telephony"@[1] == 'o'
        && "ko-KR_Telephony"@[3] == 'K'
        && "ko-KR_Telephony"@[4] == 'R');
    reveal_strlit("nl-BE_Telephony");
    assert("nl-BE_Telephony"@.len() == 15
        && "nl-BE_Telephony"@[0] == 'n'
        && "nl-BE_Telephony"@[1] == 'l'
        && "nl-BE_Telephony"@[3] == 'B'
        && "nl-BE_Telephony"@[4] == 'E');
    reveal_strlit("nl-NL_BroadbandModel");
    assert("nl-NL_BroadbandModel"@.len() == 20
        && "nl-NL_BroadbandModel"@[0] == 'n'
        && "nl-NL_BroadbandModel"@[1] == 'l'
        && "nl-NL_BroadbandModel"@[3] == 'N'
        && "nl-NL_BroadbandModel"@[4] == 'L');
    reveal_strlit("nl-NL_NarrowbandModel");
    assert("nl-NL_NarrowbandModel"@.len() == 21
        && "nl-NL_NarrowbandModel"@[0] == 'n'
        && "nl-NL_NarrowbandModel"@[1] == 'l'
        && "nl-NL_NarrowbandModel"@[3] == 'N'
        && "nl-NL_NarrowbandModel"@[4] == 'L');
    reveal_strlit("nl-NL_Telephony");
    assert("nl-NL_Telephony"@.len() == 15
        && "nl-NL_Telephony"@[0] == 'n'
        && "nl-NL_Telephony"@[1] == 'l'
        && "nl-NL_Telephony"@[3] == 'N'
        && "nl-NL_Telephony"@[4] == 'L');
    reveal_strlit("pt-BR_BroadbandModel");
    assert("pt-BR_BroadbandModel"@.len() == 20
        && "pt-BR_BroadbandModel"@[0] == 'p'
        && "pt-BR_BroadbandModel"@[1] == 't'
        && "pt-BR_BroadbandModel"@[3] == 'B'
        && "pt-BR_BroadbandModel"@[4] == 'R');
    reveal_strlit("pt-BR_Multimedia");
    assert("pt-BR_Multimedia"@.len() == 16
        && "pt-BR_Multimedia"@[0] == 'p'
        && "pt-BR_Multimedia"@[1] == 't'
        && "pt-BR_Multimedia"@[3] == 'B'
        && "pt-BR_Multimedia"@[4] == 'R');
    reveal_strlit("pt-BR_NarrowbandModel");
    assert("pt-BR_NarrowbandModel"@.len() == 21
        && "pt-BR_NarrowbandModel"@[0] == 'p'
        && "pt-BR_NarrowbandModel"@[1] == 't'
        && "pt-BR_NarrowbandModel"@[3] == 'B'
        && "pt-BR_NarrowbandModel"@[4] == 'R');
    reveal_strlit("pt-BR_Telephony");
    assert("pt-BR_Telephony"@.len() == 15
        && "pt-BR_Telephony"@[0] == 'p'
        && "pt-BR_Telephony"@[1] == 't'
        && "pt-BR_Telephony"@[3] == 'B'
        && "pt-BR_Telephony"@[4] == 'R');
    reveal_strlit("sv-SE_Telephony");
    assert("sv-SE_Telephony"@.len() == 15
        && "sv-SE_Telephony"@[0] == 's'
        && "sv-SE_Telephony"@[1] == 'v'
        && "sv-SE_Telephony"@[3] == 'S'
        && "sv-SE_Telephony"@[4] == 'E');
    reveal_strlit("zh-CN_BroadbandModel");
    assert("zh-CN_BroadbandModel"@.len() == 20
        && "zh-CN_BroadbandModel"@[0] == 'z'
        && "zh-CN_BroadbandModel"@[1] == 'h'
        && "zh-CN_BroadbandModel"@[3] == 'C'
        && "zh-CN_BroadbandModel"@[4] == 'N');
    reveal_strlit("zh-CN_NarrowbandModel");
    assert("zh-CN_NarrowbandModel"@.len() == 21
        && "zh-CN_NarrowbandModel"@[0] == 'z'
        && "zh-CN_NarrowbandModel"@[1] == 'h'
        && "zh-CN_NarrowbandModel"@[3] == 'C'
        && "zh-CN_NarrowbandModel"@[4] == 'N');
    reveal_strlit("zh-CN_Telephony");
    assert("zh-CN_Telephony"@.len() == 15
        && "zh-CN_Telephony"@[0] == 'z'
        && "zh-CN_Telephony"@[1] == 'h'
        && "zh-CN_Telephony"@[3] == 'C'
        && "zh-CN_Telephony"@[4] == 'N');
}

/// The features that a model supports.
#[derive(Clone, Debug, PartialEq, Eq, Default)]
pub struct SupportedFeatures {
    /// Whether the model can be customised with a custom language model.
    pub custom_language_model: bool,
    /// Whether the model can be customised with a custom acoustic model.
    pub custom_acoustic_model: bool,
    /// Whether the model can label speakers.
    pub speaker_labels: bool,
}

/// A recognition model.
#[derive(Clone, Debug, PartialEq, Eq, Default)]
pub struct Model {
    /// The name of the model.
    pub name: String,
    /// The language of the model.
    pub language: String,
    /// The URI of the model.
    pub url: String,
    /// The sampling rate of the model, in Hz.
    pub rate: i64,
    /// The features that the model supports.
    pub supported_features: SupportedFeatures,
    /// A description of the model.
    pub description: String,
}

/// The configuration with which the requests to a speech-to-text instance are made.
#[derive(Debug)]
pub struct SpeechToText {
    endpoint: Endpoint,
}

impl SpeechToText {
    /// The service instance called.
    pub closed spec fn spec_endpoint(&self) -> Endpoint {
        self.endpoint
    }

    /// A client for the instance at `service_url`, with the token that
    /// `authenticator` holds.
    pub fn new(authenticator: &IamAuthenticator, service_url: &str) -> (r: SpeechToText)
        ensures
            r.spec_endpoint().spec_service_url() == service_url@,
            r.spec_endpoint().spec_access_token() == authenticator.token()@.access_token,
    {
        let token = authenticator.token_response().access_token();
        SpeechToText { endpoint: Endpoint::new(service_url, token) }
    }

    /// The request that lists the recognition models: `GET v1/models`.
    pub fn list_models_request(&self) -> (r: HttpRequest)
        ensures
            r@ == self.spec_endpoint().request_of(
                Method::Get,
                seq!["v1"@, "models"@],
                Seq::empty(),
                BodyView::Empty,
            ),
    {
        let segments = vec!["v1", "models"];
        let pairs: Vec<(&str, &str)> = Vec::new();
        let r = self.endpoint.request(Method::Get, &segments, &pairs, Body::Empty);
        assert(segment_views(segments@) =~= seq!["v1"@, "models"@]);
        assert(pair_views(pairs@) =~= Seq::empty());
        r
    }

    /// The request that describes the model `model_id`: `GET v1/models/{model_id}`.
    pub fn get_model_request(&self, model_id: &ModelID) -> (r: HttpRequest)
        ensures
            r@ == self.spec_endpoint().request_of(
                Method::Get,
                seq!["v1"@, "models"@, model_id.spec_id()],
                Seq::empty(),
                BodyView::Empty,
            ),
    {
        let segments = vec!["v1", "models", model_id.id()];
        let pairs: Vec<(&str, &str)> = Vec::new();
        let r = self.endpoint.request(Method::Get, &segments, &pairs, Body::Empty);
        assert(segment_views(segments@) =~= seq!["v1"@, "models"@, model_id.spec_id()]);
        assert(pair_views(pairs@) =~= Seq::empty());
        r
    }
}

/// Errors that may be returned when the recognition models are listed.
#[derive(Debug, PartialEq, Eq)]
pub enum ListModelsError {
    /// 406: the Accept header asks for an incompatible content type.
    NotAcceptable406,
    /// 415: the request has an unacceptable media type.
    UnsupportedMediaType415,
    /// 500: the service experienced an internal error.
    InternalServerError500,
    /// 503: the service is currently unavailable.
    ServiceUnavailable503,
    /// No response came: the connection failed or the body could not be read.
    ConnectionError(String),
    /// A status that the operation does not document.
    UnmappedResponse(u16),
}

impl ListModelsError {
    /// The kind of failure.
    pub open spec fn kind(self) -> ErrorKind {
        match self {
            ListModelsError::NotAcceptable406 => ErrorKind::NotAcceptable406,
            ListModelsError::UnsupportedMediaType415 => ErrorKind::UnsupportedMediaType415,
            ListModelsError::InternalServerError500 => ErrorKind::InternalServerError500,
            ListModelsError::ServiceUnavailable503 => ErrorKind::ServiceUnavailable503,
            ListModelsError::ConnectionError(_) => ErrorKind::ConnectionError,
            ListModelsError::UnmappedResponse(status) => ErrorKind::UnmappedResponse(status),
        }
    }

    /// The failure that the status of an answer stands for; `None` for success.
    pub fn from_status(status: u16) -> (r: Option<ListModelsError>)
        ensures
            r is None <==> classify(Operation::ListModels, status) is None,
            r matches Some(e) ==> classify(Operation::ListModels, status) == Some(e.kind()),
    {
        match status {
            200 => None,
            406 => Some(ListModelsError::NotAcceptable406),
            415 => Some(ListModelsError::UnsupportedMediaType415),
            500 => Some(ListModelsError::InternalServerError500),
            503 => Some(ListModelsError::ServiceUnavailable503),
            _ => Some(ListModelsError::UnmappedResponse(status)),
        }
    }
}

/// Errors that may be returned when a recognition model is asked about.
#[derive(Debug, PartialEq, Eq)]
pub enum GetModelError {
    /// 404: the resource does not exist.
    NotFound404(String),
    /// 406: the Accept header asks for an incompatible content type.
    NotAcceptable406,
    /// 415: the request has an unacceptable media type.
    UnsupportedMediaType415,
    /// 500: the service experienced an internal error.
    InternalServerError500,
    /// 503: the service is currently unavailable.
    ServiceUnavailable503,
    /// No response came: the connection failed or the body could not be read.
    ConnectionError(String),
    /// A status that the operation does not document.
    UnmappedResponse(u16),
}

impl GetModelError {
    /// The kind of failure.
    pub open spec fn kind(self) -> ErrorKind {
        match self {
            GetModelError::NotFound404(_) => ErrorKind::NotFound404,
            GetModelError::NotAcceptable406 => ErrorKind::NotAcceptable406,
            GetModelError::UnsupportedMediaType415 => ErrorKind::UnsupportedMediaType415,
            GetModelError::InternalServerError500 => ErrorKind::InternalServerError500,
            GetModelError::ServiceUnavailable503 => ErrorKind::ServiceUnavailable503,
            GetModelError::ConnectionError(_) => ErrorKind::ConnectionError,
            GetModelError::UnmappedResponse(status) => ErrorKind::UnmappedResponse(status),
        }
    }

    /// The failure that the status of an answer stands for; `None` for success.
    /// `model_id` is the identifier of the model;
    /// the failure carries it back.
    pub fn from_status(status: u16, model_id: &str) -> (r: Option<GetModelError>)
        ensures
            r is None <==> classify(Operation::GetModel, status) is None,
            r matches Some(e) ==> classify(Operation::GetModel, status) == Some(e.kind()),
            r matches Some(GetModelError::NotFound404(s)) ==> s@ == model_id@,
    {
        match status {
            200 => None,
            404 => Some(GetModelError::NotFound404(String::from_str(model_id))),
            406 => Some(GetModelError::NotAcceptable406),
            415 => Some(GetModelError::UnsupportedMediaType415),
            500 => Some(GetModelError::InternalServerError500),
            503 => Some(GetModelError::ServiceUnavailable503),
            _ => Some(GetModelError::UnmappedResponse(status)),
        }
    }
}

} // verus!
