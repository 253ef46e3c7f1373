use vstd::prelude::*;

use super::customisations::Model;
use super::TextToSpeech;
use crate::http::{pair_views, segment_views, Body, BodyView, HttpRequest, Method};
use crate::status::{classify, ErrorKind, Operation};

verus! {

/// Additional service features that are supported with a voice.
#[derive(Clone, Debug, PartialEq, Eq, Default)]
pub struct SupportedFeatures {
    /// Whether the voice can be customised.
    pub custom_pronunciation: bool,
    /// Whether the voice can be transformed with the SSML `<voice-transformation>` element.
    pub voice_transformation: bool,
}

/// A voice available for use in Watson.
#[derive(Clone, Debug, PartialEq, Eq, Default)]
pub struct Voice {
    /// The URI of the voice.
    pub url: String,
    /// The gender of the voice.
    pub gender: String,
    /// The name of the voice, its identifier in all requests.
    pub name: String,
    /// The language and region of the voice, for example `en-US`.
    pub language: String,
    /// A textual description of the voice.
    pub description: String,
    /// Whether the voice can be customised.
    pub customisable: bool,
    /// Additional service features that are supported with the voice.
    pub supported_features: Box<SupportedFeatures>,
    /// The custom model asked about, returned only when a customisation id was given.
    pub customisation: Option<Box<Model>>,
}

/// All voices that Watson can use.
#[non_exhaustive]
#[derive(Clone, Copy, Debug, PartialEq, Eq)]
pub enum WatsonVoice {
    /// Arabic - Omar
    ArMsOmar,
    /// Alena - Czech (Czechia)
    CsCzAlena,
    /// Birgit - German (Germany)
    DeDeBirgitV3,
    /// DieterV3 - German (Germany)
    DeDeDieterV3,
    /// ErikaV3 - German (Germany)
    DeDeErikaV3,
    /// Craig - English (Australia)
    EnAuCraig,
    /// Madison - English (Australia)
    EnAuMadison,
    /// Steve - English (Australia)
    EnAuSteve,
    /// CharlotteV3 - English (United Kingdom)
    EnGbCharlotteV3,
    /// JamesV3 - English (United Kingdom)
    EnGbJamesV3,
    /// KateV3 - English (United Kingdom)
    EnGbKateV3,
    /// AllisonV3 - English (United States)
    EnUsAllisonV3,
    /// EmilyV3 - English (United States)
    EnUsEmilyV3,
    /// HenryV3 - English (United States)
    EnUsHenryV3,
    /// KevinV3 - English (United States)
    EnUsKevinV3,
    /// LisaV3 - English (United States)
    EnUsLisaV3,
    /// MichaelV3 - English (United States)
    EnUsMichaelV3,
    /// OliviaV3 - English (United States)
    EnUsOliviaV3,
    /// EnriqueV3 - Spanish (Spain)
    EsEsEnriqueV3,
    /// LauraV3 - Spanish (Spain)
    EsEsLauraV3,
    /// SofiaV3 - Spanish (Latin America)
    EsLaSofiaV3,
    /// SofiaV3 - Spanish (United States)
    EsUsSofiaV3,
    /// LouiseV3 - French (Canada)
    FrCaLouiseV3,
    /// NicolasV3 - French (France)
    FrFrNicolasV3,
    /// ReneeV3 - French (France)
    FrFrReneeV3,
    /// FrancescaV3 - Italian (Italy)
    ItItFrancescaV3,
    /// EmiV3 - Japanese (Japan)
    JaJpEmiV3,
    /// Hyunjun - Koren (South Korea)
    KoKrHyunjun,
    /// SiWoo - Koren (South Korea)
    KoKrSiWoo,
    /// Youngmi - Koren (South Korea)
    KoKrYoungmi,
    /// Yuna - Koren (South Korea)
    KoKrYuna,
    /// Adele - Dutch (Belgium)
    NlBeAdele,
    /// Bram - Dutch (Belgium)
    NlBeBram,
    /// Emma - Dutch (Netherlands)
    NlNlEmma,
    /// Liam - Dutch (Netherlands)
    NlNlLiam,
    /// Isabela - Portuguese (Brazil)
    PtBrIsabelaV3,
    /// Ingrid - Swedish (Sweden)
    SvSeIngrid,
    /// LiNa - Chinese (PRC)
    ZhCnLiNa,
    /// WangWei - Chinese (PRC)
    ZhCnWangWei,
    /// ZhangJing - Chinese (PRC)
    ZhCnZhangJing,
}

impl WatsonVoice {
    /// The identifier that the service expects for the voice.
    pub open spec fn spec_id(self) -> Seq<char> {
        match self {
            WatsonVoice::ArMsOmar => "ar-MS_OmarVoice"@,
            WatsonVoice::CsCzAlena => "cs-CZ_AlenaVoice"@,
            WatsonVoice::DeDeBirgitV3 => "de-DE_BirgitV3Voice"@,
            WatsonVoice::DeDeDieterV3 => "de-DE_DieterV3Voice"@,
            WatsonVoice::DeDeErikaV3 => "de-DE_ErikaV3Voice"@,
            WatsonVoice::EnAuCraig => "en-AU_CraigVoice"@,
            WatsonVoice::EnAuMadison => "en-AU_MadisonVoice"@,
            WatsonVoice::EnAuSteve => "en-AU_SteveVoice"@,
            WatsonVoice::EnGbCharlotteV3 => "en-GB_CharlotteV3Voice"@,
            WatsonVoice::EnGbJamesV3 => "en-GB_JamesV3Voice"@,
            WatsonVoice::EnGbKateV3 => "en-GB_KateV3Voice"@,
            WatsonVoice::EnUsAllisonV3 => "en-US_AllisonV3Voice"@,
            WatsonVoice::EnUsEmilyV3 => "en-US_EmilyV3Voice"@,
            WatsonVoice::EnUsHenryV3 => "en-US_HenryV3Voice"@,
            WatsonVoice::EnUsKevinV3 => "en-US_KevinV3Voice"@,
            WatsonVoice::EnUsLisaV3 => "en-US_LisaV3Voice"@,
            WatsonVoice::EnUsMichaelV3 => "en-US_MichaelV3Voice"@,
            WatsonVoice::EnUsOliviaV3 => "en-US_OliviaV3Voice"@,
            WatsonVoice::EsEsEnriqueV3 => "es-ES_EnriqueV3Voice"@,
            WatsonVoice::EsEsLauraV3 => "es-ES_LauraV3Voice"@,
            WatsonVoice::EsLaSofiaV3 => "es-LA_SofiaV3Voice"@,
            WatsonVoice::EsUsSofiaV3 => "es-US_SofiaV3Voice"@,
            WatsonVoice::FrCaLouiseV3 => "fr-CA_LouiseV3Voice"@,
            WatsonVoice::FrFrNicolasV3 => "fr-FR_NicolasV3Voice"@,
            WatsonVoice::FrFrReneeV3 => "fr-FR_ReneeV3Voice"@,
            WatsonVoice::ItItFrancescaV3 => "it-IT_FrancescaV3Voice"@,
            WatsonVoice::JaJpEmiV3 => "ja-JP_EmiV3Voice"@,
            WatsonVoice::KoKrHyunjun => "ko-KR_HyunjunVoice"@,
            WatsonVoice::KoKrSiWoo => "ko-KR_SiWooVoice"@,
            WatsonVoice::KoKrYoungmi => "ko-KR_YoungmiVoice"@,
            WatsonVoice::KoKrYuna => "ko-KR_YunaVoice"@,
            WatsonVoice::NlBeAdele => "nl-BE_AdeleVoice"@,
            WatsonVoice::NlBeBram => "nl-BE_BramVoice"@,
            WatsonVoice::NlNlEmma => "nl-NL_EmmaVoice"@,
            WatsonVoice::NlNlLiam => "nl-NL_LiamVoice"@,
            WatsonVoice::PtBrIsabelaV3 => "pt-BR_IsabelaV3Voice"@,
            WatsonVoice::SvSeIngrid => "sv-SE_IngridVoice"@,
            WatsonVoice::ZhCnLiNa => "zh-CN_LiNaVoice"@,
            WatsonVoice::ZhCnWangWei => "zh-CN_WangWeiVoice"@,
            WatsonVoice::ZhCnZhangJing => "zh-CN_ZhangJingVoice"@,
        }
    }

    /// The human readable name of the voice.
    pub open spec fn spec_name(self) -> Seq<char> {
        match self {
            WatsonVoice::ArMsOmar => "ArMsOmar"@,
            WatsonVoice::CsCzAlena => "Alena - Czech (Czechia)"@,
            WatsonVoice::DeDeBirgitV3 => "Birgit - German (Germany)"@,
            WatsonVoice::DeDeDieterV3 => "DieterV3 - German (Germany)"@,
            WatsonVoice::DeDeErikaV3 => "ErikaV3 - German (Germany)"@,
            WatsonVoice::EnAuCraig => "Craig - English (Australia)"@,
            WatsonVoice::EnAuMadison => "Madison - English (Australia)"@,
            WatsonVoice::EnAuSteve => "Steve - English (Australia)"@,
            WatsonVoice::EnGbCharlotteV3 => "CharlotteV3 - English (United Kingdom)"@,
            WatsonVoice::EnGbJamesV3 => "JamesV3 - English (United Kingdom)"@,
            WatsonVoice::EnGbKateV3 => "KateV3 - English (United Kingdom)"@,
            WatsonVoice::EnUsAllisonV3 => "AllisonV3 - English (United States)"@,
            WatsonVoice::EnUsEmilyV3 => "EmilyV3 - English (United States)"@,
            WatsonVoice::EnUsHenryV3 => "HenryV3 - English (United States)"@,
            WatsonVoice::EnUsKevinV3 => "KevinV3 - English (United States)"@,
            WatsonVoice::EnUsLisaV3 => "LisaV3 - English (United States)"@,
            WatsonVoice::EnUsMichaelV3 => "MichaelV3 - English (United States)"@,
            WatsonVoice::EnUsOliviaV3 => "OliviaV3 - English (United States)"@,
            WatsonVoice::EsEsEnriqueV3 => "EnriqueV3 - Spanish (Spain)"@,
            WatsonVoice::EsEsLauraV3 => "LauraV3 - Spanish (Spain)"@,
            WatsonVoice::EsLaSofiaV3 => "SofiaV3 - Spanish (Latin America)"@,
            WatsonVoice::EsUsSofiaV3 => "SofiaV3 - Spanish (United States)"@,
            WatsonVoice::FrCaLouiseV3 => "LouiseV3 - French (Canada)"@,
            WatsonVoice::FrFrNicolasV3 => "NicolasV3 - French (France)"@,
            WatsonVoice::FrFrReneeV3 => "ReneeV3 - French (France)"@,
            WatsonVoice::ItItFrancescaV3 => "FrancescaV3 - Italian (Italy)"@,
            WatsonVoice::JaJpEmiV3 => "EmiV3 - Japanese (Japan)"@,
            WatsonVoice::KoKrHyunjun => "Hyunjun - Koren (South Korea)"@,
            WatsonVoice::KoKrSiWoo => "SiWoo - Koren (South Korea)"@,
            WatsonVoice::KoKrYoungmi => "Youngmi - Koren (South Korea)"@,
            WatsonVoice::KoKrYuna => "Yuna - Koren (South Korea)"@,
            WatsonVoice::NlBeAdele => "Adele - Dutch (Belgium)"@,
            WatsonVoice::NlBeBram => "Bram - Dutch (Belgium)"@,
            WatsonVoice::NlNlEmma => "Emma - Dutch (Netherlands)"@,
            WatsonVoice::NlNlLiam => "Liam - Dutch (Netherlands)"@,
            WatsonVoice::PtBrIsabelaV3 => "Isabela - Portuguese (Brazil)"@,
            WatsonVoice::SvSeIngrid => "Ingrid - Swedish (Sweden)"@,
            WatsonVoice::ZhCnLiNa => "LiNa - Chinese (PRC)"@,
            WatsonVoice::ZhCnWangWei => "WangWei - Chinese (PRC)"@,
            WatsonVoice::ZhCnZhangJing => "ZhangJing - Chinese (PRC)"@,
        }
    }

    /// The identifier that the service expects for the voice.
    pub fn id(&self) -> (r: &'static str)
        ensures
            r@ == self.spec_id(),
    {
        match self {
            WatsonVoice::ArMsOmar => "ar-MS_OmarVoice",
            WatsonVoice::CsCzAlena => "cs-CZ_AlenaVoice",
            WatsonVoice::DeDeBirgitV3 => "de-DE_BirgitV3Voice",
            WatsonVoice::DeDeDieterV3 => "de-DE_DieterV3Voice",
            WatsonVoice::DeDeErikaV3 => "de-DE_ErikaV3Voice",
            WatsonVoice::EnAuCraig => "en-AU_CraigVoice",
            WatsonVoice::EnAuMadison => "en-AU_MadisonVoice",
            WatsonVoice::EnAuSteve => "en-AU_SteveVoice",
            WatsonVoice::EnGbCharlotteV3 => "en-GB_CharlotteV3Voice",
            WatsonVoice::EnGbJamesV3 => "en-GB_JamesV3Voice",
            WatsonVoice::EnGbKateV3 => "en-GB_KateV3Voice",
            WatsonVoice::EnUsAllisonV3 => "en-US_AllisonV3Voice",
            WatsonVoice::EnUsEmilyV3 => "en-US_EmilyV3Voice",
            WatsonVoice::EnUsHenryV3 => "en-US_HenryV3Voice",
            WatsonVoice::EnUsKevinV3 => "en-US_KevinV3Voice",
            WatsonVoice::EnUsLisaV3 => "en-US_LisaV3Voice",
            WatsonVoice::EnUsMichaelV3 => "en-US_MichaelV3Voice",
            WatsonVoice::EnUsOliviaV3 => "en-US_OliviaV3Voice",
            WatsonVoice::EsEsEnriqueV3 => "es-ES_EnriqueV3Voice",
            WatsonVoice::EsEsLauraV3 => "es-ES_LauraV3Voice",
            WatsonVoice::EsLaSofiaV3 => "es-LA_SofiaV3Voice",
            WatsonVoice::EsUsSofiaV3 => "es-US_SofiaV3Voice",
            WatsonVoice::FrCaLouiseV3 => "fr-CA_LouiseV3Voice",
            WatsonVoice::FrFrNicolasV3 => "fr-FR_NicolasV3Voice",
            WatsonVoice::FrFrReneeV3 => "fr-FR_ReneeV3Voice",
            WatsonVoice::ItItFrancescaV3 => "it-IT_FrancescaV3Voice",
            WatsonVoice::JaJpEmiV3 => "ja-JP_EmiV3Voice",
            WatsonVoice::KoKrHyunjun => "ko-KR_HyunjunVoice",
            WatsonVoice::KoKrSiWoo => "ko-KR_SiWooVoice",
            WatsonVoice::KoKrYoungmi => "ko-KR_YoungmiVoice",
            WatsonVoice::KoKrYuna => "ko-KR_YunaVoice",
            WatsonVoice::NlBeAdele => "nl-BE_AdeleVoice",
            WatsonVoice::NlBeBram => "nl-BE_BramVoice",
            WatsonVoice::NlNlEmma => "nl-NL_EmmaVoice",
            WatsonVoice::NlNlLiam => "nl-NL_LiamVoice",
            WatsonVoice::PtBrIsabelaV3 => "pt-BR_IsabelaV3Voice",
            WatsonVoice::SvSeIngrid => "sv-SE_IngridVoice",
            WatsonVoice::ZhCnLiNa => "zh-CN_LiNaVoice",
            WatsonVoice::ZhCnWangWei => "zh-CN_WangWeiVoice",
            WatsonVoice::ZhCnZhangJing => "zh-CN_ZhangJingVoice",
        }
    }

    /// The human readable name of the voice.
    pub fn to_string(&self) -> (r: String)
        ensures
            r@ == self.spec_name(),
    {
        let name = match self {
            WatsonVoice::ArMsOmar => "ArMsOmar",
            WatsonVoice::CsCzAlena => "Alena - Czech (Czechia)",
            WatsonVoice::DeDeBirgitV3 => "Birgit - German (Germany)",
            WatsonVoice::DeDeDieterV3 => "DieterV3 - German (Germany)",
            WatsonVoice::DeDeErikaV3 => "ErikaV3 - German (Germany)",
            WatsonVoice::EnAuCraig => "Craig - English (Australia)",
            WatsonVoice::EnAuMadison => "Madison - English (Australia)",
            WatsonVoice::EnAuSteve => "Steve - English (Australia)",
            WatsonVoice::EnGbCharlotteV3 => "CharlotteV3 - English (United Kingdom)",
            WatsonVoice::EnGbJamesV3 => "JamesV3 - English (United Kingdom)",
            WatsonVoice::EnGbKateV3 => "KateV3 - English (United Kingdom)",
            WatsonVoice::EnUsAllisonV3 => "AllisonV3 - English (United States)",
            WatsonVoice::EnUsEmilyV3 => "EmilyV3 - English (United States)",
            WatsonVoice::EnUsHenryV3 => "HenryV3 - English (United States)",
            WatsonVoice::EnUsKevinV3 => "KevinV3 - English (United States)",
            WatsonVoice::EnUsLisaV3 => "LisaV3 - English (United States)",
            WatsonVoice::EnUsMichaelV3 => "MichaelV3 - English (United States)",
            WatsonVoice::EnUsOliviaV3 => "OliviaV3 - English (United States)",
            WatsonVoice::EsEsEnriqueV3 => "EnriqueV3 - Spanish (Spain)",
            WatsonVoice::EsEsLauraV3 => "LauraV3 - Spanish (Spain)",
            WatsonVoice::EsLaSofiaV3 => "SofiaV3 - Spanish (Latin America)",
            WatsonVoice::EsUsSofiaV3 => "SofiaV3 - Spanish (United States)",
            WatsonVoice::FrCaLouiseV3 => "LouiseV3 - French (Canada)",
            WatsonVoice::FrFrNicolasV3 => "NicolasV3 - French (France)",
            WatsonVoice::FrFrReneeV3 => "ReneeV3 - French (France)",
            WatsonVoice::ItItFrancescaV3 => "FrancescaV3 - Italian (Italy)",
            WatsonVoice::JaJpEmiV3 => "EmiV3 - Japanese (Japan)",
            WatsonVoice::KoKrHyunjun => "Hyunjun - Koren (South Korea)",
            WatsonVoice::KoKrSiWoo => "SiWoo - Koren (South Korea)",
            WatsonVoice::KoKrYoungmi => "Youngmi - Koren (South Korea)",
            WatsonVoice::KoKrYuna => "Yuna - Koren (South Korea)",
            WatsonVoice::NlBeAdele => "Adele - Dutch (Belgium)",
            WatsonVoice::NlBeBram => "Bram - Dutch (Belgium)",
            WatsonVoice::NlNlEmma => "Emma - Dutch (Netherlands)",
            WatsonVoice::NlNlLiam => "Liam - Dutch (Netherlands)",
            WatsonVoice::PtBrIsabelaV3 => "Isabela - Portuguese (Brazil)",
            WatsonVoice::SvSeIngrid => "Ingrid - Swedish (Sweden)",
            WatsonVoice::ZhCnLiNa => "LiNa - Chinese (PRC)",
            WatsonVoice::ZhCnWangWei => "WangWei - Chinese (PRC)",
            WatsonVoice::ZhCnZhangJing => "ZhangJing - Chinese (PRC)",
        };
        String::from_str(name)
    }
}

impl Default for WatsonVoice {
    /// Michael, English (United States).
    fn default() -> (r: Self)
        ensures
            r == WatsonVoice::EnUsMichaelV3,
    {
        WatsonVoice::EnUsMichaelV3
    }
}

/// Every voice has a non-empty identifier, and no two voices share one.
pub proof fn lemma_voice_ids_distinct(a: WatsonVoice, b: WatsonVoice)
    ensures
        a.spec_id().len() > 0,
        a != b ==> a.spec_id() != b.spec_id(),
{
    // Identifiers of different lengths differ; two of the same length differ at
    // one of the positions named below, which tells every pair apart.
    reveal_strlit("ar-MS_OmarVoice");
    assert("ar-MS_OmarVoice"@.len() == 15
        && "ar-MS_OmarVoice"@[0] == 'a'
        && "ar-MS_OmarVoice"@[1] == 'r'
        && "ar-MS_OmarVoice"@[3] == 'M'
        && "ar-MS_OmarVoice"@[6] == 'O');
    reveal_strlit("cs-CZ_AlenaVoice");
    assert("cs-CZ_AlenaVoice"@.len() == 16
        && "cs-CZ_AlenaVoice"@[0] == 'c'
        && "cs-CZ_AlenaVoice"@[1] == 's'
        && "cs-CZ_AlenaVoice"@[3] == 'C'
        && "cs-CZ_AlenaVoice"@[6] == 'A');
    reveal_strlit("de-DE_BirgitV3Voice");
    assert("de-DE_BirgitV3Voice"@.len() == 19
        && "de-DE_BirgitV3Voice"@[0] == 'd'
        && "de-DE_BirgitV3Voice"@[1] == 'e'
        && "de-DE_BirgitV3Voice"@[3] == 'D'
        && "de-DE_BirgitV3Voice"@[6] == 'B');
    reveal_strlit("de-DE_DieterV3Voice");
    assert("de-DE_DieterV3Voice"@.len() == 19
        && "de-DE_DieterV3Voice"@[0] == 'd'
        && "de-DE_DieterV3Voice"@[1] == 'e'
        && "de-DE_DieterV3Voice"@[3] == 'D'
        && "de-DE_DieterV3Voice"@[6] == 'D');
    reveal_strlit("de-DE_ErikaV3Voice");
    assert("de-DE_ErikaV3Voice"@.len() == 18
        && "de-DE_ErikaV3Voice"@[0] == 'd'
        && "de-DE_ErikaV3Voice"@[1] == 'e'
        && "de-DE_ErikaV3Voice"@[3] == 'D'
        && "de-DE_ErikaV3Voice"@[6] == 'E');
    reveal_strlit("en-AU_CraigVoice");
    assert("en-AU_CraigVoice"@.len() == 16
        && "en-AU_CraigVoice"@[0] == 'e'
        && "en-AU_CraigVoice"@[1] == 'n'
        && "en-AU_CraigVoice"@[3] == 'A'
        && "en-AU_CraigVoice"@[6] == 'C');
    reveal_strlit("en-AU_MadisonVoice");
    assert("en-AU_MadisonVoice"@.len() == 18
        && "en-AU_MadisonVoice"@[0] == 'e'
        && "en-AU_MadisonVoice"@[1] == 'n'
        && "en-AU_MadisonVoice"@[3] == 'A'
        && "en-AU_MadisonVoice"@[6] == 'M');
    reveal_strlit("en-AU_SteveVoice");
    assert("en-AU_SteveVoice"@.len() == 16
        && "en-AU_SteveVoice"@[0] == 'e'
        && "en-AU_SteveVoice"@[1] == 'n'
        && "en-AU_SteveVoice"@[3] == 'A'
        && "en-AU_SteveVoice"@[6] == 'S');
    reveal_strlit("en-GB_CharlotteV3Voice");
    assert("en-GB_CharlotteV3Voice"@.len() == 22
        && "en-GB_CharlotteV3Voice"@[0] == 'e'
        && "en-GB_CharlotteV3Voice"@[1] == 'n'
        && "en-GB_CharlotteV3Voice"@[3] == 'G'
        && "en-GB_CharlotteV3Voice"@[6] == 'C');
    reveal_strlit("en-GB_JamesV3Voice");
    assert("en-GB_JamesV3Voice"@.len() == 18
        && "en-GB_JamesV3Voice"@[0] == 'e'
        && "en-GB_JamesV3Voice"@[1] == 'n'
        && "en-GB_JamesV3Voice"@[3] == 'G'
        && "en-GB_JamesV3Voice"@[6] == 'J');
    reveal_strlit("en-GB_KateV3Voice");
    assert("en-GB_KateV3Voice"@.len() == 17
        && "en-GB_KateV3Voice"@[0] == 'e'
        && "en-GB_KateV3Voice"@[1] == 'n'
        && "en-GB_KateV3Voice"@[3] == 'G'
        && "en-GB_KateV3Voice"@[6] == 'K');
    reveal_strlit("en-US_AllisonV3Voice");
    assert("en-US_AllisonV3Voice"@.len() == 20
        && "en-US_AllisonV3Voice"@[0] == 'e'
        && "en-US_AllisonV3Voice"@[1] == 'n'
        && "en-US_AllisonV3Voice"@[3] == 'U'
        && "en-US_AllisonV3Voice"@[6] == 'A');
    reveal_strlit("en-US_EmilyV3Voice");
    assert("en-US_EmilyV3Voice"@.len() == 18
        && "en-US_EmilyV3Voice"@[0] == 'e'
        && "en-US_EmilyV3Voice"@[1] == 'n'
        && "en-US_EmilyV3Voice"@[3] == 'U'
        && "en-US_EmilyV3Voice"@[6] == 'E');
    reveal_strlit("en-US_HenryV3Voice");
    assert("en-US_HenryV3Voice"@.len() == 18
        && "en-US_HenryV3Voice"@[0] == 'e'
        && "en-US_HenryV3Voice"@[1] == 'n'
        && "en-US_HenryV3Voice"@[3] == 'U'
        && "en-US_HenryV3Voice"@[6] == 'H');
    reveal_strlit("en-US_KevinV3Voice");
    assert("en-US_KevinV3Voice"@.len() == 18
        && "en-US_KevinV3Voice"@[0] == 'e'
        && "en-US_KevinV3Voice"@[1] == 'n'
        && "en-US_KevinV3Voice"@[3] == 'U'
        && "en-US_KevinV3Voice"@[6] == 'K');
    reveal_strlit("en-US_LisaV3Voice");
    assert("en-US_LisaV3Voice"@.len() == 17
        && "en-US_LisaV3Voice"@[0] == 'e'
        && "en-US_LisaV3Voice"@[1] == 'n'
        && "en-US_LisaV3Voice"@[3] == 'U'
        && "en-US_LisaV3Voice"@[6] == 'L');
    reveal_strlit("en-US_MichaelV3Voice");
    assert("en-US_MichaelV3Voice"@.len() == 20
        && "en-US_MichaelV3Voice"@[0] == 'e'
        && "en-US_MichaelV3Voice"@[1] == 'n'
        && "en-US_MichaelV3Voice"@[3] == 'U'
        && "en-US_MichaelV3Voice"@[6] == 'M');
    reveal_strlit("en-US_OliviaV3Voice");
    assert("en-US_OliviaV3Voice"@.len() == 19
        && "en-US_OliviaV3Voice"@[0] == 'e'
        && "en-US_OliviaV3Voice"@[1] == 'n'
        && "en-US_OliviaV3Voice"@[3] == 'U'
        && "en-US_OliviaV3Voice"@[6] == 'O');
    reveal_strlit("es-ES_EnriqueV3Voice");
    assert("es-ES_EnriqueV3Voice"@.len() == 20
        && "es-ES_EnriqueV3Voice"@[0] == 'e'
        && "es-ES_EnriqueV3Voice"@[1] == 's'
        && "es-ES_EnriqueV3Voice"@[3] == 'E'
        && "es-ES_EnriqueV3Voice"@[6] == 'E');
    reveal_strlit("es-ES_LauraV3Voice");
    assert("es-ES_LauraV3Voice"@.len() == 18
        && "es-ES_LauraV3Voice"@[0] == 'e'
        && "es-ES_LauraV3Voice"@[1] == 's'
        && "es-ES_LauraV3Voice"@[3] == 'E'
        && "es-ES_LauraV3Voice"@[6] == 'L');
    reveal_strlit("es-LA_SofiaV3Voice");
    assert("es-LA_SofiaV3Voice"@.len() == 18
        && "es-LA_SofiaV3Voice"@[0] == 'e'
        && "es-LA_SofiaV3Voice"@[1] == 's'
        && "es-LA_SofiaV3Voice"@[3] == 'L'
        && "es-LA_SofiaV3Voice"@[6] == 'S');
    reveal_strlit("es-US_SofiaV3Voice");
    assert("es-US_SofiaV3Voice"@.len() == 18
        && "es-US_SofiaV3Voice"@[0] == 'e'
        && "es-US_SofiaV3Voice"@[1] == 's'
        && "es-US_SofiaV3Voice"@[3] == 'U'
        && "es-US_SofiaV3Voice"@[6] == 'S');
    reveal_strlit("fr-CA_LouiseV3Voice");
    assert("fr-CA_LouiseV3Voice"@.len() == 19
        && "fr-CA_LouiseV3Voice"@[0] == 'f'
        && "fr-CA_LouiseV3Voice"@[1] == 'r'
        && "fr-CA_LouiseV3Voice"@[3] == 'C'
        && "fr-CA_LouiseV3Voice"@[6] == 'L');
    reveal_strlit("fr-FR_NicolasV3Voice");
    assert("fr-FR_NicolasV3Voice"@.len() == 20
        && "fr-FR_NicolasV3Voice"@[0] == 'f'
        && "fr-FR_NicolasV3Voice"@[1] == 'r'
        && "fr-FR_NicolasV3Voice"@[3] == 'F'
        && "fr-FR_NicolasV3Voice"@[6] == 'N');
    reveal_strlit("fr-FR_ReneeV3Voice");
    assert("fr-FR_ReneeV3Voice"@.len() == 18
        && "fr-FR_ReneeV3Voice"@[0] == 'f'
        && "fr-FR_ReneeV3Voice"@[1] == 'r'
        && "fr-FR_ReneeV3Voice"@[3] == 'F'
        && "fr-FR_ReneeV3Voice"@[6] == 'R');
    reveal_strlit("it-IT_FrancescaV3Voice");
    assert("it-IT_FrancescaV3Voice"@.len() == 22
        && "it-IT_FrancescaV3Voice"@[0] == 'i'
        && "it-IT_FrancescaV3Voice"@[1] == 't'
        && "it-IT_FrancescaV3Voice"@[3] == 'I'
        && "it-IT_FrancescaV3Voice"@[6] == 'F');
    reveal_strlit("ja-JP_EmiV3Voice");
    assert("ja-JP_EmiV3Voice"@.len() == 16
        && "ja-JP_EmiV3Voice"@[0] == 'j'
        && "ja-JP_EmiV3Voice"@[1] == 'a'
        && "ja-JP_EmiV3Voice"@[3] == 'J'
        && "ja-JP_EmiV3Voice"@[6] == 'E');
    reveal_strlit("ko-KR_HyunjunVoice");
    assert("ko-KR_HyunjunVoice"@.len() == 18
        && "ko-KR_HyunjunVoice"@[0] == 'k'
        && "ko-KR_HyunjunVoice"@[1] == 'o'
        && "ko-KR_HyunjunVoice"@[3] == 'K'
        && "ko-KR_HyunjunVoice"@[6] == 'H');
    reveal_strlit("ko-KR_SiWooVoice");
    assert("ko-KR_SiWooVoice"@.len() == 16
        && "ko-KR_SiWooVoice"@[0] == 'k'
        && "ko-KR_SiWooVoice"@[1] == 'o'
        && "ko-KR_SiWooVoice"@[3] == 'K'
        && "ko-KR_SiWooVoice"@[6] == 'S');
    reveal_strlit("ko-KR_YoungmiVoice");
    assert("ko-KR_YoungmiVoice"@.len() == 18
        && "ko-KR_YoungmiVoice"@[0] == 'k'
        && "ko-KR_YoungmiVoice"@[1] == 'o'
        && "ko-KR_YoungmiVoice"@[3] == 'K'
        && "ko-KR_YoungmiVoice"@[6] == 'Y');
    reveal_strlit("ko-KR_YunaVoice");
    assert("ko-KR_YunaVoice"@.len() == 15
        && "ko-KR_YunaVoice"@[0] == 'k'
        && "ko-KR_YunaVoice"@[1] == 'o'
        && "ko-KR_YunaVoice"@[3] == 'K'
        && "ko-KR_YunaVoice"@[6] == 'Y');
    reveal_strlit("nl-BE_AdeleVoice");
    assert("nl-BE_AdeleVoice"@.len() == 16
        && "nl-BE_AdeleVoice"@[0] == 'n'
        && "nl-BE_AdeleVoice"@[1] == 'l'
        && "nl-BE_AdeleVoice"@[3] == 'B'
        && "nl-BE_AdeleVoice"@[6] == 'A');
    reveal_strlit("nl-BE_BramVoice");
    assert("nl-BE_BramVoice"@.len() == 15
        && "nl-BE_BramVoice"@[0] == 'n'
        && "nl-BE_BramVoice"@[1] == 'l'
        && "nl-BE_BramVoice"@[3] == 'B'
        && "nl-BE_BramVoice"@[6] == 'B');
    reveal_strlit("nl-NL_EmmaVoice");
    assert("nl-NL_EmmaVoice"@.len() == 15
        && "nl-NL_EmmaVoice"@[0] == 'n'
        && "nl-NL_EmmaVoice"@[1] == 'l'
        && "nl-NL_EmmaVoice"@[3] == 'N'
        && "nl-NL_EmmaVoice"@[6] == 'E');
    reveal_strlit("nl-NL_LiamVoice");
    assert("nl-NL_LiamVoice"@.len() == 15
        && "nl-NL_LiamVoice"@[0] == 'n'
        && "nl-NL_LiamVoice"@[1] == 'l'
        && "nl-NL_LiamVoice"@[3] == 'N'
        && "nl-NL_LiamVoice"@[6] == 'L');
    reveal_strlit("pt-BR_IsabelaV3Voice");
    assert("pt-BR_IsabelaV3Voice"@.len() == 20
        && "pt-BR_IsabelaV3Voice"@[0] == 'p'
        && "pt-BR_IsabelaV3Voice"@[1] == 't'
        && "pt-BR_IsabelaV3Voice"@[3] == 'B'
        && "pt-BR_IsabelaV3Voice"@[6] == 'I');
    reveal_strlit("sv-SE_IngridVoice");
    assert("sv-SE_IngridVoice"@.len() == 17
        && "sv-SE_IngridVoice"@[0] == 's'
        && "sv-SE_IngridVoice"@[1] == 'v'
        && "sv-SE_IngridVoice"@[3] == 'S'
        && "sv-SE_IngridVoice"@[6] == 'I');
    reveal_strlit("zh-CN_LiNaVoice");
    assert("zh-CN_LiNaVoice"@.len() == 15
        && "zh-CN_LiNaVoice"@[0] == 'z'
        && "zh-CN_LiNaVoice"@[1] == 'h'
        && "zh-CN_LiNaVoice"@[3] == 'C'
        && "zh-CN_LiNaVoice"@[6] == 'L');
    reveal_strlit("zh-CN_WangWeiVoice");
    assert("zh-CN_WangWeiVoice"@.len() == 18
        && "zh-CN_WangWeiVoice"@[0] == 'z'
        && "zh-CN_WangWeiVoice"@[1] == 'h'
        && "zh-CN_WangWeiVoice"@[3] == 'C'
        && "zh-CN_WangWeiVoice"@[6] == 'W');
    reveal_strlit("zh-CN_ZhangJingVoice");
    assert("zh-CN_ZhangJingVoice"@.len() == 20
        && "zh-CN_ZhangJingVoice"@[0] == 'z'
        && "zh-CN_ZhangJingVoice"@[1] == 'h'
        && "zh-CN_ZhangJingVoice"@[3] == 'C'
        && "zh-CN_ZhangJingVoice"@[6] == 'Z');
}

/// Errors that may be returned when the voices are listed.
#[derive(Debug, PartialEq, Eq)]
pub enum ListVoicesError {
    /// 406: the Accept header asks for an incompatible content type.
    NotAcceptable406,
    /// 415: the request has an unacceptable media type.
    UnsupportedMediaType415,
    /// 500: the service experienced an internal error.
    InternalServerError500,
    /// 503: the service is currently unavailable.
    ServiceUnavailable503,
    /// No response came: the connection failed or the body could not be read.
    ConnectionError(String),
    /// A status that the operation does not document.
    UnmappedResponse(u16),
}

impl ListVoicesError {
    /// The kind of failure.
    pub open spec fn kind(self) -> ErrorKind {
        match self {
            ListVoicesError::NotAcceptable406 => ErrorKind::NotAcceptable406,
            ListVoicesError::UnsupportedMediaType415 => ErrorKind::UnsupportedMediaType415,
            ListVoicesError::InternalServerError500 => ErrorKind::InternalServerError500,
            ListVoicesError::ServiceUnavailable503 => ErrorKind::ServiceUnavailable503,
            ListVoicesError::ConnectionError(_) => ErrorKind::ConnectionError,
            ListVoicesError::UnmappedResponse(status) => ErrorKind::UnmappedResponse(status),
        }
    }

    /// The failure that the status of an answer stands for; `None` for success.
    pub fn from_status(status: u16) -> (r: Option<ListVoicesError>)
        ensures
            r is None <==> classify(Operation::ListVoices, status) is None,
            r matches Some(e) ==> classify(Operation::ListVoices, status) == Some(e.kind()),
    {
        match status {
            200 => None,
            406 => Some(ListVoicesError::NotAcceptable406),
            415 => Some(ListVoicesError::UnsupportedMediaType415),
            500 => Some(ListVoicesError::InternalServerError500),
            503 => Some(ListVoicesError::ServiceUnavailable503),
            _ => Some(ListVoicesError::UnmappedResponse(status)),
        }
    }
}

/// Errors that may be returned when one voice is asked about.
#[derive(Debug, PartialEq, Eq)]
pub enum GetVoiceError {
    /// 304: the resource has not been modified since the time given.
    NotModified304,
    /// 400: a required parameter is missing, or a parameter or header value is invalid.
    BadRequest400,
    /// 401: the identifier given is invalid for the requesting credentials.
    Unauthorised401(String),
    /// 406: the Accept header asks for an incompatible content type.
    NotAcceptable406,
    /// 415: the request has an unacceptable media type.
    UnsupportedMediaType415,
    /// 500: the service experienced an internal error.
    InternalServerError500,
    /// 503: the service is currently unavailable.
    ServiceUnavailable503,
    /// No response came: the connection failed or the body could not be read.
    ConnectionError(String),
    /// A status that the operation does not document.
    UnmappedResponse(u16),
}

impl GetVoiceError {
    /// The kind of failure.
    pub open spec fn kind(self) -> ErrorKind {
        match self {
            GetVoiceError::NotModified304 => ErrorKind::NotModified304,
            GetVoiceError::BadRequest400 => ErrorKind::BadRequest400,
            GetVoiceError::Unauthorised401(_) => ErrorKind::Unauthorised401,
            GetVoiceError::NotAcceptable406 => ErrorKind::NotAcceptable406,
            GetVoiceError::UnsupportedMediaType415 => ErrorKind::UnsupportedMediaType415,
            GetVoiceError::InternalServerError500 => ErrorKind::InternalServerError500,
            GetVoiceError::ServiceUnavailable503 => ErrorKind::ServiceUnavailable503,
            GetVoiceError::ConnectionError(_) => ErrorKind::ConnectionError,
            GetVoiceError::UnmappedResponse(status) => ErrorKind::UnmappedResponse(status),
        }
    }

    /// The failure that the status of an answer stands for; `None` for success.
    /// `customisation_id` is the customisation id asked about, empty if none;
    /// the failure carries it back.
    pub fn from_status(status: u16, customisation_id: &str) -> (r: Option<GetVoiceError>)
        ensures
            r is None <==> classify(Operation::GetVoice, status) is None,
            r matches Some(e) ==> classify(Operation::GetVoice, status) == Some(e.kind()),
            r matches Some(GetVoiceError::Unauthorised401(s)) ==> s@ == customisation_id@,
    {
        match status {
            200 => None,
            304 => Some(GetVoiceError::NotModified304),
            400 => Some(GetVoiceError::BadRequest400),
            401 => Some(GetVoiceError::Unauthorised401(String::from_str(customisation_id))),
            406 => Some(GetVoiceError::NotAcceptable406),
            415 => Some(GetVoiceError::UnsupportedMediaType415),
            500 => Some(GetVoiceError::InternalServerError500),
            503 => Some(GetVoiceError::ServiceUnavailable503),
            _ => Some(GetVoiceError::UnmappedResponse(status)),
        }
    }
}

/// The query that names a custom model, if one is given.
pub open spec fn customisation_query(customisation_id: Option<&str>) -> Seq<(Seq<char>, Seq<char>)> {
    match customisation_id {
        Some(id) => seq![("customization_id"@, id@)],
        None => Seq::empty(),
    }
}

impl TextToSpeech {
    /// The request that lists all voices: `GET v1/voices`.
    pub fn list_voices_request(&self) -> (r: HttpRequest)
        ensures
            r@ == self.request_of(Method::Get, seq!["v1"@, "voices"@], Seq::empty(), BodyView::Empty),
    {
        let segments = vec!["v1", "voices"];
        let pairs: Vec<(&str, &str)> = Vec::new();
        let r = self.request(Method::Get, &segments, &pairs, Body::Empty);
        assert(segment_views(segments@) =~= seq!["v1"@, "voices"@]);
        assert(pair_views(pairs@) =~= Seq::empty());
        r
    }

    /// The request that describes `voice`, with the custom model
    /// `customisation_id` if one is given: `GET v1/voices/{voice}`.
    pub fn get_voice_request(&self, voice: WatsonVoice, customisation_id: Option<&str>) -> (r: HttpRequest)
        ensures
            r@ == self.request_of(
                Method::Get,
                seq!["v1"@, "voices"@, voice.spec_id()],
                customisation_query(customisation_id),
                BodyView::Empty,
            ),
    {
        let segments = vec!["v1", "voices", voice.id()];
        let mut pairs: Vec<(&str, &str)> = Vec::new();
        match customisation_id {
            Some(id) => pairs.push(("customization_id", id)),
            None => {},
        }
        let r = self.request(Method::Get, &segments, &pairs, Body::Empty);
        assert(segment_views(segments@) =~= seq!["v1"@, "voices"@, voice.spec_id()]);
        assert(pair_views(pairs@) =~= customisation_query(customisation_id));
        r
    }
}

} // verus!
