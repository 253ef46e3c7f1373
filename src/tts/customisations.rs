//! Custom models, their words and their prompts.
use vstd::prelude::*;

use super::TextToSpeech;
use crate::encoding::{json_quoted, json_string};
use crate::http::{
    opt_view, pair_views, segment_views, Body, BodyView, HttpRequest, Method, PromptUpload,
};
use crate::json::{array, json_array, json_member, json_object, member, object, string_views};
use crate::status::{classify, ErrorKind, Operation};

verus! {

/// A word and its translation in a custom model.
#[derive(Clone, Debug, PartialEq, Eq, Default)]
pub struct Word {
    /// The word, at most 49 characters.
    pub word: String,
    /// The phonetic or sounds-like translation of the word, at most 499 characters.
    pub translation: String,
    /// Japanese only: the part of speech of the word.
    pub part_of_speech: Option<String>,
}

/// The state of a prompt in a custom model.
#[derive(Clone, Copy, Debug, PartialEq, Eq)]
pub enum PromptStatus {
    /// The service is analysing the prompt.
    Processing,
    /// The prompt is ready for use in synthesis.
    Available,
    /// The prompt failed validation; its `error` field says why.
    Failed,
}

impl PromptStatus {
    /// The word with which the service reports the status.
    pub open spec fn spec_wire(self) -> Seq<char> {
        match self {
            PromptStatus::Processing => "processing"@,
            PromptStatus::Available => "available"@,
            PromptStatus::Failed => "failed"@,
        }
    }

    /// The status that the service reports with `word`, if it is one of them.
    pub open spec fn spec_from_wire(word: Seq<char>) -> Option<PromptStatus> {
        if word == "processing"@ {
            Some(PromptStatus::Processing)
        } else if word == "available"@ {
            Some(PromptStatus::Available)
        } else if word == "failed"@ {
            Some(PromptStatus::Failed)
        } else {
            None
        }
    }

    /// Reads the status that the service reports; `None` for a word it does not use.
    pub fn from_wire(word: &str) -> (r: Option<PromptStatus>)
        ensures
            r == Self::spec_from_wire(word@),
    {
        let word = String::from_str(word);
        if word == String::from_str("processing") {
            Some(PromptStatus::Processing)
        } else if word == String::from_str("available") {
            Some(PromptStatus::Available)
        } else if word == String::from_str("failed") {
            Some(PromptStatus::Failed)
        } else {
            None
        }
    }
}

/// Reading back the word of a status gives the status.
pub proof fn lemma_prompt_status_round_trip(s: PromptStatus)
    ensures
        PromptStatus::spec_from_wire(s.spec_wire()) == Some(s),
{
    reveal_strlit("processing");
    reveal_strlit("available");
    reveal_strlit("failed");
    assert("processing"@[0] == 'p' && "available"@[0] == 'a' && "failed"@[0] == 'f');
}

/// A prompt of a custom model.
#[derive(Clone, Debug, PartialEq, Eq, Default)]
pub struct Prompt {
    /// The text of the prompt.
    pub prompt: String,
    /// The user-specified identifier of the prompt.
    pub prompt_id: String,
    /// The state of the prompt.
    pub status: Option<PromptStatus>,
    /// Why the prompt failed, when it did.
    pub error: Option<String>,
    /// The speaker for which the prompt was defined, if any.
    pub speaker_id: Option<String>,
}

/// A custom model.
#[derive(Clone, Debug, PartialEq, Eq, Default)]
pub struct Model {
    /// The customisation id of the model.
    pub customisation_id: String,
    /// The name of the model.
    pub name: String,
    /// The language of the model, for example `en-US`.
    pub language: Option<String>,
    /// The credentials of the service instance that owns the model.
    pub owner: Option<String>,
    /// When the model was created, in ISO 8601 form.
    pub created: Option<String>,
    /// When the model was last modified, in ISO 8601 form.
    pub last_modified: Option<String>,
    /// The description of the model.
    pub description: Option<String>,
    /// The words of the model; returned only when one model is asked for.
    pub words: Option<Vec<Word>>,
    /// The prompts of the model; returned only when one model is asked for.
    pub prompts: Option<Vec<Prompt>>,
}

/// The language of a custom model.
#[non_exhaustive]
#[derive(Clone, Copy, Debug, PartialEq, Eq)]
pub enum Language {
    /// Arabic
    ArMs,
    /// Czech (Czechia)
    CsCz,
    /// German (Germany)
    DeDe,
    /// English (Australia)
    EnAu,
    /// English (United Kingdom)
    EnGb,
    /// English (United States)
    EnUs,
    /// Spanish (Spain)
    EsEs,
    /// Spanish (Latin America)
    EsLa,
    /// Spanish (United States)
    EsUs,
    /// French (Canada)
    FrCa,
    /// French (France)
    FrFr,
    /// Italian (Italy)
    ItIt,
    /// Japanese (Japan)
    JaJp,
    /// Koren (South Korea)
    KoKr,
    /// Dutch (Belgium)
    NlBe,
    /// Dutch (Netherlands)
    NlNl,
    /// Portuguese (Brazil)
    PtBr,
    /// Swedish (Sweden)
    SvSe,
    /// Chinese (PRC)
    ZhCn,
}

impl Language {
    /// The identifier that the service expects for the language.
    pub open spec fn spec_id(self) -> Seq<char> {
        match self {
            Language::ArMs => "ar-MS"@,
            Language::CsCz => "cs-CZ"@,
            Language::DeDe => "de-DE"@,
            Language::EnAu => "en-AU"@,
            Language::EnGb => "en-GB"@,
            Language::EnUs => "en-US"@,
            Language::EsEs => "es-ES"@,
            Language::EsLa => "es-LA"@,
            Language::EsUs => "es-US"@,
            Language::FrCa => "fr-CA"@,
            Language::FrFr => "fr-FR"@,
            Language::ItIt => "it-IT"@,
            Language::JaJp => "ja-JP"@,
            Language::KoKr => "ko-KR"@,
            Language::NlBe => "nl-BE"@,
            Language::NlNl => "nl-NL"@,
            Language::PtBr => "pt-BR"@,
            Language::SvSe => "sv-SE"@,
            Language::ZhCn => "zh-CN"@,
        }
    }

    /// The identifier that the service expects for the language.
    pub fn id(&self) -> (r: &'static str)
        ensures
            r@ == self.spec_id(),
    {
        match self {
            Language::ArMs => "ar-MS",
            Language::CsCz => "cs-CZ",
            Language::DeDe => "de-DE",
            Language::EnAu => "en-AU",
            Language::EnGb => "en-GB",
            Language::EnUs => "en-US",
            Language::EsEs => "es-ES",
            Language::EsLa => "es-LA",
            Language::EsUs => "es-US",
            Language::FrCa => "fr-CA",
            Language::FrFr => "fr-FR",
            Language::ItIt => "it-IT",
            Language::JaJp => "ja-JP",
            Language::KoKr => "ko-KR",
            Language::NlBe => "nl-BE",
            Language::NlNl => "nl-NL",
            Language::PtBr => "pt-BR",
            Language::SvSe => "sv-SE",
            Language::ZhCn => "zh-CN",
        }
    }
}

impl Default for Language {
    /// English (United States).
    fn default() -> (r: Self)
        ensures
            r == Language::EnUs,
    {
        Language::EnUs
    }
}

/// Every language has a non-empty identifier, and no two languages share one.
pub proof fn lemma_language_ids_distinct(a: Language, b: Language)
    ensures
        a.spec_id().len() > 0,
        a != b ==> a.spec_id() != b.spec_id(),
{
    // Identifiers of different lengths differ; two of the same length differ at
    // one of the positions named below, which tells every pair apart.
    reveal_strlit("ar-MS");
    assert("ar-MS"@.len() == 5
        && "ar-MS"@[0] == 'a'
        && "ar-MS"@[1] == 'r'
        && "ar-MS"@[3] == 'M');
    reveal_strlit("cs-CZ");
    assert("cs-CZ"@.len() == 5
        && "cs-CZ"@[0] == 'c'
        && "cs-CZ"@[1] == 's'
        && "cs-CZ"@[3] == 'C');
    reveal_strlit("de-DE");
    assert("de-DE"@.len() == 5
        && "de-DE"@[0] == 'd'
        && "de-DE"@[1] == 'e'
        && "de-DE"@[3] == 'D');
    reveal_strlit("en-AU");
    assert("en-AU"@.len() == 5
        && "en-AU"@[0] == 'e'
        && "en-AU"@[1] == 'n'
        && "en-AU"@[3] == 'A');
    reveal_strlit("en-GB");
    assert("en-GB"@.len() == 5
        && "en-GB"@[0] == 'e'
        && "en-GB"@[1] == 'n'
        && "en-GB"@[3] == 'G');
    reveal_strlit("en-US");
    assert("en-US"@.len() == 5
        && "en-US"@[0] == 'e'
        && "en-US"@[1] == 'n'
        && "en-US"@[3] == 'U');
    reveal_strlit("es-ES");
    assert("es-ES"@.len() == 5
        && "es-ES"@[0] == 'e'
        && "es-ES"@[1] == 's'
        && "es-ES"@[3] == 'E');
    reveal_strlit("es-LA");
    assert("es-LA"@.len() == 5
        && "es-LA"@[0] == 'e'
        && "es-LA"@[1] == 's'
        && "es-LA"@[3] == 'L');
    reveal_strlit("es-US");
    assert("es-US"@.len() == 5
        && "es-US"@[0] == 'e'
        && "es-US"@[1] == 's'
        && "es-US"@[3] == 'U');
    reveal_strlit("fr-CA");
    assert("fr-CA"@.len() == 5
        && "fr-CA"@[0] == 'f'
        && "fr-CA"@[1] == 'r'
        && "fr-CA"@[3] == 'C');
    reveal_strlit("fr-FR");
    assert("fr-FR"@.len() == 5
        && "fr-FR"@[0] == 'f'
        && "fr-FR"@[1] == 'r'
        && "fr-FR"@[3] == 'F');
    reveal_strlit("it-IT");
    assert("it-IT"@.len() == 5
        && "it-IT"@[0] == 'i'
        && "it-IT"@[1] == 't'
        && "it-IT"@[3] == 'I');
    reveal_strlit("ja-JP");
    assert("ja-JP"@.len() == 5
        && "ja-JP"@[0] == 'j'
        && "ja-JP"@[1] == 'a'
        && "ja-JP"@[3] == 'J');
    reveal_strlit("ko-KR");
    assert("ko-KR"@.len() == 5
        && "ko-KR"@[0] == 'k'
        && "ko-KR"@[1] == 'o'
        && "ko-KR"@[3] == 'K');
    reveal_strlit("nl-BE");
    assert("nl-BE"@.len() == 5
        && "nl-BE"@[0] == 'n'
        && "nl-BE"@[1] == 'l'
        && "nl-BE"@[3] == 'B');
    reveal_strlit("nl-NL");
    assert("nl-NL"@.len() == 5
        && "nl-NL"@[0] == 'n'
        && "nl-NL"@[1] == 'l'
        && "nl-NL"@[3] == 'N');
    reveal_strlit("pt-BR");
    assert("pt-BR"@.len() == 5
        && "pt-BR"@[0] == 'p'
        && "pt-BR"@[1] == 't'
        && "pt-BR"@[3] == 'B');
    reveal_strlit("sv-SE");
    assert("sv-SE"@.len() == 5
        && "sv-SE"@[0] == 's'
        && "sv-SE"@[1] == 'v'
        && "sv-SE"@[3] == 'S');
    reveal_strlit("zh-CN");
    assert("zh-CN"@.len() == 5
        && "zh-CN"@[0] == 'z'
        && "zh-CN"@[1] == 'h'
        && "zh-CN"@[3] == 'C');
}

/// A custom model as the service describes it in its listings.
#[derive(Clone, Debug, PartialEq, Eq, Default)]
pub struct CustomModel {
    /// The customisation id of the model.
    pub customization_id: String,
    /// The name of the model.
    pub name: Option<String>,
    /// The language of the model.
    pub language: Option<String>,
    /// The credentials of the service instance that owns the model.
    pub owner: Option<String>,
    /// When the model was created, in ISO 8601 form.
    pub created: Option<String>,
    /// When the model was last modified, in ISO 8601 form.
    pub last_modified: Option<String>,
    /// The description of the model.
    pub description: Option<String>,
    /// The words of the model.
    pub words: Option<Vec<Word>>,
    /// The prompts of the model.
    pub prompts: Option<Vec<Prompt>>,
}

/// The part-of-speech member of a word, if it has a part of speech.
pub open spec fn part_of_speech_members(part_of_speech: Option<String>) -> Seq<Seq<char>> {
    match part_of_speech {
        Some(p) => seq![json_member("part_of_speech"@, json_quoted(p@))],
        None => Seq::empty(),
    }
}

/// A word as a JSON object: the word, its translation and its part of speech if any.
pub open spec fn word_json(w: Word) -> Seq<char> {
    json_object(
        seq![
            json_member("word"@, json_quoted(w.word@)),
            json_member("translation"@, json_quoted(w.translation@)),
        ] + part_of_speech_members(w.part_of_speech),
    )
}

/// Words as a JSON array of word objects, in order.
pub open spec fn words_json(words: Seq<Word>) -> Seq<char> {
    json_array(words.map_values(|w: Word| word_json(w)))
}

/// The body that creates a custom model.
pub open spec fn create_model_json(
    name: Seq<char>,
    language: Seq<char>,
    description: Seq<char>,
) -> Seq<char> {
    json_object(
        seq![
            json_member("name"@, json_quoted(name)),
            json_member("language"@, json_quoted(language)),
            json_member("description"@, json_quoted(description)),
        ],
    )
}

/// The member `key` with a string value, if there is one.
pub open spec fn optional_string_member(key: Seq<char>, value: Option<&str>) -> Seq<Seq<char>> {
    match value {
        Some(v) => seq![json_member(key, json_quoted(v@))],
        None => Seq::empty(),
    }
}

/// The body that updates a custom model: only the members given.
pub open spec fn update_model_json(
    name: Option<&str>,
    description: Option<&str>,
    words: Option<&[Word]>,
) -> Seq<char> {
    json_object(
        optional_string_member("name"@, name) + optional_string_member("description"@, description)
            + match words {
            Some(ws) => seq![json_member("words"@, words_json(ws@))],
            None => Seq::empty(),
        },
    )
}

/// The body that adds words to a custom model.
pub open spec fn add_words_json(words: Seq<Word>) -> Seq<char> {
    json_object(seq![json_member("words"@, words_json(words))])
}

/// The body that adds one word: its translation and its part of speech if any.
pub open spec fn add_word_json(w: Word) -> Seq<char> {
    json_object(
        seq![json_member("translation"@, json_quoted(w.translation@))] + part_of_speech_members(
            w.part_of_speech,
        ),
    )
}

/// The query that restricts a listing to one language, if one is given.
pub open spec fn language_query(language: Option<Language>) -> Seq<(Seq<char>, Seq<char>)> {
    match language {
        Some(l) => seq![("language"@, l.spec_id())],
        None => Seq::empty(),
    }
}

/// The part-of-speech member, if the word has a part of speech.
fn push_part_of_speech(members: &mut Vec<String>, part_of_speech: &Option<String>)
    ensures
        string_views(final(members)@) == string_views(old(members)@) + part_of_speech_members(
            *part_of_speech,
        ),
{
    match part_of_speech {
        Some(p) => {
            members.push(member("part_of_speech", json_string(p.as_str())));
        },
        None => {},
    }
    assert(string_views(members@) =~= string_views(old(members)@) + part_of_speech_members(
        *part_of_speech,
    ));
}

/// A word as a JSON object.
fn word_document(w: &Word) -> (r: String)
    ensures
        r@ == word_json(*w),
{
    let mut members: Vec<String> = Vec::new();
    members.push(member("word", json_string(w.word.as_str())));
    members.push(member("translation", json_string(w.translation.as_str())));
    let ghost first = string_views(members@);
    assert(first =~= seq![
        json_member("word"@, json_quoted(w.word@)),
        json_member("translation"@, json_quoted(w.translation@)),
    ]);
    push_part_of_speech(&mut members, &w.part_of_speech);
    object(&members)
}

/// Words as a JSON array.
fn words_document(words: &[Word]) -> (r: String)
    ensures
        r@ == words_json(words@),
{
    let mut items: Vec<String> = Vec::new();
    let ghost all = words@.map_values(|w: Word| word_json(w));
    let mut i: usize = 0;
    while i < words.len()
        invariant
            all == words@.map_values(|w: Word| word_json(w)),
            i <= words@.len(),
            string_views(items@) =~= all.subrange(0, i as int),
        decreases words@.len() - i,
    {
        let document = word_document(&words[i]);
        let ghost before = items@;
        items.push(document);
        assert(string_views(items@) =~= string_views(before).push(document@));
        assert(all.subrange(0, i + 1) =~= all.subrange(0, i as int).push(all[i as int]));
        i += 1;
    }
    assert(all.subrange(0, words@.len() as int) =~= all);
    array(&items)
}

/// The characters of each segment, for the custom model `id` followed by `rest`.
pub open spec fn model_path(id: Seq<char>, rest: Seq<Seq<char>>) -> Seq<Seq<char>> {
    seq!["v1"@, "customizations"@, id] + rest
}

impl TextToSpeech {
    /// The request that creates a custom model named `name`, in `language`
    /// (US English unless given) and with `description` (empty unless given):
    /// `POST v1/customizations`.
    pub fn create_custom_model_request(
        &self,
        name: &str,
        language: Option<Language>,
        description: Option<&str>,
    ) -> (r: HttpRequest)
        ensures
            r@ == self.request_of(
                Method::Post,
                seq!["v1"@, "customizations"@],
                Seq::empty(),
                BodyView::Json(
                    create_model_json(
                        name@,
                        match language {
                            Some(l) => l,
                            None => Language::EnUs,
                        }.spec_id(),
                        match description {
                            Some(d) => d@,
                            None => Seq::empty(),
                        },
                    ),
                ),
            ),
    {
        let language = match language {
            Some(l) => l,
            None => Language::EnUs,
        };
        let description = match description {
            Some(d) => d,
            None => "",
        };
        proof {
            reveal_strlit("");
        }
        let mut members: Vec<String> = Vec::new();
        members.push(member("name", json_string(name)));
        members.push(member("language", json_string(language.id())));
        members.push(member("description", json_string(description)));
        let body = object(&members);
        assert(string_views(members@) =~= seq![
            json_member("name"@, json_quoted(name@)),
            json_member("language"@, json_quoted(language.spec_id())),
            json_member("description"@, json_quoted(description@)),
        ]);
        let segments = vec!["v1", "customizations"];
        let pairs: Vec<(&str, &str)> = Vec::new();
        let r = self.request(Method::Post, &segments, &pairs, Body::Json(body));
        assert(segment_views(segments@) =~= seq!["v1"@, "customizations"@]);
        assert(pair_views(pairs@) =~= Seq::empty());
        r
    }

    /// The request that lists the custom models, of `language` only if one is
    /// given: `GET v1/customizations`.
    pub fn list_custom_models_request(&self, language: Option<Language>) -> (r: HttpRequest)
        ensures
            r@ == self.request_of(
                Method::Get,
                seq!["v1"@, "customizations"@],
                language_query(language),
                BodyView::Empty,
            ),
    {
        let segments = vec!["v1", "customizations"];
        let mut pairs: Vec<(&str, &str)> = Vec::new();
        match language {
            Some(l) => pairs.push(("language", l.id())),
            None => {},
        }
        let r = self.request(Method::Get, &segments, &pairs, Body::Empty);
        assert(segment_views(segments@) =~= seq!["v1"@, "customizations"@]);
        assert(pair_views(pairs@) =~= language_query(language));
        r
    }

    /// The request that updates the custom model `customisation_id` with the
    /// name, description and words given: `POST v1/customizations/{id}`.
    pub fn update_custom_model_request(
        &self,
        customisation_id: &str,
        name: Option<&str>,
        description: Option<&str>,
        words: Option<&[Word]>,
    ) -> (r: HttpRequest)
        ensures
            r@ == self.request_of(
                Method::Post,
                model_path(customisation_id@, Seq::empty()),
                Seq::empty(),
                BodyView::Json(update_model_json(name, description, words)),
            ),
    {
        let mut members: Vec<String> = Vec::new();
        match name {
            Some(n) => members.push(member("name", json_string(n))),
            None => {},
        }
        match description {
            Some(d) => members.push(member("description", json_string(d))),
            None => {},
        }
        match words {
            Some(ws) => members.push(member("words", words_document(ws))),
            None => {},
        }
        let body = object(&members);
        assert(string_views(members@) =~= optional_string_member("name"@, name)
            + optional_string_member("description"@, description) + match words {
            Some(ws) => seq![json_member("words"@, words_json(ws@))],
            None => Seq::empty(),
        });
        let segments = vec!["v1", "customizations", customisation_id];
        let pairs: Vec<(&str, &str)> = Vec::new();
        let r = self.request(Method::Post, &segments, &pairs, Body::Json(body));
        assert(segment_views(segments@) =~= model_path(customisation_id@, Seq::empty()));
        assert(pair_views(pairs@) =~= Seq::empty());
        r
    }

    /// A request without body to the custom model `customisation_id`, or to
    /// `rest` below it.
    fn model_request(&self, method: Method, customisation_id: &str, rest: &Vec<&str>) -> (r: HttpRequest)
        ensures
            r@ == self.request_of(
                method,
                model_path(customisation_id@, segment_views(rest@)),
                Seq::empty(),
                BodyView::Empty,
            ),
    {
        let mut segments = vec!["v1", "customizations", customisation_id];
        let mut i: usize = 0;
        while i < rest.len()
            invariant
                i <= rest@.len(),
                segment_views(segments@) =~= model_path(
                    customisation_id@,
                    segment_views(rest@.subrange(0, i as int)),
                ),
            decreases rest@.len() - i,
        {
            let ghost before = segments@;
            segments.push(rest[i]);
            assert(segment_views(segments@) =~= segment_views(before).push(rest@[i as int]@));
            assert(segment_views(rest@.subrange(0, i + 1)) =~= segment_views(
                rest@.subrange(0, i as int),
            ).push(rest@[i as int]@));
            i += 1;
        }
        assert(rest@.subrange(0, rest@.len() as int) =~= rest@);
        let pairs: Vec<(&str, &str)> = Vec::new();
        let r = self.request(method, &segments, &pairs, Body::Empty);
        assert(pair_views(pairs@) =~= Seq::empty());
        r
    }

    /// The request that describes the custom model `customisation_id`, its words
    /// and prompts included: `GET v1/customizations/{id}`.
    pub fn get_custom_model_request(&self, customisation_id: &str) -> (r: HttpRequest)
        ensures
            r@ == self.request_of(
                Method::Get,
                model_path(customisation_id@, Seq::empty()),
                Seq::empty(),
                BodyView::Empty,
            ),
    {
        let rest: Vec<&str> = Vec::new();
        let r = self.model_request(Method::Get, customisation_id, &rest);
        assert(segment_views(rest@) =~= Seq::empty());
        r
    }

    /// The request that deletes the custom model `customisation_id`:
    /// `DELETE v1/customizations/{id}`.
    pub fn delete_custom_model_request(&self, customisation_id: &str) -> (r: HttpRequest)
        ensures
            r@ == self.request_of(
                Method::Delete,
                model_path(customisation_id@, Seq::empty()),
                Seq::empty(),
                BodyView::Empty,
            ),
    {
        let rest: Vec<&str> = Vec::new();
        let r = self.model_request(Method::Delete, customisation_id, &rest);
        assert(segment_views(rest@) =~= Seq::empty());
        r
    }

    /// The request that adds `words` to the custom model `customisation_id`, or
    /// replaces their translations: `POST v1/customizations/{id}/words`.
    pub fn add_custom_words_request(&self, customisation_id: &str, words: &[Word]) -> (r: HttpRequest)
        ensures
            r@ == self.request_of(
                Method::Post,
                model_path(customisation_id@, seq!["words"@]),
                Seq::empty(),
                BodyView::Json(add_words_json(words@)),
            ),
    {
        let mut members: Vec<String> = Vec::new();
        members.push(member("words", words_document(words)));
        let body = object(&members);
        assert(string_views(members@) =~= seq![json_member("words"@, words_json(words@))]);
        let segments = vec!["v1", "customizations", customisation_id, "words"];
        let pairs: Vec<(&str, &str)> = Vec::new();
        let r = self.request(Method::Post, &segments, &pairs, Body::Json(body));
        assert(segment_views(segments@) =~= model_path(customisation_id@, seq!["words"@]));
        assert(pair_views(pairs@) =~= Seq::empty());
        r
    }

    /// The request that lists the words of the custom model `customisation_id`:
    /// `GET v1/customizations/{id}/words`.
    pub fn list_custom_words_request(&self, customisation_id: &str) -> (r: HttpRequest)
        ensures
            r@ == self.request_of(
                Method::Get,
                model_path(customisation_id@, seq!["words"@]),
                Seq::empty(),
                BodyView::Empty,
            ),
    {
        let rest = vec!["words"];
        let r = self.model_request(Method::Get, customisation_id, &rest);
        assert(segment_views(rest@) =~= seq!["words"@]);
        r
    }

    /// The request that adds `word` to the custom model `customisation_id`, or
    /// replaces its translation: `PUT v1/customizations/{id}/words/{word}`.
    pub fn add_custom_word_request(&self, customisation_id: &str, word: &Word) -> (r: HttpRequest)
        ensures
            r@ == self.request_of(
                Method::Put,
                model_path(customisation_id@, seq!["words"@, word.word@]),
                Seq::empty(),
                BodyView::Json(add_word_json(*word)),
            ),
    {
        let mut members: Vec<String> = Vec::new();
        members.push(member("translation", json_string(word.translation.as_str())));
        assert(string_views(members@) =~= seq![
            json_member("translation"@, json_quoted(word.translation@)),
        ]);
        push_part_of_speech(&mut members, &word.part_of_speech);
        let body = object(&members);
        let segments = vec!["v1", "customizations", customisation_id, "words", word.word.as_str()];
        let pairs: Vec<(&str, &str)> = Vec::new();
        let r = self.request(Method::Put, &segments, &pairs, Body::Json(body));
        assert(segment_views(segments@) =~= model_path(
            customisation_id@,
            seq!["words"@, word.word@],
        ));
        assert(pair_views(pairs@) =~= Seq::empty());
        r
    }

    /// The request for the translation of `word` in the custom model
    /// `customisation_id`: `GET v1/customizations/{id}/words/{word}`.
    pub fn get_custom_word_request(&self, customisation_id: &str, word: &str) -> (r: HttpRequest)
        ensures
            r@ == self.request_of(
                Method::Get,
                model_path(customisation_id@, seq!["words"@, word@]),
                Seq::empty(),
                BodyView::Empty,
            ),
    {
        let rest = vec!["words", word];
        let r = self.model_request(Method::Get, customisation_id, &rest);
        assert(segment_views(rest@) =~= seq!["words"@, word@]);
        r
    }

    /// The request that deletes `word` from the custom model `customisation_id`:
    /// `DELETE v1/customizations/{id}/words/{word}`.
    pub fn delete_custom_word_request(&self, customisation_id: &str, word: &str) -> (r: HttpRequest)
        ensures
            r@ == self.request_of(
                Method::Delete,
                model_path(customisation_id@, seq!["words"@, word@]),
                Seq::empty(),
                BodyView::Empty,
            ),
    {
        let rest = vec!["words", word];
        let r = self.model_request(Method::Delete, customisation_id, &rest);
        assert(segment_views(rest@) =~= seq!["words"@, word@]);
        r
    }

    /// The request that lists the prompts of the custom model `customisation_id`:
    /// `GET v1/customizations/{id}/prompts`.
    pub fn list_custom_prompts_request(&self, customisation_id: &str) -> (r: HttpRequest)
        ensures
            r@ == self.request_of(
                Method::Get,
                model_path(customisation_id@, seq!["prompts"@]),
                Seq::empty(),
                BodyView::Empty,
            ),
    {
        let rest = vec!["prompts"];
        let r = self.model_request(Method::Get, customisation_id, &rest);
        assert(segment_views(rest@) =~= seq!["prompts"@]);
        r
    }

    /// The request that adds `prompt` to the custom model `customisation_id`,
    /// with the WAV `audio` sent as the file `file_name`:
    /// `POST v1/customizations/{id}/prompts/{prompt_id}`.
    pub fn add_custom_prompt_request(
        &self,
        customisation_id: &str,
        prompt: &Prompt,
        file_name: &str,
        audio: Vec<u8>,
    ) -> (r: HttpRequest)
        ensures
            r@ == self.request_of(
                Method::Post,
                model_path(customisation_id@, seq!["prompts"@, prompt.prompt_id@]),
                Seq::empty(),
                BodyView::Multipart {
                    prompt_text: prompt.prompt@,
                    speaker_id: opt_view(prompt.speaker_id),
                    file_name: file_name@,
                    audio: audio@,
                },
            ),
    {
        let speaker_id = match &prompt.speaker_id {
            Some(s) => Some(s.clone()),
            None => None,
        };
        let upload = PromptUpload {
            prompt_text: prompt.prompt.clone(),
            speaker_id,
            file_name: String::from_str(file_name),
            audio,
        };
        let segments = vec![
            "v1",
            "customizations",
            customisation_id,
            "prompts",
            prompt.prompt_id.as_str(),
        ];
        let pairs: Vec<(&str, &str)> = Vec::new();
        let r = self.request(Method::Post, &segments, &pairs, Body::Multipart(upload));
        assert(segment_views(segments@) =~= model_path(
            customisation_id@,
            seq!["prompts"@, prompt.prompt_id@],
        ));
        assert(pair_views(pairs@) =~= Seq::empty());
        r
    }
}

/// Errors that may be returned when a custom model is created.
#[derive(Debug, PartialEq, Eq)]
pub enum CreateModelError {
    /// No response came: the connection failed or the body could not be read.
    ConnectionError(String),
    /// 400: a required parameter is missing, or a parameter or header value is invalid.
    BadRequest400,
    /// 503: the service is currently unavailable.
    ServiceUnavailable503,
    /// 500: the service experienced an internal error.
    InternalServerError500,
    /// A status that the operation does not document.
    UnmappedResponse(u16),
}

impl CreateModelError {
    /// The kind of failure.
    pub open spec fn kind(self) -> ErrorKind {
        match self {
            CreateModelError::ConnectionError(_) => ErrorKind::ConnectionError,
            CreateModelError::BadRequest400 => ErrorKind::BadRequest400,
            CreateModelError::ServiceUnavailable503 => ErrorKind::ServiceUnavailable503,
            CreateModelError::InternalServerError500 => ErrorKind::InternalServerError500,
            CreateModelError::UnmappedResponse(status) => ErrorKind::UnmappedResponse(status),
        }
    }

    /// The failure that the status of an answer stands for; `None` for success.
    pub fn from_status(status: u16) -> (r: Option<CreateModelError>)
        ensures
            r is None <==> classify(Operation::CreateCustomModel, status) is None,
            r matches Some(e) ==> classify(Operation::CreateCustomModel, status) == Some(e.kind()),
    {
        match status {
            200 => None,
            400 => Some(CreateModelError::BadRequest400),
            503 => Some(CreateModelError::ServiceUnavailable503),
            500 => Some(CreateModelError::InternalServerError500),
            _ => Some(CreateModelError::UnmappedResponse(status)),
        }
    }
}

/// Errors that may be returned when the custom models are listed.
#[derive(Debug, PartialEq, Eq)]
pub enum ListModelError {
    /// No response came: the connection failed or the body could not be read.
    ConnectionError(String),
    /// 400: a required parameter is missing, or a parameter or header value is invalid.
    BadRequest400,
    /// 503: the service is currently unavailable.
    ServiceUnavailable503,
    /// 500: the service experienced an internal error.
    InternalServerError500,
    /// A status that the operation does not document.
    UnmappedResponse(u16),
}

impl ListModelError {
    /// The kind of failure.
    pub open spec fn kind(self) -> ErrorKind {
        match self {
            ListModelError::ConnectionError(_) => ErrorKind::ConnectionError,
            ListModelError::BadRequest400 => ErrorKind::BadRequest400,
            ListModelError::ServiceUnavailable503 => ErrorKind::ServiceUnavailable503,
            ListModelError::InternalServerError500 => ErrorKind::InternalServerError500,
            ListModelError::UnmappedResponse(status) => ErrorKind::UnmappedResponse(status),
        }
    }

    /// The failure that the status of an answer stands for; `None` for success.
    pub fn from_status(status: u16) -> (r: Option<ListModelError>)
        ensures
            r is None <==> classify(Operation::ListCustomModels, status) is None,
            r matches Some(e) ==> classify(Operation::ListCustomModels, status) == Some(e.kind()),
    {
        match status {
            200 => None,
            400 => Some(ListModelError::BadRequest400),
            503 => Some(ListModelError::ServiceUnavailable503),
            500 => Some(ListModelError::InternalServerError500),
            _ => Some(ListModelError::UnmappedResponse(status)),
        }
    }
}

/// Errors that may be returned when a custom model is updated.
#[derive(Debug, PartialEq, Eq)]
pub enum UpdateModelError {
    /// No response came: the connection failed or the body could not be read.
    ConnectionError(String),
    /// 400: a required parameter is missing, or a parameter or header value is invalid.
    BadRequest400,
    /// 503: the service is currently unavailable.
    ServiceUnavailable503,
    /// 500: the service experienced an internal error.
    InternalServerError500,
    /// 401: the identifier given is invalid for the requesting credentials.
    Unauthorised401(String),
    /// A status that the operation does not document.
    UnmappedResponse(u16),
}

impl UpdateModelError {
    /// The kind of failure.
    pub open spec fn kind(self) -> ErrorKind {
        match self {
            UpdateModelError::ConnectionError(_) => ErrorKind::ConnectionError,
            UpdateModelError::BadRequest400 => ErrorKind::BadRequest400,
            UpdateModelError::ServiceUnavailable503 => ErrorKind::ServiceUnavailable503,
            UpdateModelError::InternalServerError500 => ErrorKind::InternalServerError500,
            UpdateModelError::Unauthorised401(_) => ErrorKind::Unauthorised401,
            UpdateModelError::UnmappedResponse(status) => ErrorKind::UnmappedResponse(status),
        }
    }

    /// The failure that the status of an answer stands for; `None` for success.
    /// `customisation_id` is the customisation id of the model;
    /// the failure carries it back.
    pub fn from_status(status: u16, customisation_id: &str) -> (r: Option<UpdateModelError>)
        ensures
            r is None <==> classify(Operation::UpdateCustomModel, status) is None,
            r matches Some(e) ==> classify(Operation::UpdateCustomModel, status) == Some(e.kind()),
            r matches Some(UpdateModelError::Unauthorised401(s)) ==> s@ == customisation_id@,
    {
        match status {
            200 => None,
            400 => Some(UpdateModelError::BadRequest400),
            503 => Some(UpdateModelError::ServiceUnavailable503),
            500 => Some(UpdateModelError::InternalServerError500),
            401 => Some(UpdateModelError::Unauthorised401(String::from_str(customisation_id))),
            _ => Some(UpdateModelError::UnmappedResponse(status)),
        }
    }
}

/// Errors that may be returned when a custom model is asked about.
#[derive(Debug, PartialEq, Eq)]
pub enum GetModelError {
    /// No response came: the connection failed or the body could not be read.
    ConnectionError(String),
    /// 400: a required parameter is missing, or a parameter or header value is invalid.
    BadRequest400(String),
    /// 503: the service is currently unavailable.
    ServiceUnavailable503,
    /// 500: the service experienced an internal error.
    InternalServerError500,
    /// 401: the identifier given is invalid for the requesting credentials.
    Unauthorised401(String),
    /// 304: the resource has not been modified since the time given.
    NotModified304,
    /// A status that the operation does not document.
    UnmappedResponse(u16),
}

impl GetModelError {
    /// The kind of failure.
    pub open spec fn kind(self) -> ErrorKind {
        match self {
            GetModelError::ConnectionError(_) => ErrorKind::ConnectionError,
            GetModelError::BadRequest400(_) => ErrorKind::BadRequest400,
            GetModelError::ServiceUnavailable503 => ErrorKind::ServiceUnavailable503,
            GetModelError::InternalServerError500 => ErrorKind::InternalServerError500,
            GetModelError::Unauthorised401(_) => ErrorKind::Unauthorised401,
            GetModelError::NotModified304 => ErrorKind::NotModified304,
            GetModelError::UnmappedResponse(status) => ErrorKind::UnmappedResponse(status),
        }
    }

    /// The failure that the status of an answer stands for; `None` for success.
    /// `customisation_id` is the customisation id of the model;
    /// the failure carries it back.
    pub fn from_status(status: u16, customisation_id: &str) -> (r: Option<GetModelError>)
        ensures
            r is None <==> classify(Operation::GetCustomModel, status) is None,
            r matches Some(e) ==> classify(Operation::GetCustomModel, status) == Some(e.kind()),
            r matches Some(GetModelError::BadRequest400(s)) ==> s@ == customisation_id@,
            r matches Some(GetModelError::Unauthorised401(s)) ==> s@ == customisation_id@,
    {
        match status {
            200 => None,
            400 => Some(GetModelError::BadRequest400(String::from_str(customisation_id))),
            503 => Some(GetModelError::ServiceUnavailable503),
            500 => Some(GetModelError::InternalServerError500),
            401 => Some(GetModelError::Unauthorised401(String::from_str(customisation_id))),
            304 => Some(GetModelError::NotModified304),
            _ => Some(GetModelError::UnmappedResponse(status)),
        }
    }
}

/// Errors that may be returned when a custom model is deleted.
#[derive(Debug, PartialEq, Eq)]
pub enum DeleteModelError {
    /// No response came: the connection failed or the body could not be read.
    ConnectionError(String),
    /// 400: a required parameter is missing, or a parameter or header value is invalid.
    BadRequest400(String),
    /// 503: the service is currently unavailable.
    ServiceUnavailable503,
    /// 500: the service experienced an internal error.
    InternalServerError500,
    /// 401: the identifier given is invalid for the requesting credentials.
    Unauthorised401(String),
    /// A status that the operation does not document.
    UnmappedResponse(u16),
}

impl DeleteModelError {
    /// The kind of failure.
    pub open spec fn kind(self) -> ErrorKind {
        match self {
            DeleteModelError::ConnectionError(_) => ErrorKind::ConnectionError,
            DeleteModelError::BadRequest400(_) => ErrorKind::BadRequest400,
            DeleteModelError::ServiceUnavailable503 => ErrorKind::ServiceUnavailable503,
            DeleteModelError::InternalServerError500 => ErrorKind::InternalServerError500,
            DeleteModelError::Unauthorised401(_) => ErrorKind::Unauthorised401,
            DeleteModelError::UnmappedResponse(status) => ErrorKind::UnmappedResponse(status),
        }
    }

    /// The failure that the status of an answer stands for; `None` for success.
    /// `customisation_id` is the customisation id of the model;
    /// the failure carries it back.
    pub fn from_status(status: u16, customisation_id: &str) -> (r: Option<DeleteModelError>)
        ensures
            r is None <==> classify(Operation::DeleteCustomModel, status) is None,
            r matches Some(e) ==> classify(Operation::DeleteCustomModel, status) == Some(e.kind()),
            r matches Some(DeleteModelError::BadRequest400(s)) ==> s@ == customisation_id@,
            r matches Some(DeleteModelError::Unauthorised401(s)) ==> s@ == customisation_id@,
    {
        match status {
            204 => None,
            400 => Some(DeleteModelError::BadRequest400(String::from_str(customisation_id))),
            503 => Some(DeleteModelError::ServiceUnavailable503),
            500 => Some(DeleteModelError::InternalServerError500),
            401 => Some(DeleteModelError::Unauthorised401(String::from_str(customisation_id))),
            _ => Some(DeleteModelError::UnmappedResponse(status)),
        }
    }
}

/// Errors that may be returned when the prompts of a custom model are listed.
#[derive(Debug, PartialEq, Eq)]
pub enum ListPromptsError {
    /// No response came: the connection failed or the body could not be read.
    ConnectionError(String),
    /// 400: a required parameter is missing, or a parameter or header value is invalid.
    BadRequest400,
    /// 503: the service is currently unavailable.
    ServiceUnavailable503,
    /// 500: the service experienced an internal error.
    InternalServerError500,
    /// A status that the operation does not document.
    UnmappedResponse(u16),
}

impl ListPromptsError {
    /// The kind of failure.
    pub open spec fn kind(self) -> ErrorKind {
        match self {
            ListPromptsError::ConnectionError(_) => ErrorKind::ConnectionError,
            ListPromptsError::BadRequest400 => ErrorKind::BadRequest400,
            ListPromptsError::ServiceUnavailable503 => ErrorKind::ServiceUnavailable503,
            ListPromptsError::InternalServerError500 => ErrorKind::InternalServerError500,
            ListPromptsError::UnmappedResponse(status) => ErrorKind::UnmappedResponse(status),
        }
    }

    /// The failure that the status of an answer stands for; `None` for success.
    pub fn from_status(status: u16) -> (r: Option<ListPromptsError>)
        ensures
            r is None <==> classify(Operation::ListCustomPrompts, status) is None,
            r matches Some(e) ==> classify(Operation::ListCustomPrompts, status) == Some(e.kind()),
    {
        match status {
            200 => None,
            400 => Some(ListPromptsError::BadRequest400),
            503 => Some(ListPromptsError::ServiceUnavailable503),
            500 => Some(ListPromptsError::InternalServerError500),
            _ => Some(ListPromptsError::UnmappedResponse(status)),
        }
    }
}

/// Errors that may be returned when a prompt is added to a custom model.
#[derive(Debug, PartialEq, Eq)]
pub enum AddPromptError {
    /// No response came: the connection failed or the body could not be read.
    ConnectionError(String),
    /// 400: a required parameter is missing, or a parameter or header value is invalid.
    BadRequest400,
    /// 503: the service is currently unavailable.
    ServiceUnavailable503,
    /// 500: the service experienced an internal error.
    InternalServerError500,
    /// The file to upload could not be read.
    FileReadError(String),
    /// 415: the request has an unacceptable media type.
    UnsupportedMediaType415,
    /// 401: the identifier given is invalid for the requesting credentials.
    Unauthorised401(String),
    /// A status that the operation does not document.
    UnmappedResponse(u16),
}

impl AddPromptError {
    /// The kind of failure.
    pub open spec fn kind(self) -> ErrorKind {
        match self {
            AddPromptError::ConnectionError(_) => ErrorKind::ConnectionError,
            AddPromptError::BadRequest400 => ErrorKind::BadRequest400,
            AddPromptError::ServiceUnavailable503 => ErrorKind::ServiceUnavailable503,
            AddPromptError::InternalServerError500 => ErrorKind::InternalServerError500,
            AddPromptError::FileReadError(_) => ErrorKind::FileReadError,
            AddPromptError::UnsupportedMediaType415 => ErrorKind::UnsupportedMediaType415,
            AddPromptError::Unauthorised401(_) => ErrorKind::Unauthorised401,
            AddPromptError::UnmappedResponse(status) => ErrorKind::UnmappedResponse(status),
        }
    }

    /// The failure that the status of an answer stands for; `None` for success.
    /// `customisation_id` is the customisation id of the model;
    /// the failure carries it back.
    pub fn from_status(status: u16, customisation_id: &str) -> (r: Option<AddPromptError>)
        ensures
            r is None <==> classify(Operation::AddCustomPrompt, status) is None,
            r matches Some(e) ==> classify(Operation::AddCustomPrompt, status) == Some(e.kind()),
            r matches Some(AddPromptError::Unauthorised401(s)) ==> s@ == customisation_id@,
    {
        match status {
            201 => None,
            400 => Some(AddPromptError::BadRequest400),
            503 => Some(AddPromptError::ServiceUnavailable503),
            500 => Some(AddPromptError::InternalServerError500),
            415 => Some(AddPromptError::UnsupportedMediaType415),
            401 => Some(AddPromptError::Unauthorised401(String::from_str(customisation_id))),
            _ => Some(AddPromptError::UnmappedResponse(status)),
        }
    }
}

/// Errors that may be returned when a prompt of a custom model is asked about.
#[derive(Debug, PartialEq, Eq)]
pub enum GetPromptError {
    /// No response came: the connection failed or the body could not be read.
    ConnectionError(String),
    /// 400: a required parameter is missing, or a parameter or header value is invalid.
    BadRequest400(String),
    /// 503: the service is currently unavailable.
    ServiceUnavailable503,
    /// 500: the service experienced an internal error.
    InternalServerError500,
    /// 401: the identifier given is invalid for the requesting credentials.
    Unauthorised401(String),
    /// A status that the operation does not document.
    UnmappedResponse(u16),
}

impl GetPromptError {
    /// The kind of failure.
    pub open spec fn kind(self) -> ErrorKind {
        match self {
            GetPromptError::ConnectionError(_) => ErrorKind::ConnectionError,
            GetPromptError::BadRequest400(_) => ErrorKind::BadRequest400,
            GetPromptError::ServiceUnavailable503 => ErrorKind::ServiceUnavailable503,
            GetPromptError::InternalServerError500 => ErrorKind::InternalServerError500,
            GetPromptError::Unauthorised401(_) => ErrorKind::Unauthorised401,
            GetPromptError::UnmappedResponse(status) => ErrorKind::UnmappedResponse(status),
        }
    }
}

/// Errors that may be returned when a prompt is deleted from a custom model.
#[derive(Debug, PartialEq, Eq)]
pub enum DeletePromptError {
    /// No response came: the connection failed or the body could not be read.
    ConnectionError(String),
    /// 400: a required parameter is missing, or a parameter or header value is invalid.
    BadRequest400(String),
    /// 503: the service is currently unavailable.
    ServiceUnavailable503,
    /// 500: the service experienced an internal error.
    InternalServerError500,
    /// 401: the identifier given is invalid for the requesting credentials.
    Unauthorised401(String, String),
    /// A status that the operation does not document.
    UnmappedResponse(u16),
}

impl DeletePromptError {
    /// The kind of failure.
    pub open spec fn kind(self) -> ErrorKind {
        match self {
            DeletePromptError::ConnectionError(_) => ErrorKind::ConnectionError,
            DeletePromptError::BadRequest400(_) => ErrorKind::BadRequest400,
            DeletePromptError::ServiceUnavailable503 => ErrorKind::ServiceUnavailable503,
            DeletePromptError::InternalServerError500 => ErrorKind::InternalServerError500,
            DeletePromptError::Unauthorised401(_, _) => ErrorKind::Unauthorised401,
            DeletePromptError::UnmappedResponse(status) => ErrorKind::UnmappedResponse(status),
        }
    }
}

/// Errors that may be returned when words are added to a custom model.
#[derive(Debug, PartialEq, Eq)]
pub enum AddWordError {
    /// 400: a required parameter is missing, or a parameter or header value is invalid.
    BadRequest400,
    /// 401: the identifier given is invalid for the requesting credentials.
    Unauthorised401(String),
    /// 500: the service experienced an internal error.
    InternalServerError500,
    /// 503: the service is currently unavailable.
    ServiceUnavailable503,
    /// No response came: the connection failed or the body could not be read.
    ConnectionError(String),
    /// A status that the operation does not document.
    UnmappedResponse(u16),
}

impl AddWordError {
    /// The kind of failure.
    pub open spec fn kind(self) -> ErrorKind {
        match self {
            AddWordError::BadRequest400 => ErrorKind::BadRequest400,
            AddWordError::Unauthorised401(_) => ErrorKind::Unauthorised401,
            AddWordError::InternalServerError500 => ErrorKind::InternalServerError500,
            AddWordError::ServiceUnavailable503 => ErrorKind::ServiceUnavailable503,
            AddWordError::ConnectionError(_) => ErrorKind::ConnectionError,
            AddWordError::UnmappedResponse(status) => ErrorKind::UnmappedResponse(status),
        }
    }

    /// The failure that the status of an answer stands for; `None` for success.
    /// `customisation_id` is the customisation id of the model;
    /// the failure carries it back.
    pub fn from_status(status: u16, customisation_id: &str) -> (r: Option<AddWordError>)
        ensures
            r is None <==> classify(Operation::AddCustomWords, status) is None,
            r matches Some(e) ==> classify(Operation::AddCustomWords, status) == Some(e.kind()),
            r is None <==> classify(Operation::AddCustomWord, status) is None,
            r matches Some(e) ==> classify(Operation::AddCustomWord, status) == Some(e.kind()),
            r matches Some(AddWordError::Unauthorised401(s)) ==> s@ == customisation_id@,
    {
        match status {
            200 => None,
            400 => Some(AddWordError::BadRequest400),
            401 => Some(AddWordError::Unauthorised401(String::from_str(customisation_id))),
            500 => Some(AddWordError::InternalServerError500),
            503 => Some(AddWordError::ServiceUnavailable503),
            _ => Some(AddWordError::UnmappedResponse(status)),
        }
    }
}

/// Errors that may be returned when the words of a custom model are listed.
#[derive(Debug, PartialEq, Eq)]
pub enum ListWordsError {
    /// No response came: the connection failed or the body could not be read.
    ConnectionError(String),
    /// 400: a required parameter is missing, or a parameter or header value is invalid.
    BadRequest400,
    /// 503: the service is currently unavailable.
    ServiceUnavailable503,
    /// 500: the service experienced an internal error.
    InternalServerError500,
    /// 401: the identifier given is invalid for the requesting credentials.
    Unauthorised401(String),
    /// A status that the operation does not document.
    UnmappedResponse(u16),
}

impl ListWordsError {
    /// The kind of failure.
    pub open spec fn kind(self) -> ErrorKind {
        match self {
            ListWordsError::ConnectionError(_) => ErrorKind::ConnectionError,
            ListWordsError::BadRequest400 => ErrorKind::BadRequest400,
            ListWordsError::ServiceUnavailable503 => ErrorKind::ServiceUnavailable503,
            ListWordsError::InternalServerError500 => ErrorKind::InternalServerError500,
            ListWordsError::Unauthorised401(_) => ErrorKind::Unauthorised401,
            ListWordsError::UnmappedResponse(status) => ErrorKind::UnmappedResponse(status),
        }
    }

    /// The failure that the status of an answer stands for; `None` for success.
    /// `customisation_id` is the customisation id of the model;
    /// the failure carries it back.
    pub fn from_status(status: u16, customisation_id: &str) -> (r: Option<ListWordsError>)
        ensures
            r is None <==> classify(Operation::ListCustomWords, status) is None,
            r matches Some(e) ==> classify(Operation::ListCustomWords, status) == Some(e.kind()),
            r matches Some(ListWordsError::Unauthorised401(s)) ==> s@ == customisation_id@,
    {
        match status {
            200 => None,
            400 => Some(ListWordsError::BadRequest400),
            503 => Some(ListWordsError::ServiceUnavailable503),
            500 => Some(ListWordsError::InternalServerError500),
            401 => Some(ListWordsError::Unauthorised401(String::from_str(customisation_id))),
            _ => Some(ListWordsError::UnmappedResponse(status)),
        }
    }
}

/// Errors that may be returned when a word of a custom model is asked about.
#[derive(Debug, PartialEq, Eq)]
pub enum GetWordError {
    /// No response came: the connection failed or the body could not be read.
    ConnectionError(String),
    /// 400: a required parameter is missing, or a parameter or header value is invalid.
    BadRequest400,
    /// 503: the service is currently unavailable.
    ServiceUnavailable503,
    /// 500: the service experienced an internal error.
    InternalServerError500,
    /// 401: the identifier given is invalid for the requesting credentials.
    Unauthorised401(String),
    /// A status that the operation does not document.
    UnmappedResponse(u16),
}

impl GetWordError {
    /// The kind of failure.
    pub open spec fn kind(self) -> ErrorKind {
        match self {
            GetWordError::ConnectionError(_) => ErrorKind::ConnectionError,
            GetWordError::BadRequest400 => ErrorKind::BadRequest400,
            GetWordError::ServiceUnavailable503 => ErrorKind::ServiceUnavailable503,
            GetWordError::InternalServerError500 => ErrorKind::InternalServerError500,
            GetWordError::Unauthorised401(_) => ErrorKind::Unauthorised401,
            GetWordError::UnmappedResponse(status) => ErrorKind::UnmappedResponse(status),
        }
    }

    /// The failure that the status of an answer stands for; `None` for success.
    /// `customisation_id` is the customisation id of the model;
    /// the failure carries it back.
    pub fn from_status(status: u16, customisation_id: &str) -> (r: Option<GetWordError>)
        ensures
            r is None <==> classify(Operation::GetCustomWord, status) is None,
            r matches Some(e) ==> classify(Operation::GetCustomWord, status) == Some(e.kind()),
            r matches Some(GetWordError::Unauthorised401(s)) ==> s@ == customisation_id@,
    {
        match status {
            200 => None,
            400 => Some(GetWordError::BadRequest400),
            503 => Some(GetWordError::ServiceUnavailable503),
            500 => Some(GetWordError::InternalServerError500),
            401 => Some(GetWordError::Unauthorised401(String::from_str(customisation_id))),
            _ => Some(GetWordError::UnmappedResponse(status)),
        }
    }
}

/// Errors that may be returned when a word is deleted from a custom model.
#[derive(Debug, PartialEq, Eq)]
pub enum DeleteWordError {
    /// No response came: the connection failed or the body could not be read.
    ConnectionError(String),
    /// 400: a required parameter is missing, or a parameter or header value is invalid.
    BadRequest400(String),
    /// 503: the service is currently unavailable.
    ServiceUnavailable503,
    /// 500: the service experienced an internal error.
    InternalServerError500,
    /// 401: the identifier given is invalid for the requesting credentials.
    Unauthorised401(String),
    /// A status that the operation does not document.
    UnmappedResponse(u16),
}

impl DeleteWordError {
    /// The kind of failure.
    pub open spec fn kind(self) -> ErrorKind {
        match self {
            DeleteWordError::ConnectionError(_) => ErrorKind::ConnectionError,
            DeleteWordError::BadRequest400(_) => ErrorKind::BadRequest400,
            DeleteWordError::ServiceUnavailable503 => ErrorKind::ServiceUnavailable503,
            DeleteWordError::InternalServerError500 => ErrorKind::InternalServerError500,
            DeleteWordError::Unauthorised401(_) => ErrorKind::Unauthorised401,
            DeleteWordError::UnmappedResponse(status) => ErrorKind::UnmappedResponse(status),
        }
    }

    /// The failure that the status of an answer stands for; `None` for success.
    /// `customisation_id` is the customisation id of the model;
    /// the failure carries it back.
    pub fn from_status(status: u16, customisation_id: &str) -> (r: Option<DeleteWordError>)
        ensures
            r is None <==> classify(Operation::DeleteCustomWord, status) is None,
            r matches Some(e) ==> classify(Operation::DeleteCustomWord, status) == Some(e.kind()),
            r matches Some(DeleteWordError::BadRequest400(s)) ==> s@ == customisation_id@,
            r matches Some(DeleteWordError::Unauthorised401(s)) ==> s@ == customisation_id@,
    {
        match status {
            204 => None,
            400 => Some(DeleteWordError::BadRequest400(String::from_str(customisation_id))),
            503 => Some(DeleteWordError::ServiceUnavailable503),
            500 => Some(DeleteWordError::InternalServerError500),
            401 => Some(DeleteWordError::Unauthorised401(String::from_str(customisation_id))),
            _ => Some(DeleteWordError::UnmappedResponse(status)),
        }
    }
}

} // verus!
