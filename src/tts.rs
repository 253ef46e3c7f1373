//! The text-to-speech service.
use vstd::prelude::*;

use crate::auth::IamAuthenticator;
use crate::http::{
    pair_views, segment_views, Body, BodyView, Endpoint, HttpRequest, Method, RequestView,
};

use self::voices::WatsonVoice;

pub mod customisations;
pub mod pronunciation;
pub mod speaker_models;
pub mod synthesis;
pub mod user_data;
pub mod voices;

verus! {

/// The configuration with which the requests to a text-to-speech instance are made.
#[derive(Debug)]
pub struct TextToSpeech {
    endpoint: Endpoint,
    voice: WatsonVoice,
}

impl TextToSpeech {
    /// The service instance called.
    pub closed spec fn spec_endpoint(&self) -> Endpoint {
        self.endpoint
    }

    /// The voice used when a call names none.
    pub closed spec fn spec_voice(&self) -> WatsonVoice {
        self.voice
    }

    /// The request to the resource at `segments` with the query `pairs`,
    /// authorised with the instance's token.
    pub open spec fn request_of(
        &self,
        method: Method,
        segments: Seq<Seq<char>>,
        pairs: Seq<(Seq<char>, Seq<char>)>,
        body: BodyView,
    ) -> RequestView {
        self.spec_endpoint().request_of(method, segments, pairs, body)
    }

    /// A client for the instance at `service_url`, with the token that
    /// `authenticator` holds and the default voice.
    pub fn new(authenticator: &IamAuthenticator, service_url: &str) -> (r: TextToSpeech)
        ensures
            r.spec_endpoint().spec_service_url() == service_url@,
            r.spec_endpoint().spec_access_token() == authenticator.token()@.access_token,
            r.spec_voice() == WatsonVoice::EnUsMichaelV3,
    {
        let token = authenticator.token_response().access_token();
        TextToSpeech { endpoint: Endpoint::new(service_url, token), voice: WatsonVoice::EnUsMichaelV3 }
    }

    /// Makes `voice` the voice used when a call names none.
    pub fn set_voice(&mut self, voice: WatsonVoice)
        ensures
            final(self).spec_voice() == voice,
            final(self).spec_endpoint() == old(self).spec_endpoint(),
    {
        self.voice = voice;
    }

    /// The voice used when a call names none.
    pub fn voice(&self) -> (r: WatsonVoice)
        ensures
            r == self.spec_voice(),
    {
        self.voice
    }

    /// The request to the resource at `segments` with the query `pairs`.
    pub(crate) fn request(
        &self,
        method: Method,
        segments: &Vec<&str>,
        pairs: &Vec<(&str, &str)>,
        body: Body,
    ) -> (r: HttpRequest)
        ensures
            r@ == self.request_of(method, segment_views(segments@), pair_views(pairs@), body@),
    {
        self.endpoint.request(method, segments, pairs, body)
    }
}

} // verus!
