//! What every call has in common: the request that it sends and the meaning of
//! the status that comes back.
use vstd::prelude::*;
use vstd::string::StringSliceAdditionalSpecFns;
use vstd::utf8::encode_utf8;

use crate::encoding::{percent_encoded, push_char, push_percent_encoded};

verus! {

/// The HTTP method of a request.
#[derive(Clone, Copy, Debug, PartialEq, Eq)]
pub enum Method {
    /// `GET`
    Get,
    /// `POST`
    Post,
    /// `PUT`
    Put,
    /// `DELETE`
    Delete,
}

/// A prompt and its recorded audio, sent as `multipart/form-data`.
#[derive(Debug)]
pub struct PromptUpload {
    /// The text that the audio speaks.
    pub prompt_text: String,
    /// The speaker model the prompt is defined for, if any.
    pub speaker_id: Option<String>,
    /// The name under which the audio file is sent.
    pub file_name: String,
    /// The WAV audio.
    pub audio: Vec<u8>,
}

/// The body of a request.
#[derive(Debug)]
pub enum Body {
    /// No body.
    Empty,
    /// A JSON document, sent as `application/json`.
    Json(String),
    /// A form, sent as `application/x-www-form-urlencoded`.
    Form(String),
    /// WAV audio, sent as `audio/wav`.
    Wav(Vec<u8>),
    /// A prompt upload, sent as `multipart/form-data`.
    Multipart(PromptUpload),
}

/// The contents of a [`Body`].
pub enum BodyView {
    Empty,
    Json(Seq<char>),
    Form(Seq<char>),
    Wav(Seq<u8>),
    Multipart {
        prompt_text: Seq<char>,
        speaker_id: Option<Seq<char>>,
        file_name: Seq<char>,
        audio: Seq<u8>,
    },
}

/// The characters of an optional string.
pub open spec fn opt_view(s: Option<String>) -> Option<Seq<char>> {
    match s {
        Some(s) => Some(s@),
        None => None,
    }
}

impl View for Body {
    type V = BodyView;

    open spec fn view(&self) -> BodyView {
        match self {
            Body::Empty => BodyView::Empty,
            Body::Json(s) => BodyView::Json(s@),
            Body::Form(s) => BodyView::Form(s@),
            Body::Wav(b) => BodyView::Wav(b@),
            Body::Multipart(u) => BodyView::Multipart {
                prompt_text: u.prompt_text@,
                speaker_id: opt_view(u.speaker_id),
                file_name: u.file_name@,
                audio: u.audio@,
            },
        }
    }
}

impl Body {
    /// The media type of the body, as the `Content-Type` header names it.
    pub open spec fn spec_content_type(&self) -> Option<Seq<char>> {
        match self {
            Body::Empty => None,
            Body::Json(_) => Some("application/json"@),
            Body::Form(_) => Some("application/x-www-form-urlencoded"@),
            Body::Wav(_) => Some("audio/wav"@),
            Body::Multipart(_) => Some("multipart/form-data"@),
        }
    }

    /// The media type of the body, as the `Content-Type` header names it.
    pub fn content_type(&self) -> (r: Option<&'static str>)
        ensures
            r is Some <==> self.spec_content_type() is Some,
            r matches Some(t) ==> t@ == self.spec_content_type()->0,
    {
        match self {
            Body::Empty => None,
            Body::Json(_) => Some("application/json"),
            Body::Form(_) => Some("application/x-www-form-urlencoded"),
            Body::Wav(_) => Some("audio/wav"),
            Body::Multipart(_) => Some("multipart/form-data"),
        }
    }
}

/// A request, ready to be sent by a transport.
#[derive(Debug)]
pub struct HttpRequest {
    pub method: Method,
    /// The full URL, path and query included.
    pub url: String,
    /// The value of the `Authorization` header, if one is sent.
    pub authorization: Option<String>,
    pub body: Body,
}

/// The contents of an [`HttpRequest`].
pub struct RequestView {
    pub method: Method,
    pub url: Seq<char>,
    pub authorization: Option<Seq<char>>,
    pub body: BodyView,
}

impl View for HttpRequest {
    type V = RequestView;

    open spec fn view(&self) -> RequestView {
        RequestView {
            method: self.method,
            url: self.url@,
            authorization: opt_view(self.authorization),
            body: self.body@,
        }
    }
}

/// The `Authorization` header value that carries a bearer token.
pub open spec fn bearer(token: Seq<char>) -> Seq<char> {
    "Bearer "@ + token
}

/// The `Authorization` header value that carries `token`.
pub fn bearer_value(token: &str) -> (r: String)
    ensures
        r@ == bearer(token@),
{
    let mut r = String::from_str("Bearer ");
    r.append(token);
    r
}

/// A URL component percent-encoded.
pub open spec fn url_component(s: Seq<char>) -> Seq<char> {
    percent_encoded(encode_utf8(s))
}

/// The path made of `segments`, each one preceded by `/` and percent-encoded.
pub open spec fn segment_path(segments: Seq<Seq<char>>) -> Seq<char>
    decreases segments.len(),
{
    if segments.len() == 0 {
        Seq::empty()
    } else {
        segment_path(segments.drop_last()) + seq!['/'] + url_component(segments.last())
    }
}

/// The query made of `pairs`, in their order: empty, or `?` and the pairs
/// `key=value` joined by `&`, keys and values percent-encoded.
pub open spec fn query_string(pairs: Seq<(Seq<char>, Seq<char>)>) -> Seq<char>
    decreases pairs.len(),
{
    if pairs.len() == 0 {
        Seq::empty()
    } else {
        query_string(pairs.drop_last()) + seq![if pairs.len() == 1 { '?' } else { '&' }]
            + url_component(pairs.last().0) + seq!['='] + url_component(pairs.last().1)
    }
}

/// `base` without one trailing `/`.
pub open spec fn without_trailing_slash(base: Seq<char>) -> Seq<char> {
    if base.len() > 0 && base.last() == '/' {
        base.drop_last()
    } else {
        base
    }
}

/// The URL of a resource below the service URL `base`.
pub open spec fn resource_url(
    base: Seq<char>,
    segments: Seq<Seq<char>>,
    pairs: Seq<(Seq<char>, Seq<char>)>,
) -> Seq<char> {
    without_trailing_slash(base) + segment_path(segments) + query_string(pairs)
}

/// The characters of each segment.
pub open spec fn segment_views(segments: Seq<&str>) -> Seq<Seq<char>> {
    segments.map_values(|s: &str| s@)
}

/// The characters of each key and value.
pub open spec fn pair_views(pairs: Seq<(&str, &str)>) -> Seq<(Seq<char>, Seq<char>)> {
    pairs.map_values(|p: (&str, &str)| (p.0@, p.1@))
}

/// A service instance: where it is and the token with which it is called.
#[derive(Debug)]
pub struct Endpoint {
    service_url: String,
    access_token: String,
}

impl Endpoint {
    /// The URL of the service instance.
    pub closed spec fn spec_service_url(&self) -> Seq<char> {
        self.service_url@
    }

    /// The bearer token sent with every request.
    pub closed spec fn spec_access_token(&self) -> Seq<char> {
        self.access_token@
    }

    /// The request to the resource at `segments` with the query `pairs`,
    /// authorised with the instance's token.
    pub open spec fn request_of(
        &self,
        method: Method,
        segments: Seq<Seq<char>>,
        pairs: Seq<(Seq<char>, Seq<char>)>,
        body: BodyView,
    ) -> RequestView {
        RequestView {
            method,
            url: resource_url(self.spec_service_url(), segments, pairs),
            authorization: Some(bearer(self.spec_access_token())),
            body,
        }
    }

    /// The instance at `service_url`, called with `access_token`.
    pub fn new(service_url: &str, access_token: &str) -> (r: Endpoint)
        ensures
            r.spec_service_url() == service_url@,
            r.spec_access_token() == access_token@,
    {
        Endpoint {
            service_url: String::from_str(service_url),
            access_token: String::from_str(access_token),
        }
    }

    /// The request to the resource at `segments` with the query `pairs`.
    pub fn request(
        &self,
        method: Method,
        segments: &Vec<&str>,
        pairs: &Vec<(&str, &str)>,
        body: Body,
    ) -> (r: HttpRequest)
        ensures
            r@ == self.request_of(method, segment_views(segments@), pair_views(pairs@), body@),
    {
        HttpRequest {
            method,
            url: build_url(self.service_url.as_str(), segments, pairs),
            authorization: Some(bearer_value(self.access_token.as_str())),
            body,
        }
    }
}

/// The URL of the resource at `segments` below `base`, with the query `pairs`.
pub fn build_url(base: &str, segments: &Vec<&str>, pairs: &Vec<(&str, &str)>) -> (r: String)
    ensures
        r@ == resource_url(base@, segment_views(segments@), pair_views(pairs@)),
{
    let n = base.unicode_len();
    let mut out = if n > 0 && base.get_char(n - 1) == '/' {
        String::from_str(base.substring_char(0, n - 1))
    } else {
        String::from_str(base)
    };
    assert(out@ =~= without_trailing_slash(base@));
    let ghost start = out@;
    let ghost segs = segment_views(segments@);
    let mut i: usize = 0;
    while i < segments.len()
        invariant
            segs == segment_views(segments@),
            i <= segments@.len(),
            out@ == start + segment_path(segs.subrange(0, i as int)),
        decreases segments@.len() - i,
    {
        let segment: &str = segments[i];
        push_char(&mut out, '/');
        push_percent_encoded(&mut out, segment);
        assert(segs.subrange(0, i + 1).drop_last() =~= segs.subrange(0, i as int));
        assert(out@ =~= start + segment_path(segs.subrange(0, i + 1)));
        i += 1;
    }
    assert(segs.subrange(0, segments@.len() as int) =~= segs);
    let ghost middle = out@;
    let ghost qs = pair_views(pairs@);
    let mut j: usize = 0;
    while j < pairs.len()
        invariant
            qs == pair_views(pairs@),
            j <= pairs@.len(),
            out@ == middle + query_string(qs.subrange(0, j as int)),
        decreases pairs@.len() - j,
    {
        let (key, value) = pairs[j];
        push_char(&mut out, if j == 0 { '?' } else { '&' });
        push_percent_encoded(&mut out, key);
        push_char(&mut out, '=');
        push_percent_encoded(&mut out, value);
        assert(qs.subrange(0, j + 1).drop_last() =~= qs.subrange(0, j as int));
        assert(out@ =~= middle + query_string(qs.subrange(0, j + 1)));
        j += 1;
    }
    assert(qs.subrange(0, pairs@.len() as int) =~= qs);
    assert(out@ =~= resource_url(base@, segs, qs));
    out
}

} // verus!
