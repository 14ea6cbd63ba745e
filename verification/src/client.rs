//! The client and its dispatch layer.
//!
//! A client owns a configuration and the default header set its transport
//! was built with; the two never drift apart.  Dispatching builds one
//! request plan — method, joined URL, headers, body — that the
//! surrounding program hands to its HTTP transport; the response bytes
//! come back through the envelope decoder.

use vstd::prelude::*;
use vstd::string::StringExecFns;

use crate::config::{
    derived_headers, headers_view, spec_default_url, spec_derived_headers, Config, Header, HeaderV,
};
use crate::error::Error;
use crate::json::{json_to_bytes, spec_ser, Json, JsonV};

verus! {

broadcast use vstd::std_specs::vec::group_vec_axioms, vstd::seq::group_seq_axioms;

/// A parameter type that can be written as a JSON value.
pub trait ToJson: View {
    /// The JSON value a parameter serializes to.
    spec fn spec_to_json(v: Self::V) -> JsonV;

    /// Writes the parameter as a JSON value.
    fn to_json(&self) -> (r: Json)
        ensures
            r@ == Self::spec_to_json(self@),
    ;
}

/// The result of joining a relative resource path to a base URL, as the
/// URL library computes it; a function of the two strings alone.
pub uninterp spec fn join_of(base: Seq<char>, rel: Seq<char>) -> Option<Seq<char>>;

/// Relies on url::Url::parse and url::Url::join: parsing an absolute base
/// URL and resolving a relative reference against it succeeds or fails,
/// and yields its result, depending on the two strings alone.
#[verifier::external_body]
fn url_join(base: &str, rel: &str) -> (r: Option<String>)
    ensures
        r is Some <==> join_of(base@, rel@) is Some,
        r matches Some(u) ==> join_of(base@, rel@) == Some(u@),
{
    match url::Url::parse(base) {
        Ok(u) => match u.join(rel) {
            Ok(j) => Some(j.as_str().to_string()),
            Err(_) => None,
        },
        Err(_) => None,
    }
}

/// The HTTP method of a request.
#[derive(Debug, PartialEq, Eq, Structural, Clone, Copy)]
pub enum Method {
    Get,
    Post,
    Delete,
}

/// One part of a multipart upload form.
pub enum FormPart {
    /// A named text field.
    Text { name: String, value: String },
    /// A named file with its content bytes.
    File { name: String, filename: String, content: Vec<u8> },
}

pub ghost enum FormPartV {
    Text { name: Seq<char>, value: Seq<char> },
    File { name: Seq<char>, filename: Seq<char>, content: Seq<u8> },
}

impl View for FormPart {
    type V = FormPartV;

    open spec fn view(&self) -> FormPartV {
        match self {
            FormPart::Text { name, value } => FormPartV::Text { name: name@, value: value@ },
            FormPart::File { name, filename, content } => FormPartV::File {
                name: name@,
                filename: filename@,
                content: content@,
            },
        }
    }
}

/// The views of the parts of a form, element by element.
pub open spec fn parts_view(parts: Seq<FormPart>) -> Seq<FormPartV>
    decreases parts,
{
    if parts.len() == 0 {
        Seq::empty()
    } else {
        seq![parts[0]@] + parts_view(parts.drop_first())
    }
}

/// The resource path of one model.
pub fn model_path(model: &str) -> (r: String)
    ensures
        r@ == "models/"@ + model@,
{
    String::from_str("models/").concat(model)
}

/// The resource path of one stored file.
pub fn file_path(file_id: &str) -> (r: String)
    ensures
        r@ == "files/"@ + file_id@,
{
    String::from_str("files/").concat(file_id)
}

/// The resource path of one fine-tuning job.
pub fn fine_tune_path(fine_tune_id: &str) -> (r: String)
    ensures
        r@ == "fine-tunes/"@ + fine_tune_id@,
{
    String::from_str("fine-tunes/").concat(fine_tune_id)
}

/// The path that cancels one fine-tuning job.
pub fn fine_tune_cancel_path(fine_tune_id: &str) -> (r: String)
    ensures
        r@ == "fine-tunes/"@ + fine_tune_id@ + "/cancel"@,
{
    String::from_str("fine-tunes/").concat(fine_tune_id).concat("/cancel")
}

/// The path of one fine-tuning job's event list.
pub fn fine_tune_events_path(fine_tune_id: &str) -> (r: String)
    ensures
        r@ == "fine-tunes/"@ + fine_tune_id@ + "/events"@,
{
    String::from_str("fine-tunes/").concat(fine_tune_id).concat("/events")
}

pub proof fn lemma_parts_view_elts(parts: Seq<FormPart>)
    ensures
        parts_view(parts).len() == parts.len(),
        forall|i: int| 0 <= i < parts.len() ==> parts_view(parts)[i] == parts[i]@,
    decreases parts.len(),
{
    if parts.len() > 0 {
        lemma_parts_view_elts(parts.drop_first());
        assert(parts_view(parts) == seq![parts[0]@] + parts_view(parts.drop_first()));
        assert forall|i: int| 0 <= i < parts.len() implies parts_view(parts)[i] == parts[i]@ by {
            if i > 0 {
                assert(parts_view(parts)[i] == parts_view(parts.drop_first())[i - 1]);
                assert(parts.drop_first()[i - 1] == parts[i]);
            }
        }
    }
}

/// A multipart upload form.
pub struct MultipartForm {
    pub parts: Vec<FormPart>,
}

impl View for MultipartForm {
    type V = Seq<FormPartV>;

    open spec fn view(&self) -> Seq<FormPartV> {
        parts_view(self.parts@)
    }
}

/// What a request carries.
pub enum Body {
    /// No body.
    Empty,
    /// A JSON document.
    Json(Vec<u8>),
    /// A multipart upload form.
    Multipart(MultipartForm),
}

pub ghost enum BodyV {
    Empty,
    Json(Seq<u8>),
    Multipart(Seq<FormPartV>),
}

impl View for Body {
    type V = BodyV;

    open spec fn view(&self) -> BodyV {
        match self {
            Body::Empty => BodyV::Empty,
            Body::Json(b) => BodyV::Json(b@),
            Body::Multipart(f) => BodyV::Multipart(f@),
        }
    }
}

/// One fully built request, ready for a transport to send: the method,
/// the absolute URL, the headers, the body, and whether the response is
/// to be read incrementally.
pub struct RequestPlan {
    pub method: Method,
    pub url: String,
    pub headers: Vec<Header>,
    pub query: Vec<(String, String)>,
    pub body: Body,
    pub streaming: bool,
}

/// The views of a query list, element by element.
pub open spec fn query_view(q: Seq<(String, String)>) -> Seq<(Seq<char>, Seq<char>)>
    decreases q,
{
    if q.len() == 0 {
        Seq::empty()
    } else {
        seq![(q[0].0@, q[0].1@)] + query_view(q.drop_first())
    }
}

/// The client: a configuration and the default headers its transport was
/// built with.
pub struct Client {
    config: Config,
    transport_headers: Vec<Header>,
}

impl Client {
    /// The transport's default headers always match the ones the
    /// configuration's credentials give rise to; every constructor
    /// establishes this and every transformation rebuilds both sides
    /// together.
    pub closed spec fn wf(self) -> bool {
        &&& headers_view(self.transport_headers@) == spec_derived_headers(
            self.config@.api_key,
            self.config@.organization,
        )
        &&& self.config.wf()
    }

    pub closed spec fn spec_api_key(self) -> Seq<char> {
        self.config@.api_key
    }

    pub closed spec fn spec_organization(self) -> Seq<char> {
        self.config@.organization
    }

    pub closed spec fn spec_base_url(self) -> Seq<char> {
        self.config@.url
    }

    /// A client with no credentials and the default base URL.  The
    /// surrounding program reads credentials from wherever it keeps them
    /// and hands them over through `api_key` and `organization`.
    pub fn new() -> (r: Client)
        ensures
            r.wf(),
            r.spec_api_key() == Seq::<char>::empty(),
            r.spec_organization() == Seq::<char>::empty(),
            r.spec_base_url() == spec_default_url(),
    {
        let config = Config::new(String::new());
        let transport_headers = derived_headers(config.api_key.as_str(), config.organization.as_str());
        Client { config, transport_headers }
    }

    /// A client for a given base URL, used to point the same machinery
    /// at another server.
    pub fn with_base_url(url: String) -> (r: Client)
        ensures
            r.wf(),
            r.spec_api_key() == Seq::<char>::empty(),
            r.spec_organization() == Seq::<char>::empty(),
            r.spec_base_url() == url@,
    {
        let mut c = Client::new();
        let config = Config { url, ..c.config };
        Client { config, transport_headers: c.transport_headers }
    }

    /// A copy of this client whose API key is `api_key`.  The header set
    /// and the transport defaults are rebuilt in the same step, so the
    /// two cannot drift.
    pub fn api_key(self, api_key: String) -> (r: Client)
        ensures
            r.wf(),
            r.spec_api_key() == api_key@,
            r.spec_organization() == self.spec_organization(),
            r.spec_base_url() == self.spec_base_url(),
    {
        let headers = derived_headers(api_key.as_str(), self.config.organization.as_str());
        let transport_headers = derived_headers(
            api_key.as_str(),
            self.config.organization.as_str(),
        );
        let config = Config { api_key, headers, ..self.config };
        Client { config, transport_headers }
    }

    /// A copy of this client whose organization is `organization`; the
    /// headers and transport defaults are rebuilt together, as with
    /// `api_key`.
    pub fn organization(self, organization: String) -> (r: Client)
        ensures
            r.wf(),
            r.spec_api_key() == self.spec_api_key(),
            r.spec_organization() == organization@,
            r.spec_base_url() == self.spec_base_url(),
    {
        let headers = derived_headers(self.config.api_key.as_str(), organization.as_str());
        let transport_headers = derived_headers(
            self.config.api_key.as_str(),
            organization.as_str(),
        );
        let config = Config { organization, headers, ..self.config };
        Client { config, transport_headers }
    }

    /// What every plan this client builds promises: the URL is the
    /// base/path join, the headers are the derived ones, and the join
    /// failing is the one reason for an error.
    pub open spec fn plan_ok(
        self,
        identifier: Seq<char>,
        r: Result<RequestPlan, Error>,
        method: Method,
        body: BodyV,
        streaming: bool,
    ) -> bool {
        match r {
            Ok(plan) => {
                &&& join_of(self.spec_base_url(), identifier) == Some(plan.url@)
                &&& plan.method == method
                &&& headers_view(plan.headers@) == spec_derived_headers(
                    self.spec_api_key(),
                    self.spec_organization(),
                )
                &&& plan.body@ == body
                &&& plan.streaming == streaming
                &&& plan.query@.len() == 0
            },
            Err(e) => {
                &&& join_of(self.spec_base_url(), identifier) is None
                &&& e@ == crate::error::ErrorV::UrlError(identifier)
            },
        }
    }

    fn plan(&self, identifier: &str, method: Method, body: Body, streaming: bool) -> (r: Result<
        RequestPlan,
        Error,
    >)
        requires
            self.wf(),
        ensures
            self.plan_ok(identifier@, r, method, body@, streaming),
    {
        match url_join(self.config.url.as_str(), identifier) {
            Some(url) => {
                let headers = derived_headers(
                    self.config.api_key.as_str(),
                    self.config.organization.as_str(),
                );
                Ok(
                    RequestPlan {
                        method,
                        url,
                        headers,
                        query: Vec::new(),
                        body,
                        streaming,
                    },
                )
            },
            None => Err(Error::UrlError(String::from_str(identifier))),
        }
    }

    /// A GET of the resource at `identifier`, decoded as one document.
    pub fn get(&self, identifier: &str) -> (r: Result<RequestPlan, Error>)
        requires
            self.wf(),
        ensures
            self.plan_ok(identifier@, r, Method::Get, BodyV::Empty, false),
    {
        self.plan(identifier, Method::Get, Body::Empty, false)
    }

    /// A GET of the resource at `identifier` whose response is read
    /// incrementally.
    pub fn get_stream(&self, identifier: &str) -> (r: Result<RequestPlan, Error>)
        requires
            self.wf(),
        ensures
            self.plan_ok(identifier@, r, Method::Get, BodyV::Empty, true),
    {
        self.plan(identifier, Method::Get, Body::Empty, true)
    }

    /// A streaming GET that carries query pairs, as the event-stream
    /// endpoints want (`stream=true`).
    pub fn get_stream_query(&self, identifier: &str, query: Vec<(String, String)>) -> (r: Result<
        RequestPlan,
        Error,
    >)
        requires
            self.wf(),
        ensures
            match r {
                Ok(plan) => {
                    &&& join_of(self.spec_base_url(), identifier@) == Some(plan.url@)
                    &&& plan.method == Method::Get
                    &&& headers_view(plan.headers@) == spec_derived_headers(
                        self.spec_api_key(),
                        self.spec_organization(),
                    )
                    &&& plan.body@ == BodyV::Empty
                    &&& plan.streaming
                    &&& query_view(plan.query@) == query_view(query@)
                },
                Err(e) => {
                    &&& join_of(self.spec_base_url(), identifier@) is None
                    &&& e@ == crate::error::ErrorV::UrlError(identifier@)
                },
            },
    {
        match self.plan(identifier, Method::Get, Body::Empty, true) {
            Ok(plan) => Ok(RequestPlan { query, ..plan }),
            Err(e) => Err(e),
        }
    }

    /// A POST to `identifier`, with `param` serialized as the JSON body
    /// when one is given.
    pub fn post<X: ToJson>(&self, identifier: &str, param: Option<&X>) -> (r: Result<
        RequestPlan,
        Error,
    >)
        requires
            self.wf(),
        ensures
            self.plan_ok(
                identifier@,
                r,
                Method::Post,
                match param {
                    Some(p) => BodyV::Json(spec_ser(X::spec_to_json(p@))),
                    None => BodyV::Empty,
                },
                false,
            ),
    {
        let body = match param {
            Some(p) => Body::Json(json_to_bytes(&p.to_json())),
            None => Body::Empty,
        };
        self.plan(identifier, Method::Post, body, false)
    }

    /// A POST to `identifier` whose response is read incrementally.
    pub fn post_stream<X: ToJson>(&self, identifier: &str, param: Option<&X>) -> (r: Result<
        RequestPlan,
        Error,
    >)
        requires
            self.wf(),
        ensures
            self.plan_ok(
                identifier@,
                r,
                Method::Post,
                match param {
                    Some(p) => BodyV::Json(spec_ser(X::spec_to_json(p@))),
                    None => BodyV::Empty,
                },
                true,
            ),
    {
        let body = match param {
            Some(p) => Body::Json(json_to_bytes(&p.to_json())),
            None => Body::Empty,
        };
        self.plan(identifier, Method::Post, body, true)
    }

    /// A POST of a multipart form to `identifier`.
    pub fn post_data(&self, identifier: &str, data: MultipartForm) -> (r: Result<
        RequestPlan,
        Error,
    >)
        requires
            self.wf(),
        ensures
            self.plan_ok(identifier@, r, Method::Post, BodyV::Multipart(data@), false),
    {
        self.plan(identifier, Method::Post, Body::Multipart(data), false)
    }

    /// A DELETE of the resource at `identifier`.
    pub fn delete(&self, identifier: &str) -> (r: Result<RequestPlan, Error>)
        requires
            self.wf(),
        ensures
            self.plan_ok(identifier@, r, Method::Delete, BodyV::Empty, false),
    {
        self.plan(identifier, Method::Delete, Body::Empty, false)
    }
}

} // verus!
